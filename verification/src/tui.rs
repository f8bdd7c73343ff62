//! The terminal display's state machine.
//!
//! A [`Ui`] owns the latest compile result together with the per-panel scroll
//! state, the selected panel, the optional focused panel and the layout
//! orientation.  Key events drive a pure transition function over this state;
//! rendering is a pure projection of it (see [`Ui::render`]).

use crate::compiler_explorer::AsmOutput;
use crate::compiler_explorer::CompilationResult;
use crate::compiler_explorer::StreamOutput;
use vstd::prelude::*;

verus! {

/// The three fixed display panels, in their cyclic order.
#[derive(Clone, Copy, Debug, PartialEq, Eq, Structural)]
pub enum Widgets {
    Asm,
    Stdout,
    Stderr,
}

/// Scroll state of one panel: both offsets count from zero and never go
/// negative.
#[derive(Clone, Copy, Debug, PartialEq, Eq, Structural)]
pub struct WidgetConfig {
    pub vertical_offset: u16,
    pub horizontal_offset: u16,
}

/// The panel scroll state a session starts from.
pub open spec fn zero_config() -> WidgetConfig {
    WidgetConfig { vertical_offset: 0, horizontal_offset: 0 }
}

impl Default for WidgetConfig {
    /// Both offsets start at zero.
    fn default() -> (c: WidgetConfig)
        ensures
            c == zero_config(),
    {
        WidgetConfig { vertical_offset: 0, horizontal_offset: 0 }
    }
}

/// How the panels are stacked on screen.
#[derive(Debug, Clone, Copy, PartialEq, Eq, Structural)]
pub enum Orientation {
    Vertical,
    Horizontal,
}

/// The panel after `w` in the fixed cyclic order.
pub open spec fn next_widget(w: Widgets) -> Widgets {
    match w {
        Widgets::Asm => Widgets::Stdout,
        Widgets::Stdout => Widgets::Stderr,
        Widgets::Stderr => Widgets::Asm,
    }
}

/// The panel before `w` in the fixed cyclic order.
pub open spec fn prev_widget(w: Widgets) -> Widgets {
    match w {
        Widgets::Asm => Widgets::Stderr,
        Widgets::Stdout => Widgets::Asm,
        Widgets::Stderr => Widgets::Stdout,
    }
}

/// Index of each panel in the scroll-state table.
pub open spec fn spec_widget_index(w: Widgets) -> int {
    match w {
        Widgets::Asm => 0,
        Widgets::Stdout => 1,
        Widgets::Stderr => 2,
    }
}

/// A key, reduced to what the display reacts to.
#[derive(Clone, Copy, Debug)]
pub enum KeyCode {
    Char(char),
    Enter,
    Esc,
    OtherKey,
}

/// The modifier state that came with a key press.
#[derive(Clone, Copy, Debug, PartialEq, Eq, Structural)]
pub enum KeyModifier {
    Plain,
    Shift,
    OtherModifier,
}

/// One key press as the display sees it.
#[derive(Clone, Copy, Debug)]
pub struct KeyEvent {
    pub code: KeyCode,
    pub modifier: KeyModifier,
}

/// What a key press asked of the session loop.
#[derive(Clone, Copy, Debug, PartialEq, Eq, Structural)]
pub struct KeyOutcome {
    pub needs_render: bool,
    pub should_quit: bool,
}

/// `c` pressed with no modifier.
pub open spec fn plain_char(k: KeyEvent, c: char) -> bool {
    k.code == KeyCode::Char(c) && k.modifier == KeyModifier::Plain
}

/// `c` pressed together with shift.
pub open spec fn shift_char(k: KeyEvent, c: char) -> bool {
    k.code == KeyCode::Char(c) && k.modifier == KeyModifier::Shift
}

/// The quit key (escape), whatever the modifiers.
pub open spec fn is_quit_key(k: KeyEvent) -> bool {
    k.code is Esc
}

/// The focus-toggle key (enter), whatever the modifiers.
pub open spec fn is_toggle_focus_key(k: KeyEvent) -> bool {
    k.code is Enter
}

pub open spec fn is_scroll_down_key(k: KeyEvent) -> bool {
    plain_char(k, 'j')
}

pub open spec fn is_scroll_up_key(k: KeyEvent) -> bool {
    plain_char(k, 'k')
}

pub open spec fn is_pan_right_key(k: KeyEvent) -> bool {
    plain_char(k, 'l')
}

pub open spec fn is_pan_left_key(k: KeyEvent) -> bool {
    plain_char(k, 'h')
}

/// Cycling to the next panel: only while no panel is focused, and bound to
/// the shifted key that points "towards the next panel" for the current
/// stacking direction.
pub open spec fn is_cycle_forward(ui: Ui, k: KeyEvent) -> bool {
    ui.focus is None && ((shift_char(k, 'J') && ui.orientation == Orientation::Vertical) || (
    shift_char(k, 'L') && ui.orientation == Orientation::Horizontal))
}

/// Cycling to the previous panel, under the same conditions.
pub open spec fn is_cycle_backward(ui: Ui, k: KeyEvent) -> bool {
    ui.focus is None && ((shift_char(k, 'K') && ui.orientation == Orientation::Vertical) || (
    shift_char(k, 'H') && ui.orientation == Orientation::Horizontal))
}

/// One step up, stopping at the top of the range.
pub open spec fn saturating_inc(x: u16) -> u16 {
    if x < 0xffff {
        (x + 1) as u16
    } else {
        x
    }
}

/// One step down, stopping at zero.
pub open spec fn dec_floor(x: u16) -> u16 {
    if x > 0 {
        (x - 1) as u16
    } else {
        0
    }
}

/// The whole display state: one scroll entry per panel, the selected panel,
/// the optional focused panel, the layout orientation, the latest compile
/// result and an optional one-line status message.
pub struct Ui {
    pub selected_widget: Widgets,
    pub widget_config: [WidgetConfig; 3],
    pub focus: Option<Widgets>,
    pub orientation: Orientation,
    pub data: Option<CompilationResult>,
    pub status: Option<String>,
}

/// `post` is `pre` with the scroll entry of panel `w` replaced by `c`, and
/// nothing else changed.
pub open spec fn scrolled_to(pre: Ui, post: Ui, w: Widgets, c: WidgetConfig) -> bool {
    &&& post == (Ui { widget_config: post.widget_config, ..pre })
    &&& post.widget_config@ == pre.widget_config@.update(spec_widget_index(w), c)
}

/// The outcome of a key that changed the display and did not end the session.
pub open spec fn render_outcome() -> KeyOutcome {
    KeyOutcome { needs_render: true, should_quit: false }
}

/// The outcome of a key the display does not react to.
pub open spec fn idle_outcome() -> KeyOutcome {
    KeyOutcome { needs_render: false, should_quit: false }
}

/// The outcome a key press produces, as a function of the state and the
/// key: quit for escape, a render for every recognized transition, nothing
/// for every other key.
pub open spec fn spec_key_outcome(ui: Ui, k: KeyEvent) -> KeyOutcome {
    if is_quit_key(k) {
        KeyOutcome { needs_render: false, should_quit: true }
    } else if is_scroll_down_key(k) || is_scroll_up_key(k) || is_pan_right_key(k) || is_pan_left_key(
        k,
    ) || is_cycle_forward(ui, k) || is_cycle_backward(ui, k) || is_toggle_focus_key(k) {
        render_outcome()
    } else {
        idle_outcome()
    }
}

/// The full transition relation of [`Ui::handle_key_event`]: given the state
/// `pre` and the key `k`, it pins down the state `post` and the outcome `r`.
pub open spec fn key_transition(pre: Ui, k: KeyEvent, post: Ui, r: KeyOutcome) -> bool {
    let cur = pre.widget_config@[spec_widget_index(pre.selected_widget)];
    if is_quit_key(k) {
        &&& post == pre
        &&& r == (KeyOutcome { needs_render: false, should_quit: true })
    } else if is_scroll_down_key(k) {
        &&& scrolled_to(
            pre,
            post,
            pre.selected_widget,
            (WidgetConfig { vertical_offset: saturating_inc(cur.vertical_offset), ..cur }),
        )
        &&& r == render_outcome()
    } else if is_scroll_up_key(k) {
        &&& scrolled_to(
            pre,
            post,
            pre.selected_widget,
            (WidgetConfig { vertical_offset: dec_floor(cur.vertical_offset), ..cur }),
        )
        &&& r == render_outcome()
    } else if is_pan_right_key(k) {
        &&& scrolled_to(
            pre,
            post,
            pre.selected_widget,
            (WidgetConfig { horizontal_offset: saturating_inc(cur.horizontal_offset), ..cur }),
        )
        &&& r == render_outcome()
    } else if is_pan_left_key(k) {
        &&& scrolled_to(
            pre,
            post,
            pre.selected_widget,
            (WidgetConfig { horizontal_offset: dec_floor(cur.horizontal_offset), ..cur }),
        )
        &&& r == render_outcome()
    } else if is_cycle_forward(pre, k) {
        &&& post == (Ui { selected_widget: next_widget(pre.selected_widget), ..pre })
        &&& r == render_outcome()
    } else if is_cycle_backward(pre, k) {
        &&& post == (Ui { selected_widget: prev_widget(pre.selected_widget), ..pre })
        &&& r == render_outcome()
    } else if is_toggle_focus_key(k) {
        &&& post == (Ui {
            focus: match pre.focus {
                Option::None => Option::Some(pre.selected_widget),
                Option::Some(_) => Option::None,
            },
            ..pre
        })
        &&& r == render_outcome()
    } else {
        &&& post == pre
        &&& r == idle_outcome()
    }
}

fn modifier_is_plain(event: KeyEvent) -> (r: bool)
    ensures
        r == (event.modifier == KeyModifier::Plain),
{
    event.modifier == KeyModifier::Plain
}

/// Table index of a panel, always below 3.
pub fn widget_index(w: Widgets) -> (i: usize)
    ensures
        i == spec_widget_index(w),
{
    match w {
        Widgets::Asm => 0,
        Widgets::Stdout => 1,
        Widgets::Stderr => 2,
    }
}

/// The panel after `w`, wrapping around.
pub fn cycle_next(w: Widgets) -> (r: Widgets)
    ensures
        r == next_widget(w),
{
    match w {
        Widgets::Asm => Widgets::Stdout,
        Widgets::Stdout => Widgets::Stderr,
        Widgets::Stderr => Widgets::Asm,
    }
}

/// The panel before `w`, wrapping around.
pub fn cycle_prev(w: Widgets) -> (r: Widgets)
    ensures
        r == prev_widget(w),
{
    match w {
        Widgets::Asm => Widgets::Stderr,
        Widgets::Stdout => Widgets::Asm,
        Widgets::Stderr => Widgets::Stdout,
    }
}

impl Ui {
    /// A focused panel is always the selected one: focus is entered on the
    /// selection and cycling is disabled while it holds.
    pub open spec fn wf(&self) -> bool {
        match self.focus {
            Option::Some(w) => w == self.selected_widget,
            Option::None => true,
        }
    }

    /// Every panel's offsets are at their starting point.
    pub open spec fn offsets_reset(&self) -> bool {
        forall|i: int| 0 <= i < 3 ==> self.widget_config@[i] == zero_config()
    }

    /// A fresh display: assembly panel selected, nothing focused, no data,
    /// no status, all offsets zero.
    pub fn new(orientation: Orientation) -> (ui: Ui)
        ensures
            ui.wf(),
            ui.selected_widget == Widgets::Asm,
            ui.offsets_reset(),
            ui.focus is None,
            ui.orientation == orientation,
            ui.data is None,
            ui.status is None,
    {
        let c = WidgetConfig::default();
        Ui {
            selected_widget: Widgets::Asm,
            widget_config: [c, c, c],
            focus: None,
            orientation,
            data: None,
            status: None,
        }
    }

    /// Apply one key press: scrolling and panning move the selected panel's
    /// offsets (never below zero), the shifted cycle keys move the selection
    /// while nothing is focused, enter toggles focus, escape asks to quit,
    /// and every other key is a no-op.  The exact transition is
    /// [`key_transition`].
    pub fn handle_key_event(&mut self, event: KeyEvent) -> (r: KeyOutcome)
        ensures
            key_transition(*old(self), event, *final(self), r),
            old(self).wf() ==> final(self).wf(),
            r.should_quit ==> *final(self) == *old(self),
    {
        match event.code {
            KeyCode::Esc => KeyOutcome { needs_render: false, should_quit: true },
            KeyCode::Enter => {
                self.focus = match self.focus {
                    None => Some(self.selected_widget),
                    Some(_) => None,
                };
                KeyOutcome { needs_render: true, should_quit: false }
            },
            KeyCode::Char(c) => {
                if c == 'j' && modifier_is_plain(event) {
                    let i = widget_index(self.selected_widget);
                    let mut cfg = self.widget_config[i];
                    cfg.vertical_offset = if cfg.vertical_offset < 0xffff {
                        cfg.vertical_offset + 1
                    } else {
                        cfg.vertical_offset
                    };
                    self.widget_config[i] = cfg;
                    KeyOutcome { needs_render: true, should_quit: false }
                } else if c == 'k' && modifier_is_plain(event) {
                    let i = widget_index(self.selected_widget);
                    let mut cfg = self.widget_config[i];
                    cfg.vertical_offset = if cfg.vertical_offset > 0 {
                        cfg.vertical_offset - 1
                    } else {
                        0
                    };
                    self.widget_config[i] = cfg;
                    KeyOutcome { needs_render: true, should_quit: false }
                } else if c == 'l' && modifier_is_plain(event) {
                    let i = widget_index(self.selected_widget);
                    let mut cfg = self.widget_config[i];
                    cfg.horizontal_offset = if cfg.horizontal_offset < 0xffff {
                        cfg.horizontal_offset + 1
                    } else {
                        cfg.horizontal_offset
                    };
                    self.widget_config[i] = cfg;
                    KeyOutcome { needs_render: true, should_quit: false }
                } else if c == 'h' && modifier_is_plain(event) {
                    let i = widget_index(self.selected_widget);
                    let mut cfg = self.widget_config[i];
                    cfg.horizontal_offset = if cfg.horizontal_offset > 0 {
                        cfg.horizontal_offset - 1
                    } else {
                        0
                    };
                    self.widget_config[i] = cfg;
                    KeyOutcome { needs_render: true, should_quit: false }
                } else if self.cycle_forward_applies(event, c) {
                    self.selected_widget = cycle_next(self.selected_widget);
                    KeyOutcome { needs_render: true, should_quit: false }
                } else if self.cycle_backward_applies(event, c) {
                    self.selected_widget = cycle_prev(self.selected_widget);
                    KeyOutcome { needs_render: true, should_quit: false }
                } else {
                    KeyOutcome { needs_render: false, should_quit: false }
                }
            },
            KeyCode::OtherKey => KeyOutcome { needs_render: false, should_quit: false },
        }
    }

    fn cycle_forward_applies(&self, event: KeyEvent, c: char) -> (r: bool)
        requires
            event.code == KeyCode::Char(c),
        ensures
            r == is_cycle_forward(*self, event),
    {
        self.focus.is_none() && event.modifier == KeyModifier::Shift && ((c == 'J'
            && self.orientation == Orientation::Vertical) || (c == 'L' && self.orientation
            == Orientation::Horizontal))
    }

    fn cycle_backward_applies(&self, event: KeyEvent, c: char) -> (r: bool)
        requires
            event.code == KeyCode::Char(c),
        ensures
            r == is_cycle_backward(*self, event),
    {
        self.focus.is_none() && event.modifier == KeyModifier::Shift && ((c == 'K'
            && self.orientation == Orientation::Vertical) || (c == 'H' && self.orientation
            == Orientation::Horizontal))
    }

    /// Install a new compile result: it replaces the previous one wholesale,
    /// every panel's offsets go back to (0, 0), and a pending status line is
    /// cleared.
    pub fn set_data(&mut self, compilation: CompilationResult)
        ensures
            final(self).data == Some(compilation),
            final(self).offsets_reset(),
            final(self).status is None,
            final(self).selected_widget == old(self).selected_widget,
            final(self).focus == old(self).focus,
            final(self).orientation == old(self).orientation,
            old(self).wf() ==> final(self).wf(),
    {
        self.data = Some(compilation);
        let c = WidgetConfig::default();
        self.widget_config = [c, c, c];
        self.status = None;
    }

    /// Put a one-line status message up, leaving everything else in place.
    pub fn set_status(&mut self, message: String)
        ensures
            *final(self) == (Ui { status: Some(message), ..*old(self) }),
    {
        self.status = Some(message);
    }
}

/// What one panel should show: its title, its text lines in order, whether
/// it carries the thick border of the selected panel, the scroll position to
/// apply, and whether it has content and therefore takes part in the split
/// layout.
pub struct PanelPlan {
    pub title: String,
    pub lines: Vec<String>,
    pub selected: bool,
    pub vertical_offset: u16,
    pub horizontal_offset: u16,
    pub shown: bool,
}

/// A complete description of one frame: the three panel plans, which panel
/// (if any) takes the whole area, the stacking direction, how many panels
/// share the split and the percentage of the area each gets, and the
/// optional status line.
pub struct Frame {
    pub assembly: PanelPlan,
    pub stdout: PanelPlan,
    pub stderr: PanelPlan,
    pub focus: Option<Widgets>,
    pub orientation: Orientation,
    pub num_blocks: usize,
    pub percentage: usize,
    pub status: Option<String>,
}

/// The text lines of a stream, in order.
pub open spec fn stream_texts(s: Seq<StreamOutput>) -> Seq<Seq<char>> {
    Seq::new(s.len(), |i: int| s[i].text@)
}

/// What the assembly panel shows: the listing's lines.
pub open spec fn assembly_lines(data: Option<CompilationResult>) -> Seq<Seq<char>> {
    match data {
        Option::Some(c) => Seq::new(c.assembly@.len(), |i: int| c.assembly@[i].text@),
        Option::None => Seq::empty(),
    }
}

/// What the stdout panel shows: the compile-phase lines, then the run-phase
/// lines if the program was run.
pub open spec fn stdout_lines(data: Option<CompilationResult>) -> Seq<Seq<char>> {
    match data {
        Option::Some(c) => stream_texts(c.stdout@) + match c.execution {
            Option::Some(e) => stream_texts(e.stdout@),
            Option::None => Seq::empty(),
        },
        Option::None => Seq::empty(),
    }
}

/// What the stderr panel shows, put together like the stdout panel.
pub open spec fn stderr_lines(data: Option<CompilationResult>) -> Seq<Seq<char>> {
    match data {
        Option::Some(c) => stream_texts(c.stderr@) + match c.execution {
            Option::Some(e) => stream_texts(e.stderr@),
            Option::None => Seq::empty(),
        },
        Option::None => Seq::empty(),
    }
}

/// How many regions the split layout divides the area into: the panels with
/// content, or a single placeholder region when none has any.
pub open spec fn spec_num_blocks(data: Option<CompilationResult>) -> int {
    let n = (if assembly_lines(data).len() > 0 {
        1int
    } else {
        0int
    }) + (if stdout_lines(data).len() > 0 {
        1int
    } else {
        0int
    }) + (if stderr_lines(data).len() > 0 {
        1int
    } else {
        0int
    });
    if n == 0 {
        1
    } else {
        n
    }
}

/// Append the text of each stream line to `out`, in order.
fn append_stream_texts(out: &mut Vec<String>, v: &Vec<StreamOutput>)
    ensures
        final(out).deep_view() == old(out).deep_view() + stream_texts(v@),
{
    let ghost base = out.deep_view();
    let mut i: usize = 0;
    while i < v.len()
        invariant
            i <= v.len(),
            out.deep_view() == base + stream_texts(v@.take(i as int)),
        decreases v.len() - i,
    {
        let ghost before = out.deep_view();
        out.push(v[i].text.clone());
        proof {
            assert(out.deep_view() =~= before.push(v@[i as int].text@));
            assert(stream_texts(v@.take(i as int + 1)) =~= stream_texts(v@.take(i as int)).push(
                v@[i as int].text@,
            ));
            assert(out.deep_view() =~= base + stream_texts(v@.take(i as int + 1)));
        }
        i = i + 1;
    }
    proof {
        assert(v@.take(v@.len() as int) =~= v@);
    }
}

/// Append the text of each assembly line to `out`, in order.
fn append_assembly_texts(out: &mut Vec<String>, v: &Vec<AsmOutput>)
    ensures
        final(out).deep_view() == old(out).deep_view() + Seq::new(
            v@.len(),
            |i: int| v@[i].text@,
        ),
{
    let ghost base = out.deep_view();
    let mut i: usize = 0;
    while i < v.len()
        invariant
            i <= v.len(),
            out.deep_view() == base + Seq::new(i as nat, |j: int| v@[j].text@),
        decreases v.len() - i,
    {
        let ghost before = out.deep_view();
        out.push(v[i].text.clone());
        proof {
            assert(out.deep_view() =~= before.push(v@[i as int].text@));
            assert(Seq::new(i as nat + 1, |j: int| v@[j].text@) =~= Seq::new(
                i as nat,
                |j: int| v@[j].text@,
            ).push(v@[i as int].text@));
            assert(out.deep_view() =~= base + Seq::new(i as nat + 1, |j: int| v@[j].text@));
        }
        i = i + 1;
    }
}

impl Ui {
    /// Project the current state onto a frame description: the three panels'
    /// text, border and scroll state, which panels take part in the layout
    /// and with what share of the area, the focused panel if any, and the
    /// status line.  Pure: the state is not changed.
    pub fn render(&self) -> (f: Frame)
        ensures
            f.assembly.lines.deep_view() == assembly_lines(self.data),
            f.stdout.lines.deep_view() == stdout_lines(self.data),
            f.stderr.lines.deep_view() == stderr_lines(self.data),
            f.assembly.shown == (assembly_lines(self.data).len() > 0),
            f.stdout.shown == (stdout_lines(self.data).len() > 0),
            f.stderr.shown == (stderr_lines(self.data).len() > 0),
            f.assembly.selected == (self.selected_widget == Widgets::Asm),
            f.stdout.selected == (self.selected_widget == Widgets::Stdout),
            f.stderr.selected == (self.selected_widget == Widgets::Stderr),
            f.assembly.vertical_offset == self.widget_config@[0].vertical_offset,
            f.assembly.horizontal_offset == self.widget_config@[0].horizontal_offset,
            f.stdout.vertical_offset == self.widget_config@[1].vertical_offset,
            f.stdout.horizontal_offset == self.widget_config@[1].horizontal_offset,
            f.stderr.vertical_offset == self.widget_config@[2].vertical_offset,
            f.stderr.horizontal_offset == self.widget_config@[2].horizontal_offset,
            f.assembly.title@ == "ASM"@,
            f.stdout.title@ == "Stdout"@,
            f.stderr.title@ == "Stderr"@,
            f.focus == self.focus,
            f.orientation == self.orientation,
            f.num_blocks as int == spec_num_blocks(self.data),
            f.percentage as int == 100int / spec_num_blocks(self.data),
            f.status == self.status,
    {
        let mut assembly_text: Vec<String> = Vec::new();
        let mut stdout_text: Vec<String> = Vec::new();
        let mut stderr_text: Vec<String> = Vec::new();
        proof {
            assert(assembly_text.deep_view() =~= Seq::<Seq<char>>::empty());
            assert(stdout_text.deep_view() =~= Seq::<Seq<char>>::empty());
            assert(stderr_text.deep_view() =~= Seq::<Seq<char>>::empty());
        }
        match &self.data {
            Some(c) => {
                append_assembly_texts(&mut assembly_text, &c.assembly);
                append_stream_texts(&mut stdout_text, &c.stdout);
                append_stream_texts(&mut stderr_text, &c.stderr);
                match &c.execution {
                    Some(e) => {
                        append_stream_texts(&mut stdout_text, &e.stdout);
                        append_stream_texts(&mut stderr_text, &e.stderr);
                    },
                    None => {
                        proof {
                            assert(stdout_text.deep_view() =~= stdout_lines(self.data));
                            assert(stderr_text.deep_view() =~= stderr_lines(self.data));
                        }
                    },
                }
            },
            None => {},
        }
        proof {
            assert(assembly_text.deep_view() =~= assembly_lines(self.data));
            assert(stdout_text.deep_view() =~= stdout_lines(self.data));
            assert(stderr_text.deep_view() =~= stderr_lines(self.data));
        }
        let shown_assembly = assembly_text.len() > 0;
        let shown_stdout = stdout_text.len() > 0;
        let shown_stderr = stderr_text.len() > 0;
        let mut num_blocks: usize = 0;
        if shown_assembly {
            num_blocks = num_blocks + 1;
        }
        if shown_stdout {
            num_blocks = num_blocks + 1;
        }
        if shown_stderr {
            num_blocks = num_blocks + 1;
        }
        if num_blocks == 0 {
            num_blocks = 1;
        }
        let percentage = 100 / num_blocks;
        Frame {
            assembly: PanelPlan {
                title: String::from_str("ASM"),
                lines: assembly_text,
                selected: self.selected_widget == Widgets::Asm,
                vertical_offset: self.widget_config[0].vertical_offset,
                horizontal_offset: self.widget_config[0].horizontal_offset,
                shown: shown_assembly,
            },
            stdout: PanelPlan {
                title: String::from_str("Stdout"),
                lines: stdout_text,
                selected: self.selected_widget == Widgets::Stdout,
                vertical_offset: self.widget_config[1].vertical_offset,
                horizontal_offset: self.widget_config[1].horizontal_offset,
                shown: shown_stdout,
            },
            stderr: PanelPlan {
                title: String::from_str("Stderr"),
                lines: stderr_text,
                selected: self.selected_widget == Widgets::Stderr,
                vertical_offset: self.widget_config[2].vertical_offset,
                horizontal_offset: self.widget_config[2].horizontal_offset,
                shown: shown_stderr,
            },
            focus: self.focus,
            orientation: self.orientation,
            num_blocks,
            percentage,
            status: self.status.clone(),
        }
    }
}

/// Law: cycling the selected panel forward three times returns to the
/// original panel, whatever the orientation and wherever the selection
/// started.
pub proof fn lemma_cycle_forward_three_times(
    ui0: Ui,
    k: KeyEvent,
    ui1: Ui,
    r1: KeyOutcome,
    ui2: Ui,
    r2: KeyOutcome,
    ui3: Ui,
    r3: KeyOutcome,
)
    requires
        is_cycle_forward(ui0, k),
        key_transition(ui0, k, ui1, r1),
        key_transition(ui1, k, ui2, r2),
        key_transition(ui2, k, ui3, r3),
    ensures
        ui3.selected_widget == ui0.selected_widget,
        ui3 == (Ui { selected_widget: ui0.selected_widget, ..ui0 }),
{
}

/// Law: a scroll-up on a panel whose vertical offset is already zero leaves
/// the whole display state unchanged, whichever panel is selected.
pub proof fn lemma_scroll_up_at_zero(pre: Ui, k: KeyEvent, post: Ui, r: KeyOutcome)
    requires
        is_scroll_up_key(k),
        key_transition(pre, k, post, r),
        pre.widget_config@[spec_widget_index(pre.selected_widget)].vertical_offset == 0,
    ensures
        post == pre,
{
    let i = spec_widget_index(pre.selected_widget);
    assert(pre.widget_config@.update(i, pre.widget_config@[i]) =~= pre.widget_config@);
    assert(post.widget_config =~= pre.widget_config);
}

/// Law: no key press ever touches the shown compile result, the status line
/// or the orientation — scrolling while a compile is outstanding cannot
/// corrupt what is displayed.
pub proof fn lemma_keys_leave_result_alone(pre: Ui, k: KeyEvent, post: Ui, r: KeyOutcome)
    requires
        key_transition(pre, k, post, r),
    ensures
        post.data == pre.data,
        post.status == pre.status,
        post.orientation == pre.orientation,
{
}

/// Law: toggling focus twice returns to the prior pair of selected and
/// focused panel.
pub proof fn lemma_toggle_focus_twice(
    ui0: Ui,
    k: KeyEvent,
    ui1: Ui,
    r1: KeyOutcome,
    ui2: Ui,
    r2: KeyOutcome,
)
    requires
        ui0.wf(),
        is_toggle_focus_key(k),
        key_transition(ui0, k, ui1, r1),
        key_transition(ui1, k, ui2, r2),
    ensures
        ui2.selected_widget == ui0.selected_widget,
        ui2.focus == ui0.focus,
{
}

} // verus!
