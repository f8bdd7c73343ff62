//! The decisions of the event loop.
//!
//! The loop around this module waits on three sources at once — terminal
//! input, filesystem change notices and finished compiles — and feeds
//! whichever event arrives first into [`Session::handle_event`].  That
//! function owns every decision: what to do to the display state, whether to
//! render, whether to start a compile, and when the session is over.  The
//! loop only performs the returned action; it decides nothing itself.
//!
//! Compiles are told apart by a generation counter.  Each accepted file
//! change starts a new generation, and a finished compile is applied only
//! when it still carries the current generation; a result overtaken by a
//! newer change is discarded on arrival, so the screen never shows a stale
//! compile of an older file revision.

use crate::compiler_explorer::CompilationResult;
use crate::tui::key_transition;
use crate::tui::spec_key_outcome;
use crate::tui::KeyEvent;
use crate::tui::Orientation;
use crate::tui::Ui;
use crate::tui::Widgets;
use vstd::prelude::*;

verus! {

/// Everything the loop can observe: a key press, a terminal resize, a
/// change notice for some path, a failed read or decode of the watched file,
/// a finished or failed compile tagged with its generation, a fatal watch
/// failure, and the end of the input stream.
pub enum SessionEvent {
    Key(KeyEvent),
    Resize,
    FileChanged(String),
    ReadFailed(String),
    CompileFinished(u64, CompilationResult),
    CompileFailed(u64, String),
    WatchFailed,
    InputClosed,
}

/// What the loop is asked to do next: nothing, redraw the screen, read the
/// watched file and compile it under the given generation, or leave the
/// loop.
#[derive(Clone, Copy, Debug, PartialEq, Eq, Structural)]
pub enum SessionAction {
    Idle,
    Render,
    StartCompile(u64),
    Quit,
}

/// The session's own state: the display, the canonical path of the watched
/// file, the generation of the most recent compile request, and whether the
/// session is over.
pub struct Session {
    pub ui: Ui,
    pub watched_path: String,
    pub latest_generation: u64,
    pub should_quit: bool,
}

/// The next generation: one more, held at the top of the range.
pub open spec fn next_generation(g: u64) -> u64 {
    if g < 0xffff_ffff_ffff_ffff {
        (g + 1) as u64
    } else {
        g
    }
}

/// The full transition relation of [`Session::handle_event`]: given the
/// state `pre` and the event `ev`, it pins down the state `post` and the
/// action `action`.  A session that has quit ignores everything (the quit
/// state is absorbing); a change notice for another path starts nothing; a
/// compile that no longer carries the current generation is discarded.
pub open spec fn session_step(
    pre: Session,
    ev: SessionEvent,
    post: Session,
    action: SessionAction,
) -> bool {
    if pre.should_quit {
        &&& post == pre
        &&& action == SessionAction::Quit
    } else {
        match ev {
            SessionEvent::Key(k) => {
                let out = spec_key_outcome(pre.ui, k);
                &&& key_transition(pre.ui, k, post.ui, out)
                &&& post == (Session { ui: post.ui, should_quit: out.should_quit, ..pre })
                &&& action == if out.should_quit {
                    SessionAction::Quit
                } else if out.needs_render {
                    SessionAction::Render
                } else {
                    SessionAction::Idle
                }
            },
            SessionEvent::Resize => {
                &&& post == pre
                &&& action == SessionAction::Render
            },
            SessionEvent::FileChanged(path) => {
                if path@ == pre.watched_path@ {
                    &&& post == (Session {
                        latest_generation: next_generation(pre.latest_generation),
                        ..pre
                    })
                    &&& action == SessionAction::StartCompile(
                        next_generation(pre.latest_generation),
                    )
                } else {
                    &&& post == pre
                    &&& action == SessionAction::Idle
                }
            },
            SessionEvent::ReadFailed(message) => {
                &&& post == (Session {
                    ui: (Ui { status: Option::Some(message), ..pre.ui }),
                    ..pre
                })
                &&& action == SessionAction::Render
            },
            SessionEvent::CompileFinished(generation, result) => {
                if generation == pre.latest_generation {
                    &&& post.ui.data == Option::Some(result)
                    &&& post.ui.offsets_reset()
                    &&& post.ui.status is None
                    &&& post.ui == (Ui {
                        data: post.ui.data,
                        widget_config: post.ui.widget_config,
                        status: post.ui.status,
                        ..pre.ui
                    })
                    &&& post == (Session { ui: post.ui, ..pre })
                    &&& action == SessionAction::Render
                } else {
                    &&& post == pre
                    &&& action == SessionAction::Idle
                }
            },
            SessionEvent::CompileFailed(generation, message) => {
                if generation == pre.latest_generation {
                    &&& post == (Session {
                        ui: (Ui { status: Option::Some(message), ..pre.ui }),
                        ..pre
                    })
                    &&& action == SessionAction::Render
                } else {
                    &&& post == pre
                    &&& action == SessionAction::Idle
                }
            },
            SessionEvent::WatchFailed => {
                &&& post == (Session { should_quit: true, ..pre })
                &&& action == SessionAction::Quit
            },
            SessionEvent::InputClosed => {
                &&& post == (Session { should_quit: true, ..pre })
                &&& action == SessionAction::Quit
            },
        }
    }
}

impl Session {
    /// The display invariant carries over to the session.
    pub open spec fn wf(&self) -> bool {
        self.ui.wf()
    }

    /// A fresh session over the given canonical path: a fresh display, the
    /// starting generation, not quit.
    pub fn new(orientation: Orientation, watched_path: String) -> (s: Session)
        ensures
            s.wf(),
            s.ui.selected_widget == Widgets::Asm,
            s.ui.offsets_reset(),
            s.ui.focus is None,
            s.ui.orientation == orientation,
            s.ui.data is None,
            s.ui.status is None,
            s.watched_path == watched_path,
            s.latest_generation == 0,
            !s.should_quit,
    {
        Session { ui: Ui::new(orientation), watched_path, latest_generation: 0, should_quit: false }
    }

    /// Open a new compile generation — used for the one compile started
    /// before the loop — and return it; results of older generations are
    /// stale from here on.
    pub fn begin_compile(&mut self) -> (g: u64)
        ensures
            *final(self) == (Session {
                latest_generation: next_generation(old(self).latest_generation),
                ..*old(self)
            }),
            g == final(self).latest_generation,
    {
        self.latest_generation = saturating_inc_u64(self.latest_generation);
        self.latest_generation
    }

    /// Decide what one event means.  The exact transition is
    /// [`session_step`].
    pub fn handle_event(&mut self, event: SessionEvent) -> (action: SessionAction)
        ensures
            session_step(*old(self), event, *final(self), action),
            old(self).wf() ==> final(self).wf(),
    {
        if self.should_quit {
            return SessionAction::Quit;
        }
        match event {
            SessionEvent::Key(k) => {
                let out = self.ui.handle_key_event(k);
                proof {
                    assert(out == spec_key_outcome(old(self).ui, k));
                }
                if out.should_quit {
                    self.should_quit = true;
                    SessionAction::Quit
                } else if out.needs_render {
                    SessionAction::Render
                } else {
                    SessionAction::Idle
                }
            },
            SessionEvent::Resize => SessionAction::Render,
            SessionEvent::FileChanged(path) => {
                if path == self.watched_path {
                    let g = saturating_inc_u64(self.latest_generation);
                    self.latest_generation = g;
                    SessionAction::StartCompile(g)
                } else {
                    SessionAction::Idle
                }
            },
            SessionEvent::ReadFailed(message) => {
                self.ui.set_status(message);
                SessionAction::Render
            },
            SessionEvent::CompileFinished(generation, result) => {
                if generation == self.latest_generation {
                    self.ui.set_data(result);
                    SessionAction::Render
                } else {
                    SessionAction::Idle
                }
            },
            SessionEvent::CompileFailed(generation, message) => {
                if generation == self.latest_generation {
                    self.ui.set_status(message);
                    SessionAction::Render
                } else {
                    SessionAction::Idle
                }
            },
            SessionEvent::WatchFailed => {
                self.should_quit = true;
                SessionAction::Quit
            },
            SessionEvent::InputClosed => {
                self.should_quit = true;
                SessionAction::Quit
            },
        }
    }
}

fn saturating_inc_u64(g: u64) -> (r: u64)
    ensures
        r == next_generation(g),
{
    if g < 0xffff_ffff_ffff_ffff {
        g + 1
    } else {
        g
    }
}

/// Law: the quit state is absorbing — once the session should quit, every
/// further event leaves the state untouched and only asks the loop to leave.
pub proof fn lemma_quit_absorbing(
    pre: Session,
    ev: SessionEvent,
    post: Session,
    action: SessionAction,
)
    requires
        pre.should_quit,
        session_step(pre, ev, post, action),
    ensures
        post == pre,
        action == SessionAction::Quit,
{
}

/// Law: a change notice for any path other than the watched one starts no
/// compile and changes nothing.
pub proof fn lemma_foreign_path_ignored(
    pre: Session,
    path: String,
    post: Session,
    action: SessionAction,
)
    requires
        !pre.should_quit,
        path@ != pre.watched_path@,
        session_step(pre, SessionEvent::FileChanged(path), post, action),
    ensures
        post == pre,
        action == SessionAction::Idle,
        !(action is StartCompile),
{
}

/// Law: the compile generation never goes backwards, whatever the event —
/// once a result is stale it stays stale.
pub proof fn lemma_generation_monotone(
    pre: Session,
    ev: SessionEvent,
    post: Session,
    action: SessionAction,
)
    requires
        session_step(pre, ev, post, action),
    ensures
        pre.latest_generation <= post.latest_generation,
{
}

/// Law: a finished compile that no longer carries the current generation is
/// discarded — the state, and with it the shown result, stays as it was.
pub proof fn lemma_stale_result_discarded(
    pre: Session,
    generation: u64,
    result: CompilationResult,
    post: Session,
    action: SessionAction,
)
    requires
        !pre.should_quit,
        generation != pre.latest_generation,
        session_step(pre, SessionEvent::CompileFinished(generation, result), post, action),
    ensures
        post == pre,
        action == SessionAction::Idle,
{
}

} // verus!
