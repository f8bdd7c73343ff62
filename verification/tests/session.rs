use ce_core::compiler_explorer::AsmOutput;
use ce_core::compiler_explorer::CompilationResult;
use ce_core::session::Session;
use ce_core::session::SessionAction;
use ce_core::session::SessionEvent;
use ce_core::tui::KeyCode;
use ce_core::tui::KeyEvent;
use ce_core::tui::KeyModifier;
use ce_core::tui::Orientation;
use ce_core::tui::Widgets;

fn watched() -> String {
    String::from("/tmp/watched/main.c")
}

fn result_with_code(code: i64) -> CompilationResult {
    CompilationResult {
        code,
        stdout: vec![],
        stderr: vec![],
        assembly: vec![AsmOutput {
            text: String::from("ret"),
            source: None,
        }],
        execution: None,
    }
}

#[test]
fn change_of_watched_path_starts_compile() {
    let mut session = Session::new(Orientation::Vertical, watched());
    let action = session.handle_event(SessionEvent::FileChanged(watched()));
    assert_eq!(action, SessionAction::StartCompile(1));
    assert_eq!(session.latest_generation, 1);
}

#[test]
fn change_of_other_path_is_ignored() {
    let mut session = Session::new(Orientation::Vertical, watched());
    let action = session.handle_event(SessionEvent::FileChanged(String::from(
        "/tmp/watched/other.c",
    )));
    assert_eq!(action, SessionAction::Idle);
    assert_eq!(session.latest_generation, 0);
    assert!(session.ui.data.is_none());
}

#[test]
fn stale_result_is_discarded() {
    // Scenario: while the compile of revision 1 is outstanding, the file
    // changes again; revision 1's result arrives late and is dropped, and
    // only revision 2's result reaches the display.
    let mut session = Session::new(Orientation::Vertical, watched());
    let first = session.handle_event(SessionEvent::FileChanged(watched()));
    assert_eq!(first, SessionAction::StartCompile(1));
    let second = session.handle_event(SessionEvent::FileChanged(watched()));
    assert_eq!(second, SessionAction::StartCompile(2));
    let action = session.handle_event(SessionEvent::CompileFinished(1, result_with_code(101)));
    assert_eq!(action, SessionAction::Idle);
    assert!(session.ui.data.is_none());
    let action = session.handle_event(SessionEvent::CompileFinished(2, result_with_code(102)));
    assert_eq!(action, SessionAction::Render);
    assert_eq!(session.ui.data.as_ref().unwrap().code, 102);
}

#[test]
fn current_result_is_applied_and_resets_offsets() {
    let mut session = Session::new(Orientation::Vertical, watched());
    session.handle_event(SessionEvent::Key(KeyEvent {
        code: KeyCode::Char('j'),
        modifier: KeyModifier::Plain,
    }));
    assert_eq!(session.ui.widget_config[0].vertical_offset, 1);
    let action = session.handle_event(SessionEvent::CompileFinished(0, result_with_code(0)));
    assert_eq!(action, SessionAction::Render);
    assert_eq!(session.ui.widget_config[0].vertical_offset, 0);
    assert!(session.ui.data.is_some());
}

#[test]
fn begin_compile_opens_generations() {
    let mut session = Session::new(Orientation::Vertical, watched());
    assert_eq!(session.begin_compile(), 1);
    assert_eq!(session.begin_compile(), 2);
    assert_eq!(session.latest_generation, 2);
}

#[test]
fn quit_key_ends_session_and_absorbs() {
    let mut session = Session::new(Orientation::Vertical, watched());
    let action = session.handle_event(SessionEvent::Key(KeyEvent {
        code: KeyCode::Esc,
        modifier: KeyModifier::Plain,
    }));
    assert_eq!(action, SessionAction::Quit);
    assert!(session.should_quit);
    // Once quit is reported, nothing else is processed.
    let action = session.handle_event(SessionEvent::FileChanged(watched()));
    assert_eq!(action, SessionAction::Quit);
    assert_eq!(session.latest_generation, 0);
    let action = session.handle_event(SessionEvent::Key(KeyEvent {
        code: KeyCode::Char('j'),
        modifier: KeyModifier::Plain,
    }));
    assert_eq!(action, SessionAction::Quit);
    assert_eq!(session.ui.widget_config[0].vertical_offset, 0);
    let action = session.handle_event(SessionEvent::CompileFinished(0, result_with_code(7)));
    assert_eq!(action, SessionAction::Quit);
    assert!(session.ui.data.is_none());
}

#[test]
fn watch_failure_is_fatal() {
    let mut session = Session::new(Orientation::Vertical, watched());
    let action = session.handle_event(SessionEvent::WatchFailed);
    assert_eq!(action, SessionAction::Quit);
    assert!(session.should_quit);
}

#[test]
fn input_closure_is_fatal() {
    let mut session = Session::new(Orientation::Vertical, watched());
    let action = session.handle_event(SessionEvent::InputClosed);
    assert_eq!(action, SessionAction::Quit);
    assert!(session.should_quit);
}

#[test]
fn read_failure_surfaces_status_and_continues() {
    let mut session = Session::new(Orientation::Vertical, watched());
    let action = session.handle_event(SessionEvent::ReadFailed(String::from(
        "stream did not contain valid UTF-8",
    )));
    assert_eq!(action, SessionAction::Render);
    assert!(!session.should_quit);
    assert_eq!(
        session.ui.status.as_deref(),
        Some("stream did not contain valid UTF-8")
    );
    // The status annotates, it does not replace the result.
    assert!(session.ui.data.is_none());
}

#[test]
fn compile_failure_of_current_generation_surfaces_status() {
    let mut session = Session::new(Orientation::Vertical, watched());
    session.handle_event(SessionEvent::FileChanged(watched()));
    let action =
        session.handle_event(SessionEvent::CompileFailed(1, String::from("HTTP Error: timed out")));
    assert_eq!(action, SessionAction::Render);
    assert_eq!(session.ui.status.as_deref(), Some("HTTP Error: timed out"));
    let frame = session.ui.render();
    assert_eq!(frame.status.as_deref(), Some("HTTP Error: timed out"));
}

#[test]
fn stale_compile_failure_is_ignored() {
    let mut session = Session::new(Orientation::Vertical, watched());
    session.handle_event(SessionEvent::FileChanged(watched()));
    session.handle_event(SessionEvent::FileChanged(watched()));
    let action =
        session.handle_event(SessionEvent::CompileFailed(1, String::from("HTTP Error: timed out")));
    assert_eq!(action, SessionAction::Idle);
    assert_eq!(session.ui.status, None);
}

#[test]
fn new_result_clears_status() {
    let mut session = Session::new(Orientation::Vertical, watched());
    session.handle_event(SessionEvent::ReadFailed(String::from("read failed")));
    session.handle_event(SessionEvent::CompileFinished(0, result_with_code(0)));
    assert_eq!(session.ui.status, None);
}

#[test]
fn resize_only_rerenders() {
    let mut session = Session::new(Orientation::Vertical, watched());
    let action = session.handle_event(SessionEvent::Resize);
    assert_eq!(action, SessionAction::Render);
    assert_eq!(session.ui.selected_widget, Widgets::Asm);
    assert!(session.ui.data.is_none());
}
