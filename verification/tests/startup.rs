use greet_shell::startup::Sequencer;
use greet_shell::startup::SequencerPhase;
use greet_shell::startup::StartupError;
use greet_shell::startup::WindowState;
use greet_shell::startup::focus;
use greet_shell::startup::main_window_label;
use greet_shell::startup::show;

#[test]
fn label_is_main() {
    assert_eq!(main_window_label(), "main");
}

#[test]
fn show_makes_visible_keeps_focus() {
    let w = show(WindowState { visible: false, focused: false });
    assert_eq!(w, WindowState { visible: true, focused: false });
    let w = show(WindowState { visible: false, focused: true });
    assert_eq!(w, WindowState { visible: true, focused: true });
}

#[test]
fn focus_grants_focus_keeps_visibility() {
    let w = focus(WindowState { visible: false, focused: false });
    assert_eq!(w, WindowState { visible: false, focused: true });
    let w = focus(WindowState { visible: true, focused: false });
    assert_eq!(w, WindowState { visible: true, focused: true });
}

#[test]
fn initialize_with_registered_window() {
    let mut sequencer = Sequencer::new();
    assert!(matches!(sequencer.phase, SequencerPhase::Uninitialized));
    let hidden = WindowState { visible: false, focused: false };
    let outcome = sequencer.initialize(Some(hidden));
    assert_eq!(outcome, Ok(WindowState { visible: true, focused: true }));
    assert!(matches!(sequencer.phase, SequencerPhase::Ready));
}

#[test]
fn initialize_with_already_visible_window() {
    let mut sequencer = Sequencer::new();
    let visible = WindowState { visible: true, focused: false };
    let outcome = sequencer.initialize(Some(visible));
    assert_eq!(outcome, Ok(WindowState { visible: true, focused: true }));
    assert!(matches!(sequencer.phase, SequencerPhase::Ready));
}

#[test]
fn initialize_without_registered_window() {
    let mut sequencer = Sequencer::new();
    let outcome = sequencer.initialize(None);
    assert_eq!(outcome, Err(StartupError::MainWindowMissing));
    assert!(matches!(sequencer.phase, SequencerPhase::Uninitialized));
}
