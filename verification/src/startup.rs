//! The startup sequencer: runs once before the host event loop begins,
//! obtains the primary window from the host's registry, makes it visible and
//! gives it input focus. A missing primary window is an unrecoverable fault.
//!
//! The host's window registry is not reached for here as ambient state: the
//! outcome of the lookup is handed in as a parameter, so the sequencer's
//! decisions are checkable without a GUI host attached.

use vstd::prelude::*;

verus! {

/// What the sequencer reads and writes of the primary window: whether it is
/// shown on screen and whether it holds input focus.
#[derive(Clone, Copy, Debug, PartialEq, Eq, Structural)]
pub struct WindowState {
    pub visible: bool,
    pub focused: bool,
}

/// The one unrecoverable startup fault the sequencer itself decides on: no
/// window registered under the primary label.
#[derive(Clone, Copy, Debug, PartialEq, Eq, Structural)]
pub enum StartupError {
    MainWindowMissing,
}

/// The two phases of the sequencer. The transition to `Ready` happens at most
/// once and is irreversible.
#[derive(Clone, Copy, Debug, PartialEq, Eq, Structural)]
pub enum SequencerPhase {
    Uninitialized,
    Ready,
}

/// The label under which the host registers the primary window.
pub fn main_window_label() -> (r: &'static str)
    ensures
        r@ == "main"@,
{
    "main"
}

/// Making a window visible leaves its focus alone.
pub fn show(w: WindowState) -> (r: WindowState)
    ensures
        r.visible,
        r.focused == w.focused,
{
    WindowState { visible: true, ..w }
}

/// Giving a window input focus leaves its visibility alone.
pub fn focus(w: WindowState) -> (r: WindowState)
    ensures
        r.focused,
        r.visible == w.visible,
{
    WindowState { focused: true, ..w }
}

/// The startup sequencer.
pub struct Sequencer {
    pub phase: SequencerPhase,
}

impl Sequencer {
    /// A sequencer starts out uninitialized.
    pub fn new() -> (s: Self)
        ensures
            s.phase is Uninitialized,
    {
        Sequencer { phase: SequencerPhase::Uninitialized }
    }

    /// Runs the one-time startup sequence, given the outcome of looking up the
    /// primary window in the host's registry. If the window was found it ends
    /// visible and focused and the sequencer is ready; if not, the fault is
    /// reported and the sequencer stays uninitialized, so the caller can abort.
    pub fn initialize(&mut self, lookup: Option<WindowState>) -> (r: Result<
        WindowState,
        StartupError,
    >)
        requires
            old(self).phase is Uninitialized,
        ensures
            lookup is Some ==> r == Ok::<WindowState, StartupError>(
                WindowState { visible: true, focused: true },
            ) && final(self).phase is Ready,
            lookup is None ==> r == Err::<WindowState, StartupError>(
                StartupError::MainWindowMissing,
            ) && final(self).phase is Uninitialized,
    {
        match lookup {
            Some(w) => {
                let w = show(w);
                let w = focus(w);
                self.phase = SequencerPhase::Ready;
                Ok(w)
            },
            None => Err(StartupError::MainWindowMissing),
        }
    }
}

} // verus!
