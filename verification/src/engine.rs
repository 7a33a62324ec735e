//! Engine-side state that the edit modes' events drive: the mouse click
//! setting and the repaint request shared with other threads.
pub mod abbreviation;
pub mod batch;
pub mod editor_event;
pub mod history_search;

use vstd::prelude::*;

use std::sync::atomic::AtomicBool;
use std::sync::Arc;

verus! {

/// Whether mouse clicks move the cursor.
#[derive(Clone, Copy, Debug, PartialEq, Eq, Structural)]
pub enum MouseClickMode {
    /// Clicks are ignored.
    Disabled,
    /// Clicks move the cursor.
    Enabled,
    /// Clicks move the cursor, and the prompt carries shell-integration
    /// markers that announce click support.
    EnabledWithOsc133,
}

impl MouseClickMode {
    /// Whether clicks are handled at all.
    pub fn is_enabled(self) -> (r: bool)
        ensures
            r == (self != MouseClickMode::Disabled),
    {
        matches!(self, MouseClickMode::Enabled | MouseClickMode::EnabledWithOsc133)
    }
}

impl Default for MouseClickMode {
    fn default() -> (r: Self)
        ensures
            r == MouseClickMode::Disabled,
    {
        MouseClickMode::Disabled
    }
}

/// A request, from any thread, that the prompt be evaluated and painted
/// again without interrupting the line being edited.
#[derive(Clone)]
pub struct RepaintSignal {
    flag: Arc<AtomicBool>,
}

impl RepaintSignal {
    /// A signal with no request pending.
    pub fn new() -> (r: Self) {
        RepaintSignal { flag: Arc::new(AtomicBool::new(false)) }
    }

    /// Asks for the prompt to be repainted.
    pub fn request_repaint(&self) {
        self.flag.store(true, std::sync::atomic::Ordering::Relaxed)
    }

    /// Takes the pending request, if there is one, and clears it. Other
    /// threads may set the flag at any time, so the answer is not
    /// determined by what this thread did.
    pub fn take(&self) -> (r: bool) {
        self.flag.swap(false, std::sync::atomic::Ordering::Relaxed)
    }
}

impl Default for RepaintSignal {
    fn default() -> (r: Self) {
        RepaintSignal::new()
    }
}

} // verus!
