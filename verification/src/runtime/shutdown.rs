use vstd::prelude::*;

use std::sync::atomic::AtomicBool;
use std::sync::Arc;

verus! {

/// A shutdown flag that signal handlers and the service loop share. Its
/// value is read with sequential consistency; nothing is stated of a read,
/// since any holder of the flag may raise it at any time.
pub struct ShutdownController {
    triggered: Arc<AtomicBool>,
}

impl ShutdownController {
    /// The shared flag this controller raises and reads.
    pub closed spec fn spec_flag(&self) -> Arc<AtomicBool> {
        self.triggered
    }

    /// A controller whose flag is not raised.
    pub fn new() -> (c: Self) {
        ShutdownController { triggered: Arc::new(AtomicBool::new(false)) }
    }

    /// Raises the flag.
    pub fn trigger(&self) {
        self.triggered.store(true, std::sync::atomic::Ordering::SeqCst);
    }

    /// Whether the flag has been raised.
    pub fn is_triggered(&self) -> (r: bool) {
        self.triggered.load(std::sync::atomic::Ordering::SeqCst)
    }

    /// Another handle on the same flag.
    pub fn clone_trigger(&self) -> (r: Arc<AtomicBool>)
        ensures
            r == self.spec_flag(),
    {
        Arc::clone(&self.triggered)
    }
}

impl Default for ShutdownController {
    /// The same as `ShutdownController::new`.
    fn default() -> (c: Self) {
        Self::new()
    }
}

} // verus!
