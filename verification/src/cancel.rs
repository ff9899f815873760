//! The signal by which the workers of a session tell each other to stop.

use std::sync::atomic::AtomicBool;
use std::sync::atomic::Ordering;
use std::sync::Arc;
use vstd::prelude::*;

verus! {

/// A flag shared by all workers of a session. It starts unset, and nothing
/// ever unsets it.
///
/// Other threads may set the flag at any moment, so nothing is promised of
/// what [`CancellationSignal::is_cancelled`] returns: a caller has to be
/// right whatever it sees.
#[derive(Clone, Debug)]
pub struct CancellationSignal {
    flag: Arc<AtomicBool>,
}

impl CancellationSignal {
    /// A signal that is not set.
    pub fn new() -> CancellationSignal {
        CancellationSignal { flag: Arc::new(AtomicBool::new(false)) }
    }

    /// Sets the signal. Setting it again changes nothing.
    pub fn cancel(&self) {
        self.flag.store(true, Ordering::Relaxed);
    }

    /// Whether the signal was seen set.
    pub fn is_cancelled(&self) -> bool {
        self.flag.load(Ordering::Relaxed)
    }
}

} // verus!
