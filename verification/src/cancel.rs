//! Cooperative cancellation of long-running work.

use std::sync::atomic::{AtomicBool, Ordering};

use vstd::prelude::*;

verus! {

/// Something that can report whether the work it guards was cancelled.
pub trait Cancellation {
    fn is_cancelled(&self) -> bool;
}

/// A cancellation flag that may be shared between threads.
///
/// Other threads may set it at any moment, so nothing is known of what
/// [`Cancellation::is_cancelled`] returns.
pub struct Cancel(AtomicBool);

impl Cancel {
    /// A flag that is not set.
    pub fn new() -> (r: Cancel) {
        Cancel(AtomicBool::new(false))
    }

    /// Sets the flag.
    pub fn cancel(&self) {
        self.0.store(true, Ordering::Relaxed);
    }
}

/// A flag that is not set, as [`Cancel::new`] makes.
impl Default for Cancel {
    fn default() -> (r: Cancel) {
        Cancel::new()
    }
}

impl Cancellation for Cancel {
    fn is_cancelled(&self) -> bool {
        self.0.load(Ordering::Relaxed)
    }
}

} // verus!
