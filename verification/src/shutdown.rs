//! The shutdown flag: one shared boolean that an interrupt sets and the
//! reconciler's driver reads. Nothing else is shared between the two.

use std::sync::atomic::{AtomicBool, Ordering};
use std::sync::Arc;
use vstd::prelude::*;

verus! {

/// A flag that says whether shutdown was requested. Its copies share one
/// boolean: a request made through any of them is seen through all of them.
/// Reading it never blocks.
///
/// The boolean lives in an atomic that every holder may write at any time, so
/// no contract can speak of what it holds: what a read returns is settled
/// when it is made. The reconciler therefore takes each reading as an
/// argument, and is proved for both values of it.
pub struct ShutdownFlag {
    requested: Arc<AtomicBool>,
}

impl ShutdownFlag {
    /// A flag of its own, on which nothing has been requested yet.
    pub fn new() -> ShutdownFlag {
        ShutdownFlag { requested: Arc::new(AtomicBool::new(false)) }
    }

    /// Requests shutdown. A second request changes nothing.
    pub fn request(&self) {
        self.requested.store(true, Ordering::SeqCst);
    }

    /// Whether shutdown has been requested. What is read depends on what
    /// other holders of the flag have done, so nothing is promised of it.
    pub fn is_requested(&self) -> bool {
        self.requested.load(Ordering::SeqCst)
    }
}

impl Clone for ShutdownFlag {
    /// Another handle on the same flag.
    fn clone(&self) -> (handle: ShutdownFlag)
        ensures
            handle == *self,
    {
        ShutdownFlag { requested: self.requested.clone() }
    }
}

} // verus!
