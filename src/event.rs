//! Readiness reported by the polling layer.

use vstd::prelude::*;

verus! {

/// Specific I/O events which were received.
#[derive(Copy, Clone, Ord, PartialOrd, Eq, PartialEq, Hash, Debug, Structural)]
pub struct IoEv {
    pub is_readable: bool,
    pub is_writable: bool,
}

impl IoEv {
    /// Whether the event reports anything at all.
    pub open spec fn is_ready(&self) -> bool {
        self.is_readable || self.is_writable
    }

    /// Whether the event carries at least one readiness flag.
    pub fn is_some(&self) -> (r: bool)
        ensures
            r == self.is_ready(),
    {
        self.is_readable || self.is_writable
    }
}

/// Information about generated I/O events from the event loop: the source
/// that became ready and how.
#[derive(Copy, Clone, Ord, PartialOrd, Eq, PartialEq, Hash, Debug)]
pub struct IoSrc<S> {
    pub source: S,
    pub io: IoEv,
}

} // verus!
