//! Error taxonomy of the callback bridge.
//!
//! Three families of failure are distinguished: unrecoverable configuration
//! or resource failures that must abort the run, contended-resource outcomes
//! of non-blocking lock acquisition, and faults of the executable-memory
//! release protocol.

use vstd::prelude::*;

verus! {

/// Contended-resource outcome: a non-blocking acquisition found the lock
/// already held.  Surfaced to the caller, never silently swallowed.
#[derive(Clone, Copy, Debug, Eq, PartialEq, Structural)]
pub enum Error {
    /// The lock could not be acquired at this time because the operation
    /// would otherwise block.
    WouldBlock,
}

/// Unrecoverable failures: continuing past either of these would invoke
/// undefined behavior, so the embedding program is expected to abort with a
/// diagnostic rather than carry on without the callback bridge.
#[derive(Clone, Copy, Debug, Eq, PartialEq, Structural)]
pub enum FatalError {
    /// A trampoline was requested for a parameter count outside the
    /// supported range.
    UnsupportedArity,
    /// The host's non-heap allocator could not provide an executable block.
    OutOfExecutableMemory,
}

/// Faults of the executable-memory release protocol: each block must be
/// released exactly once, with the size it was allocated with.
#[derive(Clone, Copy, Debug, Eq, PartialEq, Structural)]
pub enum ReleaseError {
    /// The block is not currently allocated: it was already released, or
    /// never came from this allocator.
    UnknownBlock,
    /// The size handed back differs from the size used at allocation.
    SizeMismatch,
}

impl Error {
    /// Human-readable description of the error.
    pub fn describe(&self) -> (r: String)
        ensures
            r@ == "lock would block"@,
            r@.len() > 0,
    {
        let r: String = String::from_str("lock would block");
        proof {
            reveal_strlit("lock would block");
        }
        r
    }
}

impl FatalError {
    /// Human-readable description of the error, suitable for the final
    /// diagnostic of an aborting run.
    pub fn describe(&self) -> (r: String)
        ensures
            self is UnsupportedArity ==> r@ == "argument count not supported"@,
            self is OutOfExecutableMemory ==> r@ == "failed to allocate executable memory"@,
            r@.len() > 0,
    {
        match self {
            FatalError::UnsupportedArity => {
                let r: String = String::from_str("argument count not supported");
                proof {
                    reveal_strlit("argument count not supported");
                }
                r
            },
            FatalError::OutOfExecutableMemory => {
                let r: String = String::from_str("failed to allocate executable memory");
                proof {
                    reveal_strlit("failed to allocate executable memory");
                }
                r
            },
        }
    }
}

} // verus!
