//! Faults raised by guest-memory and disk accesses, and the trap outcomes
//! that the execution loop classifies.

use vstd::prelude::*;

verus! {

/// A fault raised while the device reads or writes guest memory or the disk
/// backing store. Memory faults carry the guest-physical address that missed.
#[derive(Clone, Copy, Debug, PartialEq, Eq, Structural)]
pub enum Exception {
    /// A read of guest memory at an address outside the loaded image.
    LoadAccessFault(u64),
    /// A write of guest memory at an address outside the loaded image.
    StoreAccessFault(u64),
    /// A disk access outside the bounds of the backing store.
    DiskAccessFault,
}

/// The outcome of one cycle's trap classification.
#[derive(Clone, Copy, Debug, PartialEq, Eq, Structural)]
pub enum Trap {
    /// The cycle completed; execution continues.
    Requested,
    /// An unrecoverable trap; the run loop halts.
    Fatal,
}

} // verus!
