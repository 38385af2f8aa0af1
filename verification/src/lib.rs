//! Core of a machine emulator: a legacy virtio MMIO block device, the DMA
//! transfer protocol that moves bytes between guest memory and the disk
//! backing store, and the bookkeeping of the fetch/trap execution loop.

pub mod bus;
pub mod cpu;
pub mod dram;
pub mod emulator;
pub mod exception;
pub mod virtio;

use vstd::prelude::*;

verus! {

/// One step of a free-running counter: adds one and wraps at the top.
pub open spec fn wrapping_inc(x: u64) -> u64 {
    if x == u64::MAX {
        0
    } else {
        (x + 1) as u64
    }
}

} // verus!
