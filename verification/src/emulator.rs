//! The emulator: the processor context plus the run-loop policy. The
//! fetch-decode-execute step itself is a collaborator outside this crate;
//! what lives here is every decision of one cycle: the cycle counter, the
//! test-mode stop rule, the trap classification and the halt policy.

use crate::cpu::Cpu;
use crate::exception::Trap;
use crate::virtio::VirtioState;
use crate::wrapping_inc;
use vstd::prelude::*;

verus! {

/// The number of cycles the test-mode stop rule compares against.
pub const TEST_CYCLE_BOUND: u64 = 10000;

/// The state of one invocation of the run loop: its cycle counter and
/// whether the loop has halted. Once halted, no cycle proceeds again.
pub struct RunState {
    /// Cycles begun so far, wrapping at the top.
    pub count: u64,
    /// True once the loop has stopped for good.
    pub halted: bool,
}

impl RunState {
    /// The state at the start of a run: no cycles yet, not halted.
    pub fn new() -> (r: RunState)
        ensures
            r.count == 0,
            !r.halted,
    {
        RunState { count: 0, halted: false }
    }
}

/// The heuristic flag the debug trace prints: whether the instruction
/// word's upper 16 bits are all zero, hinting at a compressed instruction.
pub fn is_compressed(inst: u32) -> (r: bool)
    ensures
        r == (inst & 0xffff_0000 == 0),
{
    inst & 0xffff_0000 == 0
}

/// The emulator: a processor context and the run-loop flags.
pub struct Emulator {
    /// The processor context, owning the bus and the virtio device.
    pub cpu: Cpu,
    /// Print trace output for every executed instruction.
    pub is_debug: bool,
    /// Bound the run by the test-mode cycle rule.
    pub is_test: bool,
}

impl Emulator {
    /// A fresh emulator: new processor context, both flags off.
    pub fn new() -> (r: Emulator)
        ensures
            r.cpu.pc == 0,
            r.cpu.timer == 0,
            r.cpu.bus.dram@.len() == 0,
            r.cpu.bus.virtio@ == VirtioState::initial(),
            !r.is_debug,
            !r.is_test,
    {
        Emulator { cpu: Cpu::new(), is_debug: false, is_test: false }
    }

    /// Reset the processor state; memory, disk and flags keep their contents.
    pub fn reset(&mut self)
        ensures
            final(self).cpu.pc == 0,
            final(self).cpu.timer == 0,
            final(self).cpu.bus == old(self).cpu.bus,
            final(self).is_debug == old(self).is_debug,
            final(self).is_test == old(self).is_test,
    {
        self.cpu.reset();
    }

    /// Load `data` as the guest memory image, starting at address zero.
    pub fn set_dram(&mut self, data: Vec<u8>)
        ensures
            final(self).cpu.bus.dram@ == data@,
            final(self).cpu.bus.virtio == old(self).cpu.bus.virtio,
            final(self).cpu.pc == old(self).cpu.pc,
            final(self).cpu.timer == old(self).cpu.timer,
            final(self).is_debug == old(self).is_debug,
            final(self).is_test == old(self).is_test,
    {
        self.cpu.bus.set_dram(data);
    }

    /// Append `data` to the virtio disk backing store.
    pub fn set_disk(&mut self, data: Vec<u8>)
        ensures
            final(self).cpu.bus.virtio@ == (VirtioState {
                disk: old(self).cpu.bus.virtio@.disk + data@,
                ..old(self).cpu.bus.virtio@
            }),
            final(self).cpu.bus.dram == old(self).cpu.bus.dram,
            final(self).cpu.pc == old(self).cpu.pc,
            final(self).cpu.timer == old(self).cpu.timer,
            final(self).is_debug == old(self).is_debug,
            final(self).is_test == old(self).is_test,
    {
        self.cpu.bus.set_disk(data);
    }

    /// Set the program counter.
    pub fn set_pc(&mut self, pc: u64)
        ensures
            final(self).cpu.pc == pc,
            final(self).cpu.timer == old(self).cpu.timer,
            final(self).cpu.bus == old(self).cpu.bus,
            final(self).is_debug == old(self).is_debug,
            final(self).is_test == old(self).is_test,
    {
        self.cpu.pc = pc;
    }

    /// Begin one cycle: step the cycle counter and apply the test-mode stop
    /// rule, which ends the run while the counter is still below the bound.
    /// Returns whether the cycle proceeds. A halted loop never proceeds and
    /// nothing changes after it halts.
    pub fn advance_cycle(&self, st: &mut RunState) -> (proceed: bool)
        ensures
            old(st).halted ==> !proceed && *final(st) == *old(st),
            !old(st).halted ==> {
                &&& final(st).count == wrapping_inc(old(st).count)
                &&& proceed == !(self.is_test && final(st).count < TEST_CYCLE_BOUND)
                &&& final(st).halted == !proceed
            },
    {
        if st.halted {
            return false;
        }
        st.count = st.count.wrapping_add(1);
        if self.is_test && st.count < TEST_CYCLE_BOUND {
            st.halted = true;
            return false;
        }
        true
    }

    /// End one cycle: classify the trap the step produced. A fatal trap
    /// halts the loop for good; every other outcome continues. A halted
    /// loop stays halted and nothing changes.
    pub fn conclude_cycle(&self, st: &mut RunState, trap: Trap) -> (proceed: bool)
        ensures
            old(st).halted ==> !proceed && *final(st) == *old(st),
            !old(st).halted ==> {
                &&& final(st).count == old(st).count
                &&& proceed == (trap != Trap::Fatal)
                &&& final(st).halted == (trap == Trap::Fatal)
            },
    {
        if st.halted {
            return false;
        }
        match trap {
            Trap::Fatal => {
                st.halted = true;
                false
            },
            Trap::Requested => true,
        }
    }
}

} // verus!
