//! The processor context the execution loop owns: the program counter, the
//! timer, and the bus. Instruction decode and execution are a collaborator
//! outside this crate; the context here is what the device protocol and the
//! loop bookkeeping read and write.

use crate::bus::Bus;
use crate::virtio::VirtioState;
use crate::wrapping_inc;
use vstd::prelude::*;

verus! {

/// The processor context.
pub struct Cpu {
    /// The program counter.
    pub pc: u64,
    /// The timer, stepped once per cycle to drive timer interrupts.
    pub timer: u64,
    /// The bus, owning guest memory and the virtio device.
    pub bus: Bus,
}

impl Cpu {
    /// A fresh context: program counter and timer at zero, empty memory,
    /// a new device.
    pub fn new() -> (r: Cpu)
        ensures
            r.pc == 0,
            r.timer == 0,
            r.bus.dram@.len() == 0,
            r.bus.virtio@ == VirtioState::initial(),
    {
        Cpu { pc: 0, timer: 0, bus: Bus::new() }
    }

    /// Reset the processor state; memory and the device keep their contents.
    pub fn reset(&mut self)
        ensures
            final(self).pc == 0,
            final(self).timer == 0,
            final(self).bus == old(self).bus,
    {
        self.pc = 0;
        self.timer = 0;
    }

    /// Step the timer by one tick, wrapping at the top.
    pub fn timer_increment(&mut self)
        ensures
            final(self).timer == wrapping_inc(old(self).timer),
            final(self).pc == old(self).pc,
            final(self).bus == old(self).bus,
    {
        self.timer = self.timer.wrapping_add(1);
    }
}

} // verus!
