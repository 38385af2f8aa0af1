//! The system bus: it owns guest memory and the virtio device, and carries
//! the byte-level guest-memory traffic of the DMA transfer protocol.

use crate::dram::{fits, le16, le32, le64, store16, Dram};
use crate::exception::Exception;
use crate::virtio::{Virtio, VirtioState};
use vstd::prelude::*;

verus! {

/// The bus, holding the guest memory image and the virtio block device.
pub struct Bus {
    /// Guest memory.
    pub dram: Dram,
    /// The virtio block device.
    pub virtio: Virtio,
}

impl Bus {
    /// A bus over empty memory and a freshly created device.
    pub fn new() -> (r: Bus)
        ensures
            r.dram@.len() == 0,
            r.virtio@ == VirtioState::initial(),
    {
        Bus { dram: Dram::new(), virtio: Virtio::new() }
    }

    /// Load `data` as the guest memory image, starting at address zero.
    pub fn set_dram(&mut self, data: Vec<u8>)
        ensures
            final(self).dram@ == data@,
            final(self).virtio == old(self).virtio,
    {
        self.dram.set_binary(data);
    }

    /// Append `data` to the virtio disk backing store.
    pub fn set_disk(&mut self, data: Vec<u8>)
        ensures
            final(self).virtio@ == (VirtioState {
                disk: old(self).virtio@.disk + data@,
                ..old(self).virtio@
            }),
            final(self).dram == old(self).dram,
    {
        self.virtio.set_disk(data);
    }

    /// Read one byte of guest memory.
    pub fn read8(&self, addr: u64) -> (r: Result<u8, Exception>)
        ensures
            self.dram@.len() <= usize::MAX,
            match r {
                Ok(b) => addr < self.dram@.len() && b == self.dram@[addr as int],
                Err(e) => addr >= self.dram@.len() && e == Exception::LoadAccessFault(addr),
            },
    {
        self.dram.read8(addr)
    }

    /// Read a little-endian 16-bit value of guest memory.
    pub fn read16(&self, addr: u64) -> (r: Result<u16, Exception>)
        ensures
            self.dram@.len() <= usize::MAX,
            match r {
                Ok(v) => fits(self.dram@, addr as int, 2) && v == le16(self.dram@, addr as int),
                Err(e) => !fits(self.dram@, addr as int, 2) && e == Exception::LoadAccessFault(
                    addr,
                ),
            },
    {
        self.dram.read16(addr)
    }

    /// Read a little-endian 32-bit value of guest memory.
    pub fn read32(&self, addr: u64) -> (r: Result<u32, Exception>)
        ensures
            self.dram@.len() <= usize::MAX,
            match r {
                Ok(v) => fits(self.dram@, addr as int, 4) && v == le32(self.dram@, addr as int),
                Err(e) => !fits(self.dram@, addr as int, 4) && e == Exception::LoadAccessFault(
                    addr,
                ),
            },
    {
        self.dram.read32(addr)
    }

    /// Read a little-endian 64-bit value of guest memory.
    pub fn read64(&self, addr: u64) -> (r: Result<u64, Exception>)
        ensures
            self.dram@.len() <= usize::MAX,
            match r {
                Ok(v) => fits(self.dram@, addr as int, 8) && v == le64(self.dram@, addr as int),
                Err(e) => !fits(self.dram@, addr as int, 8) && e == Exception::LoadAccessFault(
                    addr,
                ),
            },
    {
        self.dram.read64(addr)
    }

    /// Write one byte of guest memory; the device is untouched.
    pub fn write8(&mut self, addr: u64, value: u8) -> (r: Result<(), Exception>)
        ensures
            old(self).dram@.len() <= usize::MAX,
            final(self).virtio == old(self).virtio,
            match r {
                Ok(_) => addr < old(self).dram@.len() && final(self).dram@ == old(
                    self,
                ).dram@.update(addr as int, value),
                Err(e) => addr >= old(self).dram@.len() && final(self).dram@ == old(self).dram@
                    && e == Exception::StoreAccessFault(addr),
            },
    {
        self.dram.write8(addr, value)
    }

    /// Write a little-endian 16-bit value of guest memory; the device is untouched.
    pub fn write16(&mut self, addr: u64, value: u16) -> (r: Result<(), Exception>)
        ensures
            old(self).dram@.len() <= usize::MAX,
            final(self).virtio == old(self).virtio,
            match r {
                Ok(_) => fits(old(self).dram@, addr as int, 2) && final(self).dram@ == store16(
                    old(self).dram@,
                    addr as int,
                    value as int,
                ),
                Err(e) => !fits(old(self).dram@, addr as int, 2) && final(self).dram@ == old(
                    self,
                ).dram@ && e == Exception::StoreAccessFault(addr),
            },
    {
        self.dram.write16(addr, value)
    }
}

} // verus!
