//! Guest memory: a flat byte image addressed by guest-physical address.
//! Accesses beyond the loaded image fault. Multi-byte values are
//! little-endian, as the virtqueue structures demand.

use crate::exception::Exception;
use vstd::prelude::*;

verus! {

/// True when the `n` bytes starting at `a` lie inside `m`.
pub open spec fn fits(m: Seq<u8>, a: int, n: int) -> bool {
    0 <= a && a + n <= m.len()
}

/// The little-endian 16-bit value stored in `m` at `a`.
pub open spec fn le16(m: Seq<u8>, a: int) -> int {
    m[a] + 0x100 * m[a + 1]
}

/// The little-endian 32-bit value stored in `m` at `a`.
pub open spec fn le32(m: Seq<u8>, a: int) -> int {
    le16(m, a) + 0x10000 * le16(m, a + 2)
}

/// The little-endian 64-bit value stored in `m` at `a`.
pub open spec fn le64(m: Seq<u8>, a: int) -> int {
    le32(m, a) + 0x1_0000_0000 * le32(m, a + 4)
}

/// `m` with the little-endian 16-bit value `v` stored at `a`.
pub open spec fn store16(m: Seq<u8>, a: int, v: int) -> Seq<u8> {
    m.update(a, (v % 0x100) as u8).update(a + 1, ((v / 0x100) % 0x100) as u8)
}

/// The guest memory image. Its view is the byte sequence it holds.
pub struct Dram {
    data: Vec<u8>,
}

impl View for Dram {
    type V = Seq<u8>;

    closed spec fn view(&self) -> Seq<u8> {
        self.data@
    }
}

impl Dram {
    /// An empty memory: every access faults until an image is loaded.
    pub fn new() -> (r: Dram)
        ensures
            r@.len() == 0,
    {
        Dram { data: Vec::new() }
    }

    /// Replace the memory contents with `data`, placed at address zero.
    pub fn set_binary(&mut self, data: Vec<u8>)
        ensures
            final(self)@ == data@,
    {
        self.data = data;
    }

    /// Read one byte; faults outside the image.
    pub fn read8(&self, addr: u64) -> (r: Result<u8, Exception>)
        ensures
            self@.len() <= usize::MAX,
            match r {
                Ok(b) => addr < self@.len() && b == self@[addr as int],
                Err(e) => addr >= self@.len() && e == Exception::LoadAccessFault(addr),
            },
    {
        if addr < self.data.len() as u64 {
            Ok(self.data[addr as usize])
        } else {
            Err(Exception::LoadAccessFault(addr))
        }
    }

    /// Read a little-endian 16-bit value; faults if any byte is outside the image.
    pub fn read16(&self, addr: u64) -> (r: Result<u16, Exception>)
        ensures
            self@.len() <= usize::MAX,
            match r {
                Ok(v) => fits(self@, addr as int, 2) && v == le16(self@, addr as int),
                Err(e) => !fits(self@, addr as int, 2) && e == Exception::LoadAccessFault(addr),
            },
    {
        let len = self.data.len() as u64;
        if addr < len && len - addr >= 2 {
            let i = addr as usize;
            Ok(self.data[i] as u16 + 0x100 * self.data[i + 1] as u16)
        } else {
            Err(Exception::LoadAccessFault(addr))
        }
    }

    /// Read a little-endian 32-bit value; faults if any byte is outside the image.
    pub fn read32(&self, addr: u64) -> (r: Result<u32, Exception>)
        ensures
            self@.len() <= usize::MAX,
            match r {
                Ok(v) => fits(self@, addr as int, 4) && v == le32(self@, addr as int),
                Err(e) => !fits(self@, addr as int, 4) && e == Exception::LoadAccessFault(addr),
            },
    {
        let len = self.data.len() as u64;
        if addr < len && len - addr >= 4 {
            let i = addr as usize;
            Ok(self.data[i] as u32 + 0x100 * self.data[i + 1] as u32 + 0x10000 * self.data[i
                + 2] as u32 + 0x1000000 * self.data[i + 3] as u32)
        } else {
            Err(Exception::LoadAccessFault(addr))
        }
    }

    /// Read a little-endian 64-bit value; faults if any byte is outside the image.
    pub fn read64(&self, addr: u64) -> (r: Result<u64, Exception>)
        ensures
            self@.len() <= usize::MAX,
            match r {
                Ok(v) => fits(self@, addr as int, 8) && v == le64(self@, addr as int),
                Err(e) => !fits(self@, addr as int, 8) && e == Exception::LoadAccessFault(addr),
            },
    {
        let len = self.data.len() as u64;
        if addr < len && len - addr >= 8 {
            let i = addr as usize;
            Ok(self.data[i] as u64 + 0x100 * self.data[i + 1] as u64 + 0x10000 * self.data[i
                + 2] as u64 + 0x1000000 * self.data[i + 3] as u64 + 0x1_0000_0000 * self.data[i
                + 4] as u64 + 0x100_0000_0000 * self.data[i + 5] as u64 + 0x1_0000_0000_0000
                * self.data[i + 6] as u64 + 0x100_0000_0000_0000 * self.data[i + 7] as u64)
        } else {
            Err(Exception::LoadAccessFault(addr))
        }
    }

    /// Write one byte; faults outside the image, leaving memory unchanged.
    pub fn write8(&mut self, addr: u64, value: u8) -> (r: Result<(), Exception>)
        ensures
            old(self)@.len() <= usize::MAX,
            match r {
                Ok(_) => addr < old(self)@.len() && final(self)@ == old(self)@.update(
                    addr as int,
                    value,
                ),
                Err(e) => addr >= old(self)@.len() && final(self)@ == old(self)@ && e
                    == Exception::StoreAccessFault(addr),
            },
    {
        if addr < self.data.len() as u64 {
            self.data.set(addr as usize, value);
            Ok(())
        } else {
            Err(Exception::StoreAccessFault(addr))
        }
    }

    /// Write a little-endian 16-bit value; faults unless both bytes fit,
    /// leaving memory unchanged on a fault.
    pub fn write16(&mut self, addr: u64, value: u16) -> (r: Result<(), Exception>)
        ensures
            old(self)@.len() <= usize::MAX,
            match r {
                Ok(_) => fits(old(self)@, addr as int, 2) && final(self)@ == store16(
                    old(self)@,
                    addr as int,
                    value as int,
                ),
                Err(e) => !fits(old(self)@, addr as int, 2) && final(self)@ == old(self)@ && e
                    == Exception::StoreAccessFault(addr),
            },
    {
        let len = self.data.len() as u64;
        if addr < len && len - addr >= 2 {
            let i = addr as usize;
            self.data.set(i, (value % 0x100) as u8);
            self.data.set(i + 1, (value / 0x100) as u8);
            Ok(())
        } else {
            Err(Exception::StoreAccessFault(addr))
        }
    }
}

} // verus!
