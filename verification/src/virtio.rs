//! The legacy virtio MMIO block device: register state, the descriptor
//! reader, and the DMA transfer protocol over guest memory and the disk
//! backing store.

use crate::cpu::Cpu;
use crate::dram::{fits, le16, le32, le64, store16, Dram};
use crate::exception::Exception;
use crate::wrapping_inc;
use vstd::arithmetic::div_mod::lemma_add_mod_noop;
use vstd::prelude::*;

verus! {

/// The interrupt line of the virtio device.
pub const VIRTIO_IRQ: u64 = 1;

/// Base guest-physical address of the device's register window.
pub const VIRTIO_BASE: u64 = 0x1000_1000;

/// Magic value, read-only: the little-endian encoding of "virt".
pub const VIRTIO_MAGIC: u64 = VIRTIO_BASE + 0x000;

/// Device version number, read-only: 1 is the legacy interface.
pub const VIRTIO_VERSION: u64 = VIRTIO_BASE + 0x004;

/// Subsystem device id, read-only: 2 is a block device.
pub const VIRTIO_DEVICE_ID: u64 = VIRTIO_BASE + 0x008;

/// Subsystem vendor id, read-only.
pub const VIRTIO_VENDOR_ID: u64 = VIRTIO_BASE + 0x00c;

/// Features the device offers; a write here stores the driver's choice.
pub const VIRTIO_DEVICE_FEATURES: u64 = VIRTIO_BASE + 0x010;

/// Features the driver understood and activated, read back from here.
pub const VIRTIO_DRIVER_FEATURES: u64 = VIRTIO_BASE + 0x020;

/// Guest page size in bytes, written once by the driver before any queue is used.
pub const VIRTIO_GUEST_PAGE_SIZE: u64 = VIRTIO_BASE + 0x028;

/// Virtual queue index selector, write-only.
pub const VIRTIO_QUEUE_SEL: u64 = VIRTIO_BASE + 0x030;

/// Maximum virtual queue size, read-only.
pub const VIRTIO_QUEUE_NUM_MAX: u64 = VIRTIO_BASE + 0x034;

/// Virtual queue size chosen by the driver, write-only.
pub const VIRTIO_QUEUE_NUM: u64 = VIRTIO_BASE + 0x038;

/// Guest physical page number of the virtual queue; zero means unconfigured.
pub const VIRTIO_QUEUE_PFN: u64 = VIRTIO_BASE + 0x040;

/// Queue notifier: a write tells the device a buffer awaits processing.
pub const VIRTIO_QUEUE_NOTIFY: u64 = VIRTIO_BASE + 0x050;

/// Device status flags; writing zero requests a device reset.
pub const VIRTIO_STATUS: u64 = VIRTIO_BASE + 0x070;

/// The size in bytes of one descriptor-table entry.
pub const VRING_DESC_SIZE: u64 = 16;

/// The number of virtqueue descriptors; a fixed power of two.
pub const QUEUE_SIZE: u64 = 8;

/// The size in bytes of one disk sector.
pub const SECTOR_SIZE: u64 = 512;

/// One virtqueue descriptor: a guest buffer's address, length, flags and
/// chain pointer, decoded from 16 raw bytes of guest memory.
#[derive(Clone, Copy, Debug, PartialEq, Eq, Structural)]
pub struct VirtqDesc {
    /// Guest-physical address of the buffer.
    pub addr: u64,
    /// Byte count of the buffer.
    pub len: u32,
    /// Bit 0: chained to `next`; bit 1: device-writable; bit 2: indirect table.
    pub flags: u16,
    /// Index of the next descriptor, meaningful only when bit 0 of `flags` is set.
    pub next: u16,
}

/// The descriptor whose 16 bytes are stored in `m` at `a`.
pub open spec fn desc_at(m: Seq<u8>, a: int) -> VirtqDesc {
    VirtqDesc {
        addr: le64(m, a) as u64,
        len: le32(m, a + 8) as u32,
        flags: le16(m, a + 12) as u16,
        next: le16(m, a + 14) as u16,
    }
}

/// The address whose read fails first when the descriptor at `a` does not
/// lie wholly inside `m`.
pub open spec fn desc_fault_addr(m: Seq<u8>, a: int) -> int {
    if !fits(m, a, 8) {
        a
    } else if !fits(m, a + 8, 4) {
        a + 8
    } else if !fits(m, a + 12, 2) {
        a + 12
    } else {
        a + 14
    }
}

impl VirtqDesc {
    /// Decode the descriptor stored at `addr` in guest memory.
    pub fn new(mem: &Dram, addr: u64) -> (r: Result<VirtqDesc, Exception>)
        ensures
            match r {
                Ok(d) => fits(mem@, addr as int, 16) && d == desc_at(mem@, addr as int),
                Err(e) => !fits(mem@, addr as int, 16) && e == Exception::LoadAccessFault(
                    desc_fault_addr(mem@, addr as int) as u64,
                ),
            },
    {
        let a = match mem.read64(addr) {
            Ok(v) => v,
            Err(e) => {
                return Err(e);
            },
        };
        let l = match mem.read32(addr.wrapping_add(8)) {
            Ok(v) => v,
            Err(e) => {
                return Err(e);
            },
        };
        let f = match mem.read16(addr.wrapping_add(12)) {
            Ok(v) => v,
            Err(e) => {
                return Err(e);
            },
        };
        let n = match mem.read16(addr.wrapping_add(14)) {
            Ok(v) => v,
            Err(e) => {
                return Err(e);
            },
        };
        Ok(VirtqDesc { addr: a, len: l, flags: f, next: n })
    }
}

/// The mathematical state of the device: every register the driver can
/// observe or set, the request-id counter, the notify indicator, and the
/// bytes of the disk backing store.
#[verifier::ext_equal]
pub ghost struct VirtioState {
    /// The monotonically wrapping request-id counter.
    pub id: u64,
    /// Feature bits the driver activated.
    pub driver_features: u32,
    /// Guest page size in bytes.
    pub page_size: u32,
    /// Selected queue index.
    pub queue_sel: u32,
    /// Queue size requested by the driver (stored, unused).
    pub queue_num: u32,
    /// Page frame number of the queue; zero means unconfigured.
    pub queue_pfn: u32,
    /// The pending queue notification, if any.
    pub notify: Option<u32>,
    /// Device status flags.
    pub status: u32,
    /// The disk backing store.
    pub disk: Seq<u8>,
}

impl VirtioState {
    /// The state of a freshly created device.
    pub open spec fn initial() -> VirtioState {
        VirtioState {
            id: 0,
            driver_features: 0,
            page_size: 0,
            queue_sel: 0,
            queue_num: 0,
            queue_pfn: 0,
            notify: None,
            status: 0,
            disk: Seq::empty(),
        }
    }
}

/// What a 32-bit register read returns: fixed constants for the read-only
/// registers, stored values for the read/write ones, zero elsewhere.
pub open spec fn spec_read(s: VirtioState, addr: u64) -> u32 {
    if addr == VIRTIO_MAGIC {
        0x74726976
    } else if addr == VIRTIO_VERSION {
        0x1
    } else if addr == VIRTIO_DEVICE_ID {
        0x2
    } else if addr == VIRTIO_VENDOR_ID {
        0x554d4551
    } else if addr == VIRTIO_DEVICE_FEATURES {
        0
    } else if addr == VIRTIO_DRIVER_FEATURES {
        s.driver_features
    } else if addr == VIRTIO_QUEUE_NUM_MAX {
        8
    } else if addr == VIRTIO_QUEUE_PFN {
        s.queue_pfn
    } else if addr == VIRTIO_STATUS {
        s.status
    } else {
        0
    }
}

/// What a 32-bit register write leaves behind: the mapped registers store
/// the value (a queue notify arms the indicator), every other address is a
/// no-op.
pub open spec fn spec_write(s: VirtioState, addr: u64, val: u32) -> VirtioState {
    if addr == VIRTIO_DEVICE_FEATURES {
        VirtioState { driver_features: val, ..s }
    } else if addr == VIRTIO_GUEST_PAGE_SIZE {
        VirtioState { page_size: val, ..s }
    } else if addr == VIRTIO_QUEUE_SEL {
        VirtioState { queue_sel: val, ..s }
    } else if addr == VIRTIO_QUEUE_NUM {
        VirtioState { queue_num: val, ..s }
    } else if addr == VIRTIO_QUEUE_PFN {
        VirtioState { queue_pfn: val, ..s }
    } else if addr == VIRTIO_QUEUE_NOTIFY {
        VirtioState { notify: Some(val), ..s }
    } else if addr == VIRTIO_STATUS {
        VirtioState { status: val, ..s }
    } else {
        s
    }
}

/// True when a queue notification awaits delivery.
pub open spec fn interrupt_pending(s: VirtioState) -> bool {
    s.notify is Some
}

/// The state after the pending notification, if any, has been acknowledged.
pub open spec fn ack_notify(s: VirtioState) -> VirtioState {
    VirtioState { notify: None, ..s }
}

/// The guest-physical address of the first byte of the descriptor table.
pub open spec fn desc_table_addr(s: VirtioState) -> int {
    s.queue_pfn * s.page_size
}

/// The guest-physical address of the available ring.
pub open spec fn avail_addr(s: VirtioState) -> int {
    desc_table_addr(s) + 0x40
}

/// The guest-physical address of the used ring: the next page after the
/// descriptor table.
pub open spec fn used_addr(s: VirtioState) -> int {
    desc_table_addr(s) + 4096
}

/// The paravirtualized block device.
pub struct Virtio {
    id: u64,
    driver_features: u32,
    page_size: u32,
    queue_sel: u32,
    queue_num: u32,
    queue_pfn: u32,
    notify: Option<u32>,
    status: u32,
    disk: Vec<u8>,
}

impl View for Virtio {
    type V = VirtioState;

    closed spec fn view(&self) -> VirtioState {
        VirtioState {
            id: self.id,
            driver_features: self.driver_features,
            page_size: self.page_size,
            queue_sel: self.queue_sel,
            queue_num: self.queue_num,
            queue_pfn: self.queue_pfn,
            notify: self.notify,
            status: self.status,
            disk: self.disk@,
        }
    }
}

impl Virtio {
    /// Create a new virtio device with an empty disk and no pending notification.
    pub fn new() -> (r: Virtio)
        ensures
            r@ == VirtioState::initial(),
    {
        let v = Virtio {
            id: 0,
            driver_features: 0,
            page_size: 0,
            queue_sel: 0,
            queue_num: 0,
            queue_pfn: 0,
            notify: None,
            status: 0,
            disk: Vec::new(),
        };
        proof {
            assert(v@ =~= VirtioState::initial());
        }
        v
    }

    /// Edge-triggered interrupt query: reports a pending queue notification
    /// at most once, clearing the indicator before returning.
    pub fn is_interrupting(&mut self) -> (r: bool)
        ensures
            r == interrupt_pending(old(self)@),
            final(self)@ == ack_notify(old(self)@),
    {
        let r = match self.notify {
            Some(_) => {
                self.notify = None;
                true
            },
            None => false,
        };
        proof {
            assert(self@ =~= ack_notify(old(self)@));
        }
        r
    }

    /// Append `binary` to the disk backing store.
    pub fn set_disk(&mut self, binary: Vec<u8>)
        ensures
            final(self)@ == (VirtioState { disk: old(self)@.disk + binary@, ..old(self)@ }),
    {
        let mut b = binary;
        self.disk.append(&mut b);
        proof {
            assert(self@ =~= (VirtioState { disk: old(self)@.disk + binary@, ..old(self)@ }));
        }
    }

    /// Read a 32-bit register; unmapped addresses return zero.
    pub fn read(&self, addr: u64) -> (r: u32)
        ensures
            r == spec_read(self@, addr),
    {
        if addr == VIRTIO_MAGIC {
            0x74726976
        } else if addr == VIRTIO_VERSION {
            0x1
        } else if addr == VIRTIO_DEVICE_ID {
            0x2
        } else if addr == VIRTIO_VENDOR_ID {
            0x554d4551
        } else if addr == VIRTIO_DEVICE_FEATURES {
            0
        } else if addr == VIRTIO_DRIVER_FEATURES {
            self.driver_features
        } else if addr == VIRTIO_QUEUE_NUM_MAX {
            8
        } else if addr == VIRTIO_QUEUE_PFN {
            self.queue_pfn
        } else if addr == VIRTIO_STATUS {
            self.status
        } else {
            0
        }
    }

    /// Write a 32-bit register; unmapped addresses are no-ops.
    pub fn write(&mut self, addr: u64, val: u32)
        ensures
            final(self)@ == spec_write(old(self)@, addr, val),
    {
        if addr == VIRTIO_DEVICE_FEATURES {
            self.driver_features = val;
        } else if addr == VIRTIO_GUEST_PAGE_SIZE {
            self.page_size = val;
        } else if addr == VIRTIO_QUEUE_SEL {
            self.queue_sel = val;
        } else if addr == VIRTIO_QUEUE_NUM {
            self.queue_num = val;
        } else if addr == VIRTIO_QUEUE_PFN {
            self.queue_pfn = val;
        } else if addr == VIRTIO_QUEUE_NOTIFY {
            self.notify = Some(val);
        } else if addr == VIRTIO_STATUS {
            self.status = val;
        }
        proof {
            assert(self@ =~= spec_write(old(self)@, addr, val));
        }
    }

    /// Take the next request id: the counter steps by one, wrapping at the top.
    fn get_new_id(&mut self) -> (r: u64)
        ensures
            final(self)@ == (VirtioState { id: wrapping_inc(old(self)@.id), ..old(self)@ }),
            r == wrapping_inc(old(self)@.id),
    {
        self.id = self.id.wrapping_add(1);
        proof {
            assert(self@ =~= (VirtioState { id: wrapping_inc(old(self)@.id), ..old(self)@ }));
        }
        self.id
    }

    /// The guest-physical address of the descriptor table:
    /// queue page frame number times guest page size.
    pub fn desc_addr(&self) -> (r: u64)
        ensures
            r == desc_table_addr(self@),
    {
        proof {
            assert((self@.queue_pfn as int) * (self@.page_size as int) <= 0xffff_ffff
                * 0xffff_ffff) by (nonlinear_arith)
                requires
                    self@.queue_pfn <= 0xffff_ffffu32,
                    self@.page_size <= 0xffff_ffffu32,
            ;
        }
        (self.queue_pfn as u64) * (self.page_size as u64)
    }

    /// Read one byte of the disk backing store. The caller keeps the
    /// offset within bounds; the store has no recovery path of its own.
    pub fn read_disk(&self, addr: u64) -> (r: u64)
        requires
            addr < self@.disk.len(),
        ensures
            r == self@.disk[addr as int],
    {
        proof {
            assert(self.disk.len() <= usize::MAX);
        }
        self.disk[addr as usize] as u64
    }

    /// Write one byte of the disk backing store. The caller keeps the
    /// offset within bounds; the store has no recovery path of its own.
    pub fn write_disk(&mut self, addr: u64, value: u64)
        requires
            addr < old(self)@.disk.len(),
        ensures
            final(self)@ == (VirtioState {
                disk: old(self)@.disk.update(addr as int, (value % 0x100) as u8),
                ..old(self)@
            }),
    {
        proof {
            assert(self.disk.len() <= usize::MAX);
        }
        self.disk.set(addr as usize, (value % 0x100) as u8);
        proof {
            assert(self@ =~= (VirtioState {
                disk: old(self)@.disk.update(addr as int, (value % 0x100) as u8),
                ..old(self)@
            }));
        }
    }
}

/// A 64-bit addition that wraps at the top, as descriptor arithmetic demands.
pub open spec fn wrap64_add(x: u64, y: u64) -> int {
    if x + y > u64::MAX {
        x + y - 0x1_0000_0000_0000_0000
    } else {
        x + y
    }
}

/// The outcome of one invocation of the DMA transfer protocol: the value it
/// returns, and the guest memory and device state it leaves behind.
#[verifier::ext_equal]
pub ghost struct DmaOutcome {
    /// What the transfer returns.
    pub result: Result<(), Exception>,
    /// Guest memory afterwards.
    pub mem: Seq<u8>,
    /// Device state afterwards.
    pub dev: VirtioState,
}

/// A transfer that faults before copying anything: state is left untouched.
pub open spec fn dma_fault(s: VirtioState, m: Seq<u8>, e: Exception) -> DmaOutcome {
    DmaOutcome { result: Err(e), mem: m, dev: s }
}

/// How many of the `n` successive offsets starting at `start` stay below
/// `len`: the copy proceeds byte by byte and stops at the first that does not.
pub open spec fn run_len(len: int, start: int, n: int) -> int {
    if start + n <= len {
        n
    } else if start <= len {
        len - start
    } else {
        0
    }
}

/// `dst` with its `n` bytes at `at` replaced, one for one, by the bytes of
/// `src` starting at `from`.
pub open spec fn copy_into(dst: Seq<u8>, at: int, src: Seq<u8>, from: int, n: int) -> Seq<u8> {
    Seq::new(dst.len(), |j: int| if at <= j && j < at + n {
        src[from + (j - at)]
    } else {
        dst[j]
    })
}

/// The end of a completed copy: a new request id is taken and its value
/// modulo the queue size is stored as a 16-bit mark in the used-ring region.
pub open spec fn dma_finish(s: VirtioState, m: Seq<u8>) -> DmaOutcome {
    let s2 = VirtioState { id: wrapping_inc(s.id), ..s };
    let ua = used_addr(s) + 2;
    if fits(m, ua, 2) {
        DmaOutcome { result: Ok(()), mem: store16(m, ua, s2.id as int % 8), dev: s2 }
    } else {
        DmaOutcome { result: Err(Exception::StoreAccessFault(ua as u64)), mem: m, dev: s2 }
    }
}

/// The byte copy of a resolved transfer. Bit 1 of the data descriptor's
/// flags picks the direction; the copy runs byte by byte and stops at the
/// first address that faults, leaving the bytes already copied in place.
pub open spec fn dma_copy(s: VirtioState, m: Seq<u8>, d1: VirtqDesc, sector: int) -> DmaOutcome {
    let n = d1.len as int;
    let src = d1.addr as int;
    let base = sector * 512;
    let ms = run_len(m.len() as int, src, n);
    let ds = run_len(s.disk.len() as int, base, n);
    let stop = if ms <= ds {
        ms
    } else {
        ds
    };
    if d1.flags & 2 == 0 {
        // guest memory to disk; a guest read precedes each disk write
        let s2 = VirtioState { disk: copy_into(s.disk, base, m, src, stop), ..s };
        if stop == n {
            dma_finish(s2, m)
        } else if ms <= ds {
            DmaOutcome {
                result: Err(Exception::LoadAccessFault((src + stop) as u64)),
                mem: m,
                dev: s2,
            }
        } else {
            DmaOutcome { result: Err(Exception::DiskAccessFault), mem: m, dev: s2 }
        }
    } else {
        // disk to guest memory; a disk read precedes each guest write
        let m2 = copy_into(m, src, s.disk, base, stop);
        if stop == n {
            dma_finish(s, m2)
        } else if ds <= ms {
            DmaOutcome { result: Err(Exception::DiskAccessFault), mem: m2, dev: s }
        } else {
            DmaOutcome {
                result: Err(Exception::StoreAccessFault((src + stop) as u64)),
                mem: m2,
                dev: s,
            }
        }
    }
}

/// One invocation of the DMA transfer protocol over device state `s` and
/// guest memory `m`: ring walk, two-descriptor chain, byte copy, used-ring
/// mark. Every fault leaves exactly the state the protocol had built so far.
pub open spec fn dma(s: VirtioState, m: Seq<u8>) -> DmaOutcome {
    let dt = desc_table_addr(s);
    let av = avail_addr(s);
    if !fits(m, av + 1, 2) {
        dma_fault(s, m, Exception::LoadAccessFault((av + 1) as u64))
    } else {
        let slot = av + le16(m, av + 1) % 8 + 2;
        if !fits(m, slot, 2) {
            dma_fault(s, m, Exception::LoadAccessFault(slot as u64))
        } else {
            let d0a = dt + 16 * le16(m, slot);
            if !fits(m, d0a, 16) {
                dma_fault(s, m, Exception::LoadAccessFault(desc_fault_addr(m, d0a) as u64))
            } else {
                let d0 = desc_at(m, d0a);
                let d1a = dt + 16 * d0.next;
                if !fits(m, d1a, 16) {
                    dma_fault(s, m, Exception::LoadAccessFault(desc_fault_addr(m, d1a) as u64))
                } else {
                    let d1 = desc_at(m, d1a);
                    let sa = wrap64_add(d0.addr, 8);
                    if !fits(m, sa, 8) {
                        dma_fault(s, m, Exception::LoadAccessFault(sa as u64))
                    } else {
                        dma_copy(s, m, d1, le64(m, sa))
                    }
                }
            }
        }
    }
}

/// True when the ring walk and both descriptor reads of a transfer succeed.
pub open spec fn dma_resolved(s: VirtioState, m: Seq<u8>) -> bool {
    let dt = desc_table_addr(s);
    let av = avail_addr(s);
    &&& fits(m, av + 1, 2)
    &&& fits(m, av + le16(m, av + 1) % 8 + 2, 2)
    &&& fits(m, dt + 16 * le16(m, av + le16(m, av + 1) % 8 + 2), 16)
    &&& fits(m, dt + 16 * dma_head_desc(s, m).next, 16)
    &&& fits(m, wrap64_add(dma_head_desc(s, m).addr, 8), 8)
}

/// The request-header descriptor a transfer resolves.
pub open spec fn dma_head_desc(s: VirtioState, m: Seq<u8>) -> VirtqDesc {
    let dt = desc_table_addr(s);
    let av = avail_addr(s);
    desc_at(m, dt + 16 * le16(m, av + le16(m, av + 1) % 8 + 2))
}

/// The data descriptor a transfer resolves.
pub open spec fn dma_data_desc(s: VirtioState, m: Seq<u8>) -> VirtqDesc {
    desc_at(m, desc_table_addr(s) + 16 * dma_head_desc(s, m).next)
}

/// The sector number a transfer reads from the request header's buffer.
pub open spec fn dma_sector(s: VirtioState, m: Seq<u8>) -> int {
    le64(m, wrap64_add(dma_head_desc(s, m).addr, 8))
}

impl Virtio {
    /// One DMA transfer, triggered by a queue notification: walk the
    /// available ring, resolve the two-descriptor chain through the
    /// descriptor reader, copy the bytes between guest memory and the disk
    /// backing store, and mark the used ring.
    ///
    /// The whole effect on the processor context is `dma` applied to the
    /// device state and guest memory the call started from.
    #[verifier::loop_isolation(false)]
    #[verifier::rlimit(100)]
    pub fn disk_access(cpu: &mut Cpu) -> (r: Result<(), Exception>)
        ensures
            r == dma(old(cpu).bus.virtio@, old(cpu).bus.dram@).result,
            final(cpu).bus.dram@ == dma(old(cpu).bus.virtio@, old(cpu).bus.dram@).mem,
            final(cpu).bus.virtio@ == dma(old(cpu).bus.virtio@, old(cpu).bus.dram@).dev,
            final(cpu).pc == old(cpu).pc,
            final(cpu).timer == old(cpu).timer,
    {
        let ghost s0 = cpu.bus.virtio@;
        let ghost m0 = cpu.bus.dram@;
        let ghost o = dma(s0, m0);

        let desc_addr = cpu.bus.virtio.desc_addr();
        proof {
            assert((s0.queue_pfn as int) * (s0.page_size as int) <= 0xffff_ffff * 0xffff_ffff)
                by (nonlinear_arith)
                requires
                    s0.queue_pfn <= 0xffff_ffffu32,
                    s0.page_size <= 0xffff_ffffu32,
            ;
        }
        let avail_addr = desc_addr + 0x40;
        let used_addr = desc_addr + 4096;

        let offset = match cpu.bus.read16(avail_addr + 1) {
            Ok(v) => v,
            Err(e) => {
                return Err(e);
            },
        };
        let slot_addr = avail_addr + (offset as u64) % QUEUE_SIZE + 2;
        let index = match cpu.bus.read16(slot_addr) {
            Ok(v) => v,
            Err(e) => {
                return Err(e);
            },
        };

        let d0_addr = desc_addr + VRING_DESC_SIZE * (index as u64);
        let desc0 = match VirtqDesc::new(&cpu.bus.dram, d0_addr) {
            Ok(d) => d,
            Err(e) => {
                return Err(e);
            },
        };

        let d1_addr = desc_addr + VRING_DESC_SIZE * (desc0.next as u64);
        let desc1 = match VirtqDesc::new(&cpu.bus.dram, d1_addr) {
            Ok(d) => d,
            Err(e) => {
                return Err(e);
            },
        };

        let sector_addr = desc0.addr.wrapping_add(8);
        let sector = match cpu.bus.read64(sector_addr) {
            Ok(v) => v,
            Err(e) => {
                return Err(e);
            },
        };

        let ghost n = desc1.len as int;
        let ghost src = desc1.addr as int;
        let ghost base = sector as int * 512;
        let ghost ms = run_len(m0.len() as int, src, n);
        let ghost ds = run_len(s0.disk.len() as int, base, n);
        let ghost stop = if ms <= ds {
            ms
        } else {
            ds
        };
        proof {
            assert(o == dma_copy(s0, m0, desc1, sector as int));
        }

        let dlen = cpu.bus.virtio.disk.len() as u64;
        let base_ok = sector <= u64::MAX / SECTOR_SIZE;
        let base_val: u64 = if base_ok {
            sector * SECTOR_SIZE
        } else {
            0
        };
        proof {
            assert(dlen == s0.disk.len());
            if !base_ok {
                assert(base >= 0x1_0000_0000_0000_0000);
                assert(ds == 0);
            }
        }

        if desc1.flags & 2 == 0 {
            // guest memory to disk
            let mut i: u32 = 0;
            while i < desc1.len
                invariant
                    i <= desc1.len,
                    i as int <= ms,
                    i as int <= ds,
                    n == desc1.len as int,
                    src == desc1.addr as int,
                    base == sector as int * 512,
                    ms == run_len(m0.len() as int, src, n),
                    ds == run_len(s0.disk.len() as int, base, n),
                    stop == if ms <= ds { ms } else { ds },
                    o == dma_copy(s0, m0, desc1, sector as int),
                    m0.len() <= usize::MAX,
                    dlen == s0.disk.len(),
                    base_ok ==> base_val == base,
                    !base_ok ==> ds == 0,
                    cpu.bus.dram@ == m0,
                    cpu.bus.virtio@ == (VirtioState {
                        disk: copy_into(s0.disk, base, m0, src, i as int),
                        ..s0
                    }),
                    cpu.pc == old(cpu).pc,
                    cpu.timer == old(cpu).timer,
                    used_addr == desc_table_addr(s0) + 4096,
                decreases desc1.len - i,
            {
                let a = desc1.addr + i as u64;
                let data = match cpu.bus.read8(a) {
                    Ok(d) => d,
                    Err(e) => {
                        proof {
                            assert(i as int == ms && ms <= ds && stop < n);
                        }
                        return Err(e);
                    },
                };
                if !base_ok || !(base_val < dlen && (i as u64) < dlen - base_val) {
                    proof {
                        assert(i as int == ds && ds < ms && stop < n);
                    }
                    return Err(Exception::DiskAccessFault);
                }
                let off = base_val + i as u64;
                cpu.bus.virtio.write_disk(off, data as u64);
                proof {
                    assert(cpu.bus.virtio@.disk =~= copy_into(
                        s0.disk,
                        base,
                        m0,
                        src,
                        i as int + 1,
                    ));
                    assert(cpu.bus.virtio@ =~= (VirtioState {
                        disk: copy_into(s0.disk, base, m0, src, i as int + 1),
                        ..s0
                    }));
                }
                i = i + 1;
            }
            proof {
                assert(stop == n);
                assert(o == dma_finish(
                    VirtioState { disk: copy_into(s0.disk, base, m0, src, stop), ..s0 },
                    m0,
                ));
            }
            let new_id = cpu.bus.virtio.get_new_id();
            proof {
                assert(cpu.bus.virtio@ =~= (VirtioState {
                    id: wrapping_inc(s0.id),
                    disk: copy_into(s0.disk, base, m0, src, stop),
                    ..s0
                }));
            }
            match cpu.bus.write16(used_addr + 2, (new_id % QUEUE_SIZE) as u16) {
                Ok(_) => Ok(()),
                Err(e) => Err(e),
            }
        } else {
            // disk to guest memory
            let mut i: u32 = 0;
            while i < desc1.len
                invariant
                    i <= desc1.len,
                    i as int <= ms,
                    i as int <= ds,
                    n == desc1.len as int,
                    src == desc1.addr as int,
                    base == sector as int * 512,
                    ms == run_len(m0.len() as int, src, n),
                    ds == run_len(s0.disk.len() as int, base, n),
                    stop == if ms <= ds { ms } else { ds },
                    o == dma_copy(s0, m0, desc1, sector as int),
                    m0.len() <= usize::MAX,
                    dlen == s0.disk.len(),
                    base_ok ==> base_val == base,
                    !base_ok ==> ds == 0,
                    cpu.bus.dram@ == copy_into(m0, src, s0.disk, base, i as int),
                    cpu.bus.virtio@ == s0,
                    cpu.pc == old(cpu).pc,
                    cpu.timer == old(cpu).timer,
                    used_addr == desc_table_addr(s0) + 4096,
                decreases desc1.len - i,
            {
                if !base_ok || !(base_val < dlen && (i as u64) < dlen - base_val) {
                    proof {
                        assert(i as int == ds && ds <= ms && stop < n);
                    }
                    return Err(Exception::DiskAccessFault);
                }
                let off = base_val + i as u64;
                let data = cpu.bus.virtio.read_disk(off);
                let a = desc1.addr + i as u64;
                match cpu.bus.write8(a, data as u8) {
                    Ok(_) => {
                        proof {
                            assert(cpu.bus.dram@ =~= copy_into(
                                m0,
                                src,
                                s0.disk,
                                base,
                                i as int + 1,
                            ));
                        }
                    },
                    Err(e) => {
                        proof {
                            assert(i as int == ms && ms < ds && stop < n);
                        }
                        return Err(e);
                    },
                }
                i = i + 1;
            }
            proof {
                assert(stop == n);
                assert(o == dma_finish(s0, copy_into(m0, src, s0.disk, base, stop)));
            }
            let new_id = cpu.bus.virtio.get_new_id();
            proof {
                assert(cpu.bus.virtio@ =~= (VirtioState { id: wrapping_inc(s0.id), ..s0 }));
            }
            match cpu.bus.write16(used_addr + 2, (new_id % QUEUE_SIZE) as u16) {
                Ok(_) => Ok(()),
                Err(e) => Err(e),
            }
        }
    }
}

/// The read-only registers report their fixed constants in every device
/// state, so their values are independent of any prior write.
pub proof fn lemma_read_only_registers(s: VirtioState, addr: u64, val: u32)
    ensures
        spec_read(s, VIRTIO_MAGIC) == 0x74726976,
        spec_read(s, VIRTIO_VERSION) == 1,
        spec_read(s, VIRTIO_DEVICE_ID) == 2,
        spec_read(s, VIRTIO_VENDOR_ID) == 0x554d4551,
        spec_read(s, VIRTIO_QUEUE_NUM_MAX) == 8,
        spec_read(s, VIRTIO_DEVICE_FEATURES) == 0,
        spec_read(spec_write(s, addr, val), VIRTIO_MAGIC) == spec_read(s, VIRTIO_MAGIC),
        spec_read(spec_write(s, addr, val), VIRTIO_VERSION) == spec_read(s, VIRTIO_VERSION),
        spec_read(spec_write(s, addr, val), VIRTIO_DEVICE_ID) == spec_read(s, VIRTIO_DEVICE_ID),
        spec_read(spec_write(s, addr, val), VIRTIO_VENDOR_ID) == spec_read(s, VIRTIO_VENDOR_ID),
        spec_read(spec_write(s, addr, val), VIRTIO_QUEUE_NUM_MAX) == spec_read(
            s,
            VIRTIO_QUEUE_NUM_MAX,
        ),
{
}

/// For the read/write registers, a write followed by a read returns exactly
/// the written 32-bit value. The driver-features register is written through
/// the device-features address, as the legacy layout prescribes.
pub proof fn lemma_write_read_roundtrip(s: VirtioState, val: u32)
    ensures
        spec_read(spec_write(s, VIRTIO_DEVICE_FEATURES, val), VIRTIO_DRIVER_FEATURES) == val,
        spec_read(spec_write(s, VIRTIO_QUEUE_PFN, val), VIRTIO_QUEUE_PFN) == val,
        spec_read(spec_write(s, VIRTIO_STATUS, val), VIRTIO_STATUS) == val,
{
}

/// Reading any unmapped address returns zero.
pub proof fn lemma_unmapped_read(s: VirtioState, addr: u64)
    requires
        addr != VIRTIO_MAGIC,
        addr != VIRTIO_VERSION,
        addr != VIRTIO_DEVICE_ID,
        addr != VIRTIO_VENDOR_ID,
        addr != VIRTIO_DEVICE_FEATURES,
        addr != VIRTIO_DRIVER_FEATURES,
        addr != VIRTIO_QUEUE_NUM_MAX,
        addr != VIRTIO_QUEUE_PFN,
        addr != VIRTIO_STATUS,
    ensures
        spec_read(s, addr) == 0,
{
}

/// Writing any unmapped address is a no-op.
pub proof fn lemma_unmapped_write(s: VirtioState, addr: u64, val: u32)
    requires
        addr != VIRTIO_DEVICE_FEATURES,
        addr != VIRTIO_GUEST_PAGE_SIZE,
        addr != VIRTIO_QUEUE_SEL,
        addr != VIRTIO_QUEUE_NUM,
        addr != VIRTIO_QUEUE_PFN,
        addr != VIRTIO_QUEUE_NOTIFY,
        addr != VIRTIO_STATUS,
    ensures
        spec_write(s, addr, val) == s,
{
}

/// The interrupt is edge-triggered: a queue-notify write arms it,
/// acknowledging it clears it, and no write to another address arms it.
/// So it is observed exactly once per notify write.
pub proof fn lemma_notify_edge(s: VirtioState, val: u32, addr: u64, other: u32)
    ensures
        interrupt_pending(spec_write(s, VIRTIO_QUEUE_NOTIFY, val)),
        !interrupt_pending(ack_notify(s)),
        addr != VIRTIO_QUEUE_NOTIFY ==> spec_write(s, addr, other).notify == s.notify,
{
}

/// Request ids step by one, wrapping at the top of the counter, and their
/// used-ring marks cycle through 0 to 7 in order.
pub proof fn lemma_request_id_cycle(id: u64)
    ensures
        id != u64::MAX ==> wrapping_inc(id) == id + 1,
        wrapping_inc(id) % 8 == ((id % 8) + 1) % 8,
{
    if id == u64::MAX {
        assert(id % 8 == 7);
        assert(wrapping_inc(id) % 8 == 0);
    } else {
        lemma_add_mod_noop(id as int, 1, 8);
    }
}

/// Disk-to-guest fidelity: with the device-writable flag set and the buffer,
/// the sector range and the used-ring mark all in bounds, the transfer
/// succeeds, the guest buffer afterwards holds exactly the disk bytes, and
/// the device keeps every register and its disk, only taking a request id.
/// The used-ring mark must lie outside the data buffer, else it would
/// overwrite two of the copied bytes.
pub proof fn lemma_disk_to_guest_fidelity(s: VirtioState, m: Seq<u8>)
    requires
        dma_resolved(s, m),
        dma_data_desc(s, m).flags & 2 != 0,
        dma_data_desc(s, m).addr + dma_data_desc(s, m).len <= m.len(),
        dma_sector(s, m) * 512 + dma_data_desc(s, m).len <= s.disk.len(),
        fits(m, used_addr(s) + 2, 2),
        used_addr(s) + 4 <= dma_data_desc(s, m).addr || dma_data_desc(s, m).addr + dma_data_desc(
            s,
            m,
        ).len <= used_addr(s) + 2,
    ensures
        dma(s, m).result is Ok,
        dma(s, m).mem.len() == m.len(),
        forall|j: int|
            dma_data_desc(s, m).addr <= j < dma_data_desc(s, m).addr + dma_data_desc(s, m).len
                ==> #[trigger] dma(s, m).mem[j] == s.disk[dma_sector(s, m) * 512 + (j
                - dma_data_desc(s, m).addr)],
        dma(s, m).dev == (VirtioState { id: wrapping_inc(s.id), ..s }),
{
    let d1 = dma_data_desc(s, m);
    let sector = dma_sector(s, m);
    let n = d1.len as int;
    let src = d1.addr as int;
    let base = sector * 512;
    let m2 = copy_into(m, src, s.disk, base, n);
    assert(run_len(m.len() as int, src, n) == n);
    assert(run_len(s.disk.len() as int, base, n) == n);
    assert(dma(s, m) == dma_finish(s, m2));
    assert forall|j: int| src <= j < src + n implies #[trigger] dma(s, m).mem[j] == s.disk[base + (
    j - src)] by {
        assert(m2[j] == s.disk[base + (j - src)]);
    }
    assert(dma(s, m).dev =~= (VirtioState { id: wrapping_inc(s.id), ..s }));
}

/// Guest-to-disk fidelity: with the device-writable flag clear and the
/// buffer, the sector range and the used-ring mark all in bounds, the
/// transfer succeeds, the disk afterwards holds exactly the guest bytes at
/// the sector's byte offset and is untouched elsewhere, and guest memory
/// changes only by the used-ring mark.
pub proof fn lemma_guest_to_disk_fidelity(s: VirtioState, m: Seq<u8>)
    requires
        dma_resolved(s, m),
        dma_data_desc(s, m).flags & 2 == 0,
        dma_data_desc(s, m).addr + dma_data_desc(s, m).len <= m.len(),
        dma_sector(s, m) * 512 + dma_data_desc(s, m).len <= s.disk.len(),
        fits(m, used_addr(s) + 2, 2),
    ensures
        dma(s, m).result is Ok,
        dma(s, m).dev.disk.len() == s.disk.len(),
        forall|j: int|
            dma_sector(s, m) * 512 <= j < dma_sector(s, m) * 512 + dma_data_desc(s, m).len
                ==> #[trigger] dma(s, m).dev.disk[j] == m[dma_data_desc(s, m).addr + (j
                - dma_sector(s, m) * 512)],
        forall|j: int|
            0 <= j < s.disk.len() && !(dma_sector(s, m) * 512 <= j < dma_sector(s, m) * 512
                + dma_data_desc(s, m).len) ==> #[trigger] dma(s, m).dev.disk[j] == s.disk[j],
        dma(s, m).dev.id == wrapping_inc(s.id),
        dma(s, m).mem == store16(m, used_addr(s) + 2, wrapping_inc(s.id) as int % 8),
{
    let d1 = dma_data_desc(s, m);
    let sector = dma_sector(s, m);
    let n = d1.len as int;
    let src = d1.addr as int;
    let base = sector * 512;
    let disk2 = copy_into(s.disk, base, m, src, n);
    assert(run_len(m.len() as int, src, n) == n);
    assert(run_len(s.disk.len() as int, base, n) == n);
    assert(dma(s, m) == dma_finish(VirtioState { disk: disk2, ..s }, m));
    assert forall|j: int| base <= j < base + n implies #[trigger] dma(s, m).dev.disk[j] == m[src + (
    j - base)] by {
        assert(disk2[j] == m[src + (j - base)]);
    }
}

} // verus!
