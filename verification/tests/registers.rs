use rvemu::virtio::{
    Virtio, VIRTIO_BASE, VIRTIO_DEVICE_FEATURES, VIRTIO_DEVICE_ID, VIRTIO_DRIVER_FEATURES,
    VIRTIO_GUEST_PAGE_SIZE, VIRTIO_MAGIC, VIRTIO_QUEUE_NOTIFY, VIRTIO_QUEUE_NUM,
    VIRTIO_QUEUE_NUM_MAX, VIRTIO_QUEUE_PFN, VIRTIO_QUEUE_SEL, VIRTIO_STATUS, VIRTIO_VENDOR_ID,
    VIRTIO_VERSION,
};

#[test]
fn read_only_registers_report_fixed_constants() {
    let mut v = Virtio::new();
    assert_eq!(v.read(VIRTIO_MAGIC), 0x74726976);
    assert_eq!(v.read(VIRTIO_VERSION), 1);
    assert_eq!(v.read(VIRTIO_DEVICE_ID), 2);
    assert_eq!(v.read(VIRTIO_VENDOR_ID), 0x554d4551);
    assert_eq!(v.read(VIRTIO_QUEUE_NUM_MAX), 8);
    assert_eq!(v.read(VIRTIO_DEVICE_FEATURES), 0);

    // prior writes leave the read-only registers untouched
    v.write(VIRTIO_DEVICE_FEATURES, 0xdead_beef);
    v.write(VIRTIO_GUEST_PAGE_SIZE, 4096);
    v.write(VIRTIO_QUEUE_SEL, 3);
    v.write(VIRTIO_QUEUE_NUM, 99);
    v.write(VIRTIO_QUEUE_PFN, 77);
    v.write(VIRTIO_STATUS, 0xff);
    assert_eq!(v.read(VIRTIO_MAGIC), 0x74726976);
    assert_eq!(v.read(VIRTIO_VERSION), 1);
    assert_eq!(v.read(VIRTIO_DEVICE_ID), 2);
    assert_eq!(v.read(VIRTIO_VENDOR_ID), 0x554d4551);
    assert_eq!(v.read(VIRTIO_QUEUE_NUM_MAX), 8);
    assert_eq!(v.read(VIRTIO_DEVICE_FEATURES), 0);
}

#[test]
fn read_write_registers_return_last_written_value() {
    let mut v = Virtio::new();
    v.write(VIRTIO_DEVICE_FEATURES, 0x1234_5678);
    assert_eq!(v.read(VIRTIO_DRIVER_FEATURES), 0x1234_5678);
    v.write(VIRTIO_QUEUE_PFN, 0xcafe_f00d);
    assert_eq!(v.read(VIRTIO_QUEUE_PFN), 0xcafe_f00d);
    v.write(VIRTIO_STATUS, 0x0000_000f);
    assert_eq!(v.read(VIRTIO_STATUS), 0x0000_000f);
    v.write(VIRTIO_STATUS, 0);
    assert_eq!(v.read(VIRTIO_STATUS), 0);
}

#[test]
fn unmapped_addresses_read_zero_and_ignore_writes() {
    let mut v = Virtio::new();
    v.write(VIRTIO_QUEUE_PFN, 5);
    v.write(VIRTIO_STATUS, 6);
    // unmapped writes are no-ops
    v.write(VIRTIO_BASE + 0x014, 0xffff_ffff);
    v.write(VIRTIO_BASE + 0x100, 0xffff_ffff);
    v.write(0, 0xffff_ffff);
    assert_eq!(v.read(VIRTIO_QUEUE_PFN), 5);
    assert_eq!(v.read(VIRTIO_STATUS), 6);
    // unmapped reads return zero; so do the write-only registers
    assert_eq!(v.read(VIRTIO_BASE + 0x014), 0);
    assert_eq!(v.read(VIRTIO_BASE + 0x100), 0);
    assert_eq!(v.read(0), 0);
    assert_eq!(v.read(VIRTIO_GUEST_PAGE_SIZE), 0);
    assert_eq!(v.read(VIRTIO_QUEUE_NOTIFY), 0);
}

#[test]
fn notify_interrupt_is_edge_triggered() {
    let mut v = Virtio::new();
    assert!(!v.is_interrupting());
    v.write(VIRTIO_QUEUE_NOTIFY, 0);
    assert!(v.is_interrupting());
    assert!(!v.is_interrupting());
    assert!(!v.is_interrupting());
    v.write(VIRTIO_QUEUE_NOTIFY, 3);
    assert!(v.is_interrupting());
    assert!(!v.is_interrupting());
    // writes to other registers do not arm the interrupt
    v.write(VIRTIO_STATUS, 1);
    v.write(VIRTIO_QUEUE_PFN, 1);
    assert!(!v.is_interrupting());
}

#[test]
fn desc_addr_multiplies_pfn_by_page_size() {
    let mut v = Virtio::new();
    v.write(VIRTIO_GUEST_PAGE_SIZE, 4096);
    v.write(VIRTIO_QUEUE_PFN, 3);
    assert_eq!(v.desc_addr(), 3 * 4096);
    // the largest values do not overflow the 64-bit product
    v.write(VIRTIO_GUEST_PAGE_SIZE, 0xffff_ffff);
    v.write(VIRTIO_QUEUE_PFN, 0xffff_ffff);
    assert_eq!(v.desc_addr(), 0xffff_ffff_u64 * 0xffff_ffff_u64);
}
