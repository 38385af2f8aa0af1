use rvemu::dram::Dram;
use rvemu::exception::Exception;
use rvemu::virtio::VirtqDesc;

#[test]
fn reads_decode_little_endian() {
    let mut d = Dram::new();
    d.set_binary(vec![0x11, 0x22, 0x33, 0x44, 0x55, 0x66, 0x77, 0x88, 0x99]);
    assert_eq!(d.read8(0), Ok(0x11));
    assert_eq!(d.read8(8), Ok(0x99));
    assert_eq!(d.read16(0), Ok(0x2211));
    assert_eq!(d.read16(7), Ok(0x9988));
    assert_eq!(d.read32(1), Ok(0x5544_3322));
    assert_eq!(d.read64(0), Ok(0x8877_6655_4433_2211));
    assert_eq!(d.read64(1), Ok(0x9988_7766_5544_3322));
}

#[test]
fn reads_beyond_the_image_fault_with_the_address() {
    let mut d = Dram::new();
    d.set_binary(vec![0; 8]);
    assert_eq!(d.read8(8), Err(Exception::LoadAccessFault(8)));
    assert_eq!(d.read16(7), Err(Exception::LoadAccessFault(7)));
    assert_eq!(d.read32(5), Err(Exception::LoadAccessFault(5)));
    assert_eq!(d.read64(1), Err(Exception::LoadAccessFault(1)));
    assert_eq!(d.read8(u64::MAX), Err(Exception::LoadAccessFault(u64::MAX)));
    let e = Dram::new();
    assert_eq!(e.read16(0), Err(Exception::LoadAccessFault(0)));
}

#[test]
fn writes_store_bytes_and_fault_beyond_the_image() {
    let mut d = Dram::new();
    d.set_binary(vec![0; 4]);
    assert_eq!(d.write8(1, 0xab), Ok(()));
    assert_eq!(d.read8(1), Ok(0xab));
    assert_eq!(d.write16(2, 0xbeef), Ok(()));
    assert_eq!(d.read8(2), Ok(0xef));
    assert_eq!(d.read8(3), Ok(0xbe));
    assert_eq!(d.write8(4, 1), Err(Exception::StoreAccessFault(4)));
    assert_eq!(d.write16(3, 1), Err(Exception::StoreAccessFault(3)));
    // the failed writes left memory as it was
    assert_eq!(d.read32(0), Ok(0xbeef_ab00));
}

#[test]
fn descriptor_reader_decodes_sixteen_bytes() {
    let mut d = Dram::new();
    let mut image = vec![0u8; 32];
    // at 16: addr, len, flags, next, all little-endian
    image[16..24].copy_from_slice(&0x0102_0304_0506_0708_u64.to_le_bytes());
    image[24..28].copy_from_slice(&0x0000_0200_u32.to_le_bytes());
    image[28..30].copy_from_slice(&0x0003_u16.to_le_bytes());
    image[30..32].copy_from_slice(&0x0001_u16.to_le_bytes());
    d.set_binary(image);
    let desc = VirtqDesc::new(&d, 16).unwrap();
    assert_eq!(desc.addr, 0x0102_0304_0506_0708);
    assert_eq!(desc.len, 0x200);
    assert_eq!(desc.flags, 3);
    assert_eq!(desc.next, 1);
}

#[test]
fn descriptor_reader_faults_when_the_entry_is_cut_short() {
    let mut d = Dram::new();
    d.set_binary(vec![0; 20]);
    // the 64-bit address still fits; the 32-bit length read at 16 + 8 does not
    assert_eq!(VirtqDesc::new(&d, 16), Err(Exception::LoadAccessFault(16)));
    assert_eq!(VirtqDesc::new(&d, 10), Err(Exception::LoadAccessFault(18)));
}
