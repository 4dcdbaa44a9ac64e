use bincode::Options;
use elflib::codec::{read_u16, read_u32, read_u64};
use elflib::ElfError;

#[test]
fn read_u16_is_little_endian() {
    let bytes = [0x34u8, 0x12, 0xff];
    assert_eq!(read_u16(&bytes, 0), Ok(0x1234));
    assert_eq!(read_u16(&bytes, 1), Ok(0xff12));
}

#[test]
fn read_u32_is_little_endian() {
    let bytes = [0x00u8, 0x78, 0x56, 0x34, 0x12];
    assert_eq!(read_u32(&bytes, 1), Ok(0x1234_5678));
    assert_eq!(read_u32(&bytes, 0), Ok(0x3456_7800));
}

#[test]
fn read_u64_is_little_endian() {
    let bytes = [0xefu8, 0xcd, 0xab, 0x89, 0x67, 0x45, 0x23, 0x01, 0xaa];
    assert_eq!(read_u64(&bytes, 0), Ok(0x0123_4567_89ab_cdef));
    assert_eq!(read_u64(&bytes, 1), Ok(0xaa01_2345_6789_abcd));
}

#[test]
fn read_takes_the_largest_values() {
    let bytes = [0xffu8; 8];
    assert_eq!(read_u16(&bytes, 6), Ok(u16::MAX));
    assert_eq!(read_u32(&bytes, 4), Ok(u32::MAX));
    assert_eq!(read_u64(&bytes, 0), Ok(u64::MAX));
}

#[test]
fn read_beyond_the_end_is_short() {
    let bytes = [1u8, 2, 3, 4, 5, 6, 7, 8];
    assert_eq!(read_u16(&bytes, 7), Err(ElfError::ShortBuffer));
    assert_eq!(read_u16(&bytes, 8), Err(ElfError::ShortBuffer));
    assert_eq!(read_u32(&bytes, 5), Err(ElfError::ShortBuffer));
    assert_eq!(read_u64(&bytes, 1), Err(ElfError::ShortBuffer));
    assert_eq!(read_u64(&bytes, usize::MAX), Err(ElfError::ShortBuffer));
    assert_eq!(read_u16(&[], 0), Err(ElfError::ShortBuffer));
    assert_eq!(read_u32(&[1, 2, 3], 0), Err(ElfError::ShortBuffer));
}

#[test]
fn read_agrees_with_what_bincode_writes() {
    let written = bincode::options()
        .with_fixint_encoding()
        .serialize(&(0xbeefu16, 0xdead_beefu32, 0x0102_0304_0506_0708u64))
        .unwrap();
    assert_eq!(written.len(), 14);
    assert_eq!(read_u16(&written, 0), Ok(0xbeef));
    assert_eq!(read_u32(&written, 2), Ok(0xdead_beef));
    assert_eq!(read_u64(&written, 6), Ok(0x0102_0304_0506_0708));
}
