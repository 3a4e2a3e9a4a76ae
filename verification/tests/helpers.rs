use rjvm::error::DecodeError;
use rjvm::helpers::{
    get_i16, get_i32, get_i64, get_i8, get_u16, get_u32, get_u64, get_u8, take_n, take_slice, to_i16, to_i32,
    to_i64, to_i8,
};

#[test]
fn get_u8_takes_one_byte() {
    let data = [0x12u8, 0x34];
    let mut buf: &[u8] = &data;
    assert_eq!(get_u8(&mut buf), Ok(0x12));
    assert_eq!(buf, &[0x34u8][..]);
}

#[test]
fn get_u8_on_empty_input_fails() {
    let mut buf: &[u8] = &[];
    assert_eq!(get_u8(&mut buf), Err(DecodeError::UnexpectedEnd));
}

#[test]
fn get_i8_is_signed() {
    let data = [0xffu8, 0x7f, 0x80];
    let mut buf: &[u8] = &data;
    assert_eq!(get_i8(&mut buf), Ok(-1));
    assert_eq!(get_i8(&mut buf), Ok(127));
    assert_eq!(get_i8(&mut buf), Ok(-128));
    assert_eq!(get_i8(&mut buf), Err(DecodeError::UnexpectedEnd));
}

#[test]
fn get_u16_is_big_endian() {
    let data = [0x12u8, 0x34, 0xff];
    let mut buf: &[u8] = &data;
    assert_eq!(get_u16(&mut buf), Ok(0x1234));
    assert_eq!(buf.len(), 1);
    assert_eq!(get_u16(&mut buf), Err(DecodeError::UnexpectedEnd));
    assert_eq!(buf.len(), 1);
}

#[test]
fn get_i16_is_signed() {
    let data = [0xffu8, 0xfe, 0x80, 0x00, 0x7f, 0xff];
    let mut buf: &[u8] = &data;
    assert_eq!(get_i16(&mut buf), Ok(-2));
    assert_eq!(get_i16(&mut buf), Ok(i16::MIN));
    assert_eq!(get_i16(&mut buf), Ok(i16::MAX));
}

#[test]
fn get_u32_is_big_endian() {
    let data = [0xcau8, 0xfe, 0xba, 0xbe];
    let mut buf: &[u8] = &data;
    assert_eq!(get_u32(&mut buf), Ok(0xcafebabe));
    assert!(buf.is_empty());
}

#[test]
fn get_i32_is_signed() {
    let data = [0xffu8, 0xff, 0xff, 0xfd, 0x80, 0, 0, 0];
    let mut buf: &[u8] = &data;
    assert_eq!(get_i32(&mut buf), Ok(-3));
    assert_eq!(get_i32(&mut buf), Ok(i32::MIN));
    assert_eq!(get_i32(&mut buf), Err(DecodeError::UnexpectedEnd));
}

#[test]
fn take_n_splits_the_buffer() {
    let data = [1u8, 2, 3, 4, 5];
    let mut buf: &[u8] = &data;
    assert_eq!(take_n(2, &mut buf), Ok(vec![1, 2]));
    assert_eq!(buf, &[3u8, 4, 5][..]);
    assert_eq!(take_n(4, &mut buf), Err(DecodeError::UnexpectedEnd));
    assert_eq!(take_n(0, &mut buf), Ok(vec![]));
    assert_eq!(take_n(3, &mut buf), Ok(vec![3, 4, 5]));
}

#[test]
fn sixty_four_bit_numbers_are_big_endian() {
    let data = [0u8, 0, 0, 1, 0, 0, 0, 2, 0xff, 0xff, 0xff, 0xff, 0xff, 0xff, 0xff, 0xfd, 1];
    let mut buf: &[u8] = &data;
    assert_eq!(get_u64(&mut buf), Ok((1 << 32) + 2));
    assert_eq!(get_i64(&mut buf), Ok(-3));
    assert_eq!(buf.len(), 1);
    assert_eq!(get_u64(&mut buf), Err(DecodeError::UnexpectedEnd));
    assert_eq!(get_i64(&mut buf), Err(DecodeError::UnexpectedEnd));
    assert_eq!(buf.len(), 1);
}

#[test]
fn take_slice_borrows_the_front() {
    let data = [1u8, 2, 3];
    let mut buf: &[u8] = &data;
    assert_eq!(take_slice(2, &mut buf), Ok(&[1u8, 2][..]));
    assert_eq!(buf, &[3u8][..]);
    assert_eq!(take_slice(2, &mut buf), Err(DecodeError::UnexpectedEnd));
    assert_eq!(take_slice(0, &mut buf), Ok(&[][..]));
    assert_eq!(buf.len(), 1);
}

#[test]
fn bit_patterns_are_reinterpreted() {
    assert_eq!(to_i8(0), 0);
    assert_eq!(to_i8(127), 127);
    assert_eq!(to_i8(128), -128);
    assert_eq!(to_i8(255), -1);
    assert_eq!(to_i16(0x7fff), i16::MAX);
    assert_eq!(to_i16(0x8000), i16::MIN);
    assert_eq!(to_i16(0xffff), -1);
    assert_eq!(to_i32(0x7fff_ffff), i32::MAX);
    assert_eq!(to_i32(0x8000_0000), i32::MIN);
    assert_eq!(to_i32(0xffff_ffff), -1);
    assert_eq!(to_i64(0x7fff_ffff_ffff_ffff), i64::MAX);
    assert_eq!(to_i64(0x8000_0000_0000_0000), i64::MIN);
    assert_eq!(to_i64(u64::MAX), -1);
}
