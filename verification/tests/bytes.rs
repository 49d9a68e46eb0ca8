use sol_parser_sdk::bytes::{
    bytes_eq, read_bool, read_i128_le, read_i32_le, read_i64_le, read_pubkey, read_u128_le, read_u16_le,
    read_u32_le, read_u32_array, read_u64_array, read_u64_at, read_u64_le, read_u8, starts_with,
};

#[test]
fn readers_are_little_endian_and_bounds_checked() {
    let data: Vec<u8> = (1..=20).collect();
    assert_eq!(read_u8(&data, 19), Some(20));
    assert_eq!(read_u8(&data, 20), None);
    assert_eq!(read_u16_le(&data, 0), Some(0x0201));
    assert_eq!(read_u16_le(&data, 19), None);
    assert_eq!(read_u32_le(&data, 1), Some(0x05040302));
    assert_eq!(read_u64_le(&data, 12), Some(0x14131211100F0E0D));
    assert_eq!(read_u64_le(&data, 13), None);
    assert_eq!(read_u128_le(&data, 4), Some(u128::from_le_bytes(data[4..20].try_into().unwrap())));
    assert_eq!(read_u128_le(&data, 5), None);
    assert_eq!(read_u64_le(&data, usize::MAX), None);
    assert_eq!(read_i32_le(&[0xFF, 0xFF, 0xFF, 0xFF], 0), Some(-1));
    assert_eq!(read_i32_le(&[0, 0, 0, 0x80], 0), Some(i32::MIN));
    assert_eq!(read_i128_le(&[0xFF; 16], 0), Some(-1));
    let mut min = [0u8; 16];
    min[15] = 0x80;
    assert_eq!(read_i128_le(&min, 0), Some(i128::MIN));
    assert_eq!(read_bool(&[1, 0, 2], 0), Some(true));
    assert_eq!(read_bool(&[1, 0, 2], 1), Some(false));
    assert_eq!(read_bool(&[1, 0, 2], 2), Some(false));
    assert_eq!(read_bool(&[1, 0, 2], 3), None);
    assert_eq!(read_pubkey(&[7u8; 40], 8).map(|k| k.0), Some([7u8; 32]));
    assert!(read_pubkey(&[7u8; 40], 9).is_none());
}

#[test]
fn cursor_readers_advance_only_on_success() {
    let data: Vec<u8> = (0..24).collect();
    let mut off = 0usize;
    assert!(read_u64_at(&data, &mut off).is_some());
    assert_eq!(off, 8);
    let arr = read_u64_array::<2>(&data, &mut off).unwrap();
    assert_eq!(off, 24);
    assert_eq!(arr[1], u64::from_le_bytes(data[16..24].try_into().unwrap()));
    assert!(read_u64_at(&data, &mut off).is_none());
    assert_eq!(off, 24);
    let mut off = 20usize;
    assert!(read_u64_array::<1>(&data, &mut off).is_none());
    assert_eq!(off, 20);
}

#[test]
fn byte_comparisons() {
    assert!(bytes_eq(&[1, 2], &[1, 2]));
    assert!(!bytes_eq(&[1, 2], &[1, 3]));
    assert!(!bytes_eq(&[1, 2], &[1]));
    assert!(starts_with(&[1, 2, 3], &[1, 2]));
    assert!(!starts_with(&[1], &[1, 2]));
    assert!(starts_with(&[1], &[]));
}

#[test]
fn signed_64_bit_reader() {
    let data = (-2i64).to_le_bytes();
    assert_eq!(read_i64_le(&data, 0), Some(-2));
    let data = i64::MAX.to_le_bytes();
    assert_eq!(read_i64_le(&data, 0), Some(i64::MAX));
    let data = i64::MIN.to_le_bytes();
    assert_eq!(read_i64_le(&data, 0), Some(i64::MIN));
    assert_eq!(read_i64_le(&data, 1), None);
}

#[test]
fn array_readers_advance_past_each_number_read() {
    let data: Vec<u8> = (0..24).collect();
    // Two of the three numbers are there: the cursor stops after the second.
    let mut off = 4usize;
    assert!(read_u64_array::<3>(&data, &mut off).is_none());
    assert_eq!(off, 20);
    let mut off = 2usize;
    assert!(read_u32_array::<6>(&data, &mut off).is_none());
    assert_eq!(off, 22);
    // A cursor past the end stays where it is.
    let mut off = 30usize;
    assert!(read_u32_array::<1>(&data, &mut off).is_none());
    assert_eq!(off, 30);
    // Reading no numbers always succeeds.
    let mut off = 30usize;
    assert_eq!(read_u32_array::<0>(&data, &mut off), Some([]));
    assert_eq!(off, 30);
}
