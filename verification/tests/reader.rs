//! Bit-level reader behaviour: fixed-width reads, Exp-Golomb codes, the
//! look-ahead predicate, and trailing-pattern validation.

use h265_reader::rbsp::BitReader;
use h265_reader::rbsp::BitReaderError;

#[test]
fn read_bool_and_fixed_width() {
    let data = [0b1010_1100u8, 0b0101_0011];
    let mut r = BitReader::new(&data);
    assert_eq!(r.read_bool("a"), Ok(true));
    assert_eq!(r.read_bool("b"), Ok(false));
    assert_eq!(r.read_u8(3, "c"), Ok(0b101));
    assert_eq!(r.read_u8(3, "d"), Ok(0b100));
    assert_eq!(r.read_u16(8, "e"), Ok(0b0101_0011));
}

#[test]
fn read_u32_spans_bytes() {
    let data = [0x12u8, 0x34, 0x56, 0x78, 0x9a];
    let mut r = BitReader::new(&data);
    assert_eq!(r.read_u32(32, "w"), Ok(0x1234_5678));
    assert_eq!(r.read_u8(8, "x"), Ok(0x9a));
}

#[test]
fn exp_golomb_table() {
    // `1` -> 0
    let mut r = BitReader::new(&[0b1000_0000u8]);
    assert_eq!(r.read_ue("v"), Ok(0));
    // `010` -> 1
    let mut r = BitReader::new(&[0b0100_0000u8]);
    assert_eq!(r.read_ue("v"), Ok(1));
    // `011` -> 2
    let mut r = BitReader::new(&[0b0110_0000u8]);
    assert_eq!(r.read_ue("v"), Ok(2));
    // `00100` -> 3
    let mut r = BitReader::new(&[0b0010_0000u8]);
    assert_eq!(r.read_ue("v"), Ok(3));
    // `00111` -> 6
    let mut r = BitReader::new(&[0b0011_1000u8]);
    assert_eq!(r.read_ue("v"), Ok(6));
    // `0001000` -> 7
    let mut r = BitReader::new(&[0b0001_0000u8]);
    assert_eq!(r.read_ue("v"), Ok(7));
}

#[test]
fn exp_golomb_consumes_exactly_its_bits() {
    // `010` then `1` then `011` packed together: 0101011_0.
    let mut r = BitReader::new(&[0b0101_0110u8]);
    assert_eq!(r.read_ue("a"), Ok(1));
    assert_eq!(r.read_ue("b"), Ok(0));
    assert_eq!(r.read_ue("c"), Ok(2));
}

#[test]
fn signed_exp_golomb_zigzag() {
    // codes 0,1,2,3 map to 0, -1, 1, -2 per the even/odd rule.
    let mut r = BitReader::new(&[0b1010_0110u8, 0b0100_0000]);
    assert_eq!(r.read_se("a"), Ok(0));
    assert_eq!(r.read_se("b"), Ok(-1));
    assert_eq!(r.read_se("c"), Ok(1));
    assert_eq!(r.read_se("d"), Ok(-2));
}

#[test]
fn out_of_bits_on_exhausted_buffer() {
    let mut r = BitReader::new(&[]);
    assert_eq!(r.read_bool("x"), Err(BitReaderError::OutOfBits { name: "x" }));
    let mut r = BitReader::new(&[0xffu8]);
    assert!(r.read_u16(9, "y") == Err(BitReaderError::OutOfBits { name: "y" }));
}

#[test]
fn exp_golomb_overflow_after_32_zeros() {
    let data = [0u8, 0, 0, 0, 0x80];
    let mut r = BitReader::new(&data);
    assert_eq!(r.read_ue("v"), Err(BitReaderError::ExpGolombOverflow { name: "v" }));
}

#[test]
fn exp_golomb_out_of_bits_when_all_zero() {
    let data = [0u8, 0];
    let mut r = BitReader::new(&data);
    assert_eq!(r.read_ue("v"), Err(BitReaderError::OutOfBits { name: "v" }));
}

#[test]
fn has_more_data_sees_only_set_bits_ahead() {
    // one data bit, stop bit, zero padding: after reading the first bit only
    // the stop bit remains, so no more data is signalled.
    let data = [0b1100_0000u8];
    let mut r = BitReader::new(&data);
    assert!(r.has_more_data());
    assert_eq!(r.read_bool("a"), Ok(true));
    assert!(!r.has_more_data());
}

#[test]
fn finish_accepts_stop_bit_and_padding() {
    let data = [0b1100_0000u8];
    let mut r = BitReader::new(&data);
    assert_eq!(r.read_bool("a"), Ok(true));
    assert_eq!(r.finish("end"), Ok(()));
}

#[test]
fn finish_rejects_trailing_data() {
    // a set bit after the would-be stop bit.
    let data = [0b1101_0000u8];
    let mut r = BitReader::new(&data);
    assert_eq!(r.read_bool("a"), Ok(true));
    assert_eq!(r.finish("end"), Err(BitReaderError::TrailingData { name: "end" }));
    // stop bit not in the final byte.
    let data = [0b1100_0000u8, 0x00];
    let mut r = BitReader::new(&data);
    assert_eq!(r.read_bool("a"), Ok(true));
    assert_eq!(r.finish("end"), Err(BitReaderError::TrailingData { name: "end" }));
}
