//! Byte-level checks of the primitive codec.

use uartfileserver::codec::{
    read_byte, read_string, read_u16, read_u32, text_fits, write_byte, write_string, write_u16,
    write_u32, write_vec,
};

#[test]
fn byte_read_and_write() {
    let mut out: Vec<u8> = Vec::new();
    write_byte(&mut out, 0xAB);
    assert_eq!(out, vec![0xAB]);
    assert_eq!(read_byte(&out, 0), Some((0xAB, 1)));
    assert_eq!(read_byte(&out, 1), None);
}

#[test]
fn u16_low_byte_first() {
    let mut out: Vec<u8> = Vec::new();
    write_u16(&mut out, 0x1234);
    assert_eq!(out, vec![0x34, 0x12]);
}

#[test]
fn u16_round_trip() {
    for value in [0u16, 1, 0x00FF, 0x0100, 0x8000, 0xFFFF] {
        let mut out: Vec<u8> = Vec::new();
        write_u16(&mut out, value);
        assert_eq!(read_u16(&out, 0), Some((value, 2)));
    }
}

#[test]
fn u16_read_needs_two_bytes() {
    assert_eq!(read_u16(&vec![0x34], 0), None);
}

#[test]
fn u32_wire_bytes_use_eight_bit_shift() {
    // The writer sends the value's low 16 bits, then the value shifted
    // by 8 bits: for 0x12345678 that is 0x5678 then 0x3456.
    let mut out: Vec<u8> = Vec::new();
    write_u32(&mut out, 0x12345678);
    assert_eq!(out, vec![0x78, 0x56, 0x56, 0x34]);
}

#[test]
fn u32_write_then_read_is_asymmetric() {
    // The reader treats the second 16-bit field as bits 16 to 31, so
    // the pair is lossy: 0x12345678 comes back as 0x34565678.
    let mut out: Vec<u8> = Vec::new();
    write_u32(&mut out, 0x12345678);
    assert_eq!(read_u32(&out, 0), Some((0x34565678, 4)));
}

#[test]
fn u32_write_then_read_keeps_small_values() {
    // Below 256 the two shifts agree and the value survives.
    for value in [0u32, 1, 7, 0xAB, 0xFF] {
        let mut out: Vec<u8> = Vec::new();
        write_u32(&mut out, value);
        assert_eq!(read_u32(&out, 0), Some((value, 4)));
    }
}

#[test]
fn u32_read_combines_halves() {
    // Low half 0x5678, high half 0x1234.
    let bytes = vec![0x78, 0x56, 0x34, 0x12];
    assert_eq!(read_u32(&bytes, 0), Some((0x12345678, 4)));
}

#[test]
fn string_read_counts_prefix() {
    let bytes = vec![3, 0, b'a', b'b', b'c', 9];
    assert_eq!(read_string(&bytes, 0), Some(("abc".to_string(), 5)));
}

#[test]
fn string_read_latin1_bytes_become_chars() {
    let bytes = vec![2, 0, 0xE9, 0xFF];
    let (text, next) = read_string(&bytes, 0).unwrap();
    assert_eq!(text, "\u{e9}\u{ff}");
    assert_eq!(next, 4);
}

#[test]
fn string_read_short_buffer_is_none() {
    assert_eq!(read_string(&vec![5, 0, b'a'], 0), None);
    assert_eq!(read_string(&vec![5], 0), None);
}

#[test]
fn string_write_length_prefix_and_bytes() {
    let mut out: Vec<u8> = Vec::new();
    write_string(&mut out, "hi");
    assert_eq!(out, vec![2, 0, b'h', b'i']);
}

#[test]
fn string_write_then_read_round_trips() {
    let mut out: Vec<u8> = Vec::new();
    write_string(&mut out, "caf\u{e9}");
    assert_eq!(read_string(&out, 0), Some(("caf\u{e9}".to_string(), 6)));
}

#[test]
fn vec_write_length_prefix_and_bytes() {
    let mut out: Vec<u8> = Vec::new();
    write_vec(&mut out, &vec![9, 8, 7]);
    assert_eq!(out, vec![3, 0, 9, 8, 7]);
}

#[test]
fn vec_write_empty_payload() {
    let mut out: Vec<u8> = Vec::new();
    write_vec(&mut out, &Vec::new());
    assert_eq!(out, vec![0, 0]);
}

#[test]
fn text_fits_one_byte_characters() {
    assert!(text_fits("plain name.txt"));
    assert!(text_fits("caf\u{e9}"));
    assert!(text_fits(""));
    assert!(!text_fits("price \u{20ac}"));
}
