use mach_o::bytes::{read_u32, read_u64};
use mach_o::name::{Name, NAME_WIDTH};
use mach_o::ByteOrder;

#[test]
fn read_u32_in_both_orders() {
    let buf: [u8; 6] = [0x11, 0x22, 0x33, 0x44, 0x55, 0x66];
    assert_eq!(read_u32(&buf, 0, ByteOrder::Native), Some(0x4433_2211));
    assert_eq!(read_u32(&buf, 0, ByteOrder::Swapped), Some(0x1122_3344));
    assert_eq!(read_u32(&buf, 2, ByteOrder::Native), Some(0x6655_4433));
    assert_eq!(read_u32(&buf, 2, ByteOrder::Swapped), Some(0x3344_5566));
}

#[test]
fn read_u32_of_extreme_bytes() {
    assert_eq!(read_u32(&[0xff; 4], 0, ByteOrder::Native), Some(u32::MAX));
    assert_eq!(read_u32(&[0xff; 4], 0, ByteOrder::Swapped), Some(u32::MAX));
    assert_eq!(read_u32(&[0; 4], 0, ByteOrder::Native), Some(0));
    assert_eq!(read_u32(&[0, 0, 0, 0x80], 0, ByteOrder::Native), Some(0x8000_0000));
    assert_eq!(read_u32(&[0, 0, 0, 0x80], 0, ByteOrder::Swapped), Some(0x80));
}

#[test]
fn read_u32_stops_at_the_end() {
    let buf: [u8; 6] = [0x11, 0x22, 0x33, 0x44, 0x55, 0x66];
    assert_eq!(read_u32(&buf, 3, ByteOrder::Native), None);
    assert_eq!(read_u32(&buf, 6, ByteOrder::Native), None);
    assert_eq!(read_u32(&buf, 7, ByteOrder::Swapped), None);
    assert_eq!(read_u32(&buf, usize::MAX, ByteOrder::Native), None);
    assert_eq!(read_u32(&buf, usize::MAX - 3, ByteOrder::Native), None);
    assert_eq!(read_u32(&[], 0, ByteOrder::Native), None);
    assert_eq!(read_u32(&[1, 2, 3], 0, ByteOrder::Swapped), None);
}

#[test]
fn read_u64_in_both_orders() {
    let buf: [u8; 9] = [0x01, 0x02, 0x03, 0x04, 0x05, 0x06, 0x07, 0x08, 0x09];
    assert_eq!(read_u64(&buf, 0, ByteOrder::Native), Some(0x0807_0605_0403_0201));
    assert_eq!(read_u64(&buf, 0, ByteOrder::Swapped), Some(0x0102_0304_0506_0708));
    assert_eq!(read_u64(&buf, 1, ByteOrder::Native), Some(0x0908_0706_0504_0302));
    assert_eq!(read_u64(&buf, 1, ByteOrder::Swapped), Some(0x0203_0405_0607_0809));
    assert_eq!(read_u64(&[0xff; 8], 0, ByteOrder::Native), Some(u64::MAX));
    assert_eq!(read_u64(&[0xff; 8], 0, ByteOrder::Swapped), Some(u64::MAX));
}

#[test]
fn read_u64_stops_at_the_end() {
    let buf: [u8; 9] = [0x01, 0x02, 0x03, 0x04, 0x05, 0x06, 0x07, 0x08, 0x09];
    assert_eq!(read_u64(&buf, 2, ByteOrder::Native), None);
    assert_eq!(read_u64(&buf, 9, ByteOrder::Swapped), None);
    assert_eq!(read_u64(&buf, usize::MAX, ByteOrder::Native), None);
    assert_eq!(read_u64(&[0; 7], 0, ByteOrder::Native), None);
}

#[test]
fn name_width_is_sixteen() {
    assert_eq!(NAME_WIDTH, 16);
}

#[test]
fn name_is_read_where_sixteen_bytes_follow() {
    let buf: Vec<u8> = (0u8..20).collect();
    let name = Name::read(&buf, 2).expect("sixteen bytes follow");
    assert_eq!(name.as_bytes(), &buf[2..18]);
    assert!(Name::read(&buf, 4).is_some());
    assert!(Name::read(&buf, 5).is_none());
    assert!(Name::read(&buf, 20).is_none());
    assert!(Name::read(&buf, usize::MAX).is_none());
    assert!(Name::read(&buf[..15], 0).is_none());
}

#[test]
fn padded_name_has_its_text_before_the_first_nul() {
    let field: &[u8; 16] = b"__DWARF\0\0\0\0\0\0\0\0\0";
    let name = Name::read(field, 0).expect("a whole field");
    assert_eq!(name.as_bytes(), &field[..]);
    assert_eq!(name.text_len(), 7);
    assert_eq!(name.text(), b"__DWARF");
    assert!(name.matches(b"__DWARF"));
    assert!(name.matches(b"__DWARF\0"));
    assert!(name.matches(b"__DWARF\0junk"));
    assert!(!name.matches(b"__DWAR"));
    assert!(!name.matches(b"__DWARFS"));
    assert!(!name.matches(b"__dwarf"));
    assert!(!name.matches(b""));
}

#[test]
fn full_width_name_has_no_terminator() {
    let field: &[u8; 16] = b"__debug_pubtypes";
    let name = Name::read(field, 0).expect("a whole field");
    assert_eq!(name.text_len(), 16);
    assert_eq!(name.text(), b"__debug_pubtypes");
    assert!(name.matches(b"__debug_pubtypes"));
    assert!(name.matches(b"__debug_pubtypes\0"));
    assert!(name.matches(b"__debug_pubtypes_and_more"));
    assert!(!name.matches(b"__debug_pubtype"));
    assert!(!name.matches(b"__debug_pubtypeS"));
}

#[test]
fn name_is_cut_at_an_embedded_nul() {
    let field: &[u8; 16] = b"__TEXT\0hidden\0\0\0";
    let name = Name::read(field, 0).expect("a whole field");
    assert_eq!(name.text_len(), 6);
    assert_eq!(name.text(), b"__TEXT");
    assert!(name.matches(b"__TEXT"));
    assert!(name.matches(b"__TEXT\0other"));
    assert!(!name.matches(b"__TEXTh"));
}

#[test]
fn empty_name_matches_the_empty_query() {
    let field: [u8; 16] = [0; 16];
    let name = Name::read(&field, 0).expect("a whole field");
    assert_eq!(name.text_len(), 0);
    assert_eq!(name.text(), b"");
    assert!(name.matches(b""));
    assert!(name.matches(b"\0__TEXT"));
    assert!(!name.matches(b"_"));
}
