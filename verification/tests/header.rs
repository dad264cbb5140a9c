use mach_o::format::classify;
use mach_o::{ByteOrder, Error, FileClass, Header};
use mach_o_sys::loader;

const LITTLE_ENDIAN_HEADER_64: [u8; 32] = [
    0xcf, 0xfa, 0xed, 0xfe, 0x07, 0x00, 0x00, 0x01, 0x03, 0x00, 0x00, 0x80, 0x02, 0x00, 0x00, 0x00,
    0x12, 0x00, 0x00, 0x00, 0xd8, 0x08, 0x00, 0x00, 0x85, 0x80, 0xa1, 0x00, 0x00, 0x00, 0x00, 0x00,
];

const BIG_ENDIAN_HEADER_32: [u8; 28] = [
    0xfe, 0xed, 0xfa, 0xce, 0x00, 0x00, 0x00, 0x12, 0x00, 0x00, 0x00, 0x0a, 0x00, 0x00, 0x00, 0x02,
    0x00, 0x00, 0x00, 0x03, 0x00, 0x00, 0x01, 0x40, 0x00, 0x00, 0x00, 0x85,
];

fn with_magic(magic: [u8; 4], len: usize) -> Vec<u8> {
    let mut buf: Vec<u8> = vec![0u8; len];
    for (i, b) in magic.iter().enumerate() {
        if i < len {
            buf[i] = *b;
        }
    }
    buf
}

#[test]
fn test_read_header() {
    let buf = &LITTLE_ENDIAN_HEADER_64;
    let header = Header::new(buf).expect("Should parse the header OK");
    assert_eq!(header.magic(), loader::MH_MAGIC_64);
}

#[test]
fn fixture_header_fields_are_decoded() {
    let header = Header::new(&LITTLE_ENDIAN_HEADER_64).expect("Should parse the header OK");
    assert_eq!(header.magic(), 0xfeed_facf);
    assert_eq!(header.file_class(), FileClass::SixtyFourBit);
    assert_eq!(header.byte_order(), ByteOrder::Native);
    assert_eq!(header.cpu_type(), 0x0100_0007);
    assert_eq!(header.cpu_subtype(), 0x8000_0003);
    assert_eq!(header.file_type(), 2);
    assert_eq!(header.number_of_load_commands(), 0x12);
    assert_eq!(header.size_of_load_commands(), 0x8d8);
    assert_eq!(header.flags(), 0x00a1_8085);
    assert_eq!(header.reserved(), Some(0));
}

#[test]
fn swapped_header_fields_are_byte_reversed() {
    let header = Header::new(&BIG_ENDIAN_HEADER_32).expect("Should parse the header OK");
    assert_eq!(header.magic(), loader::MH_CIGAM);
    assert_eq!(header.magic(), 0xcefa_edfe);
    assert_eq!(header.file_class(), FileClass::ThirtyTwoBit);
    assert_eq!(header.byte_order(), ByteOrder::Swapped);
    assert_eq!(header.cpu_type(), 0x12);
    assert_eq!(header.cpu_subtype(), 0x0a);
    assert_eq!(header.file_type(), 2);
    assert_eq!(header.number_of_load_commands(), 3);
    assert_eq!(header.size_of_load_commands(), 0x140);
    assert_eq!(header.flags(), 0x85);
    assert_eq!(header.reserved(), None);
}

#[test]
fn every_short_input_is_too_short() {
    let magics: [[u8; 4]; 5] = [
        [0xce, 0xfa, 0xed, 0xfe],
        [0xfe, 0xed, 0xfa, 0xce],
        [0xcf, 0xfa, 0xed, 0xfe],
        [0xfe, 0xed, 0xfa, 0xcf],
        [0x7f, 0x45, 0x4c, 0x46],
    ];
    for magic in magics.iter() {
        for len in 0..28usize {
            let buf = with_magic(*magic, len);
            assert_eq!(Header::new(&buf).err(), Some(Error::InputTooShort));
        }
    }
}

#[test]
fn empty_input_is_too_short() {
    assert_eq!(Header::new(&[]).err(), Some(Error::InputTooShort));
}

#[test]
fn unknown_magic_is_refused() {
    for len in [28usize, 29, 32, 64, 4096] {
        assert_eq!(
            Header::new(&with_magic([0x7f, 0x45, 0x4c, 0x46], len)).err(),
            Some(Error::UnrecognizedMagic)
        );
        assert_eq!(
            Header::new(&with_magic([0, 0, 0, 0], len)).err(),
            Some(Error::UnrecognizedMagic)
        );
        assert_eq!(
            Header::new(&with_magic([0xca, 0xfe, 0xba, 0xbe], len)).err(),
            Some(Error::UnrecognizedMagic)
        );
        assert_eq!(
            Header::new(&with_magic([0xcf, 0xfa, 0xed, 0xff], len)).err(),
            Some(Error::UnrecognizedMagic)
        );
    }
}

#[test]
fn wide_header_needs_thirty_two_bytes() {
    for magic in [[0xcf, 0xfa, 0xed, 0xfe], [0xfe, 0xed, 0xfa, 0xcf]] {
        for len in 28..32usize {
            assert_eq!(Header::new(&with_magic(magic, len)).err(), Some(Error::InputTooShort));
        }
        for len in [32usize, 33, 100] {
            let buf = with_magic(magic, len);
            let header = Header::new(&buf).expect("a 64-bit header fits");
            assert_eq!(header.file_class(), FileClass::SixtyFourBit);
        }
    }
}

#[test]
fn narrow_header_needs_twenty_eight_bytes() {
    for magic in [[0xce, 0xfa, 0xed, 0xfe], [0xfe, 0xed, 0xfa, 0xce]] {
        assert_eq!(Header::new(&with_magic(magic, 27)).err(), Some(Error::InputTooShort));
        for len in [28usize, 29, 31, 32] {
            let buf = with_magic(magic, len);
            let header = Header::new(&buf).expect("a 32-bit header fits");
            assert_eq!(header.file_class(), FileClass::ThirtyTwoBit);
            assert_eq!(header.reserved(), None);
        }
    }
}

#[test]
fn each_magic_selects_class_and_order() {
    let cases: [([u8; 4], u32, FileClass, ByteOrder); 4] = [
        ([0xce, 0xfa, 0xed, 0xfe], 0xfeed_face, FileClass::ThirtyTwoBit, ByteOrder::Native),
        ([0xfe, 0xed, 0xfa, 0xce], 0xcefa_edfe, FileClass::ThirtyTwoBit, ByteOrder::Swapped),
        ([0xcf, 0xfa, 0xed, 0xfe], 0xfeed_facf, FileClass::SixtyFourBit, ByteOrder::Native),
        ([0xfe, 0xed, 0xfa, 0xcf], 0xcffa_edfe, FileClass::SixtyFourBit, ByteOrder::Swapped),
    ];
    for (bytes, magic, class, order) in cases.iter() {
        let buf = with_magic(*bytes, 32);
        let header = Header::new(&buf).expect("a known magic");
        assert_eq!(header.magic(), *magic);
        assert_eq!(header.file_class(), *class);
        assert_eq!(header.byte_order(), *order);
    }
}

#[test]
fn classify_knows_the_four_magic_values() {
    assert_eq!(classify(loader::MH_MAGIC), Some((FileClass::ThirtyTwoBit, ByteOrder::Native)));
    assert_eq!(classify(loader::MH_CIGAM), Some((FileClass::ThirtyTwoBit, ByteOrder::Swapped)));
    assert_eq!(classify(loader::MH_MAGIC_64), Some((FileClass::SixtyFourBit, ByteOrder::Native)));
    assert_eq!(classify(loader::MH_CIGAM_64), Some((FileClass::SixtyFourBit, ByteOrder::Swapped)));
    assert_eq!(classify(0xfeed_face), Some((FileClass::ThirtyTwoBit, ByteOrder::Native)));
    assert_eq!(classify(0xcefa_edfe), Some((FileClass::ThirtyTwoBit, ByteOrder::Swapped)));
    assert_eq!(classify(0xfeed_facf), Some((FileClass::SixtyFourBit, ByteOrder::Native)));
    assert_eq!(classify(0xcffa_edfe), Some((FileClass::SixtyFourBit, ByteOrder::Swapped)));
    assert_eq!(classify(0), None);
    assert_eq!(classify(0xfeed_fad0), None);
    assert_eq!(classify(0xcafe_babe), None);
    assert_eq!(classify(u32::MAX), None);
}

#[test]
fn layouts_follow_the_record_sizes() {
    let narrow = FileClass::ThirtyTwoBit.layout();
    assert_eq!(narrow.header_size, 28);
    assert_eq!(narrow.alignment, 4);
    assert_eq!(narrow.segment_command, 0x1);
    assert_eq!(narrow.segment_size, 56);
    assert_eq!(narrow.section_count_at, 48);
    assert_eq!(narrow.section_size, 68);
    assert!(!narrow.wide);
    assert_eq!(narrow.address_at, 32);
    assert_eq!(narrow.length_at, 36);
    assert_eq!(narrow.file_offset_at, 40);
    let wide = FileClass::SixtyFourBit.layout();
    assert_eq!(wide.header_size, 32);
    assert_eq!(wide.alignment, 8);
    assert_eq!(wide.segment_command, 0x19);
    assert_eq!(wide.segment_size, 72);
    assert_eq!(wide.section_count_at, 64);
    assert_eq!(wide.section_size, 80);
    assert!(wide.wide);
    assert_eq!(wide.address_at, 32);
    assert_eq!(wide.length_at, 40);
    assert_eq!(wide.file_offset_at, 48);
}

#[test]
fn header_is_copied_without_the_buffer() {
    let header = Header::new(&LITTLE_ENDIAN_HEADER_64).expect("Should parse the header OK");
    let copy = header;
    assert_eq!(copy.magic(), header.magic());
    assert_eq!(copy.flags(), header.flags());
}
