use vstd::prelude::*;

verus! {

/// The width of the address and size fields of a file.
#[derive(Copy, Clone, Debug, PartialEq, Eq, Structural)]
pub enum FileClass {
    ThirtyTwoBit,
    SixtyFourBit,
}

/// How the multi-byte fields of a file are stored, relative to this reader,
/// whose own order is little-endian: the least significant byte first.
#[derive(Copy, Clone, Debug, PartialEq, Eq, Structural)]
pub enum ByteOrder {
    /// Stored least significant byte first.
    Native,
    /// Stored most significant byte first: each field is byte-reversed.
    Swapped,
}

/// The magic value of a 32-bit file in the reader's byte order.
pub open spec fn spec_magic_32() -> u32 {
    0xfeed_face
}

/// The magic value of a 32-bit file in the reversed byte order.
pub open spec fn spec_cigam_32() -> u32 {
    0xcefa_edfe
}

/// The magic value of a 64-bit file in the reader's byte order.
pub open spec fn spec_magic_64() -> u32 {
    0xfeed_facf
}

/// The magic value of a 64-bit file in the reversed byte order.
pub open spec fn spec_cigam_64() -> u32 {
    0xcffa_edfe
}

/// The constant `mach_o_sys::loader::MH_MAGIC`. Trusted: its value is
/// `0xfeedface`.
#[verifier::external_body]
pub(crate) fn magic_32() -> (m: u32)
    ensures
        m == spec_magic_32(),
{
    mach_o_sys::loader::MH_MAGIC
}

/// The constant `mach_o_sys::loader::MH_CIGAM`. Trusted: its value is
/// `0xcefaedfe`.
#[verifier::external_body]
pub(crate) fn cigam_32() -> (m: u32)
    ensures
        m == spec_cigam_32(),
{
    mach_o_sys::loader::MH_CIGAM
}

/// The constant `mach_o_sys::loader::MH_MAGIC_64`. Trusted: its value is
/// `0xfeedfacf`.
#[verifier::external_body]
pub(crate) fn magic_64() -> (m: u32)
    ensures
        m == spec_magic_64(),
{
    mach_o_sys::loader::MH_MAGIC_64
}

/// The constant `mach_o_sys::loader::MH_CIGAM_64`. Trusted: its value is
/// `0xcffaedfe`.
#[verifier::external_body]
pub(crate) fn cigam_64() -> (m: u32)
    ensures
        m == spec_cigam_64(),
{
    mach_o_sys::loader::MH_CIGAM_64
}

/// The number of a 32-bit segment command.
pub open spec fn spec_segment_command_32() -> u32 {
    0x1
}

/// The number of a 64-bit segment command.
pub open spec fn spec_segment_command_64() -> u32 {
    0x19
}

/// The constant `mach_o_sys::loader::LC_SEGMENT`, widened to the width of a
/// load command's first field. Trusted: its value is 1.
#[verifier::external_body]
pub(crate) fn segment_command_32() -> (c: u32)
    ensures
        c == spec_segment_command_32(),
{
    u32::from(mach_o_sys::loader::LC_SEGMENT)
}

/// The constant `mach_o_sys::loader::LC_SEGMENT_64`, widened to the width of a
/// load command's first field. Trusted: its value is 25.
#[verifier::external_body]
pub(crate) fn segment_command_64() -> (c: u32)
    ensures
        c == spec_segment_command_64(),
{
    u32::from(mach_o_sys::loader::LC_SEGMENT_64)
}

/// The size of `mach_o_sys::loader::mach_header`. Trusted: the struct is
/// `repr(C)` with seven 32-bit fields, so it takes 28 bytes.
#[verifier::external_body]
pub(crate) fn header_size_32() -> (n: usize)
    ensures
        n == 28,
{
    std::mem::size_of::<mach_o_sys::loader::mach_header>()
}

/// The size of `mach_o_sys::loader::mach_header_64`. Trusted: the struct is
/// `repr(C)` with eight 32-bit fields, so it takes 32 bytes.
#[verifier::external_body]
pub(crate) fn header_size_64() -> (n: usize)
    ensures
        n == 32,
{
    std::mem::size_of::<mach_o_sys::loader::mach_header_64>()
}

/// Where the records of one file class keep their fields. Every offset is in
/// bytes from the start of its record.
#[derive(Copy, Clone, Debug, PartialEq, Eq, Structural)]
pub struct Layout {
    /// The size of the file header; the first load command follows it.
    pub header_size: usize,
    /// What the size of every load command is a multiple of.
    pub alignment: u32,
    /// The number that marks a load command as a segment of this class.
    pub segment_command: u32,
    /// The size of a segment command without its sections; the first section
    /// record follows it.
    pub segment_size: usize,
    /// In a segment command, the offset of the 32-bit number of sections.
    pub section_count_at: usize,
    /// The size of a section record.
    pub section_size: usize,
    /// Whether a section's address and size are 64-bit fields.
    pub wide: bool,
    /// In a section record, the offset of the address.
    pub address_at: usize,
    /// In a section record, the offset of the size.
    pub length_at: usize,
    /// In a section record, the offset of the 32-bit file offset.
    pub file_offset_at: usize,
}

impl FileClass {
    /// The layout of this class's records.
    pub open spec fn spec_layout(self) -> Layout {
        match self {
            FileClass::ThirtyTwoBit => Layout {
                header_size: 28,
                alignment: 4,
                segment_command: spec_segment_command_32(),
                segment_size: 56,
                section_count_at: 48,
                section_size: 68,
                wide: false,
                address_at: 32,
                length_at: 36,
                file_offset_at: 40,
            },
            FileClass::SixtyFourBit => Layout {
                header_size: 32,
                alignment: 8,
                segment_command: spec_segment_command_64(),
                segment_size: 72,
                section_count_at: 64,
                section_size: 80,
                wide: true,
                address_at: 32,
                length_at: 40,
                file_offset_at: 48,
            },
        }
    }

    /// The layout of this class's records.
    #[verifier::when_used_as_spec(spec_layout)]
    pub fn layout(self) -> (layout: Layout)
        ensures
            layout == self.spec_layout(),
    {
        match self {
            FileClass::ThirtyTwoBit => Layout {
                header_size: header_size_32(),
                alignment: 4,
                segment_command: segment_command_32(),
                segment_size: 56,
                section_count_at: 48,
                section_size: 68,
                wide: false,
                address_at: 32,
                length_at: 36,
                file_offset_at: 40,
            },
            FileClass::SixtyFourBit => Layout {
                header_size: header_size_64(),
                alignment: 8,
                segment_command: segment_command_64(),
                segment_size: 72,
                section_count_at: 64,
                section_size: 80,
                wide: true,
                address_at: 32,
                length_at: 40,
                file_offset_at: 48,
            },
        }
    }
}

/// The file class and byte order that a magic value stands for, if any. The
/// value is the first four bytes read in the reader's own order.
pub open spec fn spec_classify(magic: u32) -> Option<(FileClass, ByteOrder)> {
    if magic == spec_magic_32() {
        Some((FileClass::ThirtyTwoBit, ByteOrder::Native))
    } else if magic == spec_cigam_32() {
        Some((FileClass::ThirtyTwoBit, ByteOrder::Swapped))
    } else if magic == spec_magic_64() {
        Some((FileClass::SixtyFourBit, ByteOrder::Native))
    } else if magic == spec_cigam_64() {
        Some((FileClass::SixtyFourBit, ByteOrder::Swapped))
    } else {
        None
    }
}

/// The file class and byte order that a magic value stands for, if any.
#[verifier::when_used_as_spec(spec_classify)]
pub fn classify(magic: u32) -> (kind: Option<(FileClass, ByteOrder)>)
    ensures
        kind == spec_classify(magic),
{
    if magic == magic_32() {
        Some((FileClass::ThirtyTwoBit, ByteOrder::Native))
    } else if magic == cigam_32() {
        Some((FileClass::ThirtyTwoBit, ByteOrder::Swapped))
    } else if magic == magic_64() {
        Some((FileClass::SixtyFourBit, ByteOrder::Native))
    } else if magic == cigam_64() {
        Some((FileClass::SixtyFourBit, ByteOrder::Swapped))
    } else {
        None
    }
}

} // verus!
