use vstd::prelude::*;
use crate::bytes::{field_u32, field_u64, le_u32};
use crate::error::Error;
use crate::format::{classify, ByteOrder, FileClass};
use crate::name::{same_name, NAME_WIDTH};

verus! {

/// A file as the reader sees it: the bytes of the buffer, and the class and
/// byte order that its magic value stands for.
pub struct Image {
    pub bytes: Seq<u8>,
    pub class: FileClass,
    pub order: ByteOrder,
}

/// What a section is to its reader.
pub struct SectionView {
    /// The sixteen bytes of the section's name field.
    pub name: Seq<u8>,
    /// The sixteen bytes of the field that names the section's segment.
    pub segment_name: Seq<u8>,
    /// The section's virtual address.
    pub address: u64,
    /// The bytes of the buffer that the section's file offset and size mark.
    pub data: Seq<u8>,
}

/// How a walk of the load commands in search of a section ends.
pub enum Lookup {
    /// The first section record with the names asked for starts at `record`.
    Found { record: int },
    /// Every load command was read, and none holds such a section.
    Absent,
    /// A load command that the walk reached is malformed.
    Malformed,
}

/// The offset in the header of the CPU type.
pub const CPU_TYPE_AT: usize = 4;

/// The offset in the header of the CPU subtype.
pub const CPU_SUBTYPE_AT: usize = 8;

/// The offset in the header of the file type.
pub const FILE_TYPE_AT: usize = 12;

/// The offset in the header of the number of load commands.
pub const COMMAND_COUNT_AT: usize = 16;

/// The offset in the header of the size of all the load commands together.
pub const COMMANDS_SIZE_AT: usize = 20;

/// The offset in the header of the flags.
pub const FLAGS_AT: usize = 24;

/// The offset in a 64-bit header of the reserved field.
pub const RESERVED_AT: usize = 28;

/// The size of the two fields that every load command starts with: its kind
/// and its size.
pub const COMMAND_PREFIX: usize = 8;

/// What parsing a buffer gives: the buffer must hold the smaller header, its
/// first four bytes must be a magic value, and a 64-bit file must hold the
/// larger header.
pub open spec fn parse(bytes: Seq<u8>) -> Result<Image, Error> {
    if bytes.len() < FileClass::ThirtyTwoBit.layout().header_size {
        Err(Error::InputTooShort)
    } else {
        match classify(le_u32(bytes, 0)) {
            None => Err(Error::UnrecognizedMagic),
            Some((class, order)) => if bytes.len() < class.layout().header_size {
                Err(Error::InputTooShort)
            } else {
                Ok(Image { bytes, class, order })
            },
        }
    }
}

impl Image {
    /// The magic value as stored: the first four bytes in the reader's own
    /// order.
    pub open spec fn magic(self) -> u32 {
        le_u32(self.bytes, 0)
    }

    /// The buffer holds the whole header, and class and byte order are those
    /// of its magic value.
    pub open spec fn well_formed(self) -> bool {
        parse(self.bytes) == Ok::<Image, Error>(self)
    }

    /// The 32-bit field at `at`, in the file's byte order.
    pub open spec fn u32_at(self, at: int) -> u32 {
        field_u32(self.bytes, at, self.order)
    }

    /// The 64-bit field at `at`, in the file's byte order.
    pub open spec fn u64_at(self, at: int) -> u64 {
        field_u64(self.bytes, at, self.order)
    }

    /// The number of load commands that the header declares.
    pub open spec fn command_count(self) -> nat {
        self.u32_at(COMMAND_COUNT_AT as int) as nat
    }

    /// The kind of the load command at `at`.
    pub open spec fn command_kind(self, at: int) -> u32 {
        self.u32_at(at)
    }

    /// The declared size of the load command at `at`; the next command starts
    /// that many bytes later.
    pub open spec fn command_size(self, at: int) -> int {
        self.u32_at(at + 4) as int
    }

    /// Whether the load command at `at` is a segment of the file's class.
    pub open spec fn is_segment(self, at: int) -> bool {
        self.command_kind(at) == self.class.layout().segment_command
    }

    /// The number of section records that the segment command at `at`
    /// declares.
    pub open spec fn section_count(self, at: int) -> nat {
        self.u32_at(at + self.class.layout().section_count_at) as nat
    }

    /// The offset of section record `index` of the segment command at `at`.
    pub open spec fn section_record(self, at: int, index: int) -> int {
        at + self.class.layout().segment_size + index * self.class.layout().section_size
    }

    /// The load command at `at` can be read and stepped over: its two leading
    /// fields lie in the buffer; its size covers them, is a multiple of the
    /// class's alignment, and stays within the buffer; and where it is a
    /// segment, its size covers the section records that it declares.
    pub open spec fn command_ok(self, at: int) -> bool {
        let layout = self.class.layout();
        let size = self.command_size(at);
        &&& 0 <= at
        &&& at + COMMAND_PREFIX <= self.bytes.len()
        &&& size >= COMMAND_PREFIX
        &&& size % (layout.alignment as int) == 0
        &&& at + size <= self.bytes.len()
        &&& self.is_segment(at) ==> layout.segment_size + self.section_count(at)
            * layout.section_size <= size
    }

    /// Whether the section record at `record` carries the two names: each name
    /// field is compared with the query as a name is, by its text.
    pub open spec fn section_matches(self, record: int, segment: Seq<u8>, section: Seq<u8>) -> bool {
        &&& same_name(self.bytes.subrange(record, record + NAME_WIDTH), section)
        &&& same_name(self.bytes.subrange(record + NAME_WIDTH, record + 2 * NAME_WIDTH), segment)
    }

    /// The first of the `count` section records from `record` on that carries
    /// the two names.
    pub open spec fn first_section(
        self,
        record: int,
        count: nat,
        segment: Seq<u8>,
        section: Seq<u8>,
    ) -> Option<int>
        decreases count,
    {
        if count == 0 {
            None
        } else if self.section_matches(record, segment, section) {
            Some(record)
        } else {
            self.first_section(
                record + self.class.layout().section_size,
                (count - 1) as nat,
                segment,
                section,
            )
        }
    }

    /// The section that the load command at `at` holds under the two names: the
    /// first such record of a segment, nothing in any other command.
    pub open spec fn section_in_command(self, at: int, segment: Seq<u8>, section: Seq<u8>) -> Option<
        int,
    > {
        if self.is_segment(at) {
            self.first_section(
                self.section_record(at, 0),
                self.section_count(at),
                segment,
                section,
            )
        } else {
            None
        }
    }

    /// The walk over `count` load commands from `at` on, in the order of the
    /// stream: it stops at the first malformed command, or at the first
    /// command that holds a section with the two names.
    pub open spec fn walk(self, at: int, count: nat, segment: Seq<u8>, section: Seq<u8>) -> Lookup
        decreases count,
    {
        if count == 0 {
            Lookup::Absent
        } else if !self.command_ok(at) {
            Lookup::Malformed
        } else {
            match self.section_in_command(at, segment, section) {
                Some(record) => Lookup::Found { record },
                None => self.walk(
                    at + self.command_size(at),
                    (count - 1) as nat,
                    segment,
                    section,
                ),
            }
        }
    }

    /// The walk over all the load commands that the header declares, from the
    /// end of the header on.
    pub open spec fn lookup(self, segment: Seq<u8>, section: Seq<u8>) -> Lookup {
        self.walk(self.class.layout().header_size as int, self.command_count(), segment, section)
    }

    /// The offset of load command `index` of the stream: the first follows the
    /// header, and each later one follows the one before it by that one's
    /// declared size.
    pub open spec fn command_at(self, index: nat) -> int
        decreases index,
    {
        if index == 0 {
            self.class.layout().header_size as int
        } else {
            let before = self.command_at((index - 1) as nat);
            before + self.command_size(before)
        }
    }

    /// Whether the first `count` load commands of the stream can all be read
    /// and stepped over.
    pub open spec fn commands_ok(self, count: nat) -> bool {
        forall|k: nat| k < count ==> self.command_ok(#[trigger] self.command_at(k))
    }

    /// Whether load command `command` is one of those that the header
    /// declares, is a segment, and declares more than `index` sections.
    pub open spec fn has_section(self, command: nat, index: nat) -> bool {
        &&& command < self.command_count()
        &&& self.is_segment(self.command_at(command))
        &&& index < self.section_count(self.command_at(command))
    }

    /// The offset of section record `index` of load command `command`.
    pub open spec fn nth_section(self, command: nat, index: nat) -> int {
        self.section_record(self.command_at(command), index as int)
    }

    /// Whether section `index` of load command `command` exists and carries
    /// the two names.
    pub open spec fn names_section(
        self,
        command: nat,
        index: nat,
        segment: Seq<u8>,
        section: Seq<u8>,
    ) -> bool {
        &&& self.has_section(command, index)
        &&& self.section_matches(self.nth_section(command, index), segment, section)
    }

    /// The virtual address of the section at `record`, widened to 64 bits in a
    /// 32-bit file.
    pub open spec fn section_address(self, record: int) -> u64 {
        let layout = self.class.layout();
        if layout.wide {
            self.u64_at(record + layout.address_at)
        } else {
            self.u32_at(record + layout.address_at) as u64
        }
    }

    /// The size that the section at `record` declares.
    pub open spec fn section_length(self, record: int) -> int {
        let layout = self.class.layout();
        if layout.wide {
            self.u64_at(record + layout.length_at) as int
        } else {
            self.u32_at(record + layout.length_at) as int
        }
    }

    /// The offset in the file of the data of the section at `record`.
    pub open spec fn section_file_offset(self, record: int) -> int {
        self.u32_at(record + self.class.layout().file_offset_at) as int
    }

    /// Whether the data of the section at `record` lies within the buffer.
    pub open spec fn section_in_bounds(self, record: int) -> bool {
        self.section_file_offset(record) + self.section_length(record) <= self.bytes.len()
    }

    /// The section at `record`.
    pub open spec fn section(self, record: int) -> SectionView {
        SectionView {
            name: self.bytes.subrange(record, record + NAME_WIDTH),
            segment_name: self.bytes.subrange(record + NAME_WIDTH, record + 2 * NAME_WIDTH),
            address: self.section_address(record),
            data: self.bytes.subrange(
                self.section_file_offset(record),
                self.section_file_offset(record) + self.section_length(record),
            ),
        }
    }

    /// What a search for a section gives: an error where the walk met a
    /// malformed command or where the data of the section found reaches past
    /// the buffer, nothing where no command holds the section, else the first
    /// section with the two names.
    pub open spec fn find_section(self, segment: Seq<u8>, section: Seq<u8>) -> Result<
        Option<SectionView>,
        Error,
    > {
        match self.lookup(segment, section) {
            Lookup::Malformed => Err(Error::MalformedLoadCommand),
            Lookup::Absent => Ok(None),
            Lookup::Found { record } => if self.section_in_bounds(record) {
                Ok(Some(self.section(record)))
            } else {
                Err(Error::SectionOutOfBounds)
            },
        }
    }
}

} // verus!
