use vstd::prelude::*;
use crate::bytes::{le_u32, u32_at};
use crate::error::Error;
use crate::format::{classify, ByteOrder, FileClass};
use crate::image::{
    parse, Image, SectionView, COMMANDS_SIZE_AT, COMMAND_COUNT_AT, COMMAND_PREFIX, CPU_SUBTYPE_AT,
    CPU_TYPE_AT, FILE_TYPE_AT, FLAGS_AT, RESERVED_AT,
};
use crate::name::{Name, NAME_WIDTH};
use crate::section::Section;

verus! {

/// The header of a Mach-O file. It borrows the buffer that the file was read
/// from and copies none of it; every field is read from the buffer when it is
/// asked for.
#[derive(Copy, Clone, Debug)]
pub struct Header<'a> {
    class: FileClass,
    order: ByteOrder,
    input: &'a [u8],
}

/// What a search gave, with the section taken by its view.
pub open spec fn section_outcome(found: Result<Option<Section<'_>>, Error>) -> Result<
    Option<SectionView>,
    Error,
> {
    match found {
        Ok(Some(section)) => Ok(Some(section@)),
        Ok(None) => Ok(None),
        Err(error) => Err(error),
    }
}

impl<'a> Header<'a> {
    #[verifier::type_invariant]
    spec fn well_formed(self) -> bool {
        self@.well_formed()
    }

    /// The file that this header was parsed from.
    pub closed spec fn view(&self) -> Image {
        Image { bytes: self.input@, class: self.class, order: self.order }
    }

    /// Parse the header of a Mach-O file from the given input.
    pub fn new(input: &'a [u8]) -> (parsed: Result<Header<'a>, Error>)
        ensures
            match parsed {
                Ok(header) => parse(input@) == Ok::<Image, Error>(header@),
                Err(error) => parse(input@) == Err::<Image, Error>(error),
            },
            input@.len() < 28 ==> parsed == Err::<Header<'a>, Error>(Error::InputTooShort),
            input@.len() >= 28 && classify(le_u32(input@, 0)) is None ==> parsed
                == Err::<Header<'a>, Error>(Error::UnrecognizedMagic),
            input@.len() < 32 && (classify(le_u32(input@, 0)) matches Some(kind)
                && kind.0 == FileClass::SixtyFourBit) ==> parsed == Err::<Header<'a>, Error>(
                Error::InputTooShort,
            ),
    {
        if input.len() < FileClass::ThirtyTwoBit.layout().header_size {
            return Err(Error::InputTooShort);
        }
        match classify(u32_at(input, 0, ByteOrder::Native)) {
            None => Err(Error::UnrecognizedMagic),
            Some((class, order)) => {
                if input.len() < class.layout().header_size {
                    Err(Error::InputTooShort)
                } else {
                    Ok(Header { class, order, input })
                }
            },
        }
    }

    /// Get the magic value of this header, as it is stored.
    pub fn magic(&self) -> (magic: u32)
        ensures
            magic == self@.magic(),
            classify(magic) == Some((self@.class, self@.order)),
    {
        proof {
            use_type_invariant(self);
        }
        u32_at(self.input, 0, ByteOrder::Native)
    }

    /// Whether this is a 32-bit or a 64-bit file.
    pub fn file_class(&self) -> (class: FileClass)
        ensures
            class == self@.class,
    {
        self.class
    }

    /// The byte order in which the file's fields are stored.
    pub fn byte_order(&self) -> (order: ByteOrder)
        ensures
            order == self@.order,
    {
        self.order
    }

    /// The header field at `at`, in the file's byte order.
    fn field(&self, at: usize) -> (value: u32)
        requires
            at + 4 <= self@.class.layout().header_size,
        ensures
            value == self@.u32_at(at as int),
    {
        proof {
            use_type_invariant(self);
        }
        u32_at(self.input, at, self.order)
    }

    /// The CPU type that the file is for.
    pub fn cpu_type(&self) -> (value: u32)
        ensures
            value == self@.u32_at(CPU_TYPE_AT as int),
    {
        self.field(CPU_TYPE_AT)
    }

    /// The CPU subtype that the file is for.
    pub fn cpu_subtype(&self) -> (value: u32)
        ensures
            value == self@.u32_at(CPU_SUBTYPE_AT as int),
    {
        self.field(CPU_SUBTYPE_AT)
    }

    /// The type of the file.
    pub fn file_type(&self) -> (value: u32)
        ensures
            value == self@.u32_at(FILE_TYPE_AT as int),
    {
        self.field(FILE_TYPE_AT)
    }

    /// The number of load commands that follow the header.
    pub fn number_of_load_commands(&self) -> (value: u32)
        ensures
            value == self@.command_count(),
    {
        self.field(COMMAND_COUNT_AT)
    }

    /// The size in bytes that the header declares for all the load commands
    /// together.
    pub fn size_of_load_commands(&self) -> (value: u32)
        ensures
            value == self@.u32_at(COMMANDS_SIZE_AT as int),
    {
        self.field(COMMANDS_SIZE_AT)
    }

    /// The flags of the file.
    pub fn flags(&self) -> (value: u32)
        ensures
            value == self@.u32_at(FLAGS_AT as int),
    {
        self.field(FLAGS_AT)
    }

    /// The reserved field, which only a 64-bit header has.
    pub fn reserved(&self) -> (value: Option<u32>)
        ensures
            value == (match self@.class {
                FileClass::ThirtyTwoBit => None,
                FileClass::SixtyFourBit => Some(self@.u32_at(RESERVED_AT as int)),
            }),
    {
        match self.class {
            FileClass::ThirtyTwoBit => None,
            FileClass::SixtyFourBit => Some(self.field(RESERVED_AT)),
        }
    }

    /// The kind and the size of the load command at `at`, or
    /// `MalformedLoadCommand` where the command cannot be read and stepped
    /// over.
    fn command(&self, at: usize) -> (command: Result<(u32, u32), Error>)
        requires
            at <= self@.bytes.len(),
        ensures
            match command {
                Ok((kind, size)) => {
                    &&& self@.command_ok(at as int)
                    &&& kind == self@.command_kind(at as int)
                    &&& size == self@.command_size(at as int)
                },
                Err(error) => !self@.command_ok(at as int) && error == Error::MalformedLoadCommand,
            },
    {
        let input = self.input;
        let layout = self.class.layout();
        if input.len() - at < COMMAND_PREFIX {
            return Err(Error::MalformedLoadCommand);
        }
        let kind: u32 = u32_at(input, at, self.order);
        let size: u32 = u32_at(input, at + 4, self.order);
        if (size as usize) < COMMAND_PREFIX || size % layout.alignment != 0 || size as usize
            > input.len() - at {
            return Err(Error::MalformedLoadCommand);
        }
        if kind == layout.segment_command {
            if (size as usize) < layout.segment_size {
                return Err(Error::MalformedLoadCommand);
            }
            let sections: u32 = u32_at(input, at + layout.section_count_at, self.order);
            assert(sections * layout.section_size <= 0xffff_ffff * 80) by (nonlinear_arith)
                requires
                    0 <= sections <= 0xffff_ffff,
                    0 <= layout.section_size <= 80,
            ;
            if layout.segment_size as u64 + sections as u64 * layout.section_size as u64
                > size as u64 {
                return Err(Error::MalformedLoadCommand);
            }
        }
        Ok((kind, size))
    }

    /// The first of the `count` section records from `first` on that carries
    /// the two names.
    fn find_in_segment(&self, first: usize, count: u32, segment_name: &[u8], section_name: &[u8]) -> (found:
        Option<usize>)
        requires
            first + count * self@.class.layout().section_size <= self@.bytes.len(),
        ensures
            match found {
                Some(record) => self@.first_section(
                    first as int,
                    count as nat,
                    segment_name@,
                    section_name@,
                ) == Some(record as int) && record + self@.class.layout().section_size
                    <= self@.bytes.len(),
                None => self@.first_section(
                    first as int,
                    count as nat,
                    segment_name@,
                    section_name@,
                ) is None,
            },
    {
        let input = self.input;
        let step: usize = self.class.layout().section_size;
        let limit: usize = input.len();
        let mut record: usize = first;
        let mut left: u32 = count;
        while left > 0
            invariant
                input@ == self@.bytes,
                limit == input@.len(),
                step == self@.class.layout().section_size,
                record + left * step <= input@.len(),
                self@.first_section(record as int, left as nat, segment_name@, section_name@)
                    == self@.first_section(
                    first as int,
                    count as nat,
                    segment_name@,
                    section_name@,
                ),
            decreases left,
        {
            assert(step == 68 || step == 80);
            assert(left * step >= step) by (nonlinear_arith)
                requires
                    left >= 1,
                    step >= 0,
            ;
            assert(left * step == (left - 1) * step + step) by (nonlinear_arith);
            if Name::at(input, record).matches(section_name) && Name::at(
                input,
                record + NAME_WIDTH,
            ).matches(segment_name) {
                return Some(record);
            }
            record += step;
            left -= 1;
        }
        None
    }

    /// Get the section with the given segment and section names, if the file
    /// holds one: the first such section in the order of the load commands and,
    /// within a segment, of its section records.
    pub fn get_section(&self, segment_name: &[u8], section_name: &[u8]) -> (found: Result<
        Option<Section<'a>>,
        Error,
    >)
        ensures
            section_outcome(found) == self@.find_section(segment_name@, section_name@),
    {
        proof {
            use_type_invariant(self);
        }
        let input = self.input;
        let layout = self.class.layout();
        let count: u32 = self.number_of_load_commands();
        let mut at: usize = layout.header_size;
        let mut left: u32 = count;
        while left > 0
            invariant
                input@ == self@.bytes,
                layout == self@.class.layout(),
                at <= input@.len(),
                self@.walk(at as int, left as nat, segment_name@, section_name@) == self@.lookup(
                    segment_name@,
                    section_name@,
                ),
            decreases left,
        {
            assert(input@.len() == input.len());
            let (kind, size) = match self.command(at) {
                Ok(command) => command,
                Err(error) => {
                    return Err(error);
                },
            };
            if kind == layout.segment_command {
                let sections: u32 = u32_at(input, at + layout.section_count_at, self.order);
                match self.find_in_segment(
                    at + layout.segment_size,
                    sections,
                    segment_name,
                    section_name,
                ) {
                    Some(record) => {
                        return match Section::read(input, self.class, self.order, record) {
                            Ok(section) => Ok(Some(section)),
                            Err(error) => Err(error),
                        };
                    },
                    None => {},
                }
            }
            at += size as usize;
            left -= 1;
        }
        Ok(None)
    }
}

} // verus!
