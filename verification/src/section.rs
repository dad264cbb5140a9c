use vstd::prelude::*;
use vstd::slice::slice_subrange;
use crate::bytes::{u32_at, u64_at};
use crate::error::Error;
use crate::format::{ByteOrder, FileClass};
use crate::image::{Image, SectionView};
use crate::name::{Name, NAME_WIDTH};

verus! {

/// A section of a Mach-O file. It borrows the buffer that the file was read
/// from and copies none of it.
#[derive(Copy, Clone, Debug)]
pub struct Section<'a> {
    name: Name<'a>,
    segment_name: Name<'a>,
    address: u64,
    data: &'a [u8],
}

impl<'a> Section<'a> {
    /// The section's name fields, address and data.
    pub closed spec fn view(&self) -> SectionView {
        SectionView {
            name: self.name@,
            segment_name: self.segment_name@,
            address: self.address,
            data: self.data@,
        }
    }

    /// The section whose record starts at `record`, or `SectionOutOfBounds`
    /// where the file offset and size in that record reach past the buffer.
    pub(crate) fn read(input: &'a [u8], class: FileClass, order: ByteOrder, record: usize) -> (section:
        Result<Section<'a>, Error>)
        requires
            record + class.layout().section_size <= input@.len(),
        ensures
            ({
                let image = Image { bytes: input@, class, order };
                match section {
                    Ok(s) => image.section_in_bounds(record as int) && s@ == image.section(
                        record as int,
                    ),
                    Err(e) => !image.section_in_bounds(record as int) && e
                        == Error::SectionOutOfBounds,
                }
            }),
    {
        let layout = class.layout();
        let limit: u64 = input.len() as u64;
        let address: u64 = if layout.wide {
            u64_at(input, record + layout.address_at, order)
        } else {
            u32_at(input, record + layout.address_at, order) as u64
        };
        let length: u64 = if layout.wide {
            u64_at(input, record + layout.length_at, order)
        } else {
            u32_at(input, record + layout.length_at, order) as u64
        };
        let offset: u64 = u32_at(input, record + layout.file_offset_at, order) as u64;
        if offset > limit || length > limit - offset {
            return Err(Error::SectionOutOfBounds);
        }
        let start: usize = offset as usize;
        let end: usize = (offset + length) as usize;
        Ok(
            Section {
                name: Name::at(input, record),
                segment_name: Name::at(input, record + NAME_WIDTH),
                address,
                data: slice_subrange(input, start, end),
            },
        )
    }

    /// This section's name, as the field of the section record holds it.
    pub fn name(&self) -> (name: Name<'a>)
        ensures
            name@ == self@.name,
    {
        self.name
    }

    /// The name of this section's segment, as the field of the section record
    /// holds it.
    pub fn segment_name(&self) -> (name: Name<'a>)
        ensures
            name@ == self@.segment_name,
    {
        self.segment_name
    }

    /// This section's virtual address.
    pub fn addr(&self) -> (address: u64)
        ensures
            address == self@.address,
    {
        self.address
    }

    /// This section's data: the part of the buffer that the section's file
    /// offset and size mark.
    pub fn data(&self) -> (data: &'a [u8])
        ensures
            data@ == self@.data,
    {
        self.data
    }
}

} // verus!
