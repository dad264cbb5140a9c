use vstd::prelude::*;

verus! {

/// An error that occurred while reading the contents of a Mach-O file.
#[derive(Copy, Clone, Debug, PartialEq, Eq, Structural)]
pub enum Error {
    /// The input is shorter than the header of its file class.
    InputTooShort,
    /// The first four bytes are none of the four magic values.
    UnrecognizedMagic,
    /// A load command's declared size is too small, not aligned, or reaches
    /// past the end of the input.
    MalformedLoadCommand,
    /// The located section's file offset and size reach past the end of the
    /// input.
    SectionOutOfBounds,
}

} // verus!
