//! Reading Mach-O object files from a byte buffer.
//!
//! A [`Header`] is parsed from the first bytes of a buffer; from it a
//! [`Section`] can be looked up by segment and section name. Every field is
//! read from its byte offset with an explicit width and byte order, and every
//! offset is checked against the buffer before it is used.

pub mod bytes;
pub mod error;
pub mod format;
pub mod header;
pub mod image;
pub mod lemmas;
pub mod name;
pub mod section;

pub use error::Error;
pub use format::{ByteOrder, FileClass};
pub use header::Header;
pub use name::Name;
pub use section::Section;
