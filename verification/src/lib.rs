//! A decoder for the binary layout of SAS7BDAT files: the header block, the
//! pages that follow it and the sub-headers that metadata pages carry.
//!
//! Every offset in the format shifts with flags that the header itself
//! announces: the word width, the byte order and an alignment shift. The
//! decoder reads them once and carries them through every later read.
//!
//! - [`bytes`] says what a run of bytes means as a number.
//! - [`word_reader`] reads integers in the byte order and word width of a file.
//! - [`layout`] holds the flags and the offsets that follow from them.
//! - [`text`] resolves the text codec of a file and decodes its text fields.
//! - [`header`] reads the preamble and the page geometry from the first block.
//! - [`sub_header`] decodes pointers and tells the kinds of sub-header apart.
//! - [`page`] decodes one page into its metadata.
//! - [`reader`] takes a file page by page.
//!
//! The library reads no stream. Its caller fetches the first block and
//! each page and hands the bytes in; what a function returns is stated over
//! those bytes alone.

pub mod bytes;
pub mod errors;
pub mod header;
pub mod layout;
pub mod page;
pub mod reader;
pub mod sub_header;
pub mod text;
pub mod word_reader;

pub use errors::Error;
pub use header::{Header, Preamble};
pub use layout::Layout;
pub use page::{Page, PageType};
pub use reader::Reader;
pub use sub_header::{check_size, Compression, SubHeaderKind, SubHeaderPtr};
pub use word_reader::{Endianness, WordReader, WordWidth};
