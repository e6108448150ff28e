//! The two structural flags of a file and the offsets that follow from them.

use crate::word_reader::{WordReader, WordWidth};
use vstd::prelude::*;

verus! {

/// Where things lie in one file: the reader for its integers, and whether the
/// header fields behind the preamble are shifted by four bytes.
#[derive(Debug, Clone, Copy, PartialEq, Eq, Structural)]
pub struct Layout {
    /// Reads integers in the byte order and word width of the file.
    pub reader: WordReader,
    /// Whether the alignment flag is set.
    pub shifted: bool,
}

impl Layout {
    /// The shift of the header fields: 4 where the alignment flag is set.
    pub open spec fn spec_alignment_offset(self) -> usize {
        if self.shifted {
            4
        } else {
            0
        }
    }

    /// The number of bytes in a word: 4 or 8.
    pub open spec fn spec_word_len(self) -> usize {
        self.reader.width.spec_bytes()
    }

    /// Where the page type lies in a page: 32 where the alignment flag is
    /// set, else 16.
    pub open spec fn spec_page_start(self) -> usize {
        if self.shifted {
            32
        } else {
            16
        }
    }

    /// The size of one entry of a page's pointer table: three words.
    pub open spec fn spec_sub_header_ptr_len(self) -> usize {
        match self.reader.width {
            WordWidth::W32 => 12,
            WordWidth::W64 => 24,
        }
    }

    /// The shift of the header fields: 4 where the alignment flag is set.
    #[verifier::when_used_as_spec(spec_alignment_offset)]
    pub fn alignment_offset(self) -> (r: usize)
        ensures
            r == self.spec_alignment_offset(),
    {
        if self.shifted {
            4
        } else {
            0
        }
    }

    /// The number of bytes in a word: 4 or 8.
    #[verifier::when_used_as_spec(spec_word_len)]
    pub fn word_len(self) -> (r: usize)
        ensures
            r == self.spec_word_len(),
    {
        self.reader.width.bytes()
    }

    /// Where the page type lies in a page: 32 where the alignment flag is
    /// set, else 16.
    #[verifier::when_used_as_spec(spec_page_start)]
    pub fn page_start(self) -> (r: usize)
        ensures
            r == self.spec_page_start(),
    {
        if self.shifted {
            32
        } else {
            16
        }
    }

    /// The size of one entry of a page's pointer table: three words.
    #[verifier::when_used_as_spec(spec_sub_header_ptr_len)]
    pub fn sub_header_ptr_len(self) -> (r: usize)
        ensures
            r == self.spec_sub_header_ptr_len(),
    {
        match self.reader.width {
            WordWidth::W32 => 12,
            WordWidth::W64 => 24,
        }
    }
}

} // verus!
