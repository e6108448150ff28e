//! The ways in which decoding can stop.

use vstd::prelude::*;

verus! {

/// A structural fault in the bytes. Each one ends the parse step that met it.
#[derive(Debug, Clone, Copy, PartialEq, Eq)]
pub enum Error {
    /// A field lies, in part or in whole, beyond the end of the bytes at hand.
    Truncated,
    /// The first 32 bytes are not the magic number of the format.
    InvalidMagic,
    /// Bytes 84 to 91 do not spell `SAS FILE`.
    InvalidSecondaryMagic,
    /// The encoding code at byte 70 is not in the table; holds the code.
    UnknownEncodingCode(u8),
    /// The declared header length is neither 1024 nor 8192; holds the length.
    InvalidHeaderLength(i32),
    /// The page type code is none of the known ones; holds the code.
    InvalidPageType(u16),
    /// The compression code of a sub-header pointer is unknown; holds the code.
    InvalidCompressionCode(u8),
    /// The leading word of a sub-header matches no known signature.
    UnrecognizedSubHeaderSignature {
        /// The bytes of the leading word, packed most significant first, so
        /// that the hexadecimal digits show them in file order.
        signature: u64,
        /// How many bytes the leading word has.
        word_len: usize,
    },
    /// A sub-header of fixed size has another length.
    SubHeaderSizeMismatch {
        /// Which sub-header was being checked.
        name: &'static str,
        /// The length that was found.
        len: usize,
        /// The word length of the file.
        word_len: usize,
    },
}

/// A result with the value of its success taken by its view.
pub open spec fn view_ok<T: View>(r: Result<T, Error>) -> Result<T::V, Error> {
    match r {
        Ok(v) => Ok(v@),
        Err(e) => Err(e),
    }
}

} // verus!
