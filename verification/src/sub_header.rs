//! Sub-headers: the pointers that locate them in a page, the signatures that
//! tell their kinds apart, and the size that two of the kinds must have.

use crate::bytes::{be_bytes, lemma_be_bytes_of_be_uint, lemma_be_uint_bound, lemma_pow256_values};
use crate::errors::Error;
use crate::layout::Layout;
use crate::word_reader::{Endianness, WordReader, WordWidth};
use vstd::prelude::*;

verus! {

/// How the payload of a sub-header is stored.
#[derive(Debug, Clone, Copy, PartialEq, Eq, Structural)]
pub enum Compression {
    /// Stored as it is.
    Uncompressed,
    /// Cut off: the pointer stands for no content.
    Truncated,
    /// Run-length encoded.
    RLE,
}

impl Compression {
    /// The compression that a code stands for: 0, 1 and 4 are known, every
    /// other code is invalid.
    pub open spec fn of_code(code: u8) -> Result<Compression, Error> {
        if code == 0 {
            Ok(Compression::Uncompressed)
        } else if code == 1 {
            Ok(Compression::Truncated)
        } else if code == 4 {
            Ok(Compression::RLE)
        } else {
            Err(Error::InvalidCompressionCode(code))
        }
    }

    /// The compression that a code stands for, or `InvalidCompressionCode`
    /// for a code other than 0, 1 and 4.
    pub fn from_u8(compression: u8) -> (r: Result<Compression, Error>)
        ensures
            r == Self::of_code(compression),
    {
        match compression {
            0 => Ok(Compression::Uncompressed),
            1 => Ok(Compression::Truncated),
            4 => Ok(Compression::RLE),
            c => Err(Error::InvalidCompressionCode(c)),
        }
    }

    /// Whether this is `Truncated`.
    pub open spec fn spec_is_truncated(&self) -> bool {
        *self == Compression::Truncated
    }

    /// Whether this is `Truncated`.
    #[verifier::when_used_as_spec(spec_is_truncated)]
    pub fn is_truncated(&self) -> (r: bool)
        ensures
            r == self.spec_is_truncated(),
    {
        match *self {
            Compression::Truncated => true,
            _ => false,
        }
    }
}

/// One entry of a page's pointer table.
#[derive(Debug, Clone, Copy, PartialEq, Eq, Structural)]
pub struct SubHeaderPtr {
    /// Where the sub-header begins, counted from the start of the page.
    pub offset: u64,
    /// How many bytes the sub-header has.
    pub len: u64,
    /// How its payload is stored.
    pub compression: Compression,
    /// The type byte of the entry. It is kept and never consulted: the
    /// signature decides the kind.
    pub typ: u8,
}

impl SubHeaderPtr {
    /// The pointer that `entry` holds: two words, offset and length, then
    /// the compression code and the type byte. An entry too short for them
    /// is `Truncated`; an unknown compression code is invalid.
    pub open spec fn decode(layout: Layout, entry: Seq<u8>) -> Result<SubHeaderPtr, Error> {
        let w = layout.spec_word_len() as int;
        if entry.len() < 2 * w + 2 {
            Err(Error::Truncated)
        } else {
            match Compression::of_code(entry[2 * w]) {
                Err(e) => Err(e),
                Ok(compression) => Ok(
                    SubHeaderPtr {
                        offset: layout.reader.native_uint_of(entry.subrange(0, w)),
                        len: layout.reader.native_uint_of(entry.subrange(w, 2 * w)),
                        compression,
                        typ: entry[2 * w + 1],
                    },
                ),
            }
        }
    }

    /// Reads one entry of the pointer table.
    pub fn new(layout: &Layout, buf: &[u8]) -> (r: Result<SubHeaderPtr, Error>)
        ensures
            r == Self::decode(*layout, buf@),
    {
        let w: usize = layout.word_len();
        if buf.len() < 2 * w + 2 {
            return Err(Error::Truncated);
        }
        let offset = match layout.reader.read_native_uint_at(buf, 0) {
            Ok(v) => v,
            Err(e) => {
                return Err(e);
            },
        };
        let len = match layout.reader.read_native_uint_at(buf, w) {
            Ok(v) => v,
            Err(e) => {
                return Err(e);
            },
        };
        let compression = match Compression::from_u8(buf[2 * w]) {
            Ok(c) => c,
            Err(e) => {
                return Err(e);
            },
        };
        Ok(SubHeaderPtr { offset, len, compression, typ: buf[2 * w + 1] })
    }

    /// Whether the pointer stands for content: its length is not zero and
    /// its payload is not cut off.
    pub open spec fn spec_is_live(&self) -> bool {
        self.len > 0 && !self.compression.spec_is_truncated()
    }

    /// Whether the pointer stands for content: its length is not zero and
    /// its payload is not cut off.
    #[verifier::when_used_as_spec(spec_is_live)]
    pub fn is_live(&self) -> (r: bool)
        ensures
            r == self.spec_is_live(),
    {
        self.len > 0 && !self.compression.is_truncated()
    }
}

/// The kinds of sub-header.
#[derive(Debug, Clone, Copy, PartialEq, Eq, Structural)]
pub enum SubHeaderKind {
    /// Row length, row count and the two partial column counts.
    RowSize,
    /// The total column count.
    ColumnSize,
    /// Counts of unknown purpose.
    Counts,
    /// The text that column names and labels are cut from.
    ColumnText,
    /// Column names.
    ColumnName,
    /// Column attributes.
    ColumnAttributes,
    /// Column formats and labels.
    FormatAndLabel,
    /// The column list.
    ColumnList,
}

impl SubHeaderKind {
    /// The signature table for files with words of four bytes. A signature
    /// is written as one number whose hexadecimal digits show its bytes in
    /// file order.
    pub open spec fn of_short_signature(signature: u64) -> Option<SubHeaderKind> {
        if signature == 0xF7F7_F7F7 {
            Some(SubHeaderKind::RowSize)
        } else if signature == 0xF6F6_F6F6 {
            Some(SubHeaderKind::ColumnSize)
        } else if signature == 0x00FC_FFFF || signature == 0xFFFF_FC00 {
            Some(SubHeaderKind::Counts)
        } else if signature == 0xFDFF_FFFF || signature == 0xFFFF_FFFD {
            Some(SubHeaderKind::ColumnText)
        } else if signature == 0xFFFF_FFFF {
            Some(SubHeaderKind::ColumnName)
        } else if signature == 0xFCFF_FFFF || signature == 0xFFFF_FFFC {
            Some(SubHeaderKind::ColumnAttributes)
        } else if signature == 0xFEFB_FFFF || signature == 0xFFFF_FBFE {
            Some(SubHeaderKind::FormatAndLabel)
        } else if signature == 0xFEFF_FFFF || signature == 0xFFFF_FFFE {
            Some(SubHeaderKind::ColumnList)
        } else {
            None
        }
    }

    /// The signature table for files with words of eight bytes.
    pub open spec fn of_long_signature(signature: u64) -> Option<SubHeaderKind> {
        if signature == 0x0000_0000_F7F7_F7F7 || signature == 0xF7F7_F7F7_0000_0000 || signature
            == 0xF7F7_F7F7_FFFF_FBFE {
            Some(SubHeaderKind::RowSize)
        } else if signature == 0x0000_0000_F6F6_F6F6 || signature == 0xF6F6_F6F6_0000_0000
            || signature == 0xF6F6_F6F6_FFFF_FBFE {
            Some(SubHeaderKind::ColumnSize)
        } else if signature == 0x00FC_FFFF_FFFF_FFFF || signature == 0xFFFF_FFFF_FFFF_FC00 {
            Some(SubHeaderKind::Counts)
        } else if signature == 0xFDFF_FFFF_FFFF_FFFF || signature == 0xFFFF_FFFF_FFFF_FFFD {
            Some(SubHeaderKind::ColumnText)
        } else if signature == 0xFFFF_FFFF_FFFF_FFFF {
            Some(SubHeaderKind::ColumnName)
        } else if signature == 0xFCFF_FFFF_FFFF_FFFF || signature == 0xFFFF_FFFF_FFFF_FFFC {
            Some(SubHeaderKind::ColumnAttributes)
        } else if signature == 0xFEFB_FFFF_FFFF_FFFF || signature == 0xFFFF_FFFF_FFFF_FBFE {
            Some(SubHeaderKind::FormatAndLabel)
        } else if signature == 0xFEFF_FFFF_FFFF_FFFF || signature == 0xFFFF_FFFF_FFFF_FFFE {
            Some(SubHeaderKind::ColumnList)
        } else {
            None
        }
    }

    /// The kind that a signature stands for in a file of the given word
    /// width, or `None` where the table of that width does not hold it.
    pub open spec fn of_signature(width: WordWidth, signature: u64) -> Option<SubHeaderKind> {
        match width {
            WordWidth::W32 => Self::of_short_signature(signature),
            WordWidth::W64 => Self::of_long_signature(signature),
        }
    }

    /// Looks a signature up in the table of the given word width.
    pub fn from_signature(width: WordWidth, signature: u64) -> (r: Option<SubHeaderKind>)
        ensures
            r == Self::of_signature(width, signature),
    {
        match width {
            WordWidth::W32 => {
                if signature == 0xF7F7_F7F7 {
                    Some(SubHeaderKind::RowSize)
                } else if signature == 0xF6F6_F6F6 {
                    Some(SubHeaderKind::ColumnSize)
                } else if signature == 0x00FC_FFFF || signature == 0xFFFF_FC00 {
                    Some(SubHeaderKind::Counts)
                } else if signature == 0xFDFF_FFFF || signature == 0xFFFF_FFFD {
                    Some(SubHeaderKind::ColumnText)
                } else if signature == 0xFFFF_FFFF {
                    Some(SubHeaderKind::ColumnName)
                } else if signature == 0xFCFF_FFFF || signature == 0xFFFF_FFFC {
                    Some(SubHeaderKind::ColumnAttributes)
                } else if signature == 0xFEFB_FFFF || signature == 0xFFFF_FBFE {
                    Some(SubHeaderKind::FormatAndLabel)
                } else if signature == 0xFEFF_FFFF || signature == 0xFFFF_FFFE {
                    Some(SubHeaderKind::ColumnList)
                } else {
                    None
                }
            },
            WordWidth::W64 => {
                if signature == 0x0000_0000_F7F7_F7F7 || signature == 0xF7F7_F7F7_0000_0000
                    || signature == 0xF7F7_F7F7_FFFF_FBFE {
                    Some(SubHeaderKind::RowSize)
                } else if signature == 0x0000_0000_F6F6_F6F6 || signature == 0xF6F6_F6F6_0000_0000
                    || signature == 0xF6F6_F6F6_FFFF_FBFE {
                    Some(SubHeaderKind::ColumnSize)
                } else if signature == 0x00FC_FFFF_FFFF_FFFF || signature == 0xFFFF_FFFF_FFFF_FC00 {
                    Some(SubHeaderKind::Counts)
                } else if signature == 0xFDFF_FFFF_FFFF_FFFF || signature == 0xFFFF_FFFF_FFFF_FFFD {
                    Some(SubHeaderKind::ColumnText)
                } else if signature == 0xFFFF_FFFF_FFFF_FFFF {
                    Some(SubHeaderKind::ColumnName)
                } else if signature == 0xFCFF_FFFF_FFFF_FFFF || signature == 0xFFFF_FFFF_FFFF_FFFC {
                    Some(SubHeaderKind::ColumnAttributes)
                } else if signature == 0xFEFB_FFFF_FFFF_FFFF || signature == 0xFFFF_FFFF_FFFF_FBFE {
                    Some(SubHeaderKind::FormatAndLabel)
                } else if signature == 0xFEFF_FFFF_FFFF_FFFF || signature == 0xFFFF_FFFF_FFFF_FFFE {
                    Some(SubHeaderKind::ColumnList)
                } else {
                    None
                }
            },
        }
    }

    /// The signature of a sub-header: its leading word, read most
    /// significant byte first whatever the byte order of the file. A payload
    /// shorter than a word is `Truncated`.
    pub open spec fn signature_in(width: WordWidth, payload: Seq<u8>) -> Result<u64, Error> {
        (WordReader { order: Endianness::Big, width }).native_uint_in(payload)
    }

    /// Reads the signature of a sub-header.
    pub fn read_signature(width: WordWidth, payload: &[u8]) -> (r: Result<u64, Error>)
        ensures
            r == Self::signature_in(width, payload@),
    {
        WordReader::new(Endianness::Big, width).read_native_uint(payload)
    }

    /// The kind of the sub-header in `payload`: `Truncated` where it is
    /// shorter than a word, `UnrecognizedSubHeaderSignature` where the table
    /// does not hold its signature.
    pub open spec fn classify(width: WordWidth, payload: Seq<u8>) -> Result<SubHeaderKind, Error> {
        match Self::signature_in(width, payload) {
            Err(e) => Err(e),
            Ok(signature) => match Self::of_signature(width, signature) {
                Some(kind) => Ok(kind),
                None => Err(
                    Error::UnrecognizedSubHeaderSignature {
                        signature,
                        word_len: width.spec_bytes(),
                    },
                ),
            },
        }
    }

    /// Tells the kind of a sub-header from its signature.
    pub fn of_payload(width: WordWidth, payload: &[u8]) -> (r: Result<SubHeaderKind, Error>)
        ensures
            r == Self::classify(width, payload@),
    {
        let signature = match Self::read_signature(width, payload) {
            Ok(s) => s,
            Err(e) => {
                return Err(e);
            },
        };
        match Self::from_signature(width, signature) {
            Some(kind) => Ok(kind),
            None => Err(
                Error::UnrecognizedSubHeaderSignature { signature, word_len: width.bytes() },
            ),
        }
    }
}

/// The signature of a sub-header names its leading word byte for byte:
/// spelled most significant byte first, it gives the word back. So two
/// sub-headers have one signature exactly where their leading words are
/// equal.
pub proof fn lemma_signature_names_the_leading_word(width: WordWidth, payload: Seq<u8>)
    requires
        payload.len() >= width.spec_bytes(),
    ensures
        SubHeaderKind::signature_in(width, payload) matches Ok(signature) && be_bytes(
            signature as nat,
            width.spec_bytes() as nat,
        ) == payload.take(width.spec_bytes() as int),
{
    let word = payload.take(width.spec_bytes() as int);
    lemma_pow256_values();
    lemma_be_uint_bound(word);
    lemma_be_bytes_of_be_uint(word);
}

/// The length of a `RowSize` or `ColumnSize` sub-header with four-byte words.
pub const FIXED_SIZE_32: usize = 480;

/// The length of a `RowSize` or `ColumnSize` sub-header with eight-byte words.
pub const FIXED_SIZE_64: usize = 808;

/// What `check_size` returns for a sub-header of `len` bytes.
pub open spec fn size_checked(
    name: &'static str,
    len: usize,
    word_len: usize,
    len32: usize,
    len64: usize,
) -> Result<(), Error> {
    if (word_len == 4 && len == len32) || (word_len == 8 && len == len64) {
        Ok(())
    } else {
        Err(Error::SubHeaderSizeMismatch { name, len, word_len })
    }
}

/// Checks that a sub-header of fixed size has its size: `len32` bytes with
/// words of four bytes, `len64` with words of eight. Any other length, and
/// any other word length, is `SubHeaderSizeMismatch` under the given name.
pub fn check_size(name: &'static str, buf: &[u8], word_len: usize, len32: usize, len64: usize) -> (r:
    Result<(), Error>)
    ensures
        r == size_checked(name, buf@.len() as usize, word_len, len32, len64),
{
    let len: usize = buf.len();
    if (word_len == 4 && len == len32) || (word_len == 8 && len == len64) {
        Ok(())
    } else {
        Err(Error::SubHeaderSizeMismatch { name, len, word_len })
    }
}

} // verus!
