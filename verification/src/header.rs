//! The header block: the preamble with its flags and text fields, and the
//! page geometry behind it.

use crate::errors::{view_ok, Error};
use crate::layout::Layout;
use crate::text::{codec_for_code, codec_of_code, decode_with, decoded_text};
use crate::word_reader::{Endianness, WordReader, WordWidth};
use encoding_rs::Encoding;
use vstd::prelude::*;

verus! {

/// The 32 bytes with which every file begins.
pub const MAGIC: [u8; 32] = [
    0x00, 0x00, 0x00, 0x00, 0x00, 0x00, 0x00, 0x00,
    0x00, 0x00, 0x00, 0x00, 0xc2, 0xea, 0x81, 0x60,
    0xb3, 0x14, 0x11, 0xcf, 0xbd, 0x92, 0x08, 0x00,
    0x09, 0xc7, 0x31, 0x8c, 0x18, 0x1f, 0x10, 0x11,
];

/// The ASCII text `SAS FILE`, which stands at byte 84.
pub const SECONDARY_MAGIC: [u8; 8] = [0x53, 0x41, 0x53, 0x20, 0x46, 0x49, 0x4c, 0x45];

/// The size of the block that holds every header field.
pub const HEADER_BLOCK_LEN: usize = 1024;

/// The size of the preamble: it ends with the file type field.
pub const PREAMBLE_LEN: usize = 164;

/// The header length of a file whose header is the first block alone.
pub const SHORT_HEADER_LEN: i32 = 1024;

/// The header length of a file whose header runs on behind the first block.
pub const LONG_HEADER_LEN: i32 = 8192;

/// Whether `pattern` stands in `buf` at `at`.
pub open spec fn matches_at(buf: Seq<u8>, at: int, pattern: Seq<u8>) -> bool {
    at + pattern.len() <= buf.len() && buf.subrange(at, at + pattern.len()) == pattern
}

/// Whether `pattern` stands in `buf` at `at`.
pub fn bytes_match(buf: &[u8], at: usize, pattern: &[u8]) -> (r: bool)
    ensures
        r == matches_at(buf@, at as int, pattern@),
{
    if at > buf.len() || buf.len() - at < pattern.len() {
        return false;
    }
    let ghost found = buf@.subrange(at as int, at + pattern@.len());
    let mut i: usize = 0;
    while i < pattern.len()
        invariant
            i <= pattern@.len(),
            at + pattern@.len() <= buf@.len() <= usize::MAX,
            found == buf@.subrange(at as int, at + pattern@.len()),
            forall|k: int| 0 <= k < i ==> found[k] == pattern@[k],
        decreases pattern@.len() - i,
    {
        if buf[at + i] != pattern[i] {
            assert(found[i as int] != pattern@[i as int]);
            return false;
        }
        i += 1;
    }
    assert(found =~= pattern@);
    true
}

/// The flags that the preamble of `block` announces: eight-byte words where
/// byte 32 is `0x33`, shifted header fields where byte 35 is `0x33`, little
/// endian where byte 37 is `0x01`.
pub open spec fn layout_of(block: Seq<u8>) -> Layout {
    Layout {
        reader: WordReader {
            order: if block[37] == 0x01 {
                Endianness::Little
            } else {
                Endianness::Big
            },
            width: if block[32] == 0x33 {
                WordWidth::W64
            } else {
                WordWidth::W32
            },
        },
        shifted: block[35] == 0x33,
    }
}

/// What the preamble of a file says.
#[derive(Debug, Clone)]
pub struct Preamble {
    /// Word width, byte order and alignment.
    pub layout: Layout,
    /// The codec of the text in the file.
    pub encoding: &'static Encoding,
    /// The name of the dataset, decoded; it serves diagnosis alone.
    pub dataset_name: String,
    /// The type of the file, decoded; it serves diagnosis alone.
    pub file_type: String,
}

/// A preamble with its texts as sequences of characters.
pub struct PreambleView {
    /// Word width, byte order and alignment.
    pub layout: Layout,
    /// The codec of the text in the file.
    pub encoding: &'static Encoding,
    /// The name of the dataset.
    pub dataset_name: Seq<char>,
    /// The type of the file.
    pub file_type: Seq<char>,
}

impl View for Preamble {
    type V = PreambleView;

    open spec fn view(&self) -> PreambleView {
        PreambleView {
            layout: self.layout,
            encoding: self.encoding,
            dataset_name: self.dataset_name@,
            file_type: self.file_type@,
        }
    }
}

/// What the header of a file says: the preamble and the page geometry.
#[derive(Debug, Clone)]
pub struct Header {
    /// The preamble.
    pub preamble: Preamble,
    /// The length of the whole header, 1024 or 8192.
    pub header_len: i32,
    /// The length of each page.
    pub page_len: i32,
    /// The number of pages.
    pub page_count: u64,
}

/// A header with its texts as sequences of characters.
pub struct HeaderView {
    /// The preamble.
    pub preamble: PreambleView,
    /// The length of the whole header.
    pub header_len: i32,
    /// The length of each page.
    pub page_len: i32,
    /// The number of pages.
    pub page_count: u64,
}

impl HeaderView {
    /// The number of header bytes that follow the first block and carry
    /// nothing: 7168 where the header length is 8192, else none.
    pub open spec fn padding(self) -> usize {
        if self.header_len == LONG_HEADER_LEN {
            7168
        } else {
            0
        }
    }
}

impl View for Header {
    type V = HeaderView;

    open spec fn view(&self) -> HeaderView {
        HeaderView {
            preamble: self.preamble@,
            header_len: self.header_len,
            page_len: self.page_len,
            page_count: self.page_count,
        }
    }
}

/// What the preamble of `block` says, or the first fault in it: too few
/// bytes, a wrong magic number, a wrong `SAS FILE` marker, an encoding code
/// outside the table, in this order.
pub open spec fn parse_preamble(block: Seq<u8>) -> Result<PreambleView, Error> {
    if block.len() < PREAMBLE_LEN {
        Err(Error::Truncated)
    } else if !matches_at(block, 0, MAGIC@) {
        Err(Error::InvalidMagic)
    } else if !matches_at(block, 84, SECONDARY_MAGIC@) {
        Err(Error::InvalidSecondaryMagic)
    } else {
        match codec_of_code(block[70]) {
            Err(e) => Err(e),
            Ok(codec) => Ok(
                PreambleView {
                    layout: layout_of(block),
                    encoding: codec,
                    dataset_name: decoded_text(codec, block.subrange(92, 156)),
                    file_type: decoded_text(codec, block.subrange(156, 164)),
                },
            ),
        }
    }
}

/// How many bytes of header follow the first block, for a declared header
/// length: none for 1024, 7168 for 8192. Any other length is invalid.
pub open spec fn header_padding(header_len: i32) -> Result<usize, Error> {
    if header_len == SHORT_HEADER_LEN {
        Ok(0usize)
    } else if header_len == LONG_HEADER_LEN {
        Ok(7168usize)
    } else {
        Err(Error::InvalidHeaderLength(header_len))
    }
}

/// The header length that `block` declares, read with the flags of its
/// preamble.
pub open spec fn declared_header_len(block: Seq<u8>) -> i32 {
    let layout = layout_of(block);
    let a = layout.spec_alignment_offset() as int;
    layout.reader.i32_of(block.subrange(196 + a, 200 + a))
}

/// What the header in `block` says, or the first fault in it: a block of
/// fewer than 1024 bytes, a fault of the preamble, a header length that is
/// neither 1024 nor 8192, in this order.
pub open spec fn parse_header(block: Seq<u8>) -> Result<HeaderView, Error> {
    if block.len() < HEADER_BLOCK_LEN {
        Err(Error::Truncated)
    } else {
        match parse_preamble(block) {
            Err(e) => Err(e),
            Ok(preamble) => {
                let a = preamble.layout.spec_alignment_offset() as int;
                let reader = preamble.layout.reader;
                let header_len = declared_header_len(block);
                match header_padding(header_len) {
                    Err(e) => Err(e),
                    Ok(_) => Ok(
                        HeaderView {
                            preamble,
                            header_len,
                            page_len: reader.i32_of(block.subrange(200 + a, 204 + a)),
                            page_count: reader.native_uint_of(
                                block.subrange(204 + a, 204 + a + reader.width.spec_bytes()),
                            ),
                        },
                    ),
                }
            },
        }
    }
}

/// Tests the declared header length: 1024 and 8192 pass, with the
/// number of header bytes that follow the first block; every other length is
/// `InvalidHeaderLength`.
pub fn check_header_len(header_len: i32) -> (r: Result<usize, Error>)
    ensures
        r == header_padding(header_len),
        header_len == 1024 ==> r == Ok::<usize, Error>(0),
        header_len == 8192 ==> r == Ok::<usize, Error>(7168),
        header_len != 1024 && header_len != 8192 ==> r == Err::<usize, Error>(
            Error::InvalidHeaderLength(header_len),
        ),
{
    if header_len == SHORT_HEADER_LEN {
        Ok(0)
    } else if header_len == LONG_HEADER_LEN {
        Ok(7168)
    } else {
        Err(Error::InvalidHeaderLength(header_len))
    }
}

impl Preamble {
    /// Reads the preamble at the start of `block`: checks both magic
    /// markers, takes the three flags, resolves the codec and decodes the two
    /// text fields with it.
    pub fn parse(block: &[u8]) -> (r: Result<Preamble, Error>)
        ensures
            view_ok(r) == parse_preamble(block@),
    {
        if block.len() < PREAMBLE_LEN {
            return Err(Error::Truncated);
        }
        if !bytes_match(block, 0, &MAGIC) {
            return Err(Error::InvalidMagic);
        }
        let layout = Layout {
            reader: WordReader::from_bool(block[37] == 0x01, block[32] == 0x33),
            shifted: block[35] == 0x33,
        };
        if !bytes_match(block, 84, &SECONDARY_MAGIC) {
            return Err(Error::InvalidSecondaryMagic);
        }
        let encoding = match codec_for_code(block[70]) {
            Ok(codec) => codec,
            Err(e) => {
                return Err(e);
            },
        };
        let dataset_name = decode_with(encoding, &block[92..156]);
        let file_type = decode_with(encoding, &block[156..164]);
        Ok(Preamble { layout, encoding, dataset_name, file_type })
    }
}

impl Header {
    /// Reads the header from the first block of a file: the preamble, then
    /// the header length, the page length and the page count at the offsets
    /// that the flags give.
    pub fn parse(block: &[u8]) -> (r: Result<Header, Error>)
        ensures
            view_ok(r) == parse_header(block@),
    {
        if block.len() < HEADER_BLOCK_LEN {
            return Err(Error::Truncated);
        }
        let preamble = match Preamble::parse(block) {
            Ok(p) => p,
            Err(e) => {
                return Err(e);
            },
        };
        let a: usize = preamble.layout.alignment_offset();
        let reader = preamble.layout.reader;
        let header_len = match reader.read_i32_at(block, 196 + a) {
            Ok(v) => v,
            Err(e) => {
                return Err(e);
            },
        };
        match check_header_len(header_len) {
            Ok(_) => {},
            Err(e) => {
                return Err(e);
            },
        }
        let page_len = match reader.read_i32_at(block, 200 + a) {
            Ok(v) => v,
            Err(e) => {
                return Err(e);
            },
        };
        let page_count = match reader.read_native_uint_at(block, 204 + a) {
            Ok(v) => v,
            Err(e) => {
                return Err(e);
            },
        };
        Ok(Header { preamble, header_len, page_len, page_count })
    }

    /// Word width, byte order and alignment of the file.
    pub open spec fn spec_layout(&self) -> Layout {
        self.preamble.layout
    }

    /// Word width, byte order and alignment of the file.
    #[verifier::when_used_as_spec(spec_layout)]
    pub fn layout(&self) -> (r: Layout)
        ensures
            r == self.spec_layout(),
    {
        self.preamble.layout
    }

    /// The codec of the text in the file.
    pub open spec fn spec_encoding(&self) -> &'static Encoding {
        self.preamble.encoding
    }

    /// The codec of the text in the file.
    #[verifier::when_used_as_spec(spec_encoding)]
    pub fn encoding(&self) -> (r: &'static Encoding)
        ensures
            r == self.spec_encoding(),
    {
        self.preamble.encoding
    }

    /// The number of header bytes that follow the first block and carry
    /// nothing: 7168 where the header length is 8192, else none.
    pub open spec fn spec_padding(&self) -> usize {
        self@.padding()
    }

    /// The number of header bytes that follow the first block and carry
    /// nothing: 7168 where the header length is 8192, else none.
    #[verifier::when_used_as_spec(spec_padding)]
    pub fn padding(&self) -> (r: usize)
        ensures
            r == self.spec_padding(),
    {
        if self.header_len == LONG_HEADER_LEN {
            7168
        } else {
            0
        }
    }
}

/// A block that holds the magic number with any one byte changed is refused
/// as `InvalidMagic`, whatever the rest of it holds.
pub proof fn lemma_mutated_magic_is_refused(block: Seq<u8>, i: int, b: u8)
    requires
        block.len() >= HEADER_BLOCK_LEN,
        matches_at(block, 0, MAGIC@),
        0 <= i < 32,
        b != block[i],
    ensures
        parse_preamble(block.update(i, b)) == Err::<PreambleView, Error>(Error::InvalidMagic),
        parse_header(block.update(i, b)) == Err::<HeaderView, Error>(Error::InvalidMagic),
{
    let mutated = block.update(i, b);
    assert(mutated.subrange(0, 32)[i] == b);
    assert(block.subrange(0, 32)[i] == block[i]);
}

/// A block that begins with the magic number is never refused as
/// `InvalidMagic`.
pub proof fn lemma_intact_magic_is_accepted(block: Seq<u8>)
    requires
        matches_at(block, 0, MAGIC@),
    ensures
        parse_preamble(block) != Err::<PreambleView, Error>(Error::InvalidMagic),
        parse_header(block) != Err::<HeaderView, Error>(Error::InvalidMagic),
{
}

/// Behind a valid preamble the header length decides: 1024 and 8192 give a
/// header, with no padding and with 7168 bytes of it; every other length is
/// `InvalidHeaderLength`.
pub proof fn lemma_header_length_decides(block: Seq<u8>)
    requires
        block.len() >= HEADER_BLOCK_LEN,
        parse_preamble(block) is Ok,
    ensures
        declared_header_len(block) == 1024 ==> parse_header(block) is Ok && parse_header(
            block,
        )->Ok_0.padding() == 0,
        declared_header_len(block) == 8192 ==> parse_header(block) is Ok && parse_header(
            block,
        )->Ok_0.padding() == 7168,
        declared_header_len(block) != 1024 && declared_header_len(block) != 8192 ==> parse_header(
            block,
        ) == Err::<HeaderView, Error>(Error::InvalidHeaderLength(declared_header_len(block))),
{
}

} // verus!
