//! The text codecs that a header can name, and the decoding of its text
//! fields. The codecs are those of `encoding_rs`; nothing here looks inside
//! one.

use crate::errors::Error;
use encoding_rs::Encoding;
use vstd::prelude::*;
use vstd::string::StringSliceAdditionalSpecFns;

verus! {

/// `encoding_rs::Encoding`, one text codec. Values of it are handed on as
/// they come; nothing is known of what is inside.
#[verifier::external_type_specification]
#[verifier::external_body]
pub struct ExEncoding(encoding_rs::Encoding);

/// What `Encoding::for_label` returns for `label`: the codec that
/// `encoding_rs` has registered under it, if there is one.
pub uninterp spec fn codec_for_label(label: Seq<u8>) -> Option<&'static Encoding>;

/// The text that `Encoding::decode`, called on `codec`, makes of `bytes`. A
/// byte order mark at the start of `bytes` overrides `codec` and is left out
/// of the text; each malformed sequence becomes a replacement character.
pub uninterp spec fn decoded_text(codec: &'static Encoding, bytes: Seq<u8>) -> Seq<char>;

/// The longest run of bytes that is handed to a codec at once.
pub const MAX_TEXT_LEN: usize = 4096;

/// `Encoding::for_label`: the codec registered under `label`, or `None` where
/// the label is not registered. The result depends on the label alone.
#[verifier::external_body]
fn find_codec(label: &[u8]) -> (r: Option<&'static Encoding>)
    ensures
        r == codec_for_label(label@),
{
    Encoding::for_label(label)
}

/// `encoding_rs::UTF_8`: the UTF-8 codec, which is the one registered under
/// the label `utf-8`.
#[verifier::external_body]
fn utf8_codec() -> (r: &'static Encoding)
    ensures
        codec_for_label("utf-8".spec_bytes()) == Some(r),
{
    encoding_rs::UTF_8
}

/// `Encoding::decode`, first component: the decoded text, which depends on
/// the codec and the bytes alone. Decoding never fails; it panics only where
/// the size of its output buffer overflows, which the length bound rules out.
#[verifier::external_body]
pub(crate) fn decode_with(codec: &'static Encoding, bytes: &[u8]) -> (r: String)
    requires
        bytes@.len() <= MAX_TEXT_LEN,
    ensures
        r@ == decoded_text(codec, bytes@),
{
    codec.decode(bytes).0.into_owned()
}

/// The label under which the codec of an encoding code is looked up.
pub open spec fn spec_encoding_label(code: u8) -> Option<&'static str> {
    if code == 29 {
        Some("latin1")
    } else if code == 20 {
        Some("utf-8")
    } else if code == 33 {
        Some("cyrillic")
    } else if code == 60 {
        Some("wlatin2")
    } else if code == 61 {
        Some("wcyrillic")
    } else if code == 62 {
        Some("wlatin1")
    } else if code == 90 {
        Some("ebcdic870")
    } else {
        None
    }
}

/// The codec that stands in where a label is not registered.
pub open spec fn default_codec() -> &'static Encoding {
    codec_for_label("utf-8".spec_bytes())->Some_0
}

/// The codec of a label: the registered one, or the default.
pub open spec fn codec_of_label(label: Seq<u8>) -> &'static Encoding {
    match codec_for_label(label) {
        Some(codec) => codec,
        None => default_codec(),
    }
}

/// The codec of an encoding code. A code outside the table is an error; a
/// code whose label is not registered falls back to the default codec.
pub open spec fn codec_of_code(code: u8) -> Result<&'static Encoding, Error> {
    match spec_encoding_label(code) {
        Some(label) => Ok(codec_of_label(label.spec_bytes())),
        None => Err(Error::UnknownEncodingCode(code)),
    }
}

/// The label under which the codec of an encoding code is looked up, or
/// `None` for a code outside the table.
#[verifier::when_used_as_spec(spec_encoding_label)]
pub fn encoding_label(code: u8) -> (r: Option<&'static str>)
    ensures
        r == spec_encoding_label(code),
{
    match code {
        29 => Some("latin1"),
        20 => Some("utf-8"),
        33 => Some("cyrillic"),
        60 => Some("wlatin2"),
        61 => Some("wcyrillic"),
        62 => Some("wlatin1"),
        90 => Some("ebcdic870"),
        _ => None,
    }
}

/// The codec that was found, or `default` where none was.
pub fn codec_or_default(found: Option<&'static Encoding>, default: &'static Encoding) -> (r:
    &'static Encoding)
    ensures
        r == match found {
            Some(codec) => codec,
            None => default,
        },
{
    match found {
        Some(codec) => codec,
        None => default,
    }
}

/// The codec of an encoding code: `UnknownEncodingCode` for a code outside
/// the table, else the codec registered under the code's label, or the
/// default codec where the label is not registered.
pub fn codec_for_code(code: u8) -> (r: Result<&'static Encoding, Error>)
    ensures
        r == codec_of_code(code),
{
    match encoding_label(code) {
        Some(label) => Ok(codec_or_default(find_codec(label.as_bytes()), utf8_codec())),
        None => Err(Error::UnknownEncodingCode(code)),
    }
}

} // verus!
