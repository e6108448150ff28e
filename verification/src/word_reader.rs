//! Reading integers in the byte order and word width of one file.

use crate::bytes::{
    as_i16, as_i32, as_i64, be_bytes, be_uint, le_bytes, le_uint, lemma_be_round_trip,
    lemma_be_uint_bound, lemma_le_round_trip, lemma_le_uint_bound, lemma_orders_differ,
    lemma_pow256_values, pow256, twos_complement,
};
use crate::errors::Error;
use byteorder::{BigEndian, ByteOrder, LittleEndian};
use vstd::prelude::*;

verus! {

/// The order in which the bytes of an integer are stored.
#[derive(Debug, Clone, Copy, PartialEq, Eq, Structural)]
pub enum Endianness {
    /// Least significant byte first.
    Little,
    /// Most significant byte first.
    Big,
}

/// The size of the native integers of a file.
#[derive(Debug, Clone, Copy, PartialEq, Eq, Structural)]
pub enum WordWidth {
    /// Words of four bytes.
    W32,
    /// Words of eight bytes.
    W64,
}

impl Endianness {
    /// The number that `bytes` spell in this order.
    pub open spec fn uint(self, bytes: Seq<u8>) -> nat {
        match self {
            Endianness::Little => le_uint(bytes),
            Endianness::Big => be_uint(bytes),
        }
    }

    /// The `n` bytes that spell `v` in this order.
    pub open spec fn bytes_of(self, v: nat, n: nat) -> Seq<u8> {
        match self {
            Endianness::Little => le_bytes(v, n),
            Endianness::Big => be_bytes(v, n),
        }
    }

    /// The other order.
    pub open spec fn flipped(self) -> Endianness {
        match self {
            Endianness::Little => Endianness::Big,
            Endianness::Big => Endianness::Little,
        }
    }

    /// Spelling a number in `n` bytes and reading them in the same order
    /// gives the number back, provided that `n` bytes can hold it.
    pub proof fn lemma_round_trip(self, v: nat, n: nat)
        requires
            v < pow256(n),
        ensures
            self.bytes_of(v, n).len() == n,
            self.uint(self.bytes_of(v, n)) == v,
    {
        lemma_le_round_trip(v, n);
        lemma_be_round_trip(v, n);
    }

    /// Bytes that are no palindrome spell different numbers in the two orders.
    pub proof fn lemma_flipped_differs(self, bytes: Seq<u8>)
        requires
            bytes.reverse() != bytes,
        ensures
            self.uint(bytes) != self.flipped().uint(bytes),
    {
        lemma_orders_differ(bytes);
    }

    /// In either order, `n` bytes spell a number below 256 to the power `n`.
    pub proof fn lemma_uint_bound(self, bytes: Seq<u8>)
        ensures
            self.uint(bytes) < pow256(bytes.len()),
    {
        lemma_le_uint_bound(bytes);
        lemma_be_uint_bound(bytes);
    }
}

impl WordWidth {
    /// The number of bytes in a word.
    pub open spec fn spec_bytes(self) -> usize {
        match self {
            WordWidth::W32 => 4,
            WordWidth::W64 => 8,
        }
    }

    /// The number of bytes in a word.
    #[verifier::when_used_as_spec(spec_bytes)]
    pub fn bytes(self) -> (n: usize)
        ensures
            n == self.spec_bytes(),
    {
        match self {
            WordWidth::W32 => 4,
            WordWidth::W64 => 8,
        }
    }
}

/// `byteorder`'s `LittleEndian::read_u16`: the little-endian value of the
/// first two bytes. It panics on a shorter slice, which `requires` rules out.
#[verifier::external_body]
fn le_read_u16(buf: &[u8]) -> (r: u16)
    requires
        buf@.len() >= 2,
    ensures
        r as nat == le_uint(buf@.take(2)),
{
    LittleEndian::read_u16(buf)
}

/// `byteorder`'s `BigEndian::read_u16`: the big-endian value of the first two
/// bytes. It panics on a shorter slice, which `requires` rules out.
#[verifier::external_body]
fn be_read_u16(buf: &[u8]) -> (r: u16)
    requires
        buf@.len() >= 2,
    ensures
        r as nat == be_uint(buf@.take(2)),
{
    BigEndian::read_u16(buf)
}

/// `byteorder`'s `LittleEndian::read_i16`: the little-endian value of the
/// first two bytes, read as two's complement. It panics on a shorter slice,
/// which `requires` rules out.
#[verifier::external_body]
fn le_read_i16(buf: &[u8]) -> (r: i16)
    requires
        buf@.len() >= 2,
    ensures
        r as int == as_i16(le_uint(buf@.take(2))),
{
    LittleEndian::read_i16(buf)
}

/// `byteorder`'s `BigEndian::read_i16`: the big-endian value of the first two
/// bytes, read as two's complement. It panics on a shorter slice, which
/// `requires` rules out.
#[verifier::external_body]
fn be_read_i16(buf: &[u8]) -> (r: i16)
    requires
        buf@.len() >= 2,
    ensures
        r as int == as_i16(be_uint(buf@.take(2))),
{
    BigEndian::read_i16(buf)
}

/// `byteorder`'s `LittleEndian::read_u32`: the little-endian value of the
/// first four bytes. It panics on a shorter slice, which `requires` rules
/// out.
#[verifier::external_body]
fn le_read_u32(buf: &[u8]) -> (r: u32)
    requires
        buf@.len() >= 4,
    ensures
        r as nat == le_uint(buf@.take(4)),
{
    LittleEndian::read_u32(buf)
}

/// `byteorder`'s `BigEndian::read_u32`: the big-endian value of the first
/// four bytes. It panics on a shorter slice, which `requires` rules out.
#[verifier::external_body]
fn be_read_u32(buf: &[u8]) -> (r: u32)
    requires
        buf@.len() >= 4,
    ensures
        r as nat == be_uint(buf@.take(4)),
{
    BigEndian::read_u32(buf)
}

/// `byteorder`'s `LittleEndian::read_i32`: the little-endian value of the
/// first four bytes, read as two's complement. It panics on a shorter slice,
/// which `requires` rules out.
#[verifier::external_body]
fn le_read_i32(buf: &[u8]) -> (r: i32)
    requires
        buf@.len() >= 4,
    ensures
        r as int == as_i32(le_uint(buf@.take(4))),
{
    LittleEndian::read_i32(buf)
}

/// `byteorder`'s `BigEndian::read_i32`: the big-endian value of the first
/// four bytes, read as two's complement. It panics on a shorter slice, which
/// `requires` rules out.
#[verifier::external_body]
fn be_read_i32(buf: &[u8]) -> (r: i32)
    requires
        buf@.len() >= 4,
    ensures
        r as int == as_i32(be_uint(buf@.take(4))),
{
    BigEndian::read_i32(buf)
}

/// `byteorder`'s `LittleEndian::read_u64`: the little-endian value of the
/// first eight bytes. It panics on a shorter slice, which `requires` rules
/// out.
#[verifier::external_body]
fn le_read_u64(buf: &[u8]) -> (r: u64)
    requires
        buf@.len() >= 8,
    ensures
        r as nat == le_uint(buf@.take(8)),
{
    LittleEndian::read_u64(buf)
}

/// `byteorder`'s `BigEndian::read_u64`: the big-endian value of the first
/// eight bytes. It panics on a shorter slice, which `requires` rules out.
#[verifier::external_body]
fn be_read_u64(buf: &[u8]) -> (r: u64)
    requires
        buf@.len() >= 8,
    ensures
        r as nat == be_uint(buf@.take(8)),
{
    BigEndian::read_u64(buf)
}

/// `byteorder`'s `LittleEndian::read_i64`: the little-endian value of the
/// first eight bytes, read as two's complement. It panics on a shorter slice,
/// which `requires` rules out.
#[verifier::external_body]
fn le_read_i64(buf: &[u8]) -> (r: i64)
    requires
        buf@.len() >= 8,
    ensures
        r as int == as_i64(le_uint(buf@.take(8))),
{
    LittleEndian::read_i64(buf)
}

/// `byteorder`'s `BigEndian::read_i64`: the big-endian value of the first
/// eight bytes, read as two's complement. It panics on a shorter slice, which
/// `requires` rules out.
#[verifier::external_body]
fn be_read_i64(buf: &[u8]) -> (r: i64)
    requires
        buf@.len() >= 8,
    ensures
        r as int == as_i64(be_uint(buf@.take(8))),
{
    BigEndian::read_i64(buf)
}

/// Reads integers in one byte order and one word width. It holds nothing but
/// the two settings, so one reader serves every page of a file.
#[derive(Debug, Clone, Copy, PartialEq, Eq, Structural)]
pub struct WordReader {
    /// The byte order of every read.
    pub order: Endianness,
    /// The width of the native reads.
    pub width: WordWidth,
}

impl WordReader {
    /// The unsigned 16-bit integer that `bytes` spell in the reader's order.
    pub open spec fn u16_of(self, bytes: Seq<u8>) -> u16 {
        self.order.uint(bytes) as u16
    }

    /// What `read_u16` returns on `buf`: the value of its first 2 bytes.
    pub open spec fn u16_in(self, buf: Seq<u8>) -> Result<u16, Error> {
        if buf.len() < 2 {
            Err(Error::Truncated)
        } else {
            Ok(self.u16_of(buf.take(2)))
        }
    }

    /// What `read_u16_at` returns: the value of the 2 bytes of `buf` from
    /// `at` on.
    pub open spec fn u16_at(self, buf: Seq<u8>, at: int) -> Result<u16, Error> {
        if at + 2 > buf.len() {
            Err(Error::Truncated)
        } else {
            Ok(self.u16_of(buf.subrange(at, at + 2)))
        }
    }

    /// The signed 16-bit integer that `bytes` spell in the reader's order.
    pub open spec fn i16_of(self, bytes: Seq<u8>) -> i16 {
        as_i16(self.order.uint(bytes)) as i16
    }

    /// What `read_i16` returns on `buf`: the value of its first 2 bytes.
    pub open spec fn i16_in(self, buf: Seq<u8>) -> Result<i16, Error> {
        if buf.len() < 2 {
            Err(Error::Truncated)
        } else {
            Ok(self.i16_of(buf.take(2)))
        }
    }

    /// The unsigned 32-bit integer that `bytes` spell in the reader's order.
    pub open spec fn u32_of(self, bytes: Seq<u8>) -> u32 {
        self.order.uint(bytes) as u32
    }

    /// What `read_u32` returns on `buf`: the value of its first 4 bytes.
    pub open spec fn u32_in(self, buf: Seq<u8>) -> Result<u32, Error> {
        if buf.len() < 4 {
            Err(Error::Truncated)
        } else {
            Ok(self.u32_of(buf.take(4)))
        }
    }

    /// The signed 32-bit integer that `bytes` spell in the reader's order.
    pub open spec fn i32_of(self, bytes: Seq<u8>) -> i32 {
        as_i32(self.order.uint(bytes)) as i32
    }

    /// What `read_i32` returns on `buf`: the value of its first 4 bytes.
    pub open spec fn i32_in(self, buf: Seq<u8>) -> Result<i32, Error> {
        if buf.len() < 4 {
            Err(Error::Truncated)
        } else {
            Ok(self.i32_of(buf.take(4)))
        }
    }

    /// What `read_i32_at` returns: the value of the 4 bytes of `buf` from
    /// `at` on.
    pub open spec fn i32_at(self, buf: Seq<u8>, at: int) -> Result<i32, Error> {
        if at + 4 > buf.len() {
            Err(Error::Truncated)
        } else {
            Ok(self.i32_of(buf.subrange(at, at + 4)))
        }
    }

    /// The unsigned 64-bit integer that `bytes` spell in the reader's order.
    pub open spec fn u64_of(self, bytes: Seq<u8>) -> u64 {
        self.order.uint(bytes) as u64
    }

    /// What `read_u64` returns on `buf`: the value of its first 8 bytes.
    pub open spec fn u64_in(self, buf: Seq<u8>) -> Result<u64, Error> {
        if buf.len() < 8 {
            Err(Error::Truncated)
        } else {
            Ok(self.u64_of(buf.take(8)))
        }
    }

    /// The signed 64-bit integer that `bytes` spell in the reader's order.
    pub open spec fn i64_of(self, bytes: Seq<u8>) -> i64 {
        as_i64(self.order.uint(bytes)) as i64
    }

    /// What `read_i64` returns on `buf`: the value of its first 8 bytes.
    pub open spec fn i64_in(self, buf: Seq<u8>) -> Result<i64, Error> {
        if buf.len() < 8 {
            Err(Error::Truncated)
        } else {
            Ok(self.i64_of(buf.take(8)))
        }
    }

    /// The unsigned integer that one word of `bytes` spells.
    pub open spec fn native_uint_of(self, bytes: Seq<u8>) -> u64 {
        self.order.uint(bytes) as u64
    }

    /// The signed integer that one word of `bytes` spells.
    pub open spec fn native_int_of(self, bytes: Seq<u8>) -> i64 {
        match self.width {
            WordWidth::W32 => as_i32(self.order.uint(bytes)) as i64,
            WordWidth::W64 => as_i64(self.order.uint(bytes)) as i64,
        }
    }

    /// What `read_native_uint` returns on `buf`: the value of its first word.
    pub open spec fn native_uint_in(self, buf: Seq<u8>) -> Result<u64, Error> {
        if buf.len() < self.width.spec_bytes() {
            Err(Error::Truncated)
        } else {
            Ok(self.native_uint_of(buf.take(self.width.spec_bytes() as int)))
        }
    }

    /// What `read_native_int` returns on `buf`: the value of its first word.
    pub open spec fn native_int_in(self, buf: Seq<u8>) -> Result<i64, Error> {
        if buf.len() < self.width.spec_bytes() {
            Err(Error::Truncated)
        } else {
            Ok(self.native_int_of(buf.take(self.width.spec_bytes() as int)))
        }
    }

    /// What `read_native_uint_at` returns: the value of the word of `buf`
    /// that begins at `at`.
    pub open spec fn native_uint_at(self, buf: Seq<u8>, at: int) -> Result<u64, Error> {
        if at + self.width.spec_bytes() > buf.len() {
            Err(Error::Truncated)
        } else {
            Ok(self.native_uint_of(buf.subrange(at, at + self.width.spec_bytes())))
        }
    }

    /// A reader for the given byte order and word width.
    pub fn new(order: Endianness, width: WordWidth) -> (r: WordReader)
        ensures
            r == (WordReader { order, width }),
    {
        WordReader { order, width }
    }

    /// A reader from the two flags as booleans.
    pub fn from_bool(is_little_endian: bool, is_64: bool) -> (r: WordReader)
        ensures
            r.order == if is_little_endian {
                Endianness::Little
            } else {
                Endianness::Big
            },
            r.width == if is_64 {
                WordWidth::W64
            } else {
                WordWidth::W32
            },
    {
        WordReader {
            order: if is_little_endian {
                Endianness::Little
            } else {
                Endianness::Big
            },
            width: if is_64 {
                WordWidth::W64
            } else {
                WordWidth::W32
            },
        }
    }

    /// The unsigned 16-bit integer at the start of `buf`. A slice of fewer
    /// than 2 bytes is `Truncated`.
    pub fn read_u16(&self, buf: &[u8]) -> (r: Result<u16, Error>)
        ensures
            r == self.u16_in(buf@),
    {
        if buf.len() < 2 {
            return Err(Error::Truncated);
        }
        match self.order {
            Endianness::Little => Ok(le_read_u16(buf)),
            Endianness::Big => Ok(be_read_u16(buf)),
        }
    }

    /// The signed 16-bit integer at the start of `buf`. A slice of fewer
    /// than 2 bytes is `Truncated`.
    pub fn read_i16(&self, buf: &[u8]) -> (r: Result<i16, Error>)
        ensures
            r == self.i16_in(buf@),
    {
        if buf.len() < 2 {
            return Err(Error::Truncated);
        }
        match self.order {
            Endianness::Little => Ok(le_read_i16(buf)),
            Endianness::Big => Ok(be_read_i16(buf)),
        }
    }

    /// The unsigned 32-bit integer at the start of `buf`. A slice of fewer
    /// than 4 bytes is `Truncated`.
    pub fn read_u32(&self, buf: &[u8]) -> (r: Result<u32, Error>)
        ensures
            r == self.u32_in(buf@),
    {
        if buf.len() < 4 {
            return Err(Error::Truncated);
        }
        match self.order {
            Endianness::Little => Ok(le_read_u32(buf)),
            Endianness::Big => Ok(be_read_u32(buf)),
        }
    }

    /// The signed 32-bit integer at the start of `buf`. A slice of fewer
    /// than 4 bytes is `Truncated`.
    pub fn read_i32(&self, buf: &[u8]) -> (r: Result<i32, Error>)
        ensures
            r == self.i32_in(buf@),
    {
        if buf.len() < 4 {
            return Err(Error::Truncated);
        }
        match self.order {
            Endianness::Little => Ok(le_read_i32(buf)),
            Endianness::Big => Ok(be_read_i32(buf)),
        }
    }

    /// The unsigned 64-bit integer at the start of `buf`. A slice of fewer
    /// than 8 bytes is `Truncated`.
    pub fn read_u64(&self, buf: &[u8]) -> (r: Result<u64, Error>)
        ensures
            r == self.u64_in(buf@),
    {
        if buf.len() < 8 {
            return Err(Error::Truncated);
        }
        match self.order {
            Endianness::Little => Ok(le_read_u64(buf)),
            Endianness::Big => Ok(be_read_u64(buf)),
        }
    }

    /// The signed 64-bit integer at the start of `buf`. A slice of fewer
    /// than 8 bytes is `Truncated`.
    pub fn read_i64(&self, buf: &[u8]) -> (r: Result<i64, Error>)
        ensures
            r == self.i64_in(buf@),
    {
        if buf.len() < 8 {
            return Err(Error::Truncated);
        }
        match self.order {
            Endianness::Little => Ok(le_read_i64(buf)),
            Endianness::Big => Ok(be_read_i64(buf)),
        }
    }

    /// The unsigned integer of one word at the start of `buf`. A slice shorter
    /// than a word is `Truncated`.
    pub fn read_native_uint(&self, buf: &[u8]) -> (r: Result<u64, Error>)
        ensures
            r == self.native_uint_in(buf@),
    {
        proof {
            lemma_pow256_values();
            self.order.lemma_uint_bound(buf@.take(4));
        }
        match self.width {
            WordWidth::W32 => match self.read_u32(buf) {
                Ok(v) => Ok(v as u64),
                Err(e) => Err(e),
            },
            WordWidth::W64 => self.read_u64(buf),
        }
    }

    /// The signed integer of one word at the start of `buf`. A slice shorter
    /// than a word is `Truncated`.
    pub fn read_native_int(&self, buf: &[u8]) -> (r: Result<i64, Error>)
        ensures
            r == self.native_int_in(buf@),
    {
        proof {
            lemma_pow256_values();
            self.order.lemma_uint_bound(buf@.take(4));
        }
        match self.width {
            WordWidth::W32 => match self.read_i32(buf) {
                Ok(v) => Ok(v as i64),
                Err(e) => Err(e),
            },
            WordWidth::W64 => self.read_i64(buf),
        }
    }

    /// The unsigned 16-bit integer in the 2 bytes of `buf` from `at` on. Where
    /// they do not all lie inside `buf`, the read is `Truncated`.
    pub fn read_u16_at(&self, buf: &[u8], at: usize) -> (r: Result<u16, Error>)
        ensures
            r == self.u16_at(buf@, at as int),
    {
        if at > buf.len() || buf.len() - at < 2 {
            return Err(Error::Truncated);
        }
        assert(buf@.subrange(at as int, at + 2).take(2) =~= buf@.subrange(at as int, at + 2));
        self.read_u16(&buf[at..at + 2])
    }

    /// The signed 32-bit integer in the 4 bytes of `buf` from `at` on. Where
    /// they do not all lie inside `buf`, the read is `Truncated`.
    pub fn read_i32_at(&self, buf: &[u8], at: usize) -> (r: Result<i32, Error>)
        ensures
            r == self.i32_at(buf@, at as int),
    {
        if at > buf.len() || buf.len() - at < 4 {
            return Err(Error::Truncated);
        }
        assert(buf@.subrange(at as int, at + 4).take(4) =~= buf@.subrange(at as int, at + 4));
        self.read_i32(&buf[at..at + 4])
    }

    /// The unsigned integer in the word of `buf` that begins at `at`. Where
    /// the word does not lie inside `buf`, the read is `Truncated`.
    pub fn read_native_uint_at(&self, buf: &[u8], at: usize) -> (r: Result<u64, Error>)
        ensures
            r == self.native_uint_at(buf@, at as int),
    {
        let n: usize = self.width.bytes();
        if at > buf.len() || buf.len() - at < n {
            return Err(Error::Truncated);
        }
        assert(buf@.subrange(at as int, at + n).take(n as int) =~= buf@.subrange(
            at as int,
            at + n,
        ));
        self.read_native_uint(&buf[at..at + n])
    }

    /// The reader for the same width and the other byte order.
    pub open spec fn flipped(self) -> WordReader {
        WordReader { order: self.order.flipped(), width: self.width }
    }

    /// An unsigned 16-bit integer written in the reader's order reads back.
    pub proof fn lemma_round_trip_u16(self, v: u16)
        ensures
            self.u16_in(self.order.bytes_of(v as nat, 2)) == Ok::<u16, Error>(v),
    {
        lemma_pow256_values();
        self.order.lemma_round_trip(v as nat, 2);
        assert(self.order.bytes_of(v as nat, 2).take(2) =~= self.order.bytes_of(v as nat, 2));
    }

    /// A signed 16-bit integer written in the reader's order reads back.
    pub proof fn lemma_round_trip_i16(self, v: i16)
        ensures
            self.i16_in(self.order.bytes_of(twos_complement(v as int, 2), 2)) == Ok::<i16, Error>(
                v,
            ),
    {
        lemma_pow256_values();
        let p = twos_complement(v as int, 2);
        self.order.lemma_round_trip(p, 2);
        assert(self.order.bytes_of(p, 2).take(2) =~= self.order.bytes_of(p, 2));
    }

    /// An unsigned 32-bit integer written in the reader's order reads back.
    pub proof fn lemma_round_trip_u32(self, v: u32)
        ensures
            self.u32_in(self.order.bytes_of(v as nat, 4)) == Ok::<u32, Error>(v),
    {
        lemma_pow256_values();
        self.order.lemma_round_trip(v as nat, 4);
        assert(self.order.bytes_of(v as nat, 4).take(4) =~= self.order.bytes_of(v as nat, 4));
    }

    /// A signed 32-bit integer written in the reader's order reads back.
    pub proof fn lemma_round_trip_i32(self, v: i32)
        ensures
            self.i32_in(self.order.bytes_of(twos_complement(v as int, 4), 4)) == Ok::<i32, Error>(
                v,
            ),
    {
        lemma_pow256_values();
        let p = twos_complement(v as int, 4);
        self.order.lemma_round_trip(p, 4);
        assert(self.order.bytes_of(p, 4).take(4) =~= self.order.bytes_of(p, 4));
    }

    /// An unsigned 64-bit integer written in the reader's order reads back.
    pub proof fn lemma_round_trip_u64(self, v: u64)
        ensures
            self.u64_in(self.order.bytes_of(v as nat, 8)) == Ok::<u64, Error>(v),
    {
        lemma_pow256_values();
        self.order.lemma_round_trip(v as nat, 8);
        assert(self.order.bytes_of(v as nat, 8).take(8) =~= self.order.bytes_of(v as nat, 8));
    }

    /// A signed 64-bit integer written in the reader's order reads back.
    pub proof fn lemma_round_trip_i64(self, v: i64)
        ensures
            self.i64_in(self.order.bytes_of(twos_complement(v as int, 8), 8)) == Ok::<i64, Error>(
                v,
            ),
    {
        lemma_pow256_values();
        let p = twos_complement(v as int, 8);
        self.order.lemma_round_trip(p, 8);
        assert(self.order.bytes_of(p, 8).take(8) =~= self.order.bytes_of(p, 8));
    }

    /// An unsigned integer that fits a word, written as one word in the
    /// reader's order, reads back.
    pub proof fn lemma_round_trip_native_uint(self, v: u64)
        requires
            v < pow256(self.width.spec_bytes() as nat),
        ensures
            self.native_uint_in(self.order.bytes_of(v as nat, self.width.spec_bytes() as nat))
                == Ok::<u64, Error>(v),
    {
        let n = self.width.spec_bytes() as nat;
        self.order.lemma_round_trip(v as nat, n);
        assert(self.order.bytes_of(v as nat, n).take(n as int) =~= self.order.bytes_of(
            v as nat,
            n,
        ));
    }

    /// A signed integer that fits a word, written as one word in the reader's
    /// order, reads back.
    pub proof fn lemma_round_trip_native_int(self, v: i64)
        requires
            -(pow256(self.width.spec_bytes() as nat) as int) <= 2 * v < pow256(
                self.width.spec_bytes() as nat,
            ),
        ensures
            self.native_int_in(
                self.order.bytes_of(
                    twos_complement(v as int, self.width.spec_bytes() as nat),
                    self.width.spec_bytes() as nat,
                ),
            ) == Ok::<i64, Error>(v),
    {
        lemma_pow256_values();
        let n = self.width.spec_bytes() as nat;
        let p = twos_complement(v as int, n);
        self.order.lemma_round_trip(p, n);
        assert(self.order.bytes_of(p, n).take(n as int) =~= self.order.bytes_of(p, n));
    }

    /// One word that is no palindrome reads as another number with the byte
    /// order flipped, unsigned and signed alike.
    pub proof fn lemma_wrong_order_differs(self, word: Seq<u8>)
        requires
            word.len() == self.width.spec_bytes(),
            word.reverse() != word,
        ensures
            self.native_uint_in(word) != self.flipped().native_uint_in(word),
            self.native_int_in(word) != self.flipped().native_int_in(word),
    {
        lemma_pow256_values();
        assert(word.take(word.len() as int) =~= word);
        self.order.lemma_flipped_differs(word);
        self.order.lemma_uint_bound(word);
        self.order.flipped().lemma_uint_bound(word);
    }

    /// Two, four or eight bytes that are no palindrome read as another number
    /// with the byte order flipped, whichever fixed-width read takes them.
    pub proof fn lemma_wrong_order_differs_fixed(self, bytes: Seq<u8>)
        requires
            bytes.reverse() != bytes,
        ensures
            bytes.len() == 2 ==> self.u16_in(bytes) != self.flipped().u16_in(bytes),
            bytes.len() == 2 ==> self.i16_in(bytes) != self.flipped().i16_in(bytes),
            bytes.len() == 4 ==> self.u32_in(bytes) != self.flipped().u32_in(bytes),
            bytes.len() == 4 ==> self.i32_in(bytes) != self.flipped().i32_in(bytes),
            bytes.len() == 8 ==> self.u64_in(bytes) != self.flipped().u64_in(bytes),
            bytes.len() == 8 ==> self.i64_in(bytes) != self.flipped().i64_in(bytes),
    {
        lemma_pow256_values();
        assert(bytes.take(bytes.len() as int) =~= bytes);
        self.order.lemma_flipped_differs(bytes);
        self.order.lemma_uint_bound(bytes);
        self.order.flipped().lemma_uint_bound(bytes);
    }
}

} // verus!
