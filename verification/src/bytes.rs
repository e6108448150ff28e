//! What a run of bytes means as a number, in either byte order.

use vstd::prelude::*;

verus! {

/// 256 to the power `n`: how many values `n` bytes can spell.
pub open spec fn pow256(n: nat) -> nat
    decreases n,
{
    if n == 0 {
        1
    } else {
        256 * pow256((n - 1) as nat)
    }
}

/// The number that `bytes` spell when the first byte is the least significant.
pub open spec fn le_uint(bytes: Seq<u8>) -> nat
    decreases bytes.len(),
{
    if bytes.len() == 0 {
        0
    } else {
        bytes[0] as nat + 256 * le_uint(bytes.drop_first())
    }
}

/// The number that `bytes` spell when the first byte is the most significant.
pub open spec fn be_uint(bytes: Seq<u8>) -> nat {
    le_uint(bytes.reverse())
}

/// The `n` bytes that spell `v`, least significant first.
pub open spec fn le_bytes(v: nat, n: nat) -> Seq<u8>
    decreases n,
{
    if n == 0 {
        Seq::empty()
    } else {
        seq![(v % 256) as u8] + le_bytes(v / 256, (n - 1) as nat)
    }
}

/// The `n` bytes that spell `v`, most significant first.
pub open spec fn be_bytes(v: nat, n: nat) -> Seq<u8> {
    le_bytes(v, n).reverse()
}

/// The two's complement reading of a 16-bit pattern.
pub open spec fn as_i16(v: nat) -> int {
    if v >= 0x8000 {
        v - 0x1_0000
    } else {
        v as int
    }
}

/// The two's complement reading of a 32-bit pattern.
pub open spec fn as_i32(v: nat) -> int {
    if v >= 0x8000_0000 {
        v - 0x1_0000_0000
    } else {
        v as int
    }
}

/// The two's complement reading of a 64-bit pattern.
pub open spec fn as_i64(v: nat) -> int {
    if v >= 0x8000_0000_0000_0000 {
        v - 0x1_0000_0000_0000_0000
    } else {
        v as int
    }
}

/// The pattern of `n` bytes that stands for `i` in two's complement.
pub open spec fn twos_complement(i: int, n: nat) -> nat {
    if i < 0 {
        (i + pow256(n)) as nat
    } else {
        i as nat
    }
}

/// `n` bytes spell a number below 256 to the power `n`.
pub proof fn lemma_le_uint_bound(bytes: Seq<u8>)
    ensures
        le_uint(bytes) < pow256(bytes.len()),
    decreases bytes.len(),
{
    if bytes.len() > 0 {
        lemma_le_uint_bound(bytes.drop_first());
    }
}

/// `n` bytes spell a number below 256 to the power `n` in big-endian order too.
pub proof fn lemma_be_uint_bound(bytes: Seq<u8>)
    ensures
        be_uint(bytes) < pow256(bytes.len()),
{
    lemma_le_uint_bound(bytes.reverse());
}

/// The bounds of one, two, four and eight bytes, written out.
pub proof fn lemma_pow256_values()
    ensures
        pow256(0) == 1,
        pow256(1) == 0x100,
        pow256(2) == 0x1_0000,
        pow256(4) == 0x1_0000_0000,
        pow256(8) == 0x1_0000_0000_0000_0000,
{
    reveal_with_fuel(pow256, 9);
}

/// Spelling a number in `n` bytes, least significant first, and reading the
/// bytes back gives the number, provided that `n` bytes can hold it.
pub proof fn lemma_le_round_trip(v: nat, n: nat)
    requires
        v < pow256(n),
    ensures
        le_bytes(v, n).len() == n,
        le_uint(le_bytes(v, n)) == v,
    decreases n,
{
    if n > 0 {
        let rest = le_bytes(v / 256, (n - 1) as nat);
        lemma_le_round_trip(v / 256, (n - 1) as nat);
        assert(le_bytes(v, n).drop_first() =~= rest);
    }
}

/// The same for the order with the most significant byte first.
pub proof fn lemma_be_round_trip(v: nat, n: nat)
    requires
        v < pow256(n),
    ensures
        be_bytes(v, n).len() == n,
        be_uint(be_bytes(v, n)) == v,
{
    lemma_le_round_trip(v, n);
    assert(le_bytes(v, n).reverse().reverse() =~= le_bytes(v, n));
}

/// Two runs of bytes of one length that spell the same number are equal.
pub proof fn lemma_le_uint_injective(a: Seq<u8>, b: Seq<u8>)
    requires
        a.len() == b.len(),
        le_uint(a) == le_uint(b),
    ensures
        a == b,
    decreases a.len(),
{
    if a.len() > 0 {
        lemma_le_uint_injective(a.drop_first(), b.drop_first());
        assert(a =~= seq![a[0]] + a.drop_first());
        assert(b =~= seq![b[0]] + b.drop_first());
    } else {
        assert(a =~= b);
    }
}

/// Reading bytes least significant first and spelling the number in as
/// many bytes gives the bytes back.
pub proof fn lemma_le_bytes_of_le_uint(bytes: Seq<u8>)
    ensures
        le_bytes(le_uint(bytes), bytes.len()) == bytes,
{
    lemma_le_uint_bound(bytes);
    lemma_le_round_trip(le_uint(bytes), bytes.len());
    lemma_le_uint_injective(le_bytes(le_uint(bytes), bytes.len()), bytes);
}

/// The same for the order with the most significant byte first.
pub proof fn lemma_be_bytes_of_be_uint(bytes: Seq<u8>)
    ensures
        be_bytes(be_uint(bytes), bytes.len()) == bytes,
{
    lemma_le_bytes_of_le_uint(bytes.reverse());
    assert(bytes.reverse().reverse() =~= bytes);
}

/// Read in the wrong byte order, bytes that are no palindrome spell another
/// number.
pub proof fn lemma_orders_differ(bytes: Seq<u8>)
    requires
        bytes.reverse() != bytes,
    ensures
        le_uint(bytes) != be_uint(bytes),
{
    if le_uint(bytes) == be_uint(bytes) {
        lemma_le_uint_injective(bytes, bytes.reverse());
    }
}

/// A palindrome spells the same number in both orders.
pub proof fn lemma_palindrome_orders_agree(bytes: Seq<u8>)
    requires
        bytes.reverse() == bytes,
    ensures
        le_uint(bytes) == be_uint(bytes),
{
}

} // verus!
