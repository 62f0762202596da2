//! Byte strings as natural numbers, in both byte orders.

use vstd::arithmetic::div_mod::lemma_div_denominator;
use vstd::prelude::*;

verus! {

/// The natural number that `bytes` holds, least significant byte first.
pub open spec fn le_value(bytes: Seq<u8>) -> nat
    decreases bytes.len(),
{
    if bytes.len() == 0 {
        0
    } else {
        bytes[0] as nat + 256 * le_value(bytes.skip(1))
    }
}

/// The lowest `len` bytes of `value`, most significant byte first.
pub open spec fn be_bytes(value: nat, len: nat) -> Seq<u8>
    decreases len,
{
    if len == 0 {
        Seq::empty()
    } else {
        be_bytes(value / 256, (len - 1) as nat).push((value % 256) as u8)
    }
}

/// 256 to the power `len`: one more than what `len` bytes can hold.
pub open spec fn byte_range(len: nat) -> nat
    decreases len,
{
    if len == 0 {
        1
    } else {
        256 * byte_range((len - 1) as nat)
    }
}

/// Writing a number in a fixed count of bytes keeps that count.
pub proof fn be_bytes_len(value: nat, len: nat)
    ensures
        be_bytes(value, len).len() == len,
    decreases len,
{
    if len > 0 {
        be_bytes_len(value / 256, (len - 1) as nat);
    }
}

/// Numbers that fit in `len` bytes are told apart by those bytes.
pub proof fn be_bytes_injective(a: nat, b: nat, len: nat)
    requires
        a < byte_range(len),
        b < byte_range(len),
        be_bytes(a, len) == be_bytes(b, len),
    ensures
        a == b,
    decreases len,
{
    if len > 0 {
        let n = (len - 1) as nat;
        be_bytes_len(a / 256, n);
        be_bytes_len(b / 256, n);
        let s = be_bytes(a, len);
        assert(s.last() == (a % 256) as u8);
        assert(be_bytes(b, len).last() == (b % 256) as u8);
        assert(be_bytes(a, len).drop_last() =~= be_bytes(a / 256, n));
        assert(be_bytes(b, len).drop_last() =~= be_bytes(b / 256, n));
        be_bytes_injective(a / 256, b / 256, n);
    }
}

/// Byte strings of one length that hold the same number are the same.
pub proof fn le_value_injective(a: Seq<u8>, b: Seq<u8>)
    requires
        a.len() == b.len(),
        le_value(a) == le_value(b),
    ensures
        a == b,
    decreases a.len(),
{
    if a.len() > 0 {
        let (p, q) = (le_value(a.skip(1)), le_value(b.skip(1)));
        assert(a[0] as nat + 256 * p == b[0] as nat + 256 * q);
        assert(a[0] == b[0] && p == q);
        le_value_injective(a.skip(1), b.skip(1));
        assert(a =~= seq![a[0]] + a.skip(1));
        assert(b =~= seq![b[0]] + b.skip(1));
    } else {
        assert(a =~= b);
    }
}

/// Reversing a byte string turns one byte order into the other.
pub proof fn le_reversed_is_be(bytes: Seq<u8>)
    ensures
        bytes.reverse() == be_bytes(le_value(bytes), bytes.len()),
    decreases bytes.len(),
{
    if bytes.len() > 0 {
        let rest = bytes.skip(1);
        let v = le_value(bytes);
        assert(v == bytes[0] as nat + 256 * le_value(rest));
        assert(v / 256 == le_value(rest) && v % 256 == bytes[0] as nat);
        le_reversed_is_be(rest);
        assert(bytes.reverse() =~= rest.reverse().push(bytes[0]));
    } else {
        assert(bytes.reverse() =~= Seq::<u8>::empty());
    }
}

/// 256 to the next power is 256 times as much.
pub proof fn byte_range_grows(len: nat)
    ensures
        byte_range(0) == 1,
        byte_range(len + 1) == 256 * byte_range(len),
        byte_range(len) > 0,
    decreases len,
{
    if len > 0 {
        byte_range_grows((len - 1) as nat);
    }
}

/// Byte `i` counts 256 to the power `i` times: taking away the lower bytes of the
/// number and then the higher ones leaves it.
pub proof fn le_value_byte(bytes: Seq<u8>, i: nat)
    requires
        i < bytes.len(),
    ensures
        (le_value(bytes) / byte_range(i)) % 256 == bytes[i as int],
        le_value(bytes) < byte_range(bytes.len()),
    decreases bytes.len(),
{
    let rest = bytes.skip(1);
    let value = le_value(bytes);
    assert(value == bytes[0] as nat + 256 * le_value(rest));
    if rest.len() > 0 {
        le_value_byte(rest, if i > 0 { (i - 1) as nat } else { 0 });
    } else {
        byte_range_grows(0);
    }
    byte_range_grows(rest.len());
    byte_range_grows(0);
    if i > 0 {
        let before = (i - 1) as nat;
        byte_range_grows(before);
        lemma_div_denominator(value as int, 256, byte_range(before) as int);
        assert(value / 256 == le_value(rest));
        assert(rest[before as int] == bytes[i as int]);
    } else {
        assert(value / 1 == value);
    }
}

/// The byte that stands `i` places before the last counts 256 to the power `i`
/// times.
pub proof fn be_bytes_byte(value: nat, len: nat, i: nat)
    requires
        i < len,
    ensures
        be_bytes(value, len).len() == len,
        be_bytes(value, len)[len - 1 - i] == (value / byte_range(i)) % 256,
    decreases len,
{
    be_bytes_len(value, len);
    let n = (len - 1) as nat;
    be_bytes_len(value / 256, n);
    if i > 0 {
        let before = (i - 1) as nat;
        be_bytes_byte(value / 256, n, before);
        byte_range_grows(before);
        lemma_div_denominator(value as int, 256, byte_range(before) as int);
    } else {
        byte_range_grows(0);
        assert(value / 1 == value);
    }
}

} // verus!
