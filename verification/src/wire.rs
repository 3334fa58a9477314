//! Little-endian fixed-width integers on the wire.
//!
//! Every numeric field of a payload or of an account record is a fixed
//! number of bytes, least significant byte first. This module says what
//! those bytes are as plain arithmetic and provides the writer and reader
//! that the layouts are built from.

use vstd::arithmetic::div_mod::*;
use vstd::arithmetic::mul::*;
use vstd::prelude::*;

verus! {

/// 256 raised to the power `n`.
pub open spec fn pow256(n: nat) -> nat
    decreases n,
{
    if n == 0 {
        1
    } else {
        256 * pow256((n - 1) as nat)
    }
}

/// The first `width` little-endian bytes of `v`: byte `i` is the `i`-th
/// base-256 digit of `v`.
pub open spec fn le_bytes(v: nat, width: nat) -> Seq<u8> {
    Seq::new(width, |i: int| ((v / pow256(i as nat)) % 256) as u8)
}

/// The number that `b` spells when read least significant byte first.
pub open spec fn le_value(b: Seq<u8>) -> nat
    decreases b.len(),
{
    if b.len() == 0 {
        0
    } else {
        b[0] as nat + 256 * le_value(b.drop_first())
    }
}

/// Powers of 256 are positive.
pub proof fn lemma_pow256_positive(n: nat)
    ensures
        pow256(n) > 0,
    decreases n,
{
    if n > 0 {
        lemma_pow256_positive((n - 1) as nat);
    }
}

/// The widths that the layouts use, as numbers.
pub proof fn lemma_pow256_values()
    ensures
        pow256(1) == 0x100,
        pow256(8) == 0x1_0000_0000_0000_0000,
        pow256(16) == 0x1_0000_0000_0000_0000_0000_0000_0000_0000,
{
    reveal_with_fuel(pow256, 17);
}

/// Powers of 256 grow with the exponent.
pub proof fn lemma_pow256_monotonic(a: nat, b: nat)
    requires
        a <= b,
    ensures
        pow256(a) <= pow256(b),
    decreases b,
{
    if a < b {
        lemma_pow256_monotonic(a, (b - 1) as nat);
        lemma_pow256_positive((b - 1) as nat);
    }
}

/// A run of `n` bytes spells a number below `256^n`.
pub proof fn lemma_le_value_bound(b: Seq<u8>)
    ensures
        le_value(b) < pow256(b.len()),
    decreases b.len(),
{
    if b.len() > 0 {
        lemma_le_value_bound(b.drop_first());
    }
}

/// Dropping the lowest byte of an encoding is encoding the number divided
/// by 256 in one byte less.
proof fn lemma_le_bytes_tail(v: nat, width: nat)
    requires
        width > 0,
    ensures
        le_bytes(v, width).drop_first() == le_bytes(v / 256, (width - 1) as nat),
{
    let lhs = le_bytes(v, width).drop_first();
    let rhs = le_bytes(v / 256, (width - 1) as nat);
    assert forall|i: int| 0 <= i < width - 1 implies lhs[i] == rhs[i] by {
        lemma_pow256_positive(i as nat);
        lemma_div_denominator(v as int, 256, pow256(i as nat) as int);
        assert(pow256((i + 1) as nat) == 256 * pow256(i as nat));
    }
    assert(lhs =~= rhs);
}

/// Reading back what was written gives the number, reduced to the width.
pub proof fn lemma_value_of_bytes(v: nat, width: nat)
    ensures
        le_value(le_bytes(v, width)) == v % pow256(width),
    decreases width,
{
    if width == 0 {
        assert(le_bytes(v, 0).len() == 0);
    } else {
        let w = (width - 1) as nat;
        lemma_le_bytes_tail(v, width);
        lemma_value_of_bytes(v / 256, w);
        lemma_pow256_positive(w);
        assert(pow256(0) == 1);
        assert(v / 1 == v);
        assert(le_bytes(v, width)[0] == ((v / pow256(0)) % 256) as u8);
        lemma_breakdown(v as int, 256, pow256(w) as int);
    }
}

/// A number that fits the width is read back unchanged.
pub proof fn lemma_value_of_bytes_exact(v: nat, width: nat)
    requires
        v < pow256(width),
    ensures
        le_value(le_bytes(v, width)) == v,
{
    lemma_value_of_bytes(v, width);
    lemma_small_mod(v, pow256(width));
}

/// Digit `i` of the number that `b` spells is byte `i` of `b`.
proof fn lemma_digit_of_value(b: Seq<u8>, i: int)
    requires
        0 <= i < b.len(),
    ensures
        (le_value(b) / pow256(i as nat)) % 256 == b[i] as nat,
    decreases i,
{
    let whole = le_value(b);
    let rest = le_value(b.drop_first());
    assert(whole == rest * 256 + b[0] as nat);
    lemma_fundamental_div_mod_converse(whole as int, 256, rest as int, b[0] as int);
    if i == 0 {
        assert(pow256(0) == 1);
        assert(whole / 1 == whole);
    } else {
        let below = pow256((i - 1) as nat);
        lemma_digit_of_value(b.drop_first(), i - 1);
        lemma_pow256_positive((i - 1) as nat);
        lemma_div_denominator(whole as int, 256, below as int);
        assert(pow256(i as nat) == 256 * below);
        assert(whole / pow256(i as nat) == rest / below);
        assert(b.drop_first()[i - 1] == b[i]);
    }
}

/// Writing the number that bytes spell gives the bytes back.
pub proof fn lemma_bytes_of_value(b: Seq<u8>)
    ensures
        le_bytes(le_value(b), b.len()) == b,
{
    let back = le_bytes(le_value(b), b.len());
    assert forall|i: int| 0 <= i < b.len() implies back[i] == b[i] by {
        lemma_digit_of_value(b, i);
    }
    assert(back =~= b);
}

/// Appends the `width` little-endian bytes of `v` to `out`.
pub fn put_le(out: &mut Vec<u8>, v: u128, width: usize)
    ensures
        final(out)@ == old(out)@ + le_bytes(v as nat, width as nat),
{
    let mut rest: u128 = v;
    let mut i: usize = 0;
    proof {
        assert(pow256(0) == 1);
        assert(v as nat / 1 == v as nat);
    }
    while i < width
        invariant
            i <= width,
            out@ == old(out)@ + le_bytes(v as nat, i as nat),
            rest as nat == v as nat / pow256(i as nat),
        decreases width - i,
    {
        let digit: u8 = (rest % 256) as u8;
        out.push(digit);
        proof {
            lemma_pow256_positive(i as nat);
            lemma_div_denominator(v as int, pow256(i as nat) as int, 256);
            assert(pow256((i + 1) as nat) == 256 * pow256(i as nat));
            assert(le_bytes(v as nat, (i + 1) as nat) =~= le_bytes(v as nat, i as nat).push(digit));
        }
        rest = rest / 256;
        i = i + 1;
    }
}

/// Reads `width` bytes of `data` from `start` as a little-endian number.
pub fn read_le(data: &[u8], start: usize, width: usize) -> (v: u128)
    requires
        width <= 16,
        start + width <= data@.len(),
    ensures
        v as nat == le_value(data@.subrange(start as int, start + width)),
{
    let total: usize = data.len();
    let mut acc: u128 = 0;
    let mut i: usize = width;
    proof {
        assert(data@.subrange(start + width, start + width).len() == 0);
    }
    while i > 0
        invariant
            i <= width <= 16,
            start + width <= data@.len() == total,
            acc as nat == le_value(data@.subrange(start + i, start + width)),
        decreases i,
    {
        i = i - 1;
        let byte: u8 = data[start + i];
        proof {
            let run = data@.subrange(start + i, start + width);
            assert(run.drop_first() =~= data@.subrange(start + i + 1, start + width));
            assert(run[0] == byte);
            lemma_le_value_bound(run);
            lemma_pow256_monotonic(run.len(), 16);
            lemma_pow256_values();
        }
        acc = acc * 256 + byte as u128;
    }
    acc
}

/// Appends the eight little-endian bytes of `v` to `out`.
pub fn put_u64(out: &mut Vec<u8>, v: u64)
    ensures
        final(out)@ == old(out)@ + le_bytes(v as nat, 8),
{
    put_le(out, v as u128, 8);
}

/// Reads the eight bytes of `data` from `start` as a little-endian `u64`.
pub fn read_u64(data: &[u8], start: usize) -> (v: u64)
    requires
        start + 8 <= data@.len(),
    ensures
        v as nat == le_value(data@.subrange(start as int, start + 8)),
{
    let wide = read_le(data, start, 8);
    proof {
        lemma_le_value_bound(data@.subrange(start as int, start + 8));
        lemma_pow256_values();
    }
    wide as u64
}

} // verus!
