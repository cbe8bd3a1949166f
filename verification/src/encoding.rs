//! Fixed-width little-endian encoding of integers, the building block of the
//! canonical byte strings that get hashed.
//!
//! Every integer is written in a fixed number of bytes, least significant
//! byte first; signed integers are written in two's complement. Within its
//! width the encoding is injective, and because the width is fixed, a
//! concatenation of encoded fields can be taken apart again in only one way.

use vstd::prelude::*;

verus! {

/// The `width` low-order base-256 digits of `x`, least significant first.
pub open spec fn le_bytes(x: nat, width: nat) -> Seq<u8>
    decreases width,
{
    if width == 0 {
        Seq::empty()
    } else {
        seq![(x % 256) as u8] + le_bytes(x / 256, (width - 1) as nat)
    }
}

/// The number of values that `width` bytes can tell apart: `256^width`.
pub open spec fn capacity(width: nat) -> nat
    decreases width,
{
    if width == 0 {
        1
    } else {
        256 * capacity((width - 1) as nat)
    }
}

/// The unsigned 64-bit number with the same bit pattern as `x`.
pub open spec fn twos_complement(x: i64) -> nat {
    if x >= 0 {
        x as nat
    } else {
        (x + 0x1_0000_0000_0000_0000) as nat
    }
}

/// Eight bytes hold exactly the 64-bit numbers.
pub proof fn lemma_capacity_of_eight_bytes()
    ensures
        capacity(8) == 0x1_0000_0000_0000_0000,
{
    reveal_with_fuel(capacity, 9);
}

/// An encoding has as many bytes as its width.
pub proof fn lemma_le_bytes_len(x: nat, width: nat)
    ensures
        le_bytes(x, width).len() == width,
    decreases width,
{
    if width > 0 {
        lemma_le_bytes_len(x / 256, (width - 1) as nat);
    }
}

/// Two numbers that fit the width and have the same encoding are equal.
pub proof fn lemma_le_bytes_injective(x: nat, y: nat, width: nat)
    requires
        x < capacity(width),
        y < capacity(width),
        le_bytes(x, width) == le_bytes(y, width),
    ensures
        x == y,
    decreases width,
{
    if width > 0 {
        let rest: nat = (width - 1) as nat;
        let ex = le_bytes(x, width);
        let ey = le_bytes(y, width);
        lemma_le_bytes_len(x / 256, rest);
        lemma_le_bytes_len(y / 256, rest);
        assert(ex[0] == (x % 256) as u8);
        assert(ey[0] == (y % 256) as u8);
        assert(x % 256 == y % 256);
        assert(le_bytes(x / 256, rest) =~= ex.subrange(1, width as int));
        assert(le_bytes(y / 256, rest) =~= ey.subrange(1, width as int));
        lemma_le_bytes_injective(x / 256, y / 256, rest);
    }
}

/// Distinct 64-bit signed numbers have distinct bit patterns, and every bit
/// pattern fits in eight bytes.
pub proof fn lemma_twos_complement_injective(x: i64, y: i64)
    ensures
        twos_complement(x) < capacity(8),
        twos_complement(x) == twos_complement(y) ==> x == y,
{
    lemma_capacity_of_eight_bytes();
}

/// A concatenation whose left parts have equal length splits in one way only.
pub proof fn lemma_concat_injective(a1: Seq<u8>, b1: Seq<u8>, a2: Seq<u8>, b2: Seq<u8>)
    requires
        a1.len() == a2.len(),
        a1 + b1 == a2 + b2,
    ensures
        a1 == a2,
        b1 == b2,
{
    let n = a1.len() as int;
    assert(a1 =~= (a1 + b1).subrange(0, n));
    assert(a2 =~= (a2 + b2).subrange(0, n));
    assert(b1 =~= (a1 + b1).subrange(n, (a1 + b1).len() as int));
    assert(b2 =~= (a2 + b2).subrange(n, (a2 + b2).len() as int));
}

/// A concatenation whose right parts have equal length splits in one way only.
pub proof fn lemma_concat_injective_right(a1: Seq<u8>, b1: Seq<u8>, a2: Seq<u8>, b2: Seq<u8>)
    requires
        b1.len() == b2.len(),
        a1 + b1 == a2 + b2,
    ensures
        a1 == a2,
        b1 == b2,
{
    assert((a1 + b1).len() == a1.len() + b1.len());
    assert((a2 + b2).len() == a2.len() + b2.len());
    lemma_concat_injective(a1, b1, a2, b2);
}

/// Whether two 32-byte strings are the same.
pub fn same_bytes(a: &[u8; 32], b: &[u8; 32]) -> (same: bool)
    ensures
        same == (a@ == b@),
{
    let mut i: usize = 0;
    while i < 32
        invariant
            i <= 32,
            forall|j: int| 0 <= j < i ==> a@[j] == b@[j],
        decreases 32 - i,
    {
        if a[i] != b[i] {
            return false;
        }
        i += 1;
    }
    assert(a@ =~= b@);
    true
}

/// Appends `bytes` to `out`.
pub fn append_bytes(out: &mut Vec<u8>, bytes: &[u8])
    ensures
        final(out)@ == old(out)@ + bytes@,
{
    let n: usize = bytes.len();
    let mut i: usize = 0;
    while i < n
        invariant
            n == bytes@.len(),
            i <= n,
            out@ == old(out)@ + bytes@.subrange(0, i as int),
        decreases n - i,
    {
        out.push(bytes[i]);
        i += 1;
        assert(out@ =~= old(out)@ + bytes@.subrange(0, i as int));
    }
    assert(bytes@.subrange(0, n as int) =~= bytes@);
}

/// Appends the eight little-endian bytes of `x` to `out`.
pub fn append_u64(out: &mut Vec<u8>, x: u64)
    ensures
        final(out)@ == old(out)@ + le_bytes(x as nat, 8),
{
    let mut rest: u64 = x;
    let mut i: usize = 0;
    while i < 8
        invariant
            i <= 8,
            out@ + le_bytes(rest as nat, (8 - i) as nat) == old(out)@ + le_bytes(x as nat, 8),
        decreases 8 - i,
    {
        let ghost before = out@;
        out.push((rest % 256) as u8);
        proof {
            let tail = le_bytes((rest / 256) as nat, (8 - i - 1) as nat);
            assert(le_bytes(rest as nat, (8 - i) as nat) == seq![(rest % 256) as u8] + tail);
            assert(out@ + tail =~= before + (seq![(rest % 256) as u8] + tail));
        }
        rest = rest / 256;
        i += 1;
    }
    assert(out@ + le_bytes(rest as nat, 0) =~= out@);
}

/// The unsigned number with the bit pattern of `x`.
pub fn to_twos_complement(x: i64) -> (bits: u64)
    ensures
        bits as nat == twos_complement(x),
{
    if x >= 0 {
        x as u64
    } else {
        let low: u64 = (x - i64::MIN) as u64;
        low + 0x8000_0000_0000_0000u64
    }
}

/// Appends the eight little-endian two's-complement bytes of `x` to `out`.
pub fn append_i64(out: &mut Vec<u8>, x: i64)
    ensures
        final(out)@ == old(out)@ + le_bytes(twos_complement(x), 8),
{
    append_u64(out, to_twos_complement(x));
}

} // verus!
