//! The numeric meaning of little-endian bit sequences.
//!
//! A `Seq<bool>` is read as a natural number with index 0 as the least
//! significant bit. `bits_val` decodes a sequence, `nat_to_bits` encodes a
//! number into a fixed width, and the lemmas here show that the two are
//! mutually inverse, which is what ties the adder's bitwise output to
//! modular arithmetic.

use vstd::arithmetic::power2::pow2;
use vstd::prelude::*;

verus! {

/// Numeric weight of a single bit.
pub open spec fn bit_val(b: bool) -> nat {
    if b {
        1
    } else {
        0
    }
}

/// The natural number denoted by a little-endian bit sequence.
pub open spec fn bits_val(s: Seq<bool>) -> nat
    decreases s.len(),
{
    if s.len() == 0 {
        0
    } else {
        bit_val(s[0]) + 2 * bits_val(s.skip(1))
    }
}

/// The `w`-bit little-endian encoding of `n` (bits at and above position
/// `w` are lost).
pub open spec fn nat_to_bits(n: nat, w: nat) -> Seq<bool>
    decreases w,
{
    if w == 0 {
        Seq::empty()
    } else {
        seq![n % 2 == 1].add(nat_to_bits(n / 2, (w - 1) as nat))
    }
}

/// An encoding has exactly the width it was asked for.
pub proof fn lemma_nat_to_bits_len(n: nat, w: nat)
    ensures
        nat_to_bits(n, w).len() == w,
    decreases w,
{
    if w > 0 {
        lemma_nat_to_bits_len(n / 2, (w - 1) as nat);
    }
}

/// A bit sequence denotes a value below 2^len.
pub proof fn lemma_bits_val_bound(s: Seq<bool>)
    ensures
        bits_val(s) < pow2(s.len()),
    decreases s.len(),
{
    if s.len() == 0 {
        vstd::arithmetic::power2::lemma2_to64();
    } else {
        vstd::arithmetic::power2::lemma_pow2_unfold(s.len());
        lemma_bits_val_bound(s.skip(1));
    }
}

/// Extending a prefix by one bit adds that bit's weight at its position.
pub proof fn lemma_bits_val_take_succ(s: Seq<bool>, i: int)
    requires
        0 <= i < s.len(),
    ensures
        bits_val(s.take(i + 1)) == bits_val(s.take(i)) + pow2(i as nat) * bit_val(s[i]),
    decreases i,
{
    if i == 0 {
        assert(s.take(1).skip(1) =~= Seq::<bool>::empty());
        assert(s.take(0) =~= Seq::<bool>::empty());
        vstd::arithmetic::power2::lemma2_to64();
        assert(s.take(1)[0] == s[0]);
        assert(pow2(i as nat) * bit_val(s[i]) == bit_val(s[i])) by (nonlinear_arith)
            requires
                pow2(i as nat) == 1,
        ;
    } else {
        let t = s.skip(1);
        assert(s.take(i + 1).skip(1) =~= t.take(i));
        assert(s.take(i).skip(1) =~= t.take(i - 1));
        lemma_bits_val_take_succ(t, i - 1);
        assert(t[i - 1] == s[i]);
        vstd::arithmetic::power2::lemma_pow2_unfold(i as nat);
        assert(bits_val(s.take(i + 1)) == bit_val(s.take(i + 1)[0]) + 2 * bits_val(
            s.take(i + 1).skip(1),
        ));
        assert(bits_val(s.take(i)) == bit_val(s.take(i)[0]) + 2 * bits_val(s.take(i).skip(1)));
        assert(s.take(i + 1)[0] == s[0] && s.take(i)[0] == s[0]);
        assert(2 * (bits_val(t.take(i - 1)) + pow2((i - 1) as nat) * bit_val(s[i])) == 2
            * bits_val(t.take(i - 1)) + pow2(i as nat) * bit_val(s[i])) by (nonlinear_arith)
            requires
                pow2(i as nat) == 2 * pow2((i - 1) as nat),
        ;
    }
}

/// Decoding inverts encoding for every value that fits in the width.
pub proof fn lemma_bits_val_of_nat(n: nat, w: nat)
    requires
        n < pow2(w),
    ensures
        bits_val(nat_to_bits(n, w)) == n,
    decreases w,
{
    if w == 0 {
        vstd::arithmetic::power2::lemma2_to64();
    } else {
        let s = nat_to_bits(n, w);
        lemma_nat_to_bits_len(n, w);
        assert(s.skip(1) =~= nat_to_bits(n / 2, (w - 1) as nat));
        vstd::arithmetic::power2::lemma_pow2_unfold(w);
        lemma_bits_val_of_nat(n / 2, (w - 1) as nat);
        assert(bit_val(n % 2 == 1) == n % 2);
        assert(n % 2 + 2 * (n / 2) == n) by (nonlinear_arith);
    }
}

/// Encoding inverts decoding: a sequence is the encoding of its own value
/// at its own width.
pub proof fn lemma_nat_to_bits_of_val(s: Seq<bool>)
    ensures
        nat_to_bits(bits_val(s), s.len()) == s,
    decreases s.len(),
{
    if s.len() > 0 {
        let v = bits_val(s);
        let t = s.skip(1);
        assert(v == bit_val(s[0]) + 2 * bits_val(t));
        assert(v % 2 == bit_val(s[0]) && v / 2 == bits_val(t)) by (nonlinear_arith)
            requires
                v == bit_val(s[0]) + 2 * bits_val(t),
                bit_val(s[0]) == 0 || bit_val(s[0]) == 1,
        ;
        assert((v % 2 == 1) == s[0]);
        lemma_nat_to_bits_of_val(t);
        lemma_nat_to_bits_len(v, s.len());
        assert(nat_to_bits(v, s.len()) =~= s);
    } else {
        assert(nat_to_bits(0, 0) =~= s);
    }
}

/// An all-low sequence denotes zero.
pub proof fn lemma_bits_val_zero(s: Seq<bool>)
    requires
        forall|j: int| 0 <= j < s.len() ==> !s[j],
    ensures
        bits_val(s) == 0,
    decreases s.len(),
{
    if s.len() > 0 {
        lemma_bits_val_zero(s.skip(1));
    }
}

/// A sequence with bit 0 high and every other bit low denotes one.
pub proof fn lemma_bits_val_unit(s: Seq<bool>)
    requires
        s.len() >= 1,
        s[0],
        forall|j: int| 1 <= j < s.len() ==> !s[j],
    ensures
        bits_val(s) == 1,
{
    lemma_bits_val_zero(s.skip(1));
}

/// Two sequences of one length with one value are the same sequence.
pub proof fn lemma_bits_val_injective(x: Seq<bool>, y: Seq<bool>)
    requires
        x.len() == y.len(),
        bits_val(x) == bits_val(y),
    ensures
        x == y,
{
    lemma_nat_to_bits_of_val(x);
    lemma_nat_to_bits_of_val(y);
}

} // verus!
