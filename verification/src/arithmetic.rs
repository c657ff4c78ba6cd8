//! Ripple-carry arithmetic built from the scalar gates.
//!
//! The adder chains `full_adder` from bit 0 (least significant) upward;
//! the carry out of bit 15 is discarded, so `add16` computes addition
//! modulo 2^16 of the little-endian values, and `inc16` the successor
//! modulo 2^16. The contracts say exactly that, through the encoding and
//! decoding functions of `crate::bits`.

use crate::bits::bit_val;
use crate::bits::bits_val;
use crate::bits::lemma_bits_val_bound;
use crate::bits::lemma_bits_val_of_nat;
use crate::bits::lemma_bits_val_take_succ;
use crate::bits::lemma_nat_to_bits_of_val;
use crate::bits::nat_to_bits;
use crate::logic::Bit;
use crate::logic::and;
use crate::logic::or;
use crate::logic::spec_and;
use crate::logic::spec_or;
use crate::logic::spec_xor;
use crate::logic::xor;
use vstd::arithmetic::div_mod::lemma_mod_bound;
use vstd::arithmetic::div_mod::lemma_mod_multiples_vanish;
use vstd::arithmetic::div_mod::lemma_small_mod;
use vstd::arithmetic::power2::lemma2_to64;
use vstd::arithmetic::power2::lemma_pow2_unfold;
use vstd::arithmetic::power2::pow2;
use vstd::prelude::*;

verus! {

/// The all-low 16-bit word, the additive identity.
pub open spec fn zero16() -> Seq<bool> {
    nat_to_bits(0, 16)
}

/// The 16-bit word for 1: bit 0 high, every other bit low.
pub open spec fn one16() -> Seq<bool> {
    nat_to_bits(1, 16)
}

/// What 16-bit addition returns: the 16-bit encoding of the sum of the
/// operands' values, taken modulo 2^16.
pub open spec fn spec_add16(a: Seq<bool>, b: Seq<bool>) -> Seq<bool> {
    nat_to_bits((bits_val(a) + bits_val(b)) % 0x10000, 16)
}

/// What 16-bit increment returns: one `add16` with the literal operand 1.
pub open spec fn spec_inc16(a: Seq<bool>) -> Seq<bool> {
    spec_add16(a, one16())
}

/// Half adder: the pair `[sum, carry]` of two bits, so that
/// `a + b == sum + 2 * carry`.
pub fn half_adder(a: Bit, b: Bit) -> (r: [Bit; 2])
    ensures
        r[0] == spec_xor(a, b),
        r[1] == spec_and(a, b),
        bit_val(a) + bit_val(b) == bit_val(r[0]) + 2 * bit_val(r[1]),
{
    [xor(a, b), and(a, b)]
}

/// Full adder: the pair `(sum, carry)` of three bits, so that
/// `a + b + c == sum + 2 * carry`.
pub fn full_adder(a: Bit, b: Bit, c: Bit) -> (r: (Bit, Bit))
    ensures
        r.0 == spec_xor(spec_xor(a, b), c),
        r.1 == spec_or(spec_or(spec_and(a, b), spec_and(b, c)), spec_and(c, a)),
        bit_val(a) + bit_val(b) + bit_val(c) == bit_val(r.0) + 2 * bit_val(r.1),
{
    (xor(xor(a, b), c), or(or(and(a, b), and(b, c)), and(c, a)))
}

/// 16-bit ripple-carry adder: the little-endian value of the result is
/// the sum of the operands' values modulo 2^16. The carry out of bit 15
/// is discarded; overflow is not reported.
pub fn add16(a: [Bit; 16], b: [Bit; 16]) -> (r: [Bit; 16])
    ensures
        bits_val(r@) == (bits_val(a@) + bits_val(b@)) % 0x10000,
        r@ == spec_add16(a@, b@),
{
    let mut carry: Bit = false;
    let mut sum: [Bit; 16] = [false;16];
    let mut i: usize = 0;
    proof {
        assert(a@.take(0) =~= Seq::<bool>::empty());
        assert(b@.take(0) =~= Seq::<bool>::empty());
        assert(sum@.take(0) =~= Seq::<bool>::empty());
        assert(pow2(0) * bit_val(false) == 0) by (nonlinear_arith);
    }
    while i < 16
        invariant
            i <= 16,
            bits_val(a@.take(i as int)) + bits_val(b@.take(i as int)) == bits_val(
                sum@.take(i as int),
            ) + pow2(i as nat) * bit_val(carry),
        decreases 16 - i,
    {
        let ghost prev_sum = sum@;
        let ghost c0 = bit_val(carry);
        let (s, c) = full_adder(a[i], b[i], carry);
        sum[i] = s;
        carry = c;
        proof {
            let ii = i as int;
            lemma_pow2_unfold((i + 1) as nat);
            assert(sum@.take(ii) =~= prev_sum.take(ii));
            lemma_bits_val_take_succ(a@, ii);
            lemma_bits_val_take_succ(b@, ii);
            lemma_bits_val_take_succ(sum@, ii);
            assert(bits_val(a@.take(ii + 1)) + bits_val(b@.take(ii + 1)) == bits_val(
                sum@.take(ii + 1),
            ) + pow2((i + 1) as nat) * bit_val(c)) by (nonlinear_arith)
                requires
                    bits_val(a@.take(ii + 1)) == bits_val(a@.take(ii)) + pow2(i as nat) * bit_val(
                        a@[ii],
                    ),
                    bits_val(b@.take(ii + 1)) == bits_val(b@.take(ii)) + pow2(i as nat) * bit_val(
                        b@[ii],
                    ),
                    bits_val(sum@.take(ii + 1)) == bits_val(sum@.take(ii)) + pow2(i as nat)
                        * bit_val(s),
                    bits_val(a@.take(ii)) + bits_val(b@.take(ii)) == bits_val(sum@.take(ii)) + pow2(
                        i as nat,
                    ) * c0,
                    bit_val(a@[ii]) + bit_val(b@[ii]) + c0 == bit_val(s) + 2 * bit_val(c),
                    pow2((i + 1) as nat) == 2 * pow2(i as nat),
            ;
        }
        i = i + 1;
    }
    proof {
        assert(a@.take(16) =~= a@);
        assert(b@.take(16) =~= b@);
        assert(sum@.take(16) =~= sum@);
        lemma_bits_val_bound(sum@);
        lemma2_to64();
        assert(pow2(16) * bit_val(carry) == 0x10000 * bit_val(carry)) by (nonlinear_arith)
            requires
                pow2(16) == 0x10000,
        ;
        lemma_mod_multiples_vanish(bit_val(carry) as int, bits_val(sum@) as int, 0x10000);
        lemma_small_mod(bits_val(sum@), 0x10000);
        lemma_nat_to_bits_of_val(sum@);
    }
    sum
}

/// 16-bit increment: adds 1 to the little-endian value, wrapping to zero
/// past the all-high word. Implemented, as its contract says, as one
/// `add16` call with the literal operand 1.
pub fn inc16(a: [Bit; 16]) -> (r: [Bit; 16])
    ensures
        bits_val(r@) == (bits_val(a@) + 1) % 0x10000,
        r@ == spec_inc16(a@),
{
    let mut one: [Bit; 16] = [false;16];
    one[0] = true;
    proof {
        crate::bits::lemma_bits_val_unit(one@);
        lemma2_to64();
        lemma_bits_val_of_nat(1, 16);
        crate::bits::lemma_nat_to_bits_len(1, 16);
        crate::bits::lemma_bits_val_injective(one@, one16());
    }
    add16(a, one)
}

/// The all-low word is the additive identity: adding it returns the other
/// operand unchanged.
pub proof fn lemma_add16_zero(a: Seq<bool>)
    requires
        a.len() == 16,
    ensures
        spec_add16(a, zero16()) == a,
{
    lemma2_to64();
    lemma_bits_val_of_nat(0, 16);
    lemma_bits_val_bound(a);
    lemma_small_mod(bits_val(a), 0x10000);
    lemma_nat_to_bits_of_val(a);
}

/// 16-bit addition is commutative.
pub proof fn lemma_add16_comm(a: Seq<bool>, b: Seq<bool>)
    ensures
        spec_add16(a, b) == spec_add16(b, a),
{
}

/// Adding two 16-bit encodings and decoding the result yields the sum of
/// the encoded values modulo 2^16.
pub proof fn lemma_add16_decodes_to_sum(u: nat, v: nat)
    requires
        u < 0x10000,
        v < 0x10000,
    ensures
        bits_val(spec_add16(nat_to_bits(u, 16), nat_to_bits(v, 16))) == (u + v) % 0x10000,
{
    lemma2_to64();
    lemma_bits_val_of_nat(u, 16);
    lemma_bits_val_of_nat(v, 16);
    lemma_mod_bound((u + v) as int, 0x10000);
    lemma_bits_val_of_nat(((u + v) % 0x10000) as nat, 16);
}

/// Incrementing a 16-bit encoding and decoding the result yields the
/// successor of the encoded value modulo 2^16.
pub proof fn lemma_inc16_decodes_to_succ(u: nat)
    requires
        u < 0x10000,
    ensures
        bits_val(spec_inc16(nat_to_bits(u, 16))) == (u + 1) % 0x10000,
{
    lemma2_to64();
    lemma_bits_val_of_nat(u, 16);
    lemma_bits_val_of_nat(1, 16);
    lemma_mod_bound((u + 1) as int, 0x10000);
    lemma_bits_val_of_nat(((u + 1) % 0x10000) as nat, 16);
}

} // verus!

