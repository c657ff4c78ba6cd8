//! Scalar gates derived from NAND, and their width-16 and multi-way lifts.

use vstd::prelude::*;

verus! {

/// A logical signal: `false` is low (`0`), `true` is high (`1`).
pub type Bit = bool;

/// Truth table of the universal gate: low only when both inputs are high.
pub open spec fn spec_nand(a: bool, b: bool) -> bool {
    !(a && b)
}

/// Truth table of negation.
pub open spec fn spec_not(a: bool) -> bool {
    !a
}

/// Truth table of conjunction.
pub open spec fn spec_and(a: bool, b: bool) -> bool {
    a && b
}

/// Truth table of disjunction.
pub open spec fn spec_or(a: bool, b: bool) -> bool {
    a || b
}

/// Truth table of joint denial.
pub open spec fn spec_nor(a: bool, b: bool) -> bool {
    !(a || b)
}

/// Truth table of exclusive disjunction.
pub open spec fn spec_xor(a: bool, b: bool) -> bool {
    a != b
}

/// A 2-way selection: the first input when `sel` is low, the second when high.
pub open spec fn spec_mux(a: bool, b: bool, sel: bool) -> bool {
    if sel {
        b
    } else {
        a
    }
}

/// The branch index encoded by a 2-bit selector, `s[0]` least significant.
pub open spec fn sel2_val(s: Seq<bool>) -> int {
    (if s[0] {
        1int
    } else {
        0int
    }) + 2 * (if s[1] {
        1int
    } else {
        0int
    })
}

/// The branch index encoded by a 3-bit selector, `s[0]` least significant.
pub open spec fn sel3_val(s: Seq<bool>) -> int {
    sel2_val(s) + 4 * (if s[2] {
        1int
    } else {
        0int
    })
}

/// The universal gate. This is the only executable function in the crate
/// whose body uses the host language's native Boolean operators; every
/// other gate is a composition that bottoms out here.
pub fn nand(a: Bit, b: Bit) -> (r: Bit)
    ensures
        r == spec_nand(a, b),
{
    !(a && b)
}

/// Negation, as one NAND with both inputs tied together.
pub fn not(a: Bit) -> (r: Bit)
    ensures
        r == spec_not(a),
{
    nand(a, a)
}

/// Conjunction: a negated NAND.
pub fn and(a: Bit, b: Bit) -> (r: Bit)
    ensures
        r == spec_and(a, b),
{
    not(nand(a, b))
}

/// Disjunction: a NAND of the negated inputs.
pub fn or(a: Bit, b: Bit) -> (r: Bit)
    ensures
        r == spec_or(a, b),
{
    nand(not(a), not(b))
}

/// Joint denial: a negated disjunction.
pub fn nor(a: Bit, b: Bit) -> (r: Bit)
    ensures
        r == spec_nor(a, b),
{
    not(or(a, b))
}

/// Exclusive disjunction: high when the inputs differ.
pub fn xor(a: Bit, b: Bit) -> (r: Bit)
    ensures
        r == spec_xor(a, b),
{
    and(nand(a, b), or(a, b))
}

/// 2-way multiplexer: forwards `a` when `sel` is low, `b` when high.
pub fn mux(a: Bit, b: Bit, sel: Bit) -> (r: Bit)
    ensures
        r == spec_mux(a, b, sel),
{
    or(and(not(sel), a), and(sel, b))
}

/// 2-way demultiplexer: routes `b_in` to the branch selected by `sel`;
/// the unchosen branch is low.
pub fn dmux(b_in: Bit, sel: Bit) -> (r: [Bit; 2])
    ensures
        r[0] == (b_in && !sel),
        r[1] == (b_in && sel),
{
    [and(not(sel), b_in), and(sel, b_in)]
}

/// Width-16 negation: the pointwise lift of `not`.
pub fn not16(m_in: [Bit; 16]) -> (r: [Bit; 16])
    ensures
        forall|i: int| 0 <= i < 16 ==> r[i] == spec_not(m_in[i]),
{
    let mut out: [Bit; 16] = [false;16];
    let mut i: usize = 0;
    while i < 16
        invariant
            i <= 16,
            forall|j: int| 0 <= j < i ==> out[j] == spec_not(m_in[j]),
        decreases 16 - i,
    {
        out[i] = not(m_in[i]);
        i = i + 1;
    }
    out
}

/// Width-16 conjunction: the pointwise lift of `and`.
pub fn and16(a: [Bit; 16], b: [Bit; 16]) -> (r: [Bit; 16])
    ensures
        forall|i: int| 0 <= i < 16 ==> r[i] == spec_and(a[i], b[i]),
{
    let mut out: [Bit; 16] = [false;16];
    let mut i: usize = 0;
    while i < 16
        invariant
            i <= 16,
            forall|j: int| 0 <= j < i ==> out[j] == spec_and(a[j], b[j]),
        decreases 16 - i,
    {
        out[i] = and(a[i], b[i]);
        i = i + 1;
    }
    out
}

/// Width-16 disjunction: the pointwise lift of `or`.
pub fn or16(a: [Bit; 16], b: [Bit; 16]) -> (r: [Bit; 16])
    ensures
        forall|i: int| 0 <= i < 16 ==> r[i] == spec_or(a[i], b[i]),
{
    let mut out: [Bit; 16] = [false;16];
    let mut i: usize = 0;
    while i < 16
        invariant
            i <= 16,
            forall|j: int| 0 <= j < i ==> out[j] == spec_or(a[j], b[j]),
        decreases 16 - i,
    {
        out[i] = or(a[i], b[i]);
        i = i + 1;
    }
    out
}

/// Width-16 2-way multiplexer: one scalar select fans out across all 16
/// lanes, so the result is `a` entire when `sel` is low and `b` entire
/// when it is high.
pub fn mux16(a: [Bit; 16], b: [Bit; 16], sel: Bit) -> (r: [Bit; 16])
    ensures
        forall|i: int| 0 <= i < 16 ==> r[i] == spec_mux(a[i], b[i], sel),
        r@ == (if sel {
            b@
        } else {
            a@
        }),
{
    let mut out: [Bit; 16] = [false;16];
    let mut i: usize = 0;
    while i < 16
        invariant
            i <= 16,
            forall|j: int| 0 <= j < i ==> out[j] == spec_mux(a[j], b[j], sel),
        decreases 16 - i,
    {
        out[i] = mux(a[i], b[i], sel);
        i = i + 1;
    }
    proof {
        if sel {
            assert(out@ =~= b@);
        } else {
            assert(out@ =~= a@);
        }
    }
    out
}

/// Balanced-tree OR reduction of 8 bits: high exactly when some input bit
/// is high.
pub fn or8way(b_in: [Bit; 8]) -> (r: Bit)
    ensures
        r == (b_in[0] || b_in[1] || b_in[2] || b_in[3] || b_in[4] || b_in[5] || b_in[6]
            || b_in[7]),
{
    or(
        or(or(b_in[0], b_in[1]), or(b_in[2], b_in[3])),
        or(or(b_in[4], b_in[5]), or(b_in[6], b_in[7])),
    )
}

/// 4-way width-16 multiplexer: returns the input whose index the 2-bit
/// selector encodes (`sel[0]` least significant).
pub fn mux4way16(
    a: [Bit; 16],
    b: [Bit; 16],
    c: [Bit; 16],
    d: [Bit; 16],
    sel: [Bit; 2],
) -> (r: [Bit; 16])
    ensures
        sel2_val(sel@) == 0 ==> r@ == a@,
        sel2_val(sel@) == 1 ==> r@ == b@,
        sel2_val(sel@) == 2 ==> r@ == c@,
        sel2_val(sel@) == 3 ==> r@ == d@,
{
    mux16(mux16(a, b, sel[0]), mux16(c, d, sel[0]), sel[1])
}

/// 8-way width-16 multiplexer: returns the input whose index the 3-bit
/// selector encodes (`sel[0]` least significant).
pub fn mux8way16(
    a: [Bit; 16],
    b: [Bit; 16],
    c: [Bit; 16],
    d: [Bit; 16],
    e: [Bit; 16],
    f: [Bit; 16],
    g: [Bit; 16],
    h: [Bit; 16],
    sel: [Bit; 3],
) -> (r: [Bit; 16])
    ensures
        sel3_val(sel@) == 0 ==> r@ == a@,
        sel3_val(sel@) == 1 ==> r@ == b@,
        sel3_val(sel@) == 2 ==> r@ == c@,
        sel3_val(sel@) == 3 ==> r@ == d@,
        sel3_val(sel@) == 4 ==> r@ == e@,
        sel3_val(sel@) == 5 ==> r@ == f@,
        sel3_val(sel@) == 6 ==> r@ == g@,
        sel3_val(sel@) == 7 ==> r@ == h@,
{
    let low = [sel[0], sel[1]];
    mux16(mux4way16(a, b, c, d, low), mux4way16(e, f, g, h, low), sel[2])
}

/// 4-way demultiplexer: the branch whose index the 2-bit selector encodes
/// carries `b_in`; every other branch is low.
pub fn dmux4way(b_in: Bit, sel: [Bit; 2]) -> (r: [Bit; 4])
    ensures
        forall|k: int| 0 <= k < 4 ==> r[k] == (b_in && k == sel2_val(sel@)),
{
    [
        and(and(not(sel[0]), not(sel[1])), b_in),
        and(and(sel[0], not(sel[1])), b_in),
        and(and(not(sel[0]), sel[1]), b_in),
        and(and(sel[0], sel[1]), b_in),
    ]
}

/// 8-way demultiplexer: the branch whose index the 3-bit selector encodes
/// carries `b_in`; every other branch is low.
pub fn dmux8way(b_in: Bit, sel: [Bit; 3]) -> (r: [Bit; 8])
    ensures
        forall|k: int| 0 <= k < 8 ==> r[k] == (b_in && k == sel3_val(sel@)),
{
    [
        and(and(and(not(sel[0]), not(sel[1])), not(sel[2])), b_in),
        and(and(and(sel[0], not(sel[1])), not(sel[2])), b_in),
        and(and(and(not(sel[0]), sel[1]), not(sel[2])), b_in),
        and(and(and(sel[0], sel[1]), not(sel[2])), b_in),
        and(and(and(not(sel[0]), not(sel[1])), sel[2]), b_in),
        and(and(and(sel[0], not(sel[1])), sel[2]), b_in),
        and(and(and(not(sel[0]), sel[1]), sel[2]), b_in),
        and(and(and(sel[0], sel[1]), sel[2]), b_in),
    ]
}

/// Double negation is the identity.
pub proof fn lemma_not_involution(a: bool)
    ensures
        spec_not(spec_not(a)) == a,
{
}

/// Conjunction is commutative.
pub proof fn lemma_and_comm(a: bool, b: bool)
    ensures
        spec_and(a, b) == spec_and(b, a),
{
}

/// Disjunction is commutative.
pub proof fn lemma_or_comm(a: bool, b: bool)
    ensures
        spec_or(a, b) == spec_or(b, a),
{
}

/// Exclusive disjunction is commutative.
pub proof fn lemma_xor_comm(a: bool, b: bool)
    ensures
        spec_xor(a, b) == spec_xor(b, a),
{
}

/// Joint denial is the negation of disjunction.
pub proof fn lemma_nor_is_negated_or(a: bool, b: bool)
    ensures
        spec_nor(a, b) == spec_not(spec_or(a, b)),
{
}

/// De Morgan: the negation of a conjunction is the disjunction of the
/// negations.
pub proof fn lemma_de_morgan_and(a: bool, b: bool)
    ensures
        spec_not(spec_and(a, b)) == spec_or(spec_not(a), spec_not(b)),
{
}

/// De Morgan: the negation of a disjunction is the conjunction of the
/// negations.
pub proof fn lemma_de_morgan_or(a: bool, b: bool)
    ensures
        spec_not(spec_or(a, b)) == spec_and(spec_not(a), spec_not(b)),
{
}

} // verus!
