//! Integers modulo the field prime: the mathematical vocabulary that every
//! contract in this crate is written in.

use vstd::arithmetic::div_mod::lemma_mul_mod_noop_general;
use vstd::prelude::*;

verus! {

/// The field prime `q`.
#[verifier::inline]
pub open spec fn q() -> int {
    3329
}

/// `a` is the canonical representative of its residue class.
pub open spec fn canonical(a: int) -> bool {
    0 <= a < q()
}

/// `a` and `b` are the same residue modulo `q`.
pub open spec fn cong(a: int, b: int) -> bool {
    a % q() == b % q()
}

/// Sum in the field.
pub open spec fn fq_add(a: int, b: int) -> int {
    (a + b) % q()
}

/// Difference in the field.
pub open spec fn fq_sub(a: int, b: int) -> int {
    (a - b) % q()
}

/// Product in the field.
pub open spec fn fq_mul(a: int, b: int) -> int {
    (a * b) % q()
}

/// Every coefficient of `s` is canonical.
pub open spec fn all_canonical(s: Seq<int>) -> bool {
    forall|i: int| 0 <= i < s.len() ==> canonical(#[trigger] s[i])
}

/// Two canonical representatives of one class are equal.
pub proof fn lemma_cong_canonical(a: int, b: int)
    requires
        canonical(a),
        canonical(b),
        cong(a, b),
    ensures
        a == b,
{
}

/// Congruence is compatible with multiplication.
pub proof fn lemma_cong_mul(a: int, a2: int, b: int, b2: int)
    requires
        cong(a, a2),
        cong(b, b2),
    ensures
        cong(a * b, a2 * b2),
{
    lemma_mul_mod_noop_general(a, b, q());
    lemma_mul_mod_noop_general(a2, b2, q());
}

/// Congruence is compatible with addition.
pub proof fn lemma_cong_add(a: int, a2: int, b: int, b2: int)
    requires
        cong(a, a2),
        cong(b, b2),
    ensures
        cong(a + b, a2 + b2),
{
}

/// A field product is congruent to the product of anything congruent to its factors.
pub proof fn lemma_fq_mul_cong(a: int, a2: int, b: int, b2: int)
    requires
        cong(a, a2),
        cong(b, b2),
    ensures
        cong(fq_mul(a, b), a2 * b2),
        canonical(fq_mul(a, b)),
{
    lemma_cong_mul(a, a2, b, b2);
}

/// A field sum is congruent to the sum of anything congruent to its terms.
pub proof fn lemma_fq_add_cong(a: int, a2: int, b: int, b2: int)
    requires
        cong(a, a2),
        cong(b, b2),
    ensures
        cong(fq_add(a, b), a2 + b2),
        canonical(fq_add(a, b)),
{
}

/// A field difference is congruent to the difference of anything congruent to its terms.
pub proof fn lemma_fq_sub_cong(a: int, a2: int, b: int, b2: int)
    requires
        cong(a, a2),
        cong(b, b2),
    ensures
        cong(fq_sub(a, b), a2 - b2),
        canonical(fq_sub(a, b)),
{
}

/// The product of two sums, multiplied out.
pub proof fn lemma_mul_foil(p: int, r: int, u: int, t: int)
    ensures
        (p + r) * (u + t) == p * u + p * t + r * u + r * t,
{
    assert((p + r) * (u + t) == p * u + p * t + r * u + r * t) by (nonlinear_arith);
}

/// The two outer factors of a product of three change places.
pub proof fn lemma_mul_left_swap(a: int, b: int, c: int)
    ensures
        a * (b * c) == b * (a * c),
        (a * b) * c == a * (b * c),
{
    assert(a * (b * c) == b * (a * c)) by (nonlinear_arith);
    assert((a * b) * c == a * (b * c)) by (nonlinear_arith);
}

/// A product of two products, regrouped.
pub proof fn lemma_mul_pairs(a: int, b: int, c: int, d: int)
    ensures
        (a * b) * (c * d) == (a * c) * (b * d),
{
    lemma_mul_left_swap(a, b, c * d);
    lemma_mul_left_swap(b, c, d);
    lemma_mul_left_swap(a, c, b * d);
}

/// A factor distributes over a sum of three.
pub proof fn lemma_mul_dist3(c: int, x: int, y: int, z: int)
    ensures
        c * (x + y + z) == c * x + c * y + c * z,
{
    assert(c * (x + y + z) == c * x + c * y + c * z) by (nonlinear_arith);
}

} // verus!
