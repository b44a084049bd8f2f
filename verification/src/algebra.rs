//! Field elements, polynomials in the two domains, and vectors and matrices of them.

use crate::linear::{
    dot, dot_upto, mat_vec, mat_wf, poly_wf, poly_zero, transpose_spec, vec_add, vec_ntt,
    vec_ntt_inverse, vec_wf,
};
use crate::modular::{all_canonical, canonical, fq_add, fq_mul, fq_sub, lemma_cong_mul};
use crate::ntt_eval::{lemma_ntt_evaluates, ntt_eval};
use crate::ntt_laws::lemma_ntt_of_ntt_inverse;
use crate::transform::{
    base_case_at, block_count, block_index, block_pos, inverse_layer, inverse_layer_at,
    inverse_upto, layer_len, ntt_inverse_spec, ntt_layer, ntt_layer_at, ntt_mul_spec, ntt_spec,
    ntt_upto, poly_add, poly_scale, poly_sub, valid_len,
};
use crate::util::{is_fold_trace, FastClone, FunctionalArray, Truncate};
use crate::zeta::{gamma, lemma_gamma_canonical, lemma_zeta_canonical, GAMMA, ZETA_POW_BITREV};
use vstd::prelude::*;

verus! {

/// The integer type that holds a canonical field element.
pub type Integer = u16;

/// An element of the field of `q = 3329` elements.
#[derive(Copy, Clone, Debug, PartialEq, Eq, Structural)]
pub struct FieldElement(pub Integer);

impl View for FieldElement {
    type V = int;

    open spec fn view(&self) -> int {
        self.0 as int
    }
}

impl Default for FieldElement {
    fn default() -> (r: Self)
        ensures
            r == FieldElement(0),
    {
        FieldElement(0)
    }
}

impl FieldElement {
    /// The field prime.
    pub const Q: Integer = 3329;

    /// The field prime, in the width that products are held in.
    pub const Q32: u32 = 3329;

    /// The shift `s` of the Barrett reduction.
    const BARRETT_SHIFT: usize = 24;

    /// The multiplier of the Barrett reduction: two to the `s`, over `q`,
    /// rounded down.
    const BARRETT_MULTIPLIER: u64 = 5039;

    /// The element is the canonical representative of its class.
    pub open spec fn wf(self) -> bool {
        canonical(self@)
    }

    /// One conditional subtraction of `q`: the residue of any `x < 2q`.
    pub fn small_reduce(x: u16) -> (r: u16)
        ensures
            r == if x < 3329 { x as int } else { x - 3329 },
            x < 2 * 3329 ==> r == x as int % 3329,
    {
        if x < Self::Q {
            x
        } else {
            x - Self::Q
        }
    }

    /// Barrett reduction with shift 24 and multiplier 5039: the residue of
    /// any `x` below `2 q^2`.
    pub fn barrett_reduce(x: u32) -> (r: u16)
        requires
            x < 2 * 3329 * 3329,
        ensures
            r == x as int % 3329,
    {
        let product: u64 = (x as u64) * Self::BARRETT_MULTIPLIER;
        assert(product >> 24 == product / 0x100_0000) by (bit_vector);
        let quotient: u32 = (product >> Self::BARRETT_SHIFT).truncate();
        let remainder: u32 = x - quotient * Self::Q32;
        Self::small_reduce(remainder.truncate())
    }

    /// The product of `a0 + a1 X` and `b0 + b1 X` modulo `X^2 - GAMMA[i]`.
    pub fn base_case_multiply(a0: Self, a1: Self, b0: Self, b1: Self, i: usize) -> (c: (Self, Self))
        requires
            a0.wf(),
            a1.wf(),
            b0.wf(),
            b1.wf(),
            i < 128,
        ensures
            c.0@ == (a0@ * b0@ + a1@ * b1@ * gamma(i as int)) % 3329,
            c.1@ == (a0@ * b1@ + a1@ * b0@) % 3329,
            c.0.wf(),
            c.1.wf(),
    {
        proof {
            lemma_gamma_canonical(i as int);
        }
        let a0: u32 = a0.0 as u32;
        let a1: u32 = a1.0 as u32;
        let b0: u32 = b0.0 as u32;
        let b1: u32 = b1.0 as u32;
        let g: u32 = GAMMA[i] as u32;
        assert(b1 * g <= 3328 * 3328) by (nonlinear_arith)
            requires
                b1 <= 3328,
                g <= 3328,
        ;
        let b1g: u32 = Self::barrett_reduce(b1 * g) as u32;
        assert(a0 * b0 <= 3328 * 3328 && a1 * b1g <= 3328 * 3328 && a0 * b1 <= 3328 * 3328 && a1
            * b0 <= 3328 * 3328) by (nonlinear_arith)
            requires
                a0 <= 3328,
                a1 <= 3328,
                b0 <= 3328,
                b1 <= 3328,
                b1g <= 3328,
        ;
        let c0 = Self::barrett_reduce(a0 * b0 + a1 * b1g);
        let c1 = Self::barrett_reduce(a0 * b1 + a1 * b0);
        proof {
            lemma_cong_mul(a1 as int, a1 as int, b1g as int, b1 * g);
            assert(a1 * (b1 * g) == a1 * b1 * g) by (nonlinear_arith);
        }
        (Self(c0), Self(c1))
    }
}

impl core::ops::Add<FieldElement> for FieldElement {
    type Output = FieldElement;

    fn add(self, rhs: FieldElement) -> (r: FieldElement)
        ensures
            r@ == fq_add(self@, rhs@),
            r.wf(),
    {
        FieldElement(FieldElement::small_reduce(self.0 + rhs.0))
    }
}

impl vstd::std_specs::ops::AddSpecImpl<FieldElement> for FieldElement {
    open spec fn obeys_add_spec() -> bool {
        true
    }

    open spec fn add_req(self, rhs: FieldElement) -> bool {
        self.wf() && rhs.wf()
    }

    open spec fn add_spec(self, rhs: FieldElement) -> FieldElement {
        FieldElement(fq_add(self@, rhs@) as u16)
    }
}

impl core::ops::Sub<FieldElement> for FieldElement {
    type Output = FieldElement;

    fn sub(self, rhs: FieldElement) -> (r: FieldElement)
        ensures
            r@ == fq_sub(self@, rhs@),
            r.wf(),
    {
        // Adding `q` first keeps the difference from going below zero.
        FieldElement(FieldElement::small_reduce(self.0 + FieldElement::Q - rhs.0))
    }
}

impl vstd::std_specs::ops::SubSpecImpl<FieldElement> for FieldElement {
    open spec fn obeys_sub_spec() -> bool {
        true
    }

    open spec fn sub_req(self, rhs: FieldElement) -> bool {
        self.wf() && rhs.wf()
    }

    open spec fn sub_spec(self, rhs: FieldElement) -> FieldElement {
        FieldElement(fq_sub(self@, rhs@) as u16)
    }
}

impl core::ops::Mul<FieldElement> for FieldElement {
    type Output = FieldElement;

    fn mul(self, rhs: FieldElement) -> (r: FieldElement)
        ensures
            r@ == fq_mul(self@, rhs@),
            r.wf(),
    {
        let x: u32 = self.0 as u32;
        let y: u32 = rhs.0 as u32;
        assert(x * y <= 3328 * 3328) by (nonlinear_arith)
            requires
                x <= 3328,
                y <= 3328,
        ;
        FieldElement(FieldElement::barrett_reduce(x * y))
    }
}

impl vstd::std_specs::ops::MulSpecImpl<FieldElement> for FieldElement {
    open spec fn obeys_mul_spec() -> bool {
        true
    }

    open spec fn mul_req(self, rhs: FieldElement) -> bool {
        self.wf() && rhs.wf()
    }

    open spec fn mul_spec(self, rhs: FieldElement) -> FieldElement {
        FieldElement(fq_mul(self@, rhs@) as u16)
    }
}

/// The residues that an array of 256 field elements holds.
pub open spec fn coeffs(a: [FieldElement; 256]) -> Seq<int> {
    Seq::new(256, |i: int| a[i]@)
}

/// An element of the ring `R_q`: a polynomial of degree at most 255 over the field.
#[derive(Clone, Copy, Debug, PartialEq)]
pub struct Polynomial(pub [FieldElement; 256]);

impl View for Polynomial {
    type V = Seq<int>;

    open spec fn view(&self) -> Seq<int> {
        coeffs(self.0)
    }
}

impl Default for Polynomial {
    fn default() -> (r: Self)
        ensures
            r.wf(),
            forall|i: int| 0 <= i < 256 ==> r@[i] == 0,
    {
        Polynomial([FieldElement(0);256])
    }
}

/// An element of the ring `T_q`: 128 residues modulo the quadratic factors of
/// `X^256 + 1`, two coefficients each.
#[derive(Clone, Copy, Debug, PartialEq)]
pub struct NttPolynomial(pub [FieldElement; 256]);

impl View for NttPolynomial {
    type V = Seq<int>;

    open spec fn view(&self) -> Seq<int> {
        coeffs(self.0)
    }
}

impl Default for NttPolynomial {
    fn default() -> (r: Self)
        ensures
            r.wf(),
            forall|i: int| 0 <= i < 256 ==> r@[i] == 0,
    {
        NttPolynomial([FieldElement(0);256])
    }
}

/// Arrays of field elements with the same residues are equal.
pub proof fn lemma_coeffs_determine(a: [FieldElement; 256], b: [FieldElement; 256])
    requires
        coeffs(a) == coeffs(b),
    ensures
        a == b,
{
    assert forall|i: int| 0 <= i < 256 implies a[i] == b[i] by {
        assert(coeffs(a)[i] == a[i]@);
        assert(coeffs(b)[i] == b[i]@);
        assert(a[i].0 == b[i].0);
    }
    assert(a =~= b);
}

impl Polynomial {
    /// The polynomial with the coefficients `s`.
    pub open spec fn of(s: Seq<int>) -> Polynomial {
        choose|p: Polynomial| p@ == s
    }

    /// A polynomial is the polynomial with its coefficients.
    pub proof fn lemma_of_view(self)
        ensures
            Polynomial::of(self@) == self,
    {
        lemma_coeffs_determine(Polynomial::of(self@).0, self.0);
    }
}

impl NttPolynomial {
    /// The polynomial with the coefficients `s`.
    pub open spec fn of(s: Seq<int>) -> NttPolynomial {
        choose|p: NttPolynomial| p@ == s
    }

    /// A polynomial is the polynomial with its coefficients.
    pub proof fn lemma_of_view(self)
        ensures
            NttPolynomial::of(self@) == self,
    {
        lemma_coeffs_determine(NttPolynomial::of(self@).0, self.0);
    }
}

/// One layer of Cooley-Tukey butterflies, in place.
fn forward_layer(f: &mut [FieldElement; 256], len: usize)
    requires
        valid_len(len as int),
        all_canonical(coeffs(*old(f))),
    ensures
        coeffs(*final(f)) == ntt_layer(coeffs(*old(f)), len as int),
        all_canonical(coeffs(*final(f))),
{
    let ghost f0 = coeffs(*f);
    let mut k: usize = 128 / len;
    let mut start: usize = 0;
    while start < 256
        invariant
            valid_len(len as int),
            start <= 256,
            block_pos(len as int, start as int) == 0,
            k == block_count(len as int) + block_index(len as int, start as int),
            all_canonical(f0),
            f0.len() == 256,
            all_canonical(coeffs(*f)),
            forall|i: int| 0 <= i < start ==> coeffs(*f)[i] == ntt_layer_at(f0, len as int, i),
            forall|i: int| start <= i < 256 ==> coeffs(*f)[i] == f0[i],
        decreases 256 - start,
    {
        proof {
            lemma_zeta_canonical(k as int);
        }
        let zeta = FieldElement(ZETA_POW_BITREV[k]);
        k += 1;
        let mut j: usize = start;
        while j < start + len
            invariant
                valid_len(len as int),
                start + 2 * len <= 256,
                start <= j <= start + len,
                block_pos(len as int, start as int) == 0,
                zeta@ == crate::zeta::zeta(
                    block_count(len as int) + block_index(len as int, start as int),
                ),
                zeta.wf(),
                all_canonical(f0),
                f0.len() == 256,
                all_canonical(coeffs(*f)),
                forall|i: int| 0 <= i < start ==> coeffs(*f)[i] == ntt_layer_at(f0, len as int, i),
                forall|i: int|
                    start <= i < j ==> coeffs(*f)[i] == ntt_layer_at(f0, len as int, i),
                forall|i: int|
                    start + len <= i < j + len ==> coeffs(*f)[i] == ntt_layer_at(
                        f0,
                        len as int,
                        i,
                    ),
                forall|i: int| j <= i < start + len ==> coeffs(*f)[i] == f0[i],
                forall|i: int| j + len <= i < 256 ==> coeffs(*f)[i] == f0[i],
            decreases start + len - j,
        {
            let ghost before = coeffs(*f);
            assert(before[j as int] == f0[j as int]);
            assert(before[j + len] == f0[j + len]);
            assert(canonical(before[j as int]) && canonical(before[j + len]));
            let t = zeta * f[j + len];
            f[j + len] = f[j] - t;
            f[j] = f[j] + t;
            proof {
                let after = coeffs(*f);
                assert forall|i: int| 0 <= i < 256 && i != j && i != j + len implies after[i]
                    == before[i] by {}
                assert(after[j as int] == ntt_layer_at(f0, len as int, j as int));
                assert(after[j + len] == ntt_layer_at(f0, len as int, j + len));
            }
            j += 1;
        }
        start += 2 * len;
    }
    proof {
        assert(coeffs(*f) =~= ntt_layer(f0, len as int));
    }
}

/// One layer of Gentleman-Sande butterflies, in place.
fn backward_layer(f: &mut [FieldElement; 256], len: usize)
    requires
        valid_len(len as int),
        all_canonical(coeffs(*old(f))),
    ensures
        coeffs(*final(f)) == inverse_layer(coeffs(*old(f)), len as int),
        all_canonical(coeffs(*final(f))),
{
    let ghost f0 = coeffs(*f);
    let mut k: usize = 256 / len - 1;
    let mut start: usize = 0;
    while start < 256
        invariant
            valid_len(len as int),
            start <= 256,
            block_pos(len as int, start as int) == 0,
            k + 1 == 2 * block_count(len as int) - block_index(len as int, start as int),
            all_canonical(f0),
            f0.len() == 256,
            all_canonical(coeffs(*f)),
            forall|i: int|
                0 <= i < start ==> coeffs(*f)[i] == inverse_layer_at(f0, len as int, i),
            forall|i: int| start <= i < 256 ==> coeffs(*f)[i] == f0[i],
        decreases 256 - start,
    {
        proof {
            lemma_zeta_canonical(k as int);
        }
        let zeta = FieldElement(ZETA_POW_BITREV[k]);
        k = if k > 0 {
            k - 1
        } else {
            0
        };
        let mut j: usize = start;
        while j < start + len
            invariant
                valid_len(len as int),
                start + 2 * len <= 256,
                start <= j <= start + len,
                block_pos(len as int, start as int) == 0,
                zeta@ == crate::zeta::zeta(
                    2 * block_count(len as int) - 1 - block_index(len as int, start as int),
                ),
                zeta.wf(),
                all_canonical(f0),
                f0.len() == 256,
                all_canonical(coeffs(*f)),
                forall|i: int|
                    0 <= i < start ==> coeffs(*f)[i] == inverse_layer_at(f0, len as int, i),
                forall|i: int|
                    start <= i < j ==> coeffs(*f)[i] == inverse_layer_at(f0, len as int, i),
                forall|i: int|
                    start + len <= i < j + len ==> coeffs(*f)[i] == inverse_layer_at(
                        f0,
                        len as int,
                        i,
                    ),
                forall|i: int| j <= i < start + len ==> coeffs(*f)[i] == f0[i],
                forall|i: int| j + len <= i < 256 ==> coeffs(*f)[i] == f0[i],
            decreases start + len - j,
        {
            let ghost before = coeffs(*f);
            assert(before[j as int] == f0[j as int]);
            assert(before[j + len] == f0[j + len]);
            assert(canonical(before[j as int]) && canonical(before[j + len]));
            let t = f[j];
            f[j] = t + f[j + len];
            f[j + len] = zeta * (f[j + len] - t);
            proof {
                let after = coeffs(*f);
                assert forall|i: int| 0 <= i < 256 && i != j && i != j + len implies after[i]
                    == before[i] by {}
                assert(after[j as int] == inverse_layer_at(f0, len as int, j as int));
                assert(after[j + len] == inverse_layer_at(f0, len as int, j + len));
            }
            j += 1;
        }
        start += 2 * len;
    }
    proof {
        assert(coeffs(*f) =~= inverse_layer(f0, len as int));
    }
}

impl Polynomial {
    /// Every coefficient is canonical.
    pub open spec fn wf(&self) -> bool {
        all_canonical(self@)
    }

    /// The number-theoretic transform: seven layers of butterflies, with block
    /// half-lengths 128 down to 2 and the twiddle factors in table order.
    /// Pair `i` of the result is the residue of `self` modulo
    /// `X^2 - GAMMA[i]`.
    pub fn ntt(&self) -> (r: NttPolynomial)
        requires
            self.wf(),
        ensures
            r@ == ntt_spec(self@),
            forall|i: int, k: int|
                0 <= i < 128 && 0 <= k < 2 ==> r@[2 * i + k] == #[trigger] ntt_eval(self@, i, k),
            r.wf(),
    {
        let mut f = self.0;
        let mut len: usize = 128;
        let mut layer: usize = 0;
        while layer < 7
            invariant
                layer <= 7,
                len == layer_len(layer as int),
                coeffs(f) == ntt_upto(self@, layer as int),
                all_canonical(coeffs(f)),
            decreases 7 - layer,
        {
            forward_layer(&mut f, len);
            len = len / 2;
            layer += 1;
        }
        proof {
            assert forall|i: int, k: int| 0 <= i < 128 && 0 <= k < 2 implies ntt_spec(self@)[2 * i
                + k] == #[trigger] ntt_eval(self@, i, k) by {
                lemma_ntt_evaluates(self@, i, k);
            }
        }
        NttPolynomial(f)
    }
}

impl NttPolynomial {
    /// Every coefficient is canonical.
    pub open spec fn wf(&self) -> bool {
        all_canonical(self@)
    }

    /// The inverse transform: seven layers of butterflies, with block
    /// half-lengths 2 up to 128, then the factor 3303. The result is the
    /// polynomial whose transform is `self`.
    pub fn ntt_inverse(&self) -> (r: Polynomial)
        requires
            self.wf(),
        ensures
            r@ == ntt_inverse_spec(self@),
            ntt_spec(r@) == self@,
            r.wf(),
    {
        let mut f: [FieldElement; 256] = self.0.fast_clone();
        let mut len: usize = 2;
        let mut layer: usize = 0;
        while layer < 7
            invariant
                layer <= 7,
                len == 2 * layer_len(7 - layer as int),
                coeffs(f) == inverse_upto(self@, layer as int),
                all_canonical(coeffs(f)),
            decreases 7 - layer,
        {
            backward_layer(&mut f, len);
            len = len * 2;
            layer += 1;
        }
        proof {
            lemma_ntt_of_ntt_inverse(self@);
        }
        let p = Polynomial(f);
        core::ops::Mul::mul(FieldElement(3303), &p)
    }
}

impl<'a> core::ops::Mul<&'a Polynomial> for FieldElement {
    type Output = Polynomial;

    fn mul(self, rhs: &'a Polynomial) -> (r: Polynomial)
        ensures
            r@ == poly_scale(self@, rhs@),
            r.wf(),
    {
        let scaled = |x: &FieldElement| -> (z: FieldElement)
            requires
                self.wf(),
                x.wf(),
            ensures
                z@ == fq_mul(self@, x@),
            { self * *x };
        proof {
            assert forall|i: int| 0 <= i < 256 implies call_requires(
                scaled,
                (&#[trigger] rhs.0.elements()[i],),
            ) by {
                assert(canonical(rhs@[i]));
            }
        }
        let r = Polynomial(FunctionalArray::map(&rhs.0, scaled));
        proof {
            assert forall|i: int| 0 <= i < 256 implies r@[i] == fq_mul(self@, rhs@[i]) by {
                assert(call_ensures(scaled, (&rhs.0.elements()[i],), r.0@[i]));
            }
            assert(r@ =~= poly_scale(self@, rhs@));
            r.lemma_of_view();
        }
        r
    }
}

impl<'a> vstd::std_specs::ops::MulSpecImpl<&'a Polynomial> for FieldElement {
    open spec fn obeys_mul_spec() -> bool {
        true
    }

    open spec fn mul_req(self, rhs: &'a Polynomial) -> bool {
        self.wf() && rhs.wf()
    }

    open spec fn mul_spec(self, rhs: &'a Polynomial) -> Polynomial {
        Polynomial::of(poly_scale(self@, rhs@))
    }
}

impl<'a> core::ops::Add<&'a Polynomial> for &'a Polynomial {
    type Output = Polynomial;

    fn add(self, rhs: &'a Polynomial) -> (r: Polynomial)
        ensures
            r@ == poly_add(self@, rhs@),
            r.wf(),
    {
        let sum = |x: &FieldElement, y: &FieldElement| -> (z: FieldElement)
            requires
                x.wf(),
                y.wf(),
            ensures
                z@ == fq_add(x@, y@),
            { *x + *y };
        proof {
            assert forall|i: int| 0 <= i < 256 implies call_requires(
                sum,
                (&#[trigger] self.0.elements()[i], &rhs.0.elements()[i]),
            ) by {
                assert(canonical(self@[i]) && canonical(rhs@[i]));
            }
        }
        let r = Polynomial(self.0.zip(&rhs.0, sum));
        proof {
            assert forall|i: int| 0 <= i < 256 implies r@[i] == fq_add(self@[i], rhs@[i]) by {
                assert(call_ensures(sum, (&self.0.elements()[i], &rhs.0.elements()[i]), r.0@[i]));
            }
            assert(r@ =~= poly_add(self@, rhs@));
            r.lemma_of_view();
        }
        r
    }
}

impl<'a> vstd::std_specs::ops::AddSpecImpl<&'a Polynomial> for &'a Polynomial {
    open spec fn obeys_add_spec() -> bool {
        true
    }

    open spec fn add_req(self, rhs: &'a Polynomial) -> bool {
        self.wf() && rhs.wf()
    }

    open spec fn add_spec(self, rhs: &'a Polynomial) -> Polynomial {
        Polynomial::of(poly_add(self@, rhs@))
    }
}

impl<'a> core::ops::Sub<&'a Polynomial> for &'a Polynomial {
    type Output = Polynomial;

    fn sub(self, rhs: &'a Polynomial) -> (r: Polynomial)
        ensures
            r@ == poly_sub(self@, rhs@),
            r.wf(),
    {
        let difference = |x: &FieldElement, y: &FieldElement| -> (z: FieldElement)
            requires
                x.wf(),
                y.wf(),
            ensures
                z@ == fq_sub(x@, y@),
            { *x - *y };
        proof {
            assert forall|i: int| 0 <= i < 256 implies call_requires(
                difference,
                (&#[trigger] self.0.elements()[i], &rhs.0.elements()[i]),
            ) by {
                assert(canonical(self@[i]) && canonical(rhs@[i]));
            }
        }
        let r = Polynomial(self.0.zip(&rhs.0, difference));
        proof {
            assert forall|i: int| 0 <= i < 256 implies r@[i] == fq_sub(self@[i], rhs@[i]) by {
                assert(call_ensures(
                    difference,
                    (&self.0.elements()[i], &rhs.0.elements()[i]),
                    r.0@[i],
                ));
            }
            assert(r@ =~= poly_sub(self@, rhs@));
            r.lemma_of_view();
        }
        r
    }
}

impl<'a> vstd::std_specs::ops::SubSpecImpl<&'a Polynomial> for &'a Polynomial {
    open spec fn obeys_sub_spec() -> bool {
        true
    }

    open spec fn sub_req(self, rhs: &'a Polynomial) -> bool {
        self.wf() && rhs.wf()
    }

    open spec fn sub_spec(self, rhs: &'a Polynomial) -> Polynomial {
        Polynomial::of(poly_sub(self@, rhs@))
    }
}

impl<'a> core::ops::Add<&'a NttPolynomial> for &'a NttPolynomial {
    type Output = NttPolynomial;

    fn add(self, rhs: &'a NttPolynomial) -> (r: NttPolynomial)
        ensures
            r@ == poly_add(self@, rhs@),
            r.wf(),
    {
        let sum = |x: &FieldElement, y: &FieldElement| -> (z: FieldElement)
            requires
                x.wf(),
                y.wf(),
            ensures
                z@ == fq_add(x@, y@),
            { *x + *y };
        proof {
            assert forall|i: int| 0 <= i < 256 implies call_requires(
                sum,
                (&#[trigger] self.0.elements()[i], &rhs.0.elements()[i]),
            ) by {
                assert(canonical(self@[i]) && canonical(rhs@[i]));
            }
        }
        let r = NttPolynomial(self.0.zip(&rhs.0, sum));
        proof {
            assert forall|i: int| 0 <= i < 256 implies r@[i] == fq_add(self@[i], rhs@[i]) by {
                assert(call_ensures(sum, (&self.0.elements()[i], &rhs.0.elements()[i]), r.0@[i]));
            }
            assert(r@ =~= poly_add(self@, rhs@));
            r.lemma_of_view();
        }
        r
    }
}

impl<'a> vstd::std_specs::ops::AddSpecImpl<&'a NttPolynomial> for &'a NttPolynomial {
    open spec fn obeys_add_spec() -> bool {
        true
    }

    open spec fn add_req(self, rhs: &'a NttPolynomial) -> bool {
        self.wf() && rhs.wf()
    }

    open spec fn add_spec(self, rhs: &'a NttPolynomial) -> NttPolynomial {
        NttPolynomial::of(poly_add(self@, rhs@))
    }
}

/// The product in `T_q`: pair `i` is multiplied modulo `X^2 - GAMMA[i]`.
impl<'a> core::ops::Mul<&'a NttPolynomial> for &'a NttPolynomial {
    type Output = NttPolynomial;

    fn mul(self, rhs: &'a NttPolynomial) -> (r: NttPolynomial)
        ensures
            r@ == ntt_mul_spec(self@, rhs@),
            r.wf(),
    {
        let mut out = [FieldElement(0);256];
        let mut i: usize = 0;
        while i < 128
            invariant
                i <= 128,
                self.wf(),
                rhs.wf(),
                forall|j: int| 0 <= j < 2 * i ==> coeffs(out)[j] == base_case_at(self@, rhs@, j),
                forall|j: int| 0 <= j < 2 * i ==> canonical(#[trigger] coeffs(out)[j]),
            decreases 128 - i,
        {
            let ghost before = coeffs(out);
            assert(canonical(self@[2 * i]) && canonical(self@[2 * i + 1]));
            assert(canonical(rhs@[2 * i]) && canonical(rhs@[2 * i + 1]));
            let (c0, c1) = FieldElement::base_case_multiply(
                self.0[2 * i],
                self.0[2 * i + 1],
                rhs.0[2 * i],
                rhs.0[2 * i + 1],
                i,
            );
            out[2 * i] = c0;
            out[2 * i + 1] = c1;
            proof {
                let after = coeffs(out);
                assert forall|j: int| 0 <= j < 256 && j != 2 * i && j != 2 * i + 1 implies after[j]
                    == before[j] by {}
                assert(after[2 * i] == base_case_at(self@, rhs@, 2 * i));
                assert(after[2 * i + 1] == base_case_at(self@, rhs@, 2 * i + 1));
            }
            i += 1;
        }
        proof {
            assert(coeffs(out) =~= ntt_mul_spec(self@, rhs@));
        }
        let r = NttPolynomial(out);
        proof {
            r.lemma_of_view();
        }
        r
    }
}

impl<'a> vstd::std_specs::ops::MulSpecImpl<&'a NttPolynomial> for &'a NttPolynomial {
    open spec fn obeys_mul_spec() -> bool {
        true
    }

    open spec fn mul_req(self, rhs: &'a NttPolynomial) -> bool {
        self.wf() && rhs.wf()
    }

    open spec fn mul_spec(self, rhs: &'a NttPolynomial) -> NttPolynomial {
        NttPolynomial::of(ntt_mul_spec(self@, rhs@))
    }
}

impl From<[FieldElement; 256]> for NttPolynomial {
    fn from(f: [FieldElement; 256]) -> (r: NttPolynomial) {
        NttPolynomial(f)
    }
}

impl vstd::std_specs::convert::FromSpecImpl<[FieldElement; 256]> for NttPolynomial {
    open spec fn obeys_from_spec() -> bool {
        true
    }

    open spec fn from_spec(f: [FieldElement; 256]) -> NttPolynomial {
        NttPolynomial(f)
    }
}

impl From<NttPolynomial> for [FieldElement; 256] {
    fn from(f_hat: NttPolynomial) -> (r: [FieldElement; 256]) {
        f_hat.0
    }
}

impl vstd::std_specs::convert::FromSpecImpl<NttPolynomial> for [FieldElement; 256] {
    open spec fn obeys_from_spec() -> bool {
        true
    }

    open spec fn from_spec(f_hat: NttPolynomial) -> [FieldElement; 256] {
        f_hat.0
    }
}

/// A vector of `K` polynomials.
#[derive(Clone, Copy, Debug, PartialEq)]
pub struct PolynomialVector<const K: usize>(pub [Polynomial; K]);

impl<const K: usize> View for PolynomialVector<K> {
    type V = Seq<Seq<int>>;

    open spec fn view(&self) -> Seq<Seq<int>> {
        Seq::new(K as nat, |i: int| self.0[i]@)
    }
}

impl<const K: usize> Default for PolynomialVector<K> {
    fn default() -> (r: Self)
        ensures
            r.wf(),
            forall|i: int| 0 <= i < K ==> r@[i] == poly_zero(),
    {
        let z = Polynomial::default();
        proof {
            assert(z@ =~= poly_zero());
        }
        PolynomialVector([z;K])
    }
}

impl<const K: usize> PolynomialVector<K> {
    /// The vector with the components `s`.
    pub open spec fn of(s: Seq<Seq<int>>) -> PolynomialVector<K> {
        choose|v: PolynomialVector<K>| v@ == s
    }

    /// A vector is the vector with its components.
    pub proof fn lemma_of_view(self)
        ensures
            PolynomialVector::<K>::of(self@) == self,
    {
        let other = PolynomialVector::<K>::of(self@);
        assert forall|i: int| 0 <= i < K implies other.0[i] == self.0[i] by {
            assert(other@[i] == self@[i]);
            lemma_coeffs_determine(other.0[i].0, self.0[i].0);
        }
        assert(other.0 =~= self.0);
    }

    /// Every component has canonical coefficients.
    pub open spec fn wf(&self) -> bool {
        vec_wf(self@, K as int)
    }

    /// The transform of each component.
    pub fn ntt(&self) -> (r: NttVector<K>)
        requires
            self.wf(),
        ensures
            r@ == vec_ntt(self@),
            r.wf(),
    {
        let transform = |p: &Polynomial| -> (p_hat: NttPolynomial)
            requires
                p.wf(),
            ensures
                p_hat@ == ntt_spec(p@),
                p_hat.wf(),
            { p.ntt() };
        proof {
            assert forall|i: int| 0 <= i < K implies call_requires(
                transform,
                (&#[trigger] self.0.elements()[i],),
            ) by {
                assert(poly_wf(self@[i]));
            }
        }
        let r = NttVector(FunctionalArray::map(&self.0, transform));
        proof {
            assert forall|i: int| 0 <= i < K implies #[trigger] r@[i] == ntt_spec(self@[i])
                && poly_wf(r@[i]) by {
                assert(call_ensures(transform, (&self.0.elements()[i],), r.0@[i]));
            }
            assert(r@ =~= vec_ntt(self@));
        }
        r
    }
}

impl<const K: usize> core::ops::Add<PolynomialVector<K>> for PolynomialVector<K> {
    type Output = PolynomialVector<K>;

    fn add(self, rhs: PolynomialVector<K>) -> (r: PolynomialVector<K>)
        ensures
            r@ == vec_add(self@, rhs@),
            r.wf(),
    {
        let sum = |x: &Polynomial, y: &Polynomial| -> (z: Polynomial)
            requires
                x.wf(),
                y.wf(),
            ensures
                z@ == poly_add(x@, y@),
                z.wf(),
            { core::ops::Add::add(x, y) };
        proof {
            assert forall|i: int| 0 <= i < K implies call_requires(
                sum,
                (&#[trigger] self.0.elements()[i], &rhs.0.elements()[i]),
            ) by {
                assert(poly_wf(self@[i]) && poly_wf(rhs@[i]));
            }
        }
        let r = PolynomialVector(self.0.zip(&rhs.0, sum));
        proof {
            assert forall|i: int| 0 <= i < K implies #[trigger] r@[i] == poly_add(
                self@[i],
                rhs@[i],
            ) && poly_wf(r@[i]) by {
                assert(call_ensures(sum, (&self.0.elements()[i], &rhs.0.elements()[i]), r.0@[i]));
            }
            assert(r@ =~= vec_add(self@, rhs@));
            r.lemma_of_view();
        }
        r
    }
}

impl<const K: usize> vstd::std_specs::ops::AddSpecImpl<PolynomialVector<K>> for PolynomialVector<K> {
    open spec fn obeys_add_spec() -> bool {
        true
    }

    open spec fn add_req(self, rhs: PolynomialVector<K>) -> bool {
        self.wf() && rhs.wf()
    }

    open spec fn add_spec(self, rhs: PolynomialVector<K>) -> PolynomialVector<K> {
        PolynomialVector::<K>::of(vec_add(self@, rhs@))
    }
}

/// A vector of `K` polynomials in the transformed domain.
#[derive(Clone, Copy, Debug, PartialEq)]
pub struct NttVector<const K: usize>(pub [NttPolynomial; K]);

impl<const K: usize> View for NttVector<K> {
    type V = Seq<Seq<int>>;

    open spec fn view(&self) -> Seq<Seq<int>> {
        Seq::new(K as nat, |i: int| self.0[i]@)
    }
}

impl<const K: usize> Default for NttVector<K> {
    fn default() -> (r: Self)
        ensures
            r.wf(),
            forall|i: int| 0 <= i < K ==> r@[i] == poly_zero(),
    {
        let z = NttPolynomial::default();
        proof {
            assert(z@ =~= poly_zero());
        }
        NttVector([z;K])
    }
}

impl<const K: usize> NttVector<K> {
    /// The vector with the components `s`.
    pub open spec fn of(s: Seq<Seq<int>>) -> NttVector<K> {
        choose|v: NttVector<K>| v@ == s
    }

    /// A vector is the vector with its components.
    pub proof fn lemma_of_view(self)
        ensures
            NttVector::<K>::of(self@) == self,
    {
        let other = NttVector::<K>::of(self@);
        assert forall|i: int| 0 <= i < K implies other.0[i] == self.0[i] by {
            assert(other@[i] == self@[i]);
            lemma_coeffs_determine(other.0[i].0, self.0[i].0);
        }
        assert(other.0 =~= self.0);
    }

    /// Every component has canonical coefficients.
    pub open spec fn wf(&self) -> bool {
        vec_wf(self@, K as int)
    }

    /// The inverse transform of each component.
    pub fn ntt_inverse(&self) -> (r: PolynomialVector<K>)
        requires
            self.wf(),
        ensures
            r@ == vec_ntt_inverse(self@),
            r.wf(),
    {
        let transform = |p_hat: &NttPolynomial| -> (p: Polynomial)
            requires
                p_hat.wf(),
            ensures
                p@ == ntt_inverse_spec(p_hat@),
                p.wf(),
            { p_hat.ntt_inverse() };
        proof {
            assert forall|i: int| 0 <= i < K implies call_requires(
                transform,
                (&#[trigger] self.0.elements()[i],),
            ) by {
                assert(poly_wf(self@[i]));
            }
        }
        let r = PolynomialVector(FunctionalArray::map(&self.0, transform));
        proof {
            assert forall|i: int| 0 <= i < K implies #[trigger] r@[i] == ntt_inverse_spec(
                self@[i],
            ) && poly_wf(r@[i]) by {
                assert(call_ensures(transform, (&self.0.elements()[i],), r.0@[i]));
            }
            assert(r@ =~= vec_ntt_inverse(self@));
        }
        r
    }
}

impl<'a, const K: usize> core::ops::Add<&'a NttVector<K>> for &'a NttVector<K> {
    type Output = NttVector<K>;

    fn add(self, rhs: &'a NttVector<K>) -> (r: NttVector<K>)
        ensures
            r@ == vec_add(self@, rhs@),
            r.wf(),
    {
        let sum = |x: &NttPolynomial, y: &NttPolynomial| -> (z: NttPolynomial)
            requires
                x.wf(),
                y.wf(),
            ensures
                z@ == poly_add(x@, y@),
                z.wf(),
            { core::ops::Add::add(x, y) };
        proof {
            assert forall|i: int| 0 <= i < K implies call_requires(
                sum,
                (&#[trigger] self.0.elements()[i], &rhs.0.elements()[i]),
            ) by {
                assert(poly_wf(self@[i]) && poly_wf(rhs@[i]));
            }
        }
        let r = NttVector(self.0.zip(&rhs.0, sum));
        proof {
            assert forall|i: int| 0 <= i < K implies #[trigger] r@[i] == poly_add(
                self@[i],
                rhs@[i],
            ) && poly_wf(r@[i]) by {
                assert(call_ensures(sum, (&self.0.elements()[i], &rhs.0.elements()[i]), r.0@[i]));
            }
            assert(r@ =~= vec_add(self@, rhs@));
            r.lemma_of_view();
        }
        r
    }
}

impl<'a, const K: usize> vstd::std_specs::ops::AddSpecImpl<&'a NttVector<K>> for &'a NttVector<K> {
    open spec fn obeys_add_spec() -> bool {
        true
    }

    open spec fn add_req(self, rhs: &'a NttVector<K>) -> bool {
        self.wf() && rhs.wf()
    }

    open spec fn add_spec(self, rhs: &'a NttVector<K>) -> NttVector<K> {
        NttVector::<K>::of(vec_add(self@, rhs@))
    }
}

/// What folding the products of the components with `+` gives is the inner
/// product: entry `n` of the trace is the sum of the first `n + 1` products.
proof fn lemma_fold_is_dot(u: Seq<Seq<int>>, v: Seq<Seq<int>>, trace: Seq<Seq<int>>, n: int)
    requires
        0 <= n < trace.len(),
        trace[0] == ntt_mul_spec(u[0], v[0]),
        forall|i: int|
            1 <= i < trace.len() ==> #[trigger] trace[i] == poly_add(
                trace[i - 1],
                ntt_mul_spec(u[i], v[i]),
            ),
    ensures
        trace[n] == dot_upto(u, v, n + 1),
    decreases n,
{
    if n == 0 {
        assert(dot_upto(u, v, 0) == poly_zero());
        assert(poly_add(poly_zero(), ntt_mul_spec(u[0], v[0])) =~= ntt_mul_spec(u[0], v[0]));
    } else {
        lemma_fold_is_dot(u, v, trace, n - 1);
    }
}

/// The inner product: the sum of the products of the components.
impl<'a, const K: usize> core::ops::Mul<&'a NttVector<K>> for &'a NttVector<K> {
    type Output = NttPolynomial;

    fn mul(self, rhs: &'a NttVector<K>) -> (r: NttPolynomial)
        ensures
            r@ == dot(self@, rhs@),
            r.wf(),
    {
        if K == 0 {
            // the empty sum
            let zero = NttPolynomial::default();
            proof {
                assert(zero@ =~= poly_zero());
                zero.lemma_of_view();
            }
            return zero;
        }
        let product = |x: &NttPolynomial, y: &NttPolynomial| -> (z: NttPolynomial)
            requires
                x.wf(),
                y.wf(),
            ensures
                z@ == ntt_mul_spec(x@, y@),
                z.wf(),
            { core::ops::Mul::mul(x, y) };
        let sum = |x: &NttPolynomial, y: &NttPolynomial| -> (z: NttPolynomial)
            requires
                x.wf(),
                y.wf(),
            ensures
                z@ == poly_add(x@, y@),
                z.wf(),
            { core::ops::Add::add(x, y) };
        proof {
            assert forall|i: int| 0 <= i < K implies call_requires(
                product,
                (&#[trigger] self.0.elements()[i], &rhs.0.elements()[i]),
            ) by {
                assert(poly_wf(self@[i]) && poly_wf(rhs@[i]));
            }
        }
        let products = self.0.zip(&rhs.0, product);
        proof {
            assert forall|i: int| 0 <= i < K implies (#[trigger] products@[i])@ == ntt_mul_spec(
                self@[i],
                rhs@[i],
            ) && products@[i].wf() by {
                assert(call_ensures(
                    product,
                    (&self.0.elements()[i], &rhs.0.elements()[i]),
                    products@[i],
                ));
            }
            assert forall|accs: Seq<NttPolynomial>| #[trigger]
                is_fold_trace(sum, products.elements(), accs) && accs.len() < K implies call_requires(
                sum,
                (&accs.last(), &products.elements()[accs.len() as int]),
            ) by {
                let last = accs.len() - 1;
                if last == 0 {
                    assert(accs[0] == products@[0]);
                } else {
                    assert(call_ensures(sum, (&accs[last - 1], &products.elements()[last]), accs[last]));
                }
                assert(products@[accs.len() as int].wf());
            }
        }
        let r = products.fold(sum);
        proof {
            let accs = choose|accs: Seq<NttPolynomial>| #[trigger]
                is_fold_trace(sum, products.elements(), accs) && accs.len() == K && r
                    == accs.last();
            let trace = Seq::new(K as nat, |i: int| accs[i]@);
            assert forall|i: int| 1 <= i < trace.len() implies #[trigger] trace[i] == poly_add(
                trace[i - 1],
                ntt_mul_spec(self@[i], rhs@[i]),
            ) by {
                assert(call_ensures(sum, (&accs[i - 1], &products.elements()[i]), accs[i]));
            }
            lemma_fold_is_dot(self@, rhs@, trace, K - 1);
            assert(r.wf()) by {
                if K > 1 {
                    assert(call_ensures(
                        sum,
                        (&accs[K - 2], &products.elements()[K - 1]),
                        accs[K - 1],
                    ));
                }
            }
            r.lemma_of_view();
        }
        r
    }
}

impl<'a, const K: usize> vstd::std_specs::ops::MulSpecImpl<&'a NttVector<K>> for &'a NttVector<K> {
    open spec fn obeys_mul_spec() -> bool {
        true
    }

    open spec fn mul_req(self, rhs: &'a NttVector<K>) -> bool {
        self.wf() && rhs.wf()
    }

    open spec fn mul_spec(self, rhs: &'a NttVector<K>) -> NttPolynomial {
        NttPolynomial::of(dot(self@, rhs@))
    }
}

/// A `K` by `K` matrix of polynomials in the transformed domain, stored by
/// rows, so that multiplying by a vector on the right goes row by row.
#[derive(Clone, Copy, Debug, PartialEq)]
pub struct NttMatrix<const K: usize>(pub [NttVector<K>; K]);

impl<const K: usize> View for NttMatrix<K> {
    type V = Seq<Seq<Seq<int>>>;

    open spec fn view(&self) -> Seq<Seq<Seq<int>>> {
        Seq::new(K as nat, |i: int| self.0[i]@)
    }
}

impl<const K: usize> Default for NttMatrix<K> {
    fn default() -> (r: Self)
        ensures
            r.wf(),
    {
        let z = NttVector::<K>::default();
        let r = NttMatrix([z;K]);
        proof {
            assert forall|i: int| 0 <= i < K implies vec_wf(#[trigger] r@[i], K as int) by {
                assert(r@[i] == z@);
            }
        }
        r
    }
}

impl<const K: usize> NttMatrix<K> {
    /// Every entry has canonical coefficients.
    pub open spec fn wf(&self) -> bool {
        mat_wf(self@, K as int)
    }

    /// The transpose: entry `(i, j)` of the result is entry `(j, i)` of `self`.
    pub fn transpose(&self) -> (r: Self)
        ensures
            r@ == transpose_spec(self@),
            self.wf() ==> r.wf(),
    {
        let mut out = self.0;
        let mut i: usize = 0;
        while i < K
            invariant
                i <= K,
                forall|a: int, b: int|
                    0 <= a < i && 0 <= b < K ==> (#[trigger] out[a].0[b]) == self.0[b].0[a],
            decreases K - i,
        {
            let mut row = self.0[i].0;
            let mut j: usize = 0;
            while j < K
                invariant
                    j <= K,
                    i < K,
                    forall|b: int| 0 <= b < j ==> (#[trigger] row[b]) == self.0[b].0[i as int],
                decreases K - j,
            {
                row[j] = self.0[j].0[i];
                j += 1;
            }
            out[i] = NttVector(row);
            i += 1;
        }
        let r = NttMatrix(out);
        proof {
            assert forall|a: int| 0 <= a < K implies #[trigger] r@[a] == transpose_spec(self@)[a] by {
                assert forall|b: int| 0 <= b < K implies #[trigger] r@[a][b] == self@[b][a] by {
                    assert(out[a].0[b] == self.0[b].0[a]);
                }
                assert(r@[a] =~= transpose_spec(self@)[a]);
            }
            assert(r@ =~= transpose_spec(self@));
            if self.wf() {
                assert forall|a: int| 0 <= a < K implies vec_wf(#[trigger] r@[a], K as int) by {
                    assert forall|b: int| 0 <= b < K implies poly_wf(#[trigger] r@[a][b]) by {
                        assert(vec_wf(self@[b], K as int));
                        assert(poly_wf(self@[b][a]));
                    }
                }
            }
        }
        r
    }
}

/// Matrix times vector: the inner product of each row with the vector.
impl<'a, const K: usize> core::ops::Mul<&'a NttVector<K>> for &'a NttMatrix<K> {
    type Output = NttVector<K>;

    fn mul(self, rhs: &'a NttVector<K>) -> (r: NttVector<K>)
        ensures
            r@ == mat_vec(self@, rhs@),
            r.wf(),
    {
        let times_rhs = |row: &NttVector<K>| -> (p: NttPolynomial)
            requires
                row.wf(),
                rhs.wf(),
            ensures
                p@ == dot(row@, rhs@),
                p.wf(),
            { core::ops::Mul::mul(row, rhs) };
        proof {
            assert forall|i: int| 0 <= i < K implies call_requires(
                times_rhs,
                (&#[trigger] self.0.elements()[i],),
            ) by {
                assert(vec_wf(self@[i], K as int));
            }
        }
        let r = NttVector(FunctionalArray::map(&self.0, times_rhs));
        proof {
            assert forall|i: int| 0 <= i < K implies #[trigger] r@[i] == dot(self@[i], rhs@)
                && poly_wf(r@[i]) by {
                assert(call_ensures(times_rhs, (&self.0.elements()[i],), r.0@[i]));
            }
            assert(r@ =~= mat_vec(self@, rhs@));
            r.lemma_of_view();
        }
        r
    }
}

impl<'a, const K: usize> vstd::std_specs::ops::MulSpecImpl<&'a NttVector<K>> for &'a NttMatrix<K> {
    open spec fn obeys_mul_spec() -> bool {
        true
    }

    open spec fn mul_req(self, rhs: &'a NttVector<K>) -> bool {
        self.wf() && rhs.wf()
    }

    open spec fn mul_spec(self, rhs: &'a NttVector<K>) -> NttVector<K> {
        NttVector::<K>::of(mat_vec(self@, rhs@))
    }
}

} // verus!
