//! Multiplication in the rings `Z_q[X] / (X^n - c)`, of which `R_q` is the one
//! with `n = 256` and `c = -1`, and finite sums, which it is defined by.

use crate::modular::{
    cong, lemma_cong_mul, lemma_mul_dist3, lemma_mul_foil, lemma_mul_left_swap, lemma_mul_pairs,
};
use vstd::prelude::*;

verus! {

/// The sum of `t(0)`, ..., `t(n - 1)`.
pub open spec fn sum(t: spec_fn(int) -> int, n: int) -> int
    decreases n,
{
    if n <= 0 {
        0
    } else {
        sum(t, n - 1) + t(n - 1)
    }
}

/// Sums of equal terms are equal.
pub proof fn lemma_sum_ext(t1: spec_fn(int) -> int, t2: spec_fn(int) -> int, n: int)
    requires
        forall|i: int| 0 <= i < n ==> #[trigger] t1(i) == t2(i),
    ensures
        sum(t1, n) == sum(t2, n),
    decreases n,
{
    if n > 0 {
        lemma_sum_ext(t1, t2, n - 1);
    }
}

/// Sums of congruent terms are congruent.
pub proof fn lemma_sum_cong(t1: spec_fn(int) -> int, t2: spec_fn(int) -> int, n: int)
    requires
        forall|i: int| 0 <= i < n ==> cong(#[trigger] t1(i), t2(i)),
    ensures
        cong(sum(t1, n), sum(t2, n)),
    decreases n,
{
    if n > 0 {
        lemma_sum_cong(t1, t2, n - 1);
        assert(cong(t1(n - 1), t2(n - 1)));
        crate::modular::lemma_cong_add(sum(t1, n - 1), sum(t2, n - 1), t1(n - 1), t2(n - 1));
    }
}

/// The sum of term-wise sums is the sum of the sums.
pub proof fn lemma_sum_add(
    t1: spec_fn(int) -> int,
    t2: spec_fn(int) -> int,
    t3: spec_fn(int) -> int,
    n: int,
)
    requires
        forall|i: int| 0 <= i < n ==> #[trigger] t3(i) == t1(i) + t2(i),
    ensures
        sum(t3, n) == sum(t1, n) + sum(t2, n),
    decreases n,
{
    if n > 0 {
        lemma_sum_add(t1, t2, t3, n - 1);
    }
}

/// A constant factor moves into the sum.
pub proof fn lemma_sum_scale(w: int, t1: spec_fn(int) -> int, t2: spec_fn(int) -> int, n: int)
    requires
        forall|i: int| 0 <= i < n ==> #[trigger] t2(i) == w * t1(i),
    ensures
        sum(t2, n) == w * sum(t1, n),
    decreases n,
{
    if n > 0 {
        lemma_sum_scale(w, t1, t2, n - 1);
        assert(w * (sum(t1, n - 1) + t1(n - 1)) == w * sum(t1, n - 1) + w * t1(n - 1))
            by (nonlinear_arith);
    } else {
        assert(w * 0 == 0);
    }
}

/// A sum of `n + m` terms is the sum of the first `n` and of the `m` after them.
pub proof fn lemma_sum_split(t: spec_fn(int) -> int, hi: spec_fn(int) -> int, n: int, m: int)
    requires
        0 <= n,
        0 <= m,
        forall|i: int| 0 <= i < m ==> #[trigger] hi(i) == t(n + i),
    ensures
        sum(t, n + m) == sum(t, n) + sum(hi, m),
    decreases m,
{
    if m > 0 {
        lemma_sum_split(t, hi, n, m - 1);
        assert(hi(m - 1) == t(n + (m - 1)));
    }
}

/// What coefficient `k - i` of `b` contributes to coefficient `k` of a
/// product modulo `X^n - c`, for the block of `n` coefficients that starts at
/// `s`: the coefficient itself, or `c` times the one that wraps around.
pub open spec fn wrap_term(b: Seq<int>, s: int, n: int, c: int, k: int, i: int) -> int {
    if i <= k {
        b[s + k - i]
    } else {
        c * b[s + n + k - i]
    }
}

/// The term with index `i` of coefficient `k` of the product.
pub open spec fn product_term(a: Seq<int>, b: Seq<int>, s: int, n: int, c: int, k: int, i: int)
    -> int {
    a[s + i] * wrap_term(b, s, n, c, k, i)
}

/// Coefficient `k` of the product modulo `X^n - c` of the two polynomials
/// that `a` and `b` hold in the `n` coefficients from `s` on, not reduced
/// modulo `q`: the sum over all `i + j = k` of `a_i b_j`, plus `c` times the
/// sum over all `i + j = k + n`.
pub open spec fn block_product_at(a: Seq<int>, b: Seq<int>, s: int, n: int, c: int, k: int)
    -> int {
    sum(|i: int| product_term(a, b, s, n, c, k, i), n)
}

/// The product in `R_q`: `X^256` is `-1`.
pub open spec fn poly_mul(a: Seq<int>, b: Seq<int>) -> Seq<int> {
    Seq::new(256, |k: int| block_product_at(a, b, 0, 256, -1, k) % 3329)
}

/// One term of the product in a child block, against the two terms of the
/// product in the parent block that it stands for, where the term of `b` does
/// not wrap around.
proof fn lemma_split_term_low(
    al: int,
    be: int,
    x: int,
    y: int,
    w: int,
    c: int,
    a2: int,
    b2: int,
)
    requires
        cong(a2, al + w * be),
        cong(b2, x + w * y),
        cong(w * w, c),
    ensures
        cong(a2 * b2, al * x + w * (al * y) + be * (c * y) + w * (be * x)),
{
    lemma_cong_mul(a2, al + w * be, b2, x + w * y);
    assert((al + w * be) * (x + w * y) == al * x + w * (al * y) + w * (be * x) + (w * w) * (be
        * y)) by {
        lemma_mul_foil(al, w * be, x, w * y);
        lemma_mul_left_swap(al, w, y);
        lemma_mul_left_swap(w, be, x);
        lemma_mul_pairs(w, be, w, y);
    }
    lemma_cong_mul(w * w, c, be * y, be * y);
    lemma_mul_left_swap(c, be, y);
    crate::modular::lemma_cong_add(
        al * x + w * (al * y) + w * (be * x),
        al * x + w * (al * y) + w * (be * x),
        (w * w) * (be * y),
        c * (be * y),
    );
}

/// The same where the term of `b` wraps around in the child block.
proof fn lemma_split_term_high(
    al: int,
    be: int,
    x: int,
    y: int,
    w: int,
    c: int,
    a2: int,
    b2: int,
)
    requires
        cong(a2, al + w * be),
        cong(b2, x + w * y),
        cong(w * w, c),
    ensures
        cong(a2 * (w * b2), al * (c * y) + w * (al * x) + be * (c * x) + w * (be * (c * y))),
{
    lemma_cong_mul(w, w, b2, x + w * y);
    lemma_cong_mul(a2, al + w * be, w * b2, w * (x + w * y));
    assert((al + w * be) * (w * (x + w * y)) == w * (al * x) + (w * w) * (al * y + be * x + w
        * (be * y))) by {
        let ww = w * w;
        // w (x + w y) = w x + (w w) y
        assert(w * (x + w * y) == w * x + ww * y) by {
            lemma_mul_foil(0, w, x, w * y);
            lemma_mul_left_swap(w, w, y);
        }
        lemma_mul_foil(al, w * be, w * x, ww * y);
        lemma_mul_left_swap(al, w, x);
        lemma_mul_left_swap(al, ww, y);
        lemma_mul_pairs(w, be, w, x);
        // (w be) ((w w) y) = (w w) (w (be y))
        lemma_mul_pairs(w, be, ww, y);
        lemma_mul_left_swap(w, ww, be * y);
        lemma_mul_dist3(ww, al * y, be * x, w * (be * y));
    }
    lemma_cong_mul(w * w, c, al * y + be * x + w * (be * y), al * y + be * x + w * (be * y));
    assert(c * (al * y + be * x + w * (be * y)) == al * (c * y) + be * (c * x) + w * (be * (c
        * y))) by {
        lemma_mul_dist3(c, al * y, be * x, w * (be * y));
        lemma_mul_left_swap(c, al, y);
        lemma_mul_left_swap(c, be, x);
        lemma_mul_left_swap(c, w, be * y);
        lemma_mul_left_swap(c, be, y);
    }
    crate::modular::lemma_cong_add(
        w * (al * x),
        w * (al * x),
        (w * w) * (al * y + be * x + w * (be * y)),
        c * (al * y + be * x + w * (be * y)),
    );
}

/// Reduction modulo `X^len - w` is multiplicative on residues modulo
/// `X^(2 len) - c`, where `w^2 = c`.
///
/// `a` and `b` hold two residues modulo `X^(2 len) - c` in the block that
/// starts at `s`; `a2` and `b2` hold, from `o` on, their residues modulo
/// `X^len - w`. Then coefficient `k` of the product of the two children is
/// what the product of the parents reduces to.
pub proof fn lemma_split_product(
    a: Seq<int>,
    b: Seq<int>,
    a2: Seq<int>,
    b2: Seq<int>,
    s: int,
    len: int,
    c: int,
    w: int,
    o: int,
    k: int,
)
    requires
        0 < len,
        0 <= k < len,
        cong(w * w, c),
        forall|j: int| 0 <= j < len ==> cong(#[trigger] a2[o + j], a[s + j] + w * a[s + len + j]),
        forall|j: int| 0 <= j < len ==> cong(#[trigger] b2[o + j], b[s + j] + w * b[s + len + j]),
    ensures
        cong(
            block_product_at(a2, b2, o, len, w, k),
            block_product_at(a, b, s, 2 * len, c, k) + w * block_product_at(
                a,
                b,
                s,
                2 * len,
                c,
                k + len,
            ),
        ),
{
    let n = 2 * len;
    let t_lo = |i: int| product_term(a, b, s, n, c, k, i);
    let t_hi = |i: int| product_term(a, b, s, n, c, k + len, i);
    let t_hi_w = |i: int| w * product_term(a, b, s, n, c, k + len, i);
    let u = |i: int| product_term(a, b, s, n, c, k, i) + w * product_term(a, b, s, n, c, k + len, i);
    let u_up = |i: int|
        product_term(a, b, s, n, c, k, len + i) + w * product_term(a, b, s, n, c, k + len, len + i);
    let v = |i: int|
        product_term(a, b, s, n, c, k, i) + w * product_term(a, b, s, n, c, k + len, i) + (
        product_term(a, b, s, n, c, k, len + i) + w * product_term(
            a,
            b,
            s,
            n,
            c,
            k + len,
            len + i,
        ));
    let t_child = |i: int| product_term(a2, b2, o, len, w, k, i);

    // the right-hand side as one sum over the child's indices
    lemma_sum_ext(|i: int| product_term(a, b, s, n, c, k, i), t_lo, n);
    lemma_sum_ext(|i: int| product_term(a, b, s, n, c, k + len, i), t_hi, n);
    lemma_sum_scale(w, t_hi, t_hi_w, n);
    lemma_sum_add(t_lo, t_hi_w, u, n);
    lemma_sum_split(u, u_up, len, len);
    lemma_sum_add(u, u_up, v, len);
    assert(sum(v, len) == block_product_at(a, b, s, n, c, k) + w * block_product_at(
        a,
        b,
        s,
        n,
        c,
        k + len,
    ));

    // term by term, the child's product is congruent to it
    assert forall|i: int| 0 <= i < len implies cong(#[trigger] t_child(i), v(i)) by {
        let al = a[s + i];
        let be = a[s + len + i];
        assert(cong(a2[o + i], al + w * be));
        if i <= k {
            let x = b[s + k - i];
            let y = b[s + len + k - i];
            assert(cong(b2[o + (k - i)], x + w * y));
            lemma_split_term_low(al, be, x, y, w, c, a2[o + i], b2[o + k - i]);
            assert(product_term(a, b, s, n, c, k, i) == al * x);
            assert(product_term(a, b, s, n, c, k + len, i) == al * y);
            assert(product_term(a, b, s, n, c, k, len + i) == be * (c * y));
            assert(product_term(a, b, s, n, c, k + len, len + i) == be * x);
        } else {
            let x = b[s + len + k - i];
            let y = b[s + 2 * len + k - i];
            assert(cong(b2[o + (len + k - i)], x + w * y));
            lemma_split_term_high(al, be, x, y, w, c, a2[o + i], b2[o + len + k - i]);
            assert(product_term(a, b, s, n, c, k, i) == al * (c * y));
            assert(product_term(a, b, s, n, c, k + len, i) == al * x);
            assert(product_term(a, b, s, n, c, k, len + i) == be * (c * x));
            assert(product_term(a, b, s, n, c, k + len, len + i) == be * (c * y));
        }
    }
    lemma_sum_cong(t_child, v, len);
    lemma_sum_ext(|i: int| product_term(a2, b2, o, len, w, k, i), t_child, len);
}

} // verus!
