//! Laws of the vector and matrix operations: the product of a matrix and a
//! vector is additive in both, and transposing twice changes nothing.

use crate::linear::{
    dot_upto, mat_add, mat_vec, mat_wf, poly_wf, poly_zero, transpose_spec, vec_add, vec_wf,
};
use crate::modular::{
    cong, fq_add, lemma_cong_add, lemma_cong_canonical, lemma_cong_mul, lemma_fq_add_cong,
    lemma_mul_foil,
};
use crate::transform::{base_case_at, ntt_mul_spec, poly_add};
use crate::zeta::gamma;
use vstd::prelude::*;

verus! {

/// A product whose second factor is a field sum.
proof fn lemma_mul_of_sum(a: int, x: int, y: int)
    ensures
        cong(a * fq_add(x, y), a * x + a * y),
{
    lemma_cong_mul(a, a, fq_add(x, y), x + y);
    lemma_mul_foil(0, a, x, y);
}

/// A product whose first factor is a field sum.
proof fn lemma_sum_times(a: int, b: int, x: int)
    ensures
        cong(fq_add(a, b) * x, a * x + b * x),
{
    lemma_cong_mul(fq_add(a, b), a + b, x, x);
    lemma_mul_foil(a, b, 0, x);
}

/// The base-case product is additive in its second factor.
proof fn lemma_base_case_additive_right(a: Seq<int>, x: Seq<int>, y: Seq<int>, idx: int)
    requires
        a.len() == 256,
        x.len() == 256,
        y.len() == 256,
        0 <= idx < 256,
    ensures
        base_case_at(a, poly_add(x, y), idx) == fq_add(
            base_case_at(a, x, idx),
            base_case_at(a, y, idx),
        ),
{
    let i = idx / 2;
    let g = gamma(i);
    let s = poly_add(x, y);
    let (a0, a1) = (a[2 * i], a[2 * i + 1]);
    let (x0, x1) = (x[2 * i], x[2 * i + 1]);
    let (y0, y1) = (y[2 * i], y[2 * i + 1]);
    assert(s[2 * i] == fq_add(x0, y0) && s[2 * i + 1] == fq_add(x1, y1));
    if idx % 2 == 0 {
        lemma_mul_of_sum(a0, x0, y0);
        lemma_mul_of_sum(a1, x1, y1);
        lemma_cong_mul(a1 * fq_add(x1, y1), a1 * x1 + a1 * y1, g, g);
        lemma_mul_foil(a1 * x1, a1 * y1, 0, g);
        lemma_cong_add(
            a0 * fq_add(x0, y0),
            a0 * x0 + a0 * y0,
            a1 * fq_add(x1, y1) * g,
            a1 * x1 * g + a1 * y1 * g,
        );
        lemma_fq_add_cong(
            base_case_at(a, x, idx),
            a0 * x0 + a1 * x1 * g,
            base_case_at(a, y, idx),
            a0 * y0 + a1 * y1 * g,
        );
        lemma_cong_canonical(
            base_case_at(a, s, idx),
            fq_add(base_case_at(a, x, idx), base_case_at(a, y, idx)),
        );
    } else {
        lemma_mul_of_sum(a0, x1, y1);
        lemma_mul_of_sum(a1, x0, y0);
        lemma_cong_add(
            a0 * fq_add(x1, y1),
            a0 * x1 + a0 * y1,
            a1 * fq_add(x0, y0),
            a1 * x0 + a1 * y0,
        );
        lemma_fq_add_cong(
            base_case_at(a, x, idx),
            a0 * x1 + a1 * x0,
            base_case_at(a, y, idx),
            a0 * y1 + a1 * y0,
        );
        lemma_cong_canonical(
            base_case_at(a, s, idx),
            fq_add(base_case_at(a, x, idx), base_case_at(a, y, idx)),
        );
    }
}

/// The base-case product is additive in its first factor.
proof fn lemma_base_case_additive_left(a: Seq<int>, b: Seq<int>, x: Seq<int>, idx: int)
    requires
        a.len() == 256,
        b.len() == 256,
        x.len() == 256,
        0 <= idx < 256,
    ensures
        base_case_at(poly_add(a, b), x, idx) == fq_add(
            base_case_at(a, x, idx),
            base_case_at(b, x, idx),
        ),
{
    let i = idx / 2;
    let g = gamma(i);
    let s = poly_add(a, b);
    let (a0, a1) = (a[2 * i], a[2 * i + 1]);
    let (b0, b1) = (b[2 * i], b[2 * i + 1]);
    let (x0, x1) = (x[2 * i], x[2 * i + 1]);
    assert(s[2 * i] == fq_add(a0, b0) && s[2 * i + 1] == fq_add(a1, b1));
    if idx % 2 == 0 {
        lemma_sum_times(a0, b0, x0);
        lemma_sum_times(a1, b1, x1);
        lemma_cong_mul(fq_add(a1, b1) * x1, a1 * x1 + b1 * x1, g, g);
        lemma_mul_foil(a1 * x1, b1 * x1, 0, g);
        lemma_cong_add(
            fq_add(a0, b0) * x0,
            a0 * x0 + b0 * x0,
            fq_add(a1, b1) * x1 * g,
            a1 * x1 * g + b1 * x1 * g,
        );
        lemma_fq_add_cong(
            base_case_at(a, x, idx),
            a0 * x0 + a1 * x1 * g,
            base_case_at(b, x, idx),
            b0 * x0 + b1 * x1 * g,
        );
        lemma_cong_canonical(
            base_case_at(s, x, idx),
            fq_add(base_case_at(a, x, idx), base_case_at(b, x, idx)),
        );
    } else {
        lemma_sum_times(a0, b0, x1);
        lemma_sum_times(a1, b1, x0);
        lemma_cong_add(
            fq_add(a0, b0) * x1,
            a0 * x1 + b0 * x1,
            fq_add(a1, b1) * x0,
            a1 * x0 + b1 * x0,
        );
        lemma_fq_add_cong(
            base_case_at(a, x, idx),
            a0 * x1 + a1 * x0,
            base_case_at(b, x, idx),
            b0 * x1 + b1 * x0,
        );
        lemma_cong_canonical(
            base_case_at(s, x, idx),
            fq_add(base_case_at(a, x, idx), base_case_at(b, x, idx)),
        );
    }
}

/// The product in the transformed domain is additive in each factor.
pub proof fn lemma_ntt_mul_additive(a: Seq<int>, b: Seq<int>, x: Seq<int>, y: Seq<int>)
    requires
        a.len() == 256,
        b.len() == 256,
        x.len() == 256,
        y.len() == 256,
    ensures
        ntt_mul_spec(a, poly_add(x, y)) == poly_add(ntt_mul_spec(a, x), ntt_mul_spec(a, y)),
        ntt_mul_spec(poly_add(a, b), x) == poly_add(ntt_mul_spec(a, x), ntt_mul_spec(b, x)),
{
    assert forall|idx: int| 0 <= idx < 256 implies ntt_mul_spec(a, poly_add(x, y))[idx]
        == poly_add(ntt_mul_spec(a, x), ntt_mul_spec(a, y))[idx] by {
        lemma_base_case_additive_right(a, x, y, idx);
    }
    assert(ntt_mul_spec(a, poly_add(x, y)) =~= poly_add(ntt_mul_spec(a, x), ntt_mul_spec(a, y)));
    assert forall|idx: int| 0 <= idx < 256 implies ntt_mul_spec(poly_add(a, b), x)[idx]
        == poly_add(ntt_mul_spec(a, x), ntt_mul_spec(b, x))[idx] by {
        lemma_base_case_additive_left(a, b, x, idx);
    }
    assert(ntt_mul_spec(poly_add(a, b), x) =~= poly_add(ntt_mul_spec(a, x), ntt_mul_spec(b, x)));
}

/// A sum of two sums, with the inner terms exchanged.
pub proof fn lemma_poly_add_exchange(a: Seq<int>, b: Seq<int>, x: Seq<int>, y: Seq<int>)
    requires
        a.len() == 256,
        b.len() == 256,
        x.len() == 256,
        y.len() == 256,
    ensures
        poly_add(poly_add(a, b), poly_add(x, y)) == poly_add(poly_add(a, x), poly_add(b, y)),
{
    let l = poly_add(poly_add(a, b), poly_add(x, y));
    let r = poly_add(poly_add(a, x), poly_add(b, y));
    assert forall|i: int| 0 <= i < 256 implies l[i] == r[i] by {
        lemma_fq_add_cong(fq_add(a[i], b[i]), a[i] + b[i], fq_add(x[i], y[i]), x[i] + y[i]);
        lemma_fq_add_cong(fq_add(a[i], x[i]), a[i] + x[i], fq_add(b[i], y[i]), b[i] + y[i]);
        lemma_cong_canonical(l[i], r[i]);
    }
    assert(l =~= r);
}

/// The partial inner products have 256 coefficients.
pub proof fn lemma_dot_len(u: Seq<Seq<int>>, v: Seq<Seq<int>>, n: int)
    ensures
        dot_upto(u, v, n).len() == 256,
    decreases n,
{
    if n > 0 {
        lemma_dot_len(u, v, n - 1);
    }
}

/// The inner product is additive in its second factor.
pub proof fn lemma_dot_additive_right(a: Seq<Seq<int>>, u: Seq<Seq<int>>, v: Seq<Seq<int>>, n: int)
    requires
        0 <= n <= a.len(),
        n <= u.len(),
        u.len() == v.len(),
        forall|i: int| 0 <= i < n ==> (#[trigger] a[i]).len() == 256,
        forall|i: int| 0 <= i < n ==> (#[trigger] u[i]).len() == 256,
        forall|i: int| 0 <= i < n ==> (#[trigger] v[i]).len() == 256,
    ensures
        dot_upto(a, vec_add(u, v), n) == poly_add(dot_upto(a, u, n), dot_upto(a, v, n)),
    decreases n,
{
    if n <= 0 {
        assert(poly_zero() =~= poly_add(poly_zero(), poly_zero()));
    } else {
        lemma_dot_additive_right(a, u, v, n - 1);
        lemma_dot_len(a, u, n - 1);
        lemma_dot_len(a, v, n - 1);
        let last = n - 1;
        assert(a[last].len() == 256 && u[last].len() == 256 && v[last].len() == 256);
        lemma_ntt_mul_additive(a[last], a[last], u[last], v[last]);
        lemma_poly_add_exchange(
            dot_upto(a, u, n - 1),
            dot_upto(a, v, n - 1),
            ntt_mul_spec(a[last], u[last]),
            ntt_mul_spec(a[last], v[last]),
        );
    }
}

/// The inner product is additive in its first factor.
pub proof fn lemma_dot_additive_left(a: Seq<Seq<int>>, b: Seq<Seq<int>>, v: Seq<Seq<int>>, n: int)
    requires
        0 <= n <= a.len(),
        a.len() == b.len(),
        n <= v.len(),
        forall|i: int| 0 <= i < n ==> (#[trigger] a[i]).len() == 256,
        forall|i: int| 0 <= i < n ==> (#[trigger] b[i]).len() == 256,
        forall|i: int| 0 <= i < n ==> (#[trigger] v[i]).len() == 256,
    ensures
        dot_upto(vec_add(a, b), v, n) == poly_add(dot_upto(a, v, n), dot_upto(b, v, n)),
    decreases n,
{
    if n <= 0 {
        assert(poly_zero() =~= poly_add(poly_zero(), poly_zero()));
    } else {
        lemma_dot_additive_left(a, b, v, n - 1);
        lemma_dot_len(a, v, n - 1);
        lemma_dot_len(b, v, n - 1);
        let last = n - 1;
        assert(a[last].len() == 256 && b[last].len() == 256 && v[last].len() == 256);
        lemma_ntt_mul_additive(a[last], b[last], v[last], v[last]);
        lemma_poly_add_exchange(
            dot_upto(a, v, n - 1),
            dot_upto(b, v, n - 1),
            ntt_mul_spec(a[last], v[last]),
            ntt_mul_spec(b[last], v[last]),
        );
    }
}

/// A matrix times a sum of vectors is the sum of the products.
pub proof fn lemma_mat_vec_additive_right(
    a: Seq<Seq<Seq<int>>>,
    u: Seq<Seq<int>>,
    v: Seq<Seq<int>>,
    k: int,
)
    requires
        mat_wf(a, k),
        vec_wf(u, k),
        vec_wf(v, k),
    ensures
        mat_vec(a, vec_add(u, v)) == vec_add(mat_vec(a, u), mat_vec(a, v)),
{
    let l = mat_vec(a, vec_add(u, v));
    let r = vec_add(mat_vec(a, u), mat_vec(a, v));
    assert forall|i: int| 0 <= i < k implies l[i] == r[i] by {
        assert(vec_wf(a[i], k));
        assert forall|j: int| 0 <= j < k implies (#[trigger] a[i][j]).len() == 256 by {
            assert(poly_wf(a[i][j]));
        }
        assert forall|j: int| 0 <= j < k implies (#[trigger] u[j]).len() == 256 by {
            assert(poly_wf(u[j]));
        }
        assert forall|j: int| 0 <= j < k implies (#[trigger] v[j]).len() == 256 by {
            assert(poly_wf(v[j]));
        }
        lemma_dot_additive_right(a[i], u, v, k);
    }
    assert(l =~= r);
}

/// A sum of matrices times a vector is the sum of the products.
pub proof fn lemma_mat_vec_additive_left(
    a: Seq<Seq<Seq<int>>>,
    b: Seq<Seq<Seq<int>>>,
    v: Seq<Seq<int>>,
    k: int,
)
    requires
        mat_wf(a, k),
        mat_wf(b, k),
        vec_wf(v, k),
    ensures
        mat_vec(mat_add(a, b), v) == vec_add(mat_vec(a, v), mat_vec(b, v)),
{
    let l = mat_vec(mat_add(a, b), v);
    let r = vec_add(mat_vec(a, v), mat_vec(b, v));
    assert forall|i: int| 0 <= i < k implies l[i] == r[i] by {
        assert(vec_wf(a[i], k) && vec_wf(b[i], k));
        assert forall|j: int| 0 <= j < k implies (#[trigger] a[i][j]).len() == 256 by {
            assert(poly_wf(a[i][j]));
        }
        assert forall|j: int| 0 <= j < k implies (#[trigger] b[i][j]).len() == 256 by {
            assert(poly_wf(b[i][j]));
        }
        assert forall|j: int| 0 <= j < k implies (#[trigger] v[j]).len() == 256 by {
            assert(poly_wf(v[j]));
        }
        lemma_dot_additive_left(a[i], b[i], v, k);
    }
    assert(l =~= r);
}

/// Transposing twice gives the matrix back.
pub proof fn lemma_transpose_twice(a: Seq<Seq<Seq<int>>>, k: int)
    requires
        a.len() == k,
        forall|i: int| 0 <= i < k ==> (#[trigger] a[i]).len() == k,
    ensures
        transpose_spec(transpose_spec(a)) == a,
{
    let t = transpose_spec(a);
    let tt = transpose_spec(t);
    assert forall|i: int| 0 <= i < k implies tt[i] == a[i] by {
        assert forall|j: int| 0 <= j < k implies tt[i][j] == a[i][j] by {
            assert(t[j][i] == a[i][j]);
        }
        assert(tt[i] =~= a[i]);
    }
    assert(tt =~= a);
}

} // verus!
