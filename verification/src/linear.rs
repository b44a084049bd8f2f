//! What the operations on vectors and matrices of polynomials compute.
//!
//! A vector is modelled as a sequence of polynomials, a matrix as a sequence
//! of rows.

use crate::modular::all_canonical;
use crate::transform::{ntt_inverse_spec, ntt_mul_spec, ntt_spec, poly_add};
use vstd::prelude::*;

verus! {

/// The polynomial with all coefficients zero.
pub open spec fn poly_zero() -> Seq<int> {
    Seq::new(256, |i: int| 0int)
}

/// A sequence of 256 canonical coefficients.
pub open spec fn poly_wf(f: Seq<int>) -> bool {
    f.len() == 256 && all_canonical(f)
}

/// `k` polynomials, each of 256 canonical coefficients.
pub open spec fn vec_wf(v: Seq<Seq<int>>, k: int) -> bool {
    v.len() == k && forall|i: int| 0 <= i < k ==> poly_wf(#[trigger] v[i])
}

/// `k` rows of `k` polynomials.
pub open spec fn mat_wf(a: Seq<Seq<Seq<int>>>, k: int) -> bool {
    a.len() == k && forall|i: int| 0 <= i < k ==> vec_wf(#[trigger] a[i], k)
}

/// Component-wise sum of two vectors.
pub open spec fn vec_add(u: Seq<Seq<int>>, v: Seq<Seq<int>>) -> Seq<Seq<int>> {
    Seq::new(u.len(), |i: int| poly_add(u[i], v[i]))
}

/// Entry-wise sum of two matrices.
pub open spec fn mat_add(a: Seq<Seq<Seq<int>>>, b: Seq<Seq<Seq<int>>>) -> Seq<Seq<Seq<int>>> {
    Seq::new(a.len(), |i: int| vec_add(a[i], b[i]))
}

/// The sum of the products of the first `n` components of two vectors in the
/// transformed domain.
pub open spec fn dot_upto(u: Seq<Seq<int>>, v: Seq<Seq<int>>, n: int) -> Seq<int>
    decreases n,
{
    if n <= 0 {
        poly_zero()
    } else {
        poly_add(dot_upto(u, v, n - 1), ntt_mul_spec(u[n - 1], v[n - 1]))
    }
}

/// The inner product of two vectors in the transformed domain.
pub open spec fn dot(u: Seq<Seq<int>>, v: Seq<Seq<int>>) -> Seq<int> {
    dot_upto(u, v, u.len() as int)
}

/// Matrix times vector: the inner product of each row with the vector.
pub open spec fn mat_vec(a: Seq<Seq<Seq<int>>>, v: Seq<Seq<int>>) -> Seq<Seq<int>> {
    Seq::new(a.len(), |i: int| dot(a[i], v))
}

/// The transpose: entry `(i, j)` is entry `(j, i)` of `a`.
pub open spec fn transpose_spec(a: Seq<Seq<Seq<int>>>) -> Seq<Seq<Seq<int>>> {
    Seq::new(a.len(), |i: int| Seq::new(a.len(), |j: int| a[j][i]))
}

/// The transform of each component.
pub open spec fn vec_ntt(v: Seq<Seq<int>>) -> Seq<Seq<int>> {
    Seq::new(v.len(), |i: int| ntt_spec(v[i]))
}

/// The inverse transform of each component.
pub open spec fn vec_ntt_inverse(v: Seq<Seq<int>>) -> Seq<Seq<int>> {
    Seq::new(v.len(), |i: int| ntt_inverse_spec(v[i]))
}

} // verus!
