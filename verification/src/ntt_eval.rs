//! The transform as evaluation: pair `i` of the transform of `f` is the
//! residue of `f` modulo `X^2 - gamma(i)`, so that its coefficient `k` is the
//! sum of `f[2t + k]` times `gamma(i)` to the `t`.

use crate::modular::{cong, lemma_cong_add, lemma_cong_mul, lemma_mul_left_swap};
use crate::ntt_product::{lemma_child_block, lemma_layer_reduces};
use crate::ring::{lemma_sum_add, lemma_sum_cong, lemma_sum_scale, sum};
use crate::transform::{
    block_count, block_index, block_pos, layer_len, ntt_layer, ntt_spec, ntt_upto, valid_len,
};
use crate::zeta::{block_constant, gamma, lemma_gamma_leaf, lemma_zeta_squares, zeta};
use vstd::arithmetic::power::{
    lemma_pow0, lemma_pow1, lemma_pow_adds, lemma_pow_multiplies, lemma_square_is_pow2, pow,
};
use vstd::prelude::*;

verus! {

/// Coefficient `k` of the residue modulo `X^n - c` of the polynomial `f`,
/// which has `n * count` coefficients, not reduced modulo `q`: `X^(n t + k)`
/// is `c^t X^k`.
pub open spec fn residue_at(f: Seq<int>, k: int, n: int, c: int, count: int) -> int {
    sum(|t: int| f[k + n * t] * pow(c, t as nat), count)
}

/// Coefficient `k` of pair `i` of the transform of `f`, by evaluation.
pub open spec fn ntt_eval(f: Seq<int>, i: int, k: int) -> int {
    residue_at(f, k, 2, gamma(i), 128) % 3329
}

/// Powers of congruent numbers are congruent.
pub proof fn lemma_cong_pow(a: int, b: int, e: nat)
    requires
        cong(a, b),
    ensures
        cong(pow(a, e), pow(b, e)),
    decreases e,
{
    if e == 0 {
        lemma_pow0(a);
        lemma_pow0(b);
    } else {
        lemma_cong_pow(a, b, (e - 1) as nat);
        lemma_pow_adds(a, 1, (e - 1) as nat);
        lemma_pow_adds(b, 1, (e - 1) as nat);
        lemma_pow1(a);
        lemma_pow1(b);
        lemma_cong_mul(a, b, pow(a, (e - 1) as nat), pow(b, (e - 1) as nat));
    }
}

/// A sum of twice as many terms, taken two at a time.
pub proof fn lemma_sum_pairs(t: spec_fn(int) -> int, pairs: spec_fn(int) -> int, n: int)
    requires
        0 <= n,
        forall|i: int| 0 <= i < n ==> #[trigger] pairs(i) == t(2 * i) + t(2 * i + 1),
    ensures
        sum(t, 2 * n) == sum(pairs, n),
    decreases n,
{
    if n > 0 {
        lemma_sum_pairs(t, pairs, n - 1);
        assert(sum(t, 2 * n) == sum(t, 2 * n - 2) + t(2 * n - 2) + t(2 * n - 1)) by {
            assert(sum(t, 2 * n) == sum(t, 2 * n - 1) + t(2 * n - 1));
            assert(sum(t, 2 * n - 1) == sum(t, 2 * n - 2) + t(2 * n - 2));
        }
        assert(pairs(n - 1) == t(2 * (n - 1)) + t(2 * (n - 1) + 1));
    }
}

/// The two terms of a residue modulo `X^h - w` that belong to one term each
/// of the residues modulo `X^(2h) - c` at `k` and at `k + h`.
proof fn lemma_split_residue_term(f: Seq<int>, k: int, h: int, c: int, w: int, t: int)
    requires
        cong(w * w, c),
        0 <= t,
    ensures
        cong(
            f[k + h * (2 * t)] * pow(w, (2 * t) as nat) + f[k + h * (2 * t + 1)] * pow(
                w,
                (2 * t + 1) as nat,
            ),
            f[k + (2 * h) * t] * pow(c, t as nat) + w * (f[(k + h) + (2 * h) * t] * pow(
                c,
                t as nat,
            )),
        ),
{
    let even = pow(w, (2 * t) as nat);
    let odd = pow(w, (2 * t + 1) as nat);
    let ct = pow(c, t as nat);
    assert(h * (2 * t) == (2 * h) * t && h * (2 * t + 1) == h + (2 * h) * t) by (nonlinear_arith);
    // w^(2t) is (w w)^t, which is congruent to c^t
    lemma_square_is_pow2(w);
    lemma_pow_multiplies(w, 2, t as nat);
    lemma_cong_pow(w * w, c, t as nat);
    assert(cong(even, ct));
    // w^(2t + 1) is w w^(2t)
    lemma_pow_adds(w, 1, (2 * t) as nat);
    lemma_pow1(w);
    assert(odd == w * even);
    let a = f[k + (2 * h) * t];
    let b = f[(k + h) + (2 * h) * t];
    lemma_cong_mul(a, a, even, ct);
    lemma_cong_mul(w, w, even, ct);
    lemma_cong_mul(b, b, w * even, w * ct);
    lemma_mul_left_swap(b, w, ct);
    lemma_cong_add(a * even, a * ct, b * odd, w * (b * ct));
}

/// The residue modulo `X^h - w` from the residues modulo `X^(2h) - c`, where
/// `w^2 = c`: coefficient `k` of the one is coefficient `k` of the other plus
/// `w` times its coefficient `k + h`.
pub proof fn lemma_split_residue(f: Seq<int>, k: int, h: int, c: int, w: int, count: int)
    requires
        cong(w * w, c),
        0 <= count,
    ensures
        cong(
            residue_at(f, k, h, w, 2 * count),
            residue_at(f, k, 2 * h, c, count) + w * residue_at(f, k + h, 2 * h, c, count),
        ),
{
    let child = |t: int| f[k + h * t] * pow(w, t as nat);
    let pairs = |t: int|
        f[k + h * (2 * t)] * pow(w, (2 * t) as nat) + f[k + h * (2 * t + 1)] * pow(
            w,
            (2 * t + 1) as nat,
        );
    let lower = |t: int| f[k + (2 * h) * t] * pow(c, t as nat);
    let upper = |t: int| f[(k + h) + (2 * h) * t] * pow(c, t as nat);
    let upper_w = |t: int| w * (f[(k + h) + (2 * h) * t] * pow(c, t as nat));
    let both = |t: int|
        f[k + (2 * h) * t] * pow(c, t as nat) + w * (f[(k + h) + (2 * h) * t] * pow(c, t as nat));
    lemma_sum_pairs(child, pairs, count);
    assert forall|t: int| 0 <= t < count implies cong(#[trigger] pairs(t), both(t)) by {
        lemma_split_residue_term(f, k, h, c, w, t);
    }
    lemma_sum_cong(pairs, both, count);
    lemma_sum_scale(w, upper, upper_w, count);
    lemma_sum_add(lower, upper_w, both, count);
    assert(residue_at(f, k, h, w, 2 * count) == sum(child, 2 * count));
    assert(residue_at(f, k, 2 * h, c, count) == sum(lower, count));
    assert(residue_at(f, k + h, 2 * h, c, count) == sum(upper, count));
}

/// Coefficient `idx` of `a` is, modulo `q`, the coefficient of the residue of
/// `f` modulo the factor of the block that `idx` lies in, where the blocks
/// have half-length `h`.
pub open spec fn is_residue_at(f: Seq<int>, a: Seq<int>, h: int, idx: int) -> bool {
    cong(
        a[idx],
        residue_at(
            f,
            block_pos(h, idx),
            2 * h,
            block_constant(block_count(h) + block_index(h, idx)),
            block_count(h),
        ),
    )
}

/// Block by block, `a` holds the residues of `f`.
pub open spec fn holds_residues(f: Seq<int>, a: Seq<int>, h: int) -> bool {
    forall|idx: int| 0 <= idx < 256 ==> #[trigger] is_residue_at(f, a, h, idx)
}

/// One coefficient of the next level of residues.
proof fn lemma_residues_one_layer_at(f: Seq<int>, a: Seq<int>, h: int, idx: int)
    requires
        a.len() == 256,
        valid_len(h),
        holds_residues(f, a, h),
        0 <= idx < 256,
    ensures
        is_residue_at(f, ntt_layer(a, h), h / 2, idx),
{
    let a2 = ntt_layer(a, h);
    let (s, m, o, k, upper) = lemma_child_block(h, idx);
    let z = zeta(m);
    let w = if upper {
        -z
    } else {
        z
    };
    let cp = block_constant(m);
    let count = block_count(h);
    assert(cong(w * w, cp)) by {
        lemma_zeta_squares(m);
        assert(w * w == z * z) by (nonlinear_arith)
            requires
                w == z || w == -z,
        ;
    }
    lemma_layer_reduces(a, h, s, upper, k);
    let lo = residue_at(f, k, 2 * h, cp, count);
    let hi = residue_at(f, k + h, 2 * h, cp, count);
    assert(cong(a[s + k], lo)) by {
        assert(is_residue_at(f, a, h, s + k));
    }
    assert(cong(a[s + h + k], hi)) by {
        assert(is_residue_at(f, a, h, s + h + k));
    }
    lemma_cong_mul(w, w, a[s + h + k], hi);
    lemma_cong_add(a[s + k], lo, w * a[s + h + k], w * hi);
    lemma_split_residue(f, k, h, cp, w, count);
    assert(block_constant(block_count(h / 2) + block_index(h / 2, idx)) == w);
    assert(block_count(h / 2) == 2 * count);
}

/// After `n` layers, the transform holds the residues of `f` modulo the
/// factors of the blocks.
pub proof fn lemma_residues_upto(f: Seq<int>, n: int)
    requires
        f.len() == 256,
        0 <= n <= 7,
    ensures
        holds_residues(f, ntt_upto(f, n), layer_len(n)),
        ntt_upto(f, n).len() == 256,
    decreases n,
{
    if n == 0 {
        assert forall|idx: int| 0 <= idx < 256 implies #[trigger] is_residue_at(f, f, 128, idx) by {
            let term = |t: int| f[idx + 256 * t] * pow(-1, t as nat);
            assert(sum(term, 1) == sum(term, 0) + term(0));
            lemma_pow0(-1);
            assert(residue_at(f, idx, 256, -1, 1) == sum(term, 1));
        }
    } else {
        lemma_residues_upto(f, n - 1);
        let a = ntt_upto(f, n - 1);
        let h = layer_len(n - 1);
        assert forall|idx: int| 0 <= idx < 256 implies #[trigger] is_residue_at(
            f,
            ntt_layer(a, h),
            h / 2,
            idx,
        ) by {
            lemma_residues_one_layer_at(f, a, h, idx);
        }
        assert(h / 2 == layer_len(n));
    }
}

/// The transform evaluates: coefficient `k` of pair `i` of the transform of
/// `f` is the sum over `t` of `f[2t + k]` times `gamma(i)` to the `t`,
/// modulo `q`.
pub proof fn lemma_ntt_evaluates(f: Seq<int>, i: int, k: int)
    requires
        f.len() == 256,
        0 <= i < 128,
        0 <= k < 2,
    ensures
        ntt_spec(f)[2 * i + k] == ntt_eval(f, i, k),
{
    lemma_residues_upto(f, 7);
    let a = ntt_spec(f);
    let idx = 2 * i + k;
    assert(is_residue_at(f, a, 1, idx));
    let c = block_constant(128 + i);
    let g = gamma(i);
    lemma_gamma_leaf(i);
    let with_c = |t: int| f[k + 2 * t] * pow(c, t as nat);
    let with_g = |t: int| f[k + 2 * t] * pow(g, t as nat);
    assert forall|t: int| 0 <= t < 128 implies cong(#[trigger] with_c(t), with_g(t)) by {
        lemma_cong_pow(c, g, t as nat);
        lemma_cong_mul(f[k + 2 * t], f[k + 2 * t], pow(c, t as nat), pow(g, t as nat));
    }
    lemma_sum_cong(with_c, with_g, 128);
    assert(residue_at(f, k, 2, c, 128) == sum(with_c, 128));
    assert(residue_at(f, k, 2, g, 128) == sum(with_g, 128));
    assert(0 <= a[idx] < 3329) by {
        assert(a == ntt_layer(ntt_upto(f, 6), 2));
    }
}

} // verus!
