//! The transform turns multiplication in `R_q` into the pair-wise product: each
//! layer splits every block, a residue modulo `X^(2 len) - c`, into its
//! residues modulo the two factors `X^len - w` and `X^len + w` with `w^2 = c`,
//! and both reductions are multiplicative.

use crate::modular::{
    canonical, cong, fq_mul, lemma_cong_add, lemma_cong_mul, lemma_fq_add_cong, lemma_fq_mul_cong,
    lemma_fq_sub_cong, lemma_mul_left_swap,
};
use crate::ntt_laws::{lemma_ntt_inverse_of_ntt, lemma_ntt_upto_canonical};
use crate::ring::{block_product_at, lemma_split_product, poly_mul, product_term, sum};
use crate::transform::{
    base_case_at, block_count, block_index, block_pos, layer_len, ntt_inverse_spec, ntt_layer,
    ntt_mul_spec, ntt_spec, ntt_upto, valid_len,
};
use crate::zeta::{block_constant, gamma, lemma_gamma_leaf, lemma_zeta_squares, zeta};
use vstd::arithmetic::div_mod::{
    lemma_div_pos_is_pos, lemma_fundamental_div_mod, lemma_fundamental_div_mod_converse,
    lemma_mod_bound,
};
use vstd::prelude::*;

verus! {

/// Coefficient `idx` of `c` is, modulo `q`, the coefficient of the product of
/// the blocks of `a` and `b` that `idx` lies in, where the blocks have
/// half-length `h`.
pub open spec fn is_block_product_at(a: Seq<int>, b: Seq<int>, c: Seq<int>, h: int, idx: int)
    -> bool {
    cong(
        c[idx],
        block_product_at(
            a,
            b,
            idx - block_pos(h, idx),
            2 * h,
            block_constant(block_count(h) + block_index(h, idx)),
            block_pos(h, idx),
        ),
    )
}

/// Block by block, `c` is the product of `a` and `b`.
pub open spec fn holds_block_products(a: Seq<int>, b: Seq<int>, c: Seq<int>, h: int) -> bool {
    forall|idx: int| 0 <= idx < 256 ==> #[trigger] is_block_product_at(a, b, c, h, idx)
}

/// What a forward layer puts at `o + j` is the residue of the parent block
/// modulo `X^h - w`, where `w` is the twiddle factor for the lower half of
/// the block and its negative for the upper half.
pub proof fn lemma_layer_reduces(f: Seq<int>, h: int, s: int, upper: bool, j: int)
    requires
        f.len() == 256,
        valid_len(h),
        0 <= s < 256,
        block_pos(h, s) == 0,
        0 <= j < h,
    ensures
        ({
            let z = zeta(block_count(h) + block_index(h, s));
            let w = if upper {
                -z
            } else {
                z
            };
            let o = if upper {
                s + h
            } else {
                s
            };
            cong(ntt_layer(f, h)[o + j], f[s + j] + w * f[s + h + j])
        }),
{
    let z = zeta(block_count(h) + block_index(h, s));
    lemma_fq_mul_cong(z, z, f[s + h + j], f[s + h + j]);
    if upper {
        assert(block_pos(h, s + h + j) >= h);
        assert(block_index(h, s + h + j) == block_index(h, s));
        lemma_fq_sub_cong(f[s + j], f[s + j], fq_mul(z, f[s + h + j]), z * f[s + h + j]);
        assert((-z) * f[s + h + j] == -(z * f[s + h + j])) by (nonlinear_arith);
    } else {
        assert(block_pos(h, s + j) < h);
        assert(block_index(h, s + j) == block_index(h, s));
        lemma_fq_add_cong(f[s + j], f[s + j], fq_mul(z, f[s + h + j]), z * f[s + h + j]);
    }
}

/// The facts of `lemma_child_block` for blocks of `n = 2h` coefficients,
/// with the quotients and remainders given.
proof fn lemma_child_block_at(n: int, h: int, idx: int, blk: int, pos: int)
    requires
        n == 2 * h,
        0 < h,
        0 <= pos < n,
        0 <= blk,
        idx == blk * n + pos,
    ensures
        ({
            let s = idx - pos;
            let upper = pos >= h;
            let o = if upper {
                s + h
            } else {
                s
            };
            let k = idx - o;
            &&& 0 <= k < h
            &&& s % n == 0
            &&& s / n == blk
            &&& (s + k) % n == k
            &&& (s + k) / n == blk
            &&& (s + h + k) % n == k + h
            &&& (s + h + k) / n == blk
            &&& idx % n == pos
            &&& idx / n == blk
            &&& idx % h == k
            &&& idx / h == if upper {
                2 * blk + 1
            } else {
                2 * blk
            }
        }),
{
    let s = idx - pos;
    let upper = pos >= h;
    let o = if upper {
        s + h
    } else {
        s
    };
    let k = idx - o;
    lemma_fundamental_div_mod_converse(s, n, blk, 0);
    lemma_fundamental_div_mod_converse(s + k, n, blk, k);
    lemma_fundamental_div_mod_converse(s + h + k, n, blk, k + h);
    lemma_fundamental_div_mod_converse(idx, n, blk, pos);
    let b2 = if upper {
        2 * blk + 1
    } else {
        2 * blk
    };
    assert(idx == b2 * h + k) by (nonlinear_arith)
        requires
            idx == blk * n + pos,
            n == 2 * h,
            k == (if upper {
                pos - h
            } else {
                pos
            }),
            b2 == (if upper {
                2 * blk + 1
            } else {
                2 * blk
            }),
    ;
    lemma_fundamental_div_mod_converse(idx, h, b2, k);
}

/// Where coefficient `idx` lies: in the block that starts at `s`, whose tree
/// index is `m`, and in the child block that starts at `o`, at position `k`.
pub proof fn lemma_child_block(h: int, idx: int) -> (r: (int, int, int, int, bool))
    requires
        valid_len(h),
        0 <= idx < 256,
    ensures
        ({
            let (s, m, o, k, upper) = r;
            &&& s == idx - block_pos(h, idx)
            &&& m == block_count(h) + block_index(h, idx)
            &&& 1 <= m < 128
            &&& upper == (block_pos(h, idx) >= h)
            &&& o == if upper {
                s + h
            } else {
                s
            }
            &&& k == idx - o
            &&& 0 <= k < h
            &&& 0 <= s
            &&& s + 2 * h <= 256
            &&& block_pos(h, s) == 0
            &&& block_index(h, s) == block_index(h, idx)
            &&& block_pos(h, s + k) == k
            &&& block_index(h, s + k) == block_index(h, idx)
            &&& block_pos(h, s + h + k) == k + h
            &&& block_index(h, s + h + k) == block_index(h, idx)
            &&& idx - block_pos(h / 2, idx) == o
            &&& block_pos(h / 2, idx) == k
            &&& 2 * (h / 2) == h
            &&& block_count(h / 2) + block_index(h / 2, idx) == if upper {
                2 * m + 1
            } else {
                2 * m
            }
        }),
{
    let n = 2 * h;
    let blk = idx / n;
    let pos = idx % n;
    lemma_fundamental_div_mod(idx, n);
    lemma_div_pos_is_pos(idx, n);
    lemma_mod_bound(idx, n);
    assert(idx == blk * n + pos) by (nonlinear_arith)
        requires
            idx == n * blk + pos,
    ;
    lemma_child_block_at(n, h, idx, blk, pos);
    let s = idx - pos;
    let upper = pos >= h;
    let o = if upper {
        s + h
    } else {
        s
    };
    assert(block_pos(h, idx) == pos);
    assert(block_index(h, idx) == blk);
    assert(blk * n <= idx) by (nonlinear_arith)
        requires
            idx == blk * n + pos,
            pos >= 0,
    ;
    assert(blk < block_count(h));
    (s, block_count(h) + blk, o, idx - o, upper)
}

/// One coefficient of a child block: if at `s + k` and `s + h + k` the parent
/// `c` holds the product of the parent blocks of `a` and `b`, and the
/// children hold the residues of the parents modulo `X^h - w`, then at
/// `o + k` the child of `c` holds the product of the children of `a` and `b`.
proof fn lemma_products_step(
    a: Seq<int>,
    b: Seq<int>,
    c: Seq<int>,
    a2: Seq<int>,
    b2: Seq<int>,
    c2: Seq<int>,
    s: int,
    h: int,
    cp: int,
    w: int,
    o: int,
    k: int,
)
    requires
        0 < h,
        0 <= k < h,
        cong(w * w, cp),
        forall|j: int| 0 <= j < h ==> cong(#[trigger] a2[o + j], a[s + j] + w * a[s + h + j]),
        forall|j: int| 0 <= j < h ==> cong(#[trigger] b2[o + j], b[s + j] + w * b[s + h + j]),
        cong(c2[o + k], c[s + k] + w * c[s + h + k]),
        cong(c[s + k], block_product_at(a, b, s, 2 * h, cp, k)),
        cong(c[s + h + k], block_product_at(a, b, s, 2 * h, cp, k + h)),
    ensures
        cong(c2[o + k], block_product_at(a2, b2, o, h, w, k)),
{
    lemma_split_product(a, b, a2, b2, s, h, cp, w, o, k);
    let lo = block_product_at(a, b, s, 2 * h, cp, k);
    let hi = block_product_at(a, b, s, 2 * h, cp, k + h);
    lemma_cong_mul(w, w, c[s + h + k], hi);
    lemma_cong_add(c[s + k], lo, w * c[s + h + k], w * hi);
}

/// One coefficient of the next level: if `c` holds the block products of `a`
/// and `b`, then so does their image under one layer, at `idx`.
proof fn lemma_products_one_layer_at(a: Seq<int>, b: Seq<int>, c: Seq<int>, h: int, idx: int)
    requires
        a.len() == 256,
        b.len() == 256,
        c.len() == 256,
        valid_len(h),
        holds_block_products(a, b, c, h),
        0 <= idx < 256,
    ensures
        is_block_product_at(ntt_layer(a, h), ntt_layer(b, h), ntt_layer(c, h), h / 2, idx),
{
    let a2 = ntt_layer(a, h);
    let b2 = ntt_layer(b, h);
    let c2 = ntt_layer(c, h);
    let (s, m, o, k, upper) = lemma_child_block(h, idx);
    let z = zeta(m);
    let w = if upper {
        -z
    } else {
        z
    };
    let cp = block_constant(m);

    // the twiddle factor squares to the constant of the parent block
    assert(cong(w * w, cp)) by {
        lemma_zeta_squares(m);
        assert(w * w == z * z) by (nonlinear_arith)
            requires
                w == z || w == -z,
        ;
    }

    // the layer reduces a, b and c
    assert forall|j: int| 0 <= j < h implies cong(
        #[trigger] a2[o + j],
        a[s + j] + w * a[s + h + j],
    ) by {
        lemma_layer_reduces(a, h, s, upper, j);
    }
    assert forall|j: int| 0 <= j < h implies cong(
        #[trigger] b2[o + j],
        b[s + j] + w * b[s + h + j],
    ) by {
        lemma_layer_reduces(b, h, s, upper, j);
    }
    assert(cong(c2[o + k], c[s + k] + w * c[s + h + k])) by {
        lemma_layer_reduces(c, h, s, upper, k);
    }

    // c holds the products of the parent blocks
    assert(cong(c[s + k], block_product_at(a, b, s, 2 * h, cp, k))) by {
        assert(is_block_product_at(a, b, c, h, s + k));
    }
    assert(cong(c[s + h + k], block_product_at(a, b, s, 2 * h, cp, k + h))) by {
        assert(is_block_product_at(a, b, c, h, s + h + k));
    }
    lemma_products_step(a, b, c, a2, b2, c2, s, h, cp, w, o, k);
    assert(block_constant(block_count(h / 2) + block_index(h / 2, idx)) == w);
}

/// If `c` holds the block products of `a` and `b`, then so does their image
/// under one layer.
pub proof fn lemma_products_one_layer(a: Seq<int>, b: Seq<int>, c: Seq<int>, h: int)
    requires
        a.len() == 256,
        b.len() == 256,
        c.len() == 256,
        valid_len(h),
        holds_block_products(a, b, c, h),
    ensures
        holds_block_products(ntt_layer(a, h), ntt_layer(b, h), ntt_layer(c, h), h / 2),
{
    assert forall|idx: int| 0 <= idx < 256 implies #[trigger] is_block_product_at(
        ntt_layer(a, h),
        ntt_layer(b, h),
        ntt_layer(c, h),
        h / 2,
        idx,
    ) by {
        lemma_products_one_layer_at(a, b, c, h, idx);
    }
}

/// After `n` layers, the transform of a product in `R_q` holds the block
/// products of the transforms of the factors.
pub proof fn lemma_products_upto(a: Seq<int>, b: Seq<int>, n: int)
    requires
        a.len() == 256,
        b.len() == 256,
        0 <= n <= 7,
    ensures
        holds_block_products(
            ntt_upto(a, n),
            ntt_upto(b, n),
            ntt_upto(poly_mul(a, b), n),
            layer_len(n),
        ),
        ntt_upto(a, n).len() == 256,
        ntt_upto(b, n).len() == 256,
        ntt_upto(poly_mul(a, b), n).len() == 256,
    decreases n,
{
    if n == 0 {
        let c = poly_mul(a, b);
        assert forall|idx: int| 0 <= idx < 256 implies #[trigger] is_block_product_at(
            a,
            b,
            c,
            128,
            idx,
        ) by {}
    } else {
        lemma_products_upto(a, b, n - 1);
        lemma_products_one_layer(
            ntt_upto(a, n - 1),
            ntt_upto(b, n - 1),
            ntt_upto(poly_mul(a, b), n - 1),
            layer_len(n - 1),
        );
        assert(layer_len(n - 1) / 2 == layer_len(n));
    }
}

/// In blocks of two coefficients, the block product is the base-case product.
proof fn lemma_leaf_product(a: Seq<int>, b: Seq<int>, c: Seq<int>, idx: int)
    requires
        a.len() == 256,
        b.len() == 256,
        c.len() == 256,
        0 <= idx < 256,
        is_block_product_at(a, b, c, 1, idx),
        canonical(c[idx]),
    ensures
        c[idx] == base_case_at(a, b, idx),
{
    let i = idx / 2;
    let cst = block_constant(128 + i);
    let g = gamma(i);
    let k = idx % 2;
    lemma_gamma_leaf(i);
    let bp = block_product_at(a, b, 2 * i, 2, cst, k);
    assert(bp == product_term(a, b, 2 * i, 2, cst, k, 0) + product_term(a, b, 2 * i, 2, cst, k, 1))
        by {
        reveal_with_fuel(sum, 3);
    }
    if k == 0 {
        assert(bp == a[2 * i] * b[2 * i] + a[2 * i + 1] * (cst * b[2 * i + 1]));
        lemma_cong_mul(cst, g, b[2 * i + 1], b[2 * i + 1]);
        lemma_cong_mul(a[2 * i + 1], a[2 * i + 1], cst * b[2 * i + 1], g * b[2 * i + 1]);
        lemma_mul_left_swap(a[2 * i + 1], g, b[2 * i + 1]);
        lemma_mul_left_swap(g, a[2 * i + 1], b[2 * i + 1]);
        assert(a[2 * i + 1] * (g * b[2 * i + 1]) == a[2 * i + 1] * b[2 * i + 1] * g) by {
            vstd::arithmetic::mul::lemma_mul_is_commutative(g, a[2 * i + 1] * b[2 * i + 1]);
        }
        lemma_cong_add(
            a[2 * i] * b[2 * i],
            a[2 * i] * b[2 * i],
            a[2 * i + 1] * (cst * b[2 * i + 1]),
            a[2 * i + 1] * b[2 * i + 1] * g,
        );
    } else {
        assert(bp == a[2 * i] * b[2 * i + 1] + a[2 * i + 1] * b[2 * i]);
    }
}

/// The transform of a product in `R_q` is the pair-wise product of the
/// transforms.
pub proof fn lemma_ntt_multiplicative(a: Seq<int>, b: Seq<int>)
    requires
        a.len() == 256,
        b.len() == 256,
    ensures
        ntt_spec(poly_mul(a, b)) == ntt_mul_spec(ntt_spec(a), ntt_spec(b)),
{
    lemma_products_upto(a, b, 7);
    let fa = ntt_spec(a);
    let fb = ntt_spec(b);
    let fc = ntt_spec(poly_mul(a, b));
    assert forall|idx: int| 0 <= idx < 256 implies fc[idx] == ntt_mul_spec(fa, fb)[idx] by {
        assert(is_block_product_at(fa, fb, fc, 1, idx));
        lemma_ntt_upto_canonical(poly_mul(a, b), 7);
        lemma_leaf_product(fa, fb, fc, idx);
    }
    assert(fc =~= ntt_mul_spec(fa, fb));
}

/// Transforming, multiplying pair by pair and transforming back multiplies in `R_q`.
pub proof fn lemma_ntt_multiplies(a: Seq<int>, b: Seq<int>)
    requires
        a.len() == 256,
        b.len() == 256,
    ensures
        ntt_inverse_spec(ntt_mul_spec(ntt_spec(a), ntt_spec(b))) == poly_mul(a, b),
{
    lemma_ntt_multiplicative(a, b);
    lemma_ntt_inverse_of_ntt(poly_mul(a, b));
}

} // verus!
