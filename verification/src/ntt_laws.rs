//! Laws of the number-theoretic transform: it is additive, and the inverse
//! transform undoes it.

use crate::modular::{
    all_canonical, canonical, cong, fq_add, fq_mul, fq_sub, lemma_cong_canonical, lemma_cong_mul,
    lemma_fq_add_cong, lemma_fq_mul_cong, lemma_fq_sub_cong, lemma_mul_left_swap,
};
use crate::transform::{
    block_count, block_index, block_pos, inverse_layer, inverse_upto, layer_len, ntt_inverse_spec,
    ntt_layer, ntt_spec, ntt_upto, poly_add, poly_scale, valid_len,
};
use crate::zeta::{lemma_zeta_mirror, zeta};
use vstd::prelude::*;

verus! {

/// A butterfly of a sum is the sum of the butterflies.
proof fn lemma_butterfly_additive(a: int, b: int, c: int, d: int, z: int)
    ensures
        fq_add(fq_add(a, c), fq_mul(z, fq_add(b, d))) == fq_add(
            fq_add(a, fq_mul(z, b)),
            fq_add(c, fq_mul(z, d)),
        ),
        fq_sub(fq_add(a, c), fq_mul(z, fq_add(b, d))) == fq_add(
            fq_sub(a, fq_mul(z, b)),
            fq_sub(c, fq_mul(z, d)),
        ),
{
    let zb = z * b;
    let zd = z * d;
    lemma_fq_add_cong(b, b, d, d);
    lemma_fq_mul_cong(z, z, fq_add(b, d), b + d);
    assert(z * (b + d) == zb + zd) by (nonlinear_arith)
        requires
            zb == z * b,
            zd == z * d,
    ;
    lemma_fq_add_cong(a, a, c, c);
    lemma_fq_mul_cong(z, z, b, b);
    lemma_fq_mul_cong(z, z, d, d);
    // the sum of the two upper outputs
    lemma_fq_add_cong(fq_add(a, c), a + c, fq_mul(z, fq_add(b, d)), zb + zd);
    lemma_fq_add_cong(a, a, fq_mul(z, b), zb);
    lemma_fq_add_cong(c, c, fq_mul(z, d), zd);
    lemma_fq_add_cong(fq_add(a, fq_mul(z, b)), a + zb, fq_add(c, fq_mul(z, d)), c + zd);
    lemma_cong_canonical(
        fq_add(fq_add(a, c), fq_mul(z, fq_add(b, d))),
        fq_add(fq_add(a, fq_mul(z, b)), fq_add(c, fq_mul(z, d))),
    );
    // the sum of the two lower outputs
    lemma_fq_sub_cong(fq_add(a, c), a + c, fq_mul(z, fq_add(b, d)), zb + zd);
    lemma_fq_sub_cong(a, a, fq_mul(z, b), zb);
    lemma_fq_sub_cong(c, c, fq_mul(z, d), zd);
    lemma_fq_add_cong(fq_sub(a, fq_mul(z, b)), a - zb, fq_sub(c, fq_mul(z, d)), c - zd);
    lemma_cong_canonical(
        fq_sub(fq_add(a, c), fq_mul(z, fq_add(b, d))),
        fq_add(fq_sub(a, fq_mul(z, b)), fq_sub(c, fq_mul(z, d))),
    );
}

/// One layer of the transform is additive.
pub proof fn lemma_ntt_layer_additive(f: Seq<int>, g: Seq<int>, len: int)
    requires
        f.len() == 256,
        g.len() == 256,
        valid_len(len),
    ensures
        ntt_layer(poly_add(f, g), len) == poly_add(ntt_layer(f, len), ntt_layer(g, len)),
{
    let lhs = ntt_layer(poly_add(f, g), len);
    let rhs = poly_add(ntt_layer(f, len), ntt_layer(g, len));
    assert forall|i: int| 0 <= i < 256 implies lhs[i] == rhs[i] by {
        let z = zeta(block_count(len) + block_index(len, i));
        if block_pos(len, i) < len {
            lemma_butterfly_additive(f[i], f[i + len], g[i], g[i + len], z);
        } else {
            lemma_butterfly_additive(f[i - len], f[i], g[i - len], g[i], z);
        }
    }
    assert(lhs =~= rhs);
}

/// The first `n` layers of the transform are additive.
pub proof fn lemma_ntt_upto_additive(f: Seq<int>, g: Seq<int>, n: int)
    requires
        f.len() == 256,
        g.len() == 256,
        0 <= n <= 7,
    ensures
        ntt_upto(poly_add(f, g), n) == poly_add(ntt_upto(f, n), ntt_upto(g, n)),
        ntt_upto(f, n).len() == 256,
        ntt_upto(g, n).len() == 256,
    decreases n,
{
    if n > 0 {
        lemma_ntt_upto_additive(f, g, n - 1);
        lemma_ntt_layer_additive(ntt_upto(f, n - 1), ntt_upto(g, n - 1), layer_len(n - 1));
    }
}

/// The transform of a sum is the sum of the transforms.
pub proof fn lemma_ntt_additive(f: Seq<int>, g: Seq<int>)
    requires
        f.len() == 256,
        g.len() == 256,
    ensures
        ntt_spec(poly_add(f, g)) == poly_add(ntt_spec(f), ntt_spec(g)),
{
    lemma_ntt_upto_additive(f, g, 7);
}

/// The inverse butterfly applied to `c` times a forward butterfly gives `2c`
/// times what went in.
proof fn lemma_butterfly_undone(c: int, a: int, b: int, z: int, z2: int)
    requires
        cong(z * z2, -1),
    ensures
        fq_add(fq_mul(c, fq_add(a, fq_mul(z, b))), fq_mul(c, fq_sub(a, fq_mul(z, b)))) == fq_mul(
            2 * c,
            a,
        ),
        fq_mul(
            z2,
            fq_sub(fq_mul(c, fq_sub(a, fq_mul(z, b))), fq_mul(c, fq_add(a, fq_mul(z, b)))),
        ) == fq_mul(2 * c, b),
{
    let t = z * b;
    let m = fq_mul(z, b);
    let x = fq_add(a, m);
    let y = fq_sub(a, m);
    let cx = fq_mul(c, x);
    let cy = fq_mul(c, y);
    lemma_fq_mul_cong(z, z, b, b);
    lemma_fq_add_cong(a, a, m, t);
    lemma_fq_sub_cong(a, a, m, t);
    lemma_fq_mul_cong(c, c, x, a + t);
    lemma_fq_mul_cong(c, c, y, a - t);
    // the lower output
    lemma_fq_add_cong(cx, c * (a + t), cy, c * (a - t));
    assert(c * (a + t) + c * (a - t) == (2 * c) * a) by (nonlinear_arith);
    lemma_cong_canonical(fq_add(cx, cy), fq_mul(2 * c, a));
    // the upper output
    let w = -2 * (c * b);
    lemma_fq_sub_cong(cy, c * (a - t), cx, c * (a + t));
    assert(c * (a - t) - c * (a + t) == -2 * (c * t)) by (nonlinear_arith);
    lemma_fq_mul_cong(z2, z2, fq_sub(cy, cx), -2 * (c * t));
    assert(z2 * (-2 * (c * t)) == (z * z2) * w) by {
        lemma_mul_left_swap(c, z, b);
        lemma_mul_left_swap(-2, z, c * b);
        lemma_mul_left_swap(z2, z, w);
        lemma_mul_left_swap(z, z2, w);
    }
    lemma_cong_mul(z * z2, -1, w, w);
    assert(-1 * w == (2 * c) * b) by (nonlinear_arith)
        requires
            w == -2 * (c * b),
    ;
    lemma_cong_canonical(fq_mul(z2, fq_sub(cy, cx)), fq_mul(2 * c, b));
}

/// An inverse layer applied to `c` times a forward layer of the same
/// half-length gives `2c` times what went in.
pub proof fn lemma_layer_undone(c: int, g: Seq<int>, len: int)
    requires
        g.len() == 256,
        valid_len(len),
    ensures
        inverse_layer(poly_scale(c, ntt_layer(g, len)), len) == poly_scale(2 * c, g),
{
    let h = ntt_layer(g, len);
    let s = poly_scale(c, h);
    let lhs = inverse_layer(s, len);
    let rhs = poly_scale(2 * c, g);
    assert forall|i: int| 0 <= i < 256 implies lhs[i] == rhs[i] by {
        let nb = block_count(len);
        let blk = block_index(len, i);
        let z = zeta(nb + blk);
        let z2 = zeta(2 * nb - 1 - blk);
        lemma_zeta_mirror(nb, blk);
        if block_pos(len, i) < len {
            assert(block_index(len, i + len) == blk);
            assert(block_pos(len, i + len) >= len);
            lemma_butterfly_undone(c, g[i], g[i + len], z, z2);
        } else {
            assert(block_index(len, i - len) == blk);
            assert(block_pos(len, i - len) < len);
            lemma_butterfly_undone(c, g[i - len], g[i], z, z2);
        }
    }
    assert(lhs =~= rhs);
}

/// The factor that `n` inverse layers leave behind: two to the power `n`.
pub open spec fn layer_factor(n: int) -> int
    decreases n,
{
    if n <= 0 {
        1
    } else {
        2 * layer_factor(n - 1)
    }
}

/// After `n` inverse layers, the transform of `f` is back at the state that
/// the forward transform had `n` layers before its end, times two to the `n`.
pub proof fn lemma_layers_undone(f: Seq<int>, n: int)
    requires
        f.len() == 256,
        all_canonical(f),
        0 <= n <= 7,
    ensures
        inverse_upto(ntt_spec(f), n) == poly_scale(layer_factor(n), ntt_upto(f, 7 - n)),
        ntt_upto(f, 7 - n).len() == 256,
        all_canonical(ntt_upto(f, 7 - n)),
    decreases n,
{
    lemma_ntt_upto_canonical(f, 7 - n);
    if n == 0 {
        assert(ntt_spec(f) =~= poly_scale(1, ntt_upto(f, 7)));
    } else {
        lemma_layers_undone(f, n - 1);
        lemma_layer_undone(layer_factor(n - 1), ntt_upto(f, 7 - n), layer_len(7 - n));
        assert(ntt_upto(f, 7 - n + 1) == ntt_layer(ntt_upto(f, 7 - n), layer_len(7 - n)));
    }
}

/// The layers of the transform keep the length and give canonical coefficients.
pub proof fn lemma_ntt_upto_canonical(f: Seq<int>, n: int)
    requires
        f.len() == 256,
        all_canonical(f),
        0 <= n <= 7,
    ensures
        ntt_upto(f, n).len() == 256,
        all_canonical(ntt_upto(f, n)),
    decreases n,
{
    if n > 0 {
        lemma_ntt_upto_canonical(f, n - 1);
    }
}

/// The inverse transform undoes the transform.
pub proof fn lemma_ntt_inverse_of_ntt(f: Seq<int>)
    requires
        f.len() == 256,
        all_canonical(f),
    ensures
        ntt_inverse_spec(ntt_spec(f)) == f,
{
    lemma_layers_undone(f, 7);
    assert(layer_factor(7) == 128) by {
        reveal_with_fuel(layer_factor, 8);
    }
    let back = ntt_inverse_spec(ntt_spec(f));
    assert forall|i: int| 0 <= i < 256 implies back[i] == f[i] by {
        lemma_cong_mul(3303, 3303, fq_mul(128, f[i]), 128 * f[i]);
        assert(canonical(f[i]));
    }
    assert(back =~= f);
}

/// The forward butterfly applied to `c` times an inverse butterfly gives
/// `2c` times what went in.
proof fn lemma_butterfly_redone(c: int, a: int, b: int, z: int, z2: int)
    requires
        cong(z * z2, -1),
    ensures
        fq_add(fq_mul(c, fq_add(a, b)), fq_mul(z, fq_mul(c, fq_mul(z2, fq_sub(b, a))))) == fq_mul(
            2 * c,
            a,
        ),
        fq_sub(fq_mul(c, fq_add(a, b)), fq_mul(z, fq_mul(c, fq_mul(z2, fq_sub(b, a))))) == fq_mul(
            2 * c,
            b,
        ),
{
    let lower = fq_mul(c, fq_add(a, b));
    let upper = fq_mul(c, fq_mul(z2, fq_sub(b, a)));
    lemma_fq_add_cong(a, a, b, b);
    lemma_fq_mul_cong(c, c, fq_add(a, b), a + b);
    lemma_fq_sub_cong(b, b, a, a);
    lemma_fq_mul_cong(z2, z2, fq_sub(b, a), b - a);
    lemma_fq_mul_cong(c, c, fq_mul(z2, fq_sub(b, a)), z2 * (b - a));
    lemma_fq_mul_cong(z, z, upper, c * (z2 * (b - a)));
    // z (c (z2 (b - a))) = (z z2) (c (b - a)), which is congruent to -(c (b - a))
    lemma_mul_left_swap(c, z2, b - a);
    lemma_mul_left_swap(z, z2, c * (b - a));
    lemma_cong_mul(z * z2, -1, c * (b - a), c * (b - a));
    assert(cong(fq_mul(z, upper), -1 * (c * (b - a))));
    assert(c * (a + b) + -1 * (c * (b - a)) == (2 * c) * a) by (nonlinear_arith);
    assert(c * (a + b) - -1 * (c * (b - a)) == (2 * c) * b) by (nonlinear_arith);
    lemma_fq_add_cong(lower, c * (a + b), fq_mul(z, upper), -1 * (c * (b - a)));
    lemma_fq_sub_cong(lower, c * (a + b), fq_mul(z, upper), -1 * (c * (b - a)));
    lemma_cong_canonical(fq_add(lower, fq_mul(z, upper)), fq_mul(2 * c, a));
    lemma_cong_canonical(fq_sub(lower, fq_mul(z, upper)), fq_mul(2 * c, b));
}

/// A forward layer applied to `c` times an inverse layer of the same
/// half-length gives `2c` times what went in.
pub proof fn lemma_layer_redone(c: int, g: Seq<int>, len: int)
    requires
        g.len() == 256,
        valid_len(len),
    ensures
        ntt_layer(poly_scale(c, inverse_layer(g, len)), len) == poly_scale(2 * c, g),
{
    let h = inverse_layer(g, len);
    let s = poly_scale(c, h);
    let lhs = ntt_layer(s, len);
    let rhs = poly_scale(2 * c, g);
    assert forall|i: int| 0 <= i < 256 implies lhs[i] == rhs[i] by {
        let nb = block_count(len);
        let blk = block_index(len, i);
        let z = zeta(nb + blk);
        let z2 = zeta(2 * nb - 1 - blk);
        lemma_zeta_mirror(nb, blk);
        if block_pos(len, i) < len {
            assert(block_index(len, i + len) == blk);
            assert(block_pos(len, i + len) >= len);
            lemma_butterfly_redone(c, g[i], g[i + len], z, z2);
        } else {
            assert(block_index(len, i - len) == blk);
            assert(block_pos(len, i - len) < len);
            lemma_butterfly_redone(c, g[i - len], g[i], z, z2);
        }
    }
    assert(lhs =~= rhs);
}

/// The layers of the inverse transform keep the length.
pub proof fn lemma_inverse_upto_len(f: Seq<int>, n: int)
    requires
        f.len() == 256,
        0 <= n <= 7,
    ensures
        inverse_upto(f, n).len() == 256,
    decreases n,
{
    if n > 0 {
        lemma_inverse_upto_len(f, n - 1);
    }
}

/// After `n` forward layers, the inverse transform of `f` is back at the
/// state that it had `n` layers before its end, times 3303 and two to the `n`.
pub proof fn lemma_layers_redone(f: Seq<int>, n: int)
    requires
        f.len() == 256,
        0 <= n <= 7,
    ensures
        ntt_upto(ntt_inverse_spec(f), n) == poly_scale(
            3303 * layer_factor(n),
            inverse_upto(f, 7 - n),
        ),
    decreases n,
{
    lemma_inverse_upto_len(f, 7 - n);
    if n > 0 {
        lemma_layers_redone(f, n - 1);
        lemma_layer_redone(3303 * layer_factor(n - 1), inverse_upto(f, 7 - n), layer_len(n - 1));
        assert(inverse_upto(f, 7 - n + 1) == inverse_layer(
            inverse_upto(f, 7 - n),
            layer_len(7 - (7 - n + 1)),
        ));
        assert(3303 * layer_factor(n) == 2 * (3303 * layer_factor(n - 1)));
    }
}

/// The transform undoes the inverse transform.
pub proof fn lemma_ntt_of_ntt_inverse(f: Seq<int>)
    requires
        f.len() == 256,
        all_canonical(f),
    ensures
        ntt_spec(ntt_inverse_spec(f)) == f,
{
    lemma_layers_redone(f, 7);
    assert(layer_factor(7) == 128) by {
        reveal_with_fuel(layer_factor, 8);
    }
    let back = ntt_spec(ntt_inverse_spec(f));
    assert forall|i: int| 0 <= i < 256 implies back[i] == f[i] by {
        assert(canonical(f[i]));
        assert(back[i] == fq_mul(3303int * 128int, f[i]));
    }
    assert(back =~= f);
}

} // verus!
