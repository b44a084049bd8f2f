//! What the number-theoretic transform and its inverse compute, layer by layer.
//!
//! A polynomial is modelled as a sequence of 256 canonical residues. Each of
//! the seven layers works on blocks of `2 * len` coefficients and combines the
//! coefficient at position `p < len` of a block with the one at `p + len`.

use crate::modular::{fq_add, fq_mul, fq_sub};
use crate::zeta::zeta;
use vstd::prelude::*;

verus! {

/// The half-lengths of the blocks, in the order in which the forward transform
/// runs through them.
pub open spec fn valid_len(len: int) -> bool {
    len == 128 || len == 64 || len == 32 || len == 16 || len == 8 || len == 4 || len == 2
}

/// The half-length of the blocks in layer `layer` of the forward transform.
pub open spec fn layer_len(layer: int) -> int {
    if layer == 0 {
        128
    } else if layer == 1 {
        64
    } else if layer == 2 {
        32
    } else if layer == 3 {
        16
    } else if layer == 4 {
        8
    } else if layer == 5 {
        4
    } else if layer == 6 {
        2
    } else {
        1
    }
}

/// The number of blocks of `2 * len` coefficients: `128 / len`.
pub open spec fn block_count(len: int) -> int {
    if len == 128 {
        1
    } else if len == 64 {
        2
    } else if len == 32 {
        4
    } else if len == 16 {
        8
    } else if len == 8 {
        16
    } else if len == 4 {
        32
    } else if len == 2 {
        64
    } else {
        128
    }
}

/// The block that coefficient `i` lies in: `i / (2 * len)`.
pub open spec fn block_index(len: int, i: int) -> int {
    if len == 128 {
        i / 256
    } else if len == 64 {
        i / 128
    } else if len == 32 {
        i / 64
    } else if len == 16 {
        i / 32
    } else if len == 8 {
        i / 16
    } else if len == 4 {
        i / 8
    } else if len == 2 {
        i / 4
    } else {
        i / 2
    }
}

/// The position of coefficient `i` in its block: `i % (2 * len)`.
pub open spec fn block_pos(len: int, i: int) -> int {
    if len == 128 {
        i % 256
    } else if len == 64 {
        i % 128
    } else if len == 32 {
        i % 64
    } else if len == 16 {
        i % 32
    } else if len == 8 {
        i % 16
    } else if len == 4 {
        i % 8
    } else if len == 2 {
        i % 4
    } else {
        i % 2
    }
}

/// Coefficient `i` after one forward layer of half-length `len`: the
/// Cooley-Tukey butterfly with the twiddle factor of the block.
pub open spec fn ntt_layer_at(f: Seq<int>, len: int, i: int) -> int {
    let z = zeta(block_count(len) + block_index(len, i));
    if block_pos(len, i) < len {
        fq_add(f[i], fq_mul(z, f[i + len]))
    } else {
        fq_sub(f[i - len], fq_mul(z, f[i]))
    }
}

/// One forward layer of half-length `len`.
pub open spec fn ntt_layer(f: Seq<int>, len: int) -> Seq<int> {
    Seq::new(256, |i: int| ntt_layer_at(f, len, i))
}

/// The first `n` layers of the forward transform.
pub open spec fn ntt_upto(f: Seq<int>, n: int) -> Seq<int>
    decreases n,
{
    if n <= 0 {
        f
    } else {
        ntt_layer(ntt_upto(f, n - 1), layer_len(n - 1))
    }
}

/// The forward transform: all seven layers, half-lengths 128 down to 2.
pub open spec fn ntt_spec(f: Seq<int>) -> Seq<int> {
    ntt_upto(f, 7)
}

/// Coefficient `i` after one inverse layer of half-length `len`: the
/// Gentleman-Sande butterfly. The twiddle factors are taken in descending
/// order over the blocks.
pub open spec fn inverse_layer_at(f: Seq<int>, len: int, i: int) -> int {
    let z = zeta(2 * block_count(len) - 1 - block_index(len, i));
    if block_pos(len, i) < len {
        fq_add(f[i], f[i + len])
    } else {
        fq_mul(z, fq_sub(f[i], f[i - len]))
    }
}

/// One inverse layer of half-length `len`.
pub open spec fn inverse_layer(f: Seq<int>, len: int) -> Seq<int> {
    Seq::new(256, |i: int| inverse_layer_at(f, len, i))
}

/// The first `n` layers of the inverse transform, half-lengths 2 upwards.
pub open spec fn inverse_upto(f: Seq<int>, n: int) -> Seq<int>
    decreases n,
{
    if n <= 0 {
        f
    } else {
        inverse_layer(inverse_upto(f, n - 1), layer_len(7 - n))
    }
}

/// Every coefficient multiplied by `c`.
pub open spec fn poly_scale(c: int, f: Seq<int>) -> Seq<int> {
    Seq::new(f.len(), |i: int| fq_mul(c, f[i]))
}

/// Coefficient-wise sum.
pub open spec fn poly_add(f: Seq<int>, g: Seq<int>) -> Seq<int> {
    Seq::new(f.len(), |i: int| fq_add(f[i], g[i]))
}

/// Coefficient-wise difference.
pub open spec fn poly_sub(f: Seq<int>, g: Seq<int>) -> Seq<int> {
    Seq::new(f.len(), |i: int| fq_sub(f[i], g[i]))
}

/// The inverse transform: seven layers, half-lengths 2 up to 128, then every
/// coefficient times 3303, the inverse of 128.
pub open spec fn ntt_inverse_spec(f: Seq<int>) -> Seq<int> {
    poly_scale(3303, inverse_upto(f, 7))
}

/// Coefficient `k` of pair `i` of the product in the transformed domain: the
/// product of two linear polynomials modulo `X^2 - gamma(i)`.
pub open spec fn base_case_at(a: Seq<int>, b: Seq<int>, idx: int) -> int {
    let i = idx / 2;
    let g = crate::zeta::gamma(i);
    if idx % 2 == 0 {
        (a[2 * i] * b[2 * i] + a[2 * i + 1] * b[2 * i + 1] * g) % 3329
    } else {
        (a[2 * i] * b[2 * i + 1] + a[2 * i + 1] * b[2 * i]) % 3329
    }
}

/// The product in the transformed domain: pair by pair.
pub open spec fn ntt_mul_spec(a: Seq<int>, b: Seq<int>) -> Seq<int> {
    Seq::new(256, |idx: int| base_case_at(a, b, idx))
}

} // verus!
