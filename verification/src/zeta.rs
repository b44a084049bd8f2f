//! The twiddle factors of the transform: powers of the 256th root of unity 17,
//! in bit-reversed order, and the facts about them that the transform rests on.

use crate::modular::{canonical, cong};
use crate::zeta_values::{
    lemma_gamma_power_cases, lemma_gamma_values, lemma_zeta_mirror_cases, lemma_zeta_power_cases,
    lemma_zeta_square_cases, lemma_zeta_values,
};
use vstd::arithmetic::power::pow;
use vstd::prelude::*;

verus! {

/// `ZETA_POW_BITREV[i]` is 17 raised to the 7-bit reversal of `i`, modulo `q`.
pub const ZETA_POW_BITREV: [u16; 128] = [
    1, 1729, 2580, 3289, 2642, 630, 1897, 848,
    1062, 1919, 193, 797, 2786, 3260, 569, 1746,
    296, 2447, 1339, 1476, 3046, 56, 2240, 1333,
    1426, 2094, 535, 2882, 2393, 2879, 1974, 821,
    289, 331, 3253, 1756, 1197, 2304, 2277, 2055,
    650, 1977, 2513, 632, 2865, 33, 1320, 1915,
    2319, 1435, 807, 452, 1438, 2868, 1534, 2402,
    2647, 2617, 1481, 648, 2474, 3110, 1227, 910,
    17, 2761, 583, 2649, 1637, 723, 2288, 1100,
    1409, 2662, 3281, 233, 756, 2156, 3015, 3050,
    1703, 1651, 2789, 1789, 1847, 952, 1461, 2687,
    939, 2308, 2437, 2388, 733, 2337, 268, 641,
    1584, 2298, 2037, 3220, 375, 2549, 2090, 1645,
    1063, 319, 2773, 757, 2099, 561, 2466, 2594,
    2804, 1092, 403, 1026, 1143, 2150, 2775, 886,
    1722, 1212, 1874, 1029, 2110, 2935, 885, 2154,
];

/// `GAMMA[i]` is 17 raised to twice the 7-bit reversal of `i`, plus one, modulo `q`.
pub const GAMMA: [u16; 128] = [
    17, 3312, 2761, 568, 583, 2746, 2649, 680,
    1637, 1692, 723, 2606, 2288, 1041, 1100, 2229,
    1409, 1920, 2662, 667, 3281, 48, 233, 3096,
    756, 2573, 2156, 1173, 3015, 314, 3050, 279,
    1703, 1626, 1651, 1678, 2789, 540, 1789, 1540,
    1847, 1482, 952, 2377, 1461, 1868, 2687, 642,
    939, 2390, 2308, 1021, 2437, 892, 2388, 941,
    733, 2596, 2337, 992, 268, 3061, 641, 2688,
    1584, 1745, 2298, 1031, 2037, 1292, 3220, 109,
    375, 2954, 2549, 780, 2090, 1239, 1645, 1684,
    1063, 2266, 319, 3010, 2773, 556, 757, 2572,
    2099, 1230, 561, 2768, 2466, 863, 2594, 735,
    2804, 525, 1092, 2237, 403, 2926, 1026, 2303,
    1143, 2186, 2150, 1179, 2775, 554, 886, 2443,
    1722, 1607, 1212, 2117, 1874, 1455, 1029, 2300,
    2110, 1219, 2935, 394, 885, 2444, 2154, 1175,
];

/// The twiddle factor with index `k`.
pub open spec fn zeta(k: int) -> int {
    ZETA_POW_BITREV[k] as int
}

/// The constant of the `i`-th quadratic factor `X^2 - gamma(i)`.
pub open spec fn gamma(i: int) -> int {
    GAMMA[i] as int
}

/// The 7-bit reversal of `i`.
pub open spec fn bit_reverse_7(i: int) -> int {
    64 * (i % 2) + 32 * (i / 2 % 2) + 16 * (i / 4 % 2) + 8 * (i / 8 % 2) + 4 * (i / 16 % 2) + 2 * (i
        / 32 % 2) + (i / 64 % 2)
}

/// The constant `c` of the factor `X^n - c` that the block with tree index `m`
/// holds a residue of. The tree is rooted at index 1, which stands for
/// `X^256 + 1`; the children of `m` are `2m` and `2m + 1`, and they split
/// `X^(2n) - zeta(m)^2` into `X^n - zeta(m)` and `X^n + zeta(m)`.
pub open spec fn block_constant(m: int) -> int {
    if m <= 1 {
        -1
    } else if m % 2 == 0 {
        zeta(m / 2)
    } else {
        -zeta(m / 2)
    }
}

/// Every twiddle factor is canonical.
pub proof fn lemma_zeta_canonical(k: int)
    requires
        0 <= k < 128,
    ensures
        canonical(zeta(k)),
{
    lemma_zeta_values(k);
}

/// Every leaf constant is canonical.
pub proof fn lemma_gamma_canonical(i: int)
    requires
        0 <= i < 128,
    ensures
        canonical(gamma(i)),
{
    lemma_gamma_values(i);
}

/// Each twiddle factor is 17 to the bit reversal of its index, modulo `q`.
pub proof fn lemma_zeta_is_power(i: int)
    requires
        0 <= i < 128,
    ensures
        zeta(i) == pow(17, bit_reverse_7(i) as nat) % 3329,
{
    lemma_zeta_power_cases(i);
}

/// Each leaf constant is 17 to twice the bit reversal of its index plus one,
/// modulo `q`.
pub proof fn lemma_gamma_is_power(i: int)
    requires
        0 <= i < 128,
    ensures
        gamma(i) == pow(17, (2 * bit_reverse_7(i) + 1) as nat) % 3329,
{
    lemma_gamma_power_cases(i);
}

/// For every block of the tree, the square of its twiddle factor is the
/// constant of the block.
pub proof fn lemma_zeta_squares(m: int)
    requires
        1 <= m < 128,
    ensures
        cong(zeta(m) * zeta(m), block_constant(m)),
{
    lemma_zeta_square_cases(m);
}

/// The twiddle factor of block `blk` among `nb` blocks, times the one that the
/// inverse transform uses for that block, is minus one.
pub proof fn lemma_zeta_mirror(nb: int, blk: int)
    requires
        nb == 1 || nb == 2 || nb == 4 || nb == 8 || nb == 16 || nb == 32 || nb == 64,
        0 <= blk < nb,
    ensures
        cong(zeta(nb + blk) * zeta(2 * nb - 1 - blk), -1),
{
    lemma_zeta_mirror_cases(nb, blk);
}

/// Each leaf constant is the constant of its block in the tree.
pub proof fn lemma_gamma_leaf(i: int)
    requires
        0 <= i < 128,
    ensures
        cong(gamma(i), block_constant(128 + i)),
{
    lemma_gamma_values(i);
    lemma_zeta_values(64 + i / 2);
}

} // verus!
