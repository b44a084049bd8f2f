//! The entries of the tables of twiddle factors, one by one: their values,
//! and the arithmetic that shows what each of them is a power of.

use crate::modular::{canonical, cong};
use crate::zeta::{bit_reverse_7, block_constant, gamma, zeta};
use vstd::arithmetic::div_mod::lemma_mul_mod_noop_right;
use vstd::arithmetic::power::{lemma_pow0, lemma_pow1, lemma_pow_adds, pow};
use vstd::prelude::*;

verus! {

/// The value of each twiddle factor.
pub proof fn lemma_zeta_values(k: int)
    requires
        0 <= k < 128,
    ensures
        canonical(zeta(k)),
        k == 0 ==> zeta(k) == 1,
        k == 1 ==> zeta(k) == 1729,
        k == 2 ==> zeta(k) == 2580,
        k == 3 ==> zeta(k) == 3289,
        k == 4 ==> zeta(k) == 2642,
        k == 5 ==> zeta(k) == 630,
        k == 6 ==> zeta(k) == 1897,
        k == 7 ==> zeta(k) == 848,
        k == 8 ==> zeta(k) == 1062,
        k == 9 ==> zeta(k) == 1919,
        k == 10 ==> zeta(k) == 193,
        k == 11 ==> zeta(k) == 797,
        k == 12 ==> zeta(k) == 2786,
        k == 13 ==> zeta(k) == 3260,
        k == 14 ==> zeta(k) == 569,
        k == 15 ==> zeta(k) == 1746,
        k == 16 ==> zeta(k) == 296,
        k == 17 ==> zeta(k) == 2447,
        k == 18 ==> zeta(k) == 1339,
        k == 19 ==> zeta(k) == 1476,
        k == 20 ==> zeta(k) == 3046,
        k == 21 ==> zeta(k) == 56,
        k == 22 ==> zeta(k) == 2240,
        k == 23 ==> zeta(k) == 1333,
        k == 24 ==> zeta(k) == 1426,
        k == 25 ==> zeta(k) == 2094,
        k == 26 ==> zeta(k) == 535,
        k == 27 ==> zeta(k) == 2882,
        k == 28 ==> zeta(k) == 2393,
        k == 29 ==> zeta(k) == 2879,
        k == 30 ==> zeta(k) == 1974,
        k == 31 ==> zeta(k) == 821,
        k == 32 ==> zeta(k) == 289,
        k == 33 ==> zeta(k) == 331,
        k == 34 ==> zeta(k) == 3253,
        k == 35 ==> zeta(k) == 1756,
        k == 36 ==> zeta(k) == 1197,
        k == 37 ==> zeta(k) == 2304,
        k == 38 ==> zeta(k) == 2277,
        k == 39 ==> zeta(k) == 2055,
        k == 40 ==> zeta(k) == 650,
        k == 41 ==> zeta(k) == 1977,
        k == 42 ==> zeta(k) == 2513,
        k == 43 ==> zeta(k) == 632,
        k == 44 ==> zeta(k) == 2865,
        k == 45 ==> zeta(k) == 33,
        k == 46 ==> zeta(k) == 1320,
        k == 47 ==> zeta(k) == 1915,
        k == 48 ==> zeta(k) == 2319,
        k == 49 ==> zeta(k) == 1435,
        k == 50 ==> zeta(k) == 807,
        k == 51 ==> zeta(k) == 452,
        k == 52 ==> zeta(k) == 1438,
        k == 53 ==> zeta(k) == 2868,
        k == 54 ==> zeta(k) == 1534,
        k == 55 ==> zeta(k) == 2402,
        k == 56 ==> zeta(k) == 2647,
        k == 57 ==> zeta(k) == 2617,
        k == 58 ==> zeta(k) == 1481,
        k == 59 ==> zeta(k) == 648,
        k == 60 ==> zeta(k) == 2474,
        k == 61 ==> zeta(k) == 3110,
        k == 62 ==> zeta(k) == 1227,
        k == 63 ==> zeta(k) == 910,
        k == 64 ==> zeta(k) == 17,
        k == 65 ==> zeta(k) == 2761,
        k == 66 ==> zeta(k) == 583,
        k == 67 ==> zeta(k) == 2649,
        k == 68 ==> zeta(k) == 1637,
        k == 69 ==> zeta(k) == 723,
        k == 70 ==> zeta(k) == 2288,
        k == 71 ==> zeta(k) == 1100,
        k == 72 ==> zeta(k) == 1409,
        k == 73 ==> zeta(k) == 2662,
        k == 74 ==> zeta(k) == 3281,
        k == 75 ==> zeta(k) == 233,
        k == 76 ==> zeta(k) == 756,
        k == 77 ==> zeta(k) == 2156,
        k == 78 ==> zeta(k) == 3015,
        k == 79 ==> zeta(k) == 3050,
        k == 80 ==> zeta(k) == 1703,
        k == 81 ==> zeta(k) == 1651,
        k == 82 ==> zeta(k) == 2789,
        k == 83 ==> zeta(k) == 1789,
        k == 84 ==> zeta(k) == 1847,
        k == 85 ==> zeta(k) == 952,
        k == 86 ==> zeta(k) == 1461,
        k == 87 ==> zeta(k) == 2687,
        k == 88 ==> zeta(k) == 939,
        k == 89 ==> zeta(k) == 2308,
        k == 90 ==> zeta(k) == 2437,
        k == 91 ==> zeta(k) == 2388,
        k == 92 ==> zeta(k) == 733,
        k == 93 ==> zeta(k) == 2337,
        k == 94 ==> zeta(k) == 268,
        k == 95 ==> zeta(k) == 641,
        k == 96 ==> zeta(k) == 1584,
        k == 97 ==> zeta(k) == 2298,
        k == 98 ==> zeta(k) == 2037,
        k == 99 ==> zeta(k) == 3220,
        k == 100 ==> zeta(k) == 375,
        k == 101 ==> zeta(k) == 2549,
        k == 102 ==> zeta(k) == 2090,
        k == 103 ==> zeta(k) == 1645,
        k == 104 ==> zeta(k) == 1063,
        k == 105 ==> zeta(k) == 319,
        k == 106 ==> zeta(k) == 2773,
        k == 107 ==> zeta(k) == 757,
        k == 108 ==> zeta(k) == 2099,
        k == 109 ==> zeta(k) == 561,
        k == 110 ==> zeta(k) == 2466,
        k == 111 ==> zeta(k) == 2594,
        k == 112 ==> zeta(k) == 2804,
        k == 113 ==> zeta(k) == 1092,
        k == 114 ==> zeta(k) == 403,
        k == 115 ==> zeta(k) == 1026,
        k == 116 ==> zeta(k) == 1143,
        k == 117 ==> zeta(k) == 2150,
        k == 118 ==> zeta(k) == 2775,
        k == 119 ==> zeta(k) == 886,
        k == 120 ==> zeta(k) == 1722,
        k == 121 ==> zeta(k) == 1212,
        k == 122 ==> zeta(k) == 1874,
        k == 123 ==> zeta(k) == 1029,
        k == 124 ==> zeta(k) == 2110,
        k == 125 ==> zeta(k) == 2935,
        k == 126 ==> zeta(k) == 885,
        k == 127 ==> zeta(k) == 2154,
{
}

/// The value of each leaf constant.
pub proof fn lemma_gamma_values(k: int)
    requires
        0 <= k < 128,
    ensures
        canonical(gamma(k)),
        k == 0 ==> gamma(k) == 17,
        k == 1 ==> gamma(k) == 3312,
        k == 2 ==> gamma(k) == 2761,
        k == 3 ==> gamma(k) == 568,
        k == 4 ==> gamma(k) == 583,
        k == 5 ==> gamma(k) == 2746,
        k == 6 ==> gamma(k) == 2649,
        k == 7 ==> gamma(k) == 680,
        k == 8 ==> gamma(k) == 1637,
        k == 9 ==> gamma(k) == 1692,
        k == 10 ==> gamma(k) == 723,
        k == 11 ==> gamma(k) == 2606,
        k == 12 ==> gamma(k) == 2288,
        k == 13 ==> gamma(k) == 1041,
        k == 14 ==> gamma(k) == 1100,
        k == 15 ==> gamma(k) == 2229,
        k == 16 ==> gamma(k) == 1409,
        k == 17 ==> gamma(k) == 1920,
        k == 18 ==> gamma(k) == 2662,
        k == 19 ==> gamma(k) == 667,
        k == 20 ==> gamma(k) == 3281,
        k == 21 ==> gamma(k) == 48,
        k == 22 ==> gamma(k) == 233,
        k == 23 ==> gamma(k) == 3096,
        k == 24 ==> gamma(k) == 756,
        k == 25 ==> gamma(k) == 2573,
        k == 26 ==> gamma(k) == 2156,
        k == 27 ==> gamma(k) == 1173,
        k == 28 ==> gamma(k) == 3015,
        k == 29 ==> gamma(k) == 314,
        k == 30 ==> gamma(k) == 3050,
        k == 31 ==> gamma(k) == 279,
        k == 32 ==> gamma(k) == 1703,
        k == 33 ==> gamma(k) == 1626,
        k == 34 ==> gamma(k) == 1651,
        k == 35 ==> gamma(k) == 1678,
        k == 36 ==> gamma(k) == 2789,
        k == 37 ==> gamma(k) == 540,
        k == 38 ==> gamma(k) == 1789,
        k == 39 ==> gamma(k) == 1540,
        k == 40 ==> gamma(k) == 1847,
        k == 41 ==> gamma(k) == 1482,
        k == 42 ==> gamma(k) == 952,
        k == 43 ==> gamma(k) == 2377,
        k == 44 ==> gamma(k) == 1461,
        k == 45 ==> gamma(k) == 1868,
        k == 46 ==> gamma(k) == 2687,
        k == 47 ==> gamma(k) == 642,
        k == 48 ==> gamma(k) == 939,
        k == 49 ==> gamma(k) == 2390,
        k == 50 ==> gamma(k) == 2308,
        k == 51 ==> gamma(k) == 1021,
        k == 52 ==> gamma(k) == 2437,
        k == 53 ==> gamma(k) == 892,
        k == 54 ==> gamma(k) == 2388,
        k == 55 ==> gamma(k) == 941,
        k == 56 ==> gamma(k) == 733,
        k == 57 ==> gamma(k) == 2596,
        k == 58 ==> gamma(k) == 2337,
        k == 59 ==> gamma(k) == 992,
        k == 60 ==> gamma(k) == 268,
        k == 61 ==> gamma(k) == 3061,
        k == 62 ==> gamma(k) == 641,
        k == 63 ==> gamma(k) == 2688,
        k == 64 ==> gamma(k) == 1584,
        k == 65 ==> gamma(k) == 1745,
        k == 66 ==> gamma(k) == 2298,
        k == 67 ==> gamma(k) == 1031,
        k == 68 ==> gamma(k) == 2037,
        k == 69 ==> gamma(k) == 1292,
        k == 70 ==> gamma(k) == 3220,
        k == 71 ==> gamma(k) == 109,
        k == 72 ==> gamma(k) == 375,
        k == 73 ==> gamma(k) == 2954,
        k == 74 ==> gamma(k) == 2549,
        k == 75 ==> gamma(k) == 780,
        k == 76 ==> gamma(k) == 2090,
        k == 77 ==> gamma(k) == 1239,
        k == 78 ==> gamma(k) == 1645,
        k == 79 ==> gamma(k) == 1684,
        k == 80 ==> gamma(k) == 1063,
        k == 81 ==> gamma(k) == 2266,
        k == 82 ==> gamma(k) == 319,
        k == 83 ==> gamma(k) == 3010,
        k == 84 ==> gamma(k) == 2773,
        k == 85 ==> gamma(k) == 556,
        k == 86 ==> gamma(k) == 757,
        k == 87 ==> gamma(k) == 2572,
        k == 88 ==> gamma(k) == 2099,
        k == 89 ==> gamma(k) == 1230,
        k == 90 ==> gamma(k) == 561,
        k == 91 ==> gamma(k) == 2768,
        k == 92 ==> gamma(k) == 2466,
        k == 93 ==> gamma(k) == 863,
        k == 94 ==> gamma(k) == 2594,
        k == 95 ==> gamma(k) == 735,
        k == 96 ==> gamma(k) == 2804,
        k == 97 ==> gamma(k) == 525,
        k == 98 ==> gamma(k) == 1092,
        k == 99 ==> gamma(k) == 2237,
        k == 100 ==> gamma(k) == 403,
        k == 101 ==> gamma(k) == 2926,
        k == 102 ==> gamma(k) == 1026,
        k == 103 ==> gamma(k) == 2303,
        k == 104 ==> gamma(k) == 1143,
        k == 105 ==> gamma(k) == 2186,
        k == 106 ==> gamma(k) == 2150,
        k == 107 ==> gamma(k) == 1179,
        k == 108 ==> gamma(k) == 2775,
        k == 109 ==> gamma(k) == 554,
        k == 110 ==> gamma(k) == 886,
        k == 111 ==> gamma(k) == 2443,
        k == 112 ==> gamma(k) == 1722,
        k == 113 ==> gamma(k) == 1607,
        k == 114 ==> gamma(k) == 1212,
        k == 115 ==> gamma(k) == 2117,
        k == 116 ==> gamma(k) == 1874,
        k == 117 ==> gamma(k) == 1455,
        k == 118 ==> gamma(k) == 1029,
        k == 119 ==> gamma(k) == 2300,
        k == 120 ==> gamma(k) == 2110,
        k == 121 ==> gamma(k) == 1219,
        k == 122 ==> gamma(k) == 2935,
        k == 123 ==> gamma(k) == 394,
        k == 124 ==> gamma(k) == 885,
        k == 125 ==> gamma(k) == 2444,
        k == 126 ==> gamma(k) == 2154,
        k == 127 ==> gamma(k) == 1175,
{
}

/// For every block of the tree, the square of its twiddle factor is the
/// constant of the block.
pub proof fn lemma_zeta_square_cases(m: int)
    requires
        1 <= m < 128,
    ensures
        cong(zeta(m) * zeta(m), block_constant(m)),
{
    lemma_zeta_values(m);
    lemma_zeta_values(m / 2);
    if m == 1 {
        assert((1729 * 1729) % 3329 == (-1int) % 3329);
    }
    if m == 2 {
        assert((2580 * 2580) % 3329 == (1729int) % 3329);
    }
    if m == 3 {
        assert((3289 * 3289) % 3329 == (-1729int) % 3329);
    }
    if m == 4 {
        assert((2642 * 2642) % 3329 == (2580int) % 3329);
    }
    if m == 5 {
        assert((630 * 630) % 3329 == (-2580int) % 3329);
    }
    if m == 6 {
        assert((1897 * 1897) % 3329 == (3289int) % 3329);
    }
    if m == 7 {
        assert((848 * 848) % 3329 == (-3289int) % 3329);
    }
    if m == 8 {
        assert((1062 * 1062) % 3329 == (2642int) % 3329);
    }
    if m == 9 {
        assert((1919 * 1919) % 3329 == (-2642int) % 3329);
    }
    if m == 10 {
        assert((193 * 193) % 3329 == (630int) % 3329);
    }
    if m == 11 {
        assert((797 * 797) % 3329 == (-630int) % 3329);
    }
    if m == 12 {
        assert((2786 * 2786) % 3329 == (1897int) % 3329);
    }
    if m == 13 {
        assert((3260 * 3260) % 3329 == (-1897int) % 3329);
    }
    if m == 14 {
        assert((569 * 569) % 3329 == (848int) % 3329);
    }
    if m == 15 {
        assert((1746 * 1746) % 3329 == (-848int) % 3329);
    }
    if m == 16 {
        assert((296 * 296) % 3329 == (1062int) % 3329);
    }
    if m == 17 {
        assert((2447 * 2447) % 3329 == (-1062int) % 3329);
    }
    if m == 18 {
        assert((1339 * 1339) % 3329 == (1919int) % 3329);
    }
    if m == 19 {
        assert((1476 * 1476) % 3329 == (-1919int) % 3329);
    }
    if m == 20 {
        assert((3046 * 3046) % 3329 == (193int) % 3329);
    }
    if m == 21 {
        assert((56 * 56) % 3329 == (-193int) % 3329);
    }
    if m == 22 {
        assert((2240 * 2240) % 3329 == (797int) % 3329);
    }
    if m == 23 {
        assert((1333 * 1333) % 3329 == (-797int) % 3329);
    }
    if m == 24 {
        assert((1426 * 1426) % 3329 == (2786int) % 3329);
    }
    if m == 25 {
        assert((2094 * 2094) % 3329 == (-2786int) % 3329);
    }
    if m == 26 {
        assert((535 * 535) % 3329 == (3260int) % 3329);
    }
    if m == 27 {
        assert((2882 * 2882) % 3329 == (-3260int) % 3329);
    }
    if m == 28 {
        assert((2393 * 2393) % 3329 == (569int) % 3329);
    }
    if m == 29 {
        assert((2879 * 2879) % 3329 == (-569int) % 3329);
    }
    if m == 30 {
        assert((1974 * 1974) % 3329 == (1746int) % 3329);
    }
    if m == 31 {
        assert((821 * 821) % 3329 == (-1746int) % 3329);
    }
    if m == 32 {
        assert((289 * 289) % 3329 == (296int) % 3329);
    }
    if m == 33 {
        assert((331 * 331) % 3329 == (-296int) % 3329);
    }
    if m == 34 {
        assert((3253 * 3253) % 3329 == (2447int) % 3329);
    }
    if m == 35 {
        assert((1756 * 1756) % 3329 == (-2447int) % 3329);
    }
    if m == 36 {
        assert((1197 * 1197) % 3329 == (1339int) % 3329);
    }
    if m == 37 {
        assert((2304 * 2304) % 3329 == (-1339int) % 3329);
    }
    if m == 38 {
        assert((2277 * 2277) % 3329 == (1476int) % 3329);
    }
    if m == 39 {
        assert((2055 * 2055) % 3329 == (-1476int) % 3329);
    }
    if m == 40 {
        assert((650 * 650) % 3329 == (3046int) % 3329);
    }
    if m == 41 {
        assert((1977 * 1977) % 3329 == (-3046int) % 3329);
    }
    if m == 42 {
        assert((2513 * 2513) % 3329 == (56int) % 3329);
    }
    if m == 43 {
        assert((632 * 632) % 3329 == (-56int) % 3329);
    }
    if m == 44 {
        assert((2865 * 2865) % 3329 == (2240int) % 3329);
    }
    if m == 45 {
        assert((33 * 33) % 3329 == (-2240int) % 3329);
    }
    if m == 46 {
        assert((1320 * 1320) % 3329 == (1333int) % 3329);
    }
    if m == 47 {
        assert((1915 * 1915) % 3329 == (-1333int) % 3329);
    }
    if m == 48 {
        assert((2319 * 2319) % 3329 == (1426int) % 3329);
    }
    if m == 49 {
        assert((1435 * 1435) % 3329 == (-1426int) % 3329);
    }
    if m == 50 {
        assert((807 * 807) % 3329 == (2094int) % 3329);
    }
    if m == 51 {
        assert((452 * 452) % 3329 == (-2094int) % 3329);
    }
    if m == 52 {
        assert((1438 * 1438) % 3329 == (535int) % 3329);
    }
    if m == 53 {
        assert((2868 * 2868) % 3329 == (-535int) % 3329);
    }
    if m == 54 {
        assert((1534 * 1534) % 3329 == (2882int) % 3329);
    }
    if m == 55 {
        assert((2402 * 2402) % 3329 == (-2882int) % 3329);
    }
    if m == 56 {
        assert((2647 * 2647) % 3329 == (2393int) % 3329);
    }
    if m == 57 {
        assert((2617 * 2617) % 3329 == (-2393int) % 3329);
    }
    if m == 58 {
        assert((1481 * 1481) % 3329 == (2879int) % 3329);
    }
    if m == 59 {
        assert((648 * 648) % 3329 == (-2879int) % 3329);
    }
    if m == 60 {
        assert((2474 * 2474) % 3329 == (1974int) % 3329);
    }
    if m == 61 {
        assert((3110 * 3110) % 3329 == (-1974int) % 3329);
    }
    if m == 62 {
        assert((1227 * 1227) % 3329 == (821int) % 3329);
    }
    if m == 63 {
        assert((910 * 910) % 3329 == (-821int) % 3329);
    }
    if m == 64 {
        assert((17 * 17) % 3329 == (289int) % 3329);
    }
    if m == 65 {
        assert((2761 * 2761) % 3329 == (-289int) % 3329);
    }
    if m == 66 {
        assert((583 * 583) % 3329 == (331int) % 3329);
    }
    if m == 67 {
        assert((2649 * 2649) % 3329 == (-331int) % 3329);
    }
    if m == 68 {
        assert((1637 * 1637) % 3329 == (3253int) % 3329);
    }
    if m == 69 {
        assert((723 * 723) % 3329 == (-3253int) % 3329);
    }
    if m == 70 {
        assert((2288 * 2288) % 3329 == (1756int) % 3329);
    }
    if m == 71 {
        assert((1100 * 1100) % 3329 == (-1756int) % 3329);
    }
    if m == 72 {
        assert((1409 * 1409) % 3329 == (1197int) % 3329);
    }
    if m == 73 {
        assert((2662 * 2662) % 3329 == (-1197int) % 3329);
    }
    if m == 74 {
        assert((3281 * 3281) % 3329 == (2304int) % 3329);
    }
    if m == 75 {
        assert((233 * 233) % 3329 == (-2304int) % 3329);
    }
    if m == 76 {
        assert((756 * 756) % 3329 == (2277int) % 3329);
    }
    if m == 77 {
        assert((2156 * 2156) % 3329 == (-2277int) % 3329);
    }
    if m == 78 {
        assert((3015 * 3015) % 3329 == (2055int) % 3329);
    }
    if m == 79 {
        assert((3050 * 3050) % 3329 == (-2055int) % 3329);
    }
    if m == 80 {
        assert((1703 * 1703) % 3329 == (650int) % 3329);
    }
    if m == 81 {
        assert((1651 * 1651) % 3329 == (-650int) % 3329);
    }
    if m == 82 {
        assert((2789 * 2789) % 3329 == (1977int) % 3329);
    }
    if m == 83 {
        assert((1789 * 1789) % 3329 == (-1977int) % 3329);
    }
    if m == 84 {
        assert((1847 * 1847) % 3329 == (2513int) % 3329);
    }
    if m == 85 {
        assert((952 * 952) % 3329 == (-2513int) % 3329);
    }
    if m == 86 {
        assert((1461 * 1461) % 3329 == (632int) % 3329);
    }
    if m == 87 {
        assert((2687 * 2687) % 3329 == (-632int) % 3329);
    }
    if m == 88 {
        assert((939 * 939) % 3329 == (2865int) % 3329);
    }
    if m == 89 {
        assert((2308 * 2308) % 3329 == (-2865int) % 3329);
    }
    if m == 90 {
        assert((2437 * 2437) % 3329 == (33int) % 3329);
    }
    if m == 91 {
        assert((2388 * 2388) % 3329 == (-33int) % 3329);
    }
    if m == 92 {
        assert((733 * 733) % 3329 == (1320int) % 3329);
    }
    if m == 93 {
        assert((2337 * 2337) % 3329 == (-1320int) % 3329);
    }
    if m == 94 {
        assert((268 * 268) % 3329 == (1915int) % 3329);
    }
    if m == 95 {
        assert((641 * 641) % 3329 == (-1915int) % 3329);
    }
    if m == 96 {
        assert((1584 * 1584) % 3329 == (2319int) % 3329);
    }
    if m == 97 {
        assert((2298 * 2298) % 3329 == (-2319int) % 3329);
    }
    if m == 98 {
        assert((2037 * 2037) % 3329 == (1435int) % 3329);
    }
    if m == 99 {
        assert((3220 * 3220) % 3329 == (-1435int) % 3329);
    }
    if m == 100 {
        assert((375 * 375) % 3329 == (807int) % 3329);
    }
    if m == 101 {
        assert((2549 * 2549) % 3329 == (-807int) % 3329);
    }
    if m == 102 {
        assert((2090 * 2090) % 3329 == (452int) % 3329);
    }
    if m == 103 {
        assert((1645 * 1645) % 3329 == (-452int) % 3329);
    }
    if m == 104 {
        assert((1063 * 1063) % 3329 == (1438int) % 3329);
    }
    if m == 105 {
        assert((319 * 319) % 3329 == (-1438int) % 3329);
    }
    if m == 106 {
        assert((2773 * 2773) % 3329 == (2868int) % 3329);
    }
    if m == 107 {
        assert((757 * 757) % 3329 == (-2868int) % 3329);
    }
    if m == 108 {
        assert((2099 * 2099) % 3329 == (1534int) % 3329);
    }
    if m == 109 {
        assert((561 * 561) % 3329 == (-1534int) % 3329);
    }
    if m == 110 {
        assert((2466 * 2466) % 3329 == (2402int) % 3329);
    }
    if m == 111 {
        assert((2594 * 2594) % 3329 == (-2402int) % 3329);
    }
    if m == 112 {
        assert((2804 * 2804) % 3329 == (2647int) % 3329);
    }
    if m == 113 {
        assert((1092 * 1092) % 3329 == (-2647int) % 3329);
    }
    if m == 114 {
        assert((403 * 403) % 3329 == (2617int) % 3329);
    }
    if m == 115 {
        assert((1026 * 1026) % 3329 == (-2617int) % 3329);
    }
    if m == 116 {
        assert((1143 * 1143) % 3329 == (1481int) % 3329);
    }
    if m == 117 {
        assert((2150 * 2150) % 3329 == (-1481int) % 3329);
    }
    if m == 118 {
        assert((2775 * 2775) % 3329 == (648int) % 3329);
    }
    if m == 119 {
        assert((886 * 886) % 3329 == (-648int) % 3329);
    }
    if m == 120 {
        assert((1722 * 1722) % 3329 == (2474int) % 3329);
    }
    if m == 121 {
        assert((1212 * 1212) % 3329 == (-2474int) % 3329);
    }
    if m == 122 {
        assert((1874 * 1874) % 3329 == (3110int) % 3329);
    }
    if m == 123 {
        assert((1029 * 1029) % 3329 == (-3110int) % 3329);
    }
    if m == 124 {
        assert((2110 * 2110) % 3329 == (1227int) % 3329);
    }
    if m == 125 {
        assert((2935 * 2935) % 3329 == (-1227int) % 3329);
    }
    if m == 126 {
        assert((885 * 885) % 3329 == (910int) % 3329);
    }
    if m == 127 {
        assert((2154 * 2154) % 3329 == (-910int) % 3329);
    }
}

/// The twiddle factor of block `blk` among `nb` blocks, times the one that the
/// inverse transform uses for that block, is minus one.
pub proof fn lemma_zeta_mirror_cases(nb: int, blk: int)
    requires
        nb == 1 || nb == 2 || nb == 4 || nb == 8 || nb == 16 || nb == 32 || nb == 64,
        0 <= blk < nb,
    ensures
        cong(zeta(nb + blk) * zeta(2 * nb - 1 - blk), -1),
{
    lemma_zeta_values(nb + blk);
    lemma_zeta_values(2 * nb - 1 - blk);
    if nb == 1 && blk == 0 {
        assert((1729 * 1729) % 3329 == (-1int) % 3329);
    }
    if nb == 2 && blk == 0 {
        assert((2580 * 3289) % 3329 == (-1int) % 3329);
    }
    if nb == 2 && blk == 1 {
        assert((3289 * 2580) % 3329 == (-1int) % 3329);
    }
    if nb == 4 && blk == 0 {
        assert((2642 * 848) % 3329 == (-1int) % 3329);
    }
    if nb == 4 && blk == 1 {
        assert((630 * 1897) % 3329 == (-1int) % 3329);
    }
    if nb == 4 && blk == 2 {
        assert((1897 * 630) % 3329 == (-1int) % 3329);
    }
    if nb == 4 && blk == 3 {
        assert((848 * 2642) % 3329 == (-1int) % 3329);
    }
    if nb == 8 && blk == 0 {
        assert((1062 * 1746) % 3329 == (-1int) % 3329);
    }
    if nb == 8 && blk == 1 {
        assert((1919 * 569) % 3329 == (-1int) % 3329);
    }
    if nb == 8 && blk == 2 {
        assert((193 * 3260) % 3329 == (-1int) % 3329);
    }
    if nb == 8 && blk == 3 {
        assert((797 * 2786) % 3329 == (-1int) % 3329);
    }
    if nb == 8 && blk == 4 {
        assert((2786 * 797) % 3329 == (-1int) % 3329);
    }
    if nb == 8 && blk == 5 {
        assert((3260 * 193) % 3329 == (-1int) % 3329);
    }
    if nb == 8 && blk == 6 {
        assert((569 * 1919) % 3329 == (-1int) % 3329);
    }
    if nb == 8 && blk == 7 {
        assert((1746 * 1062) % 3329 == (-1int) % 3329);
    }
    if nb == 16 && blk == 0 {
        assert((296 * 821) % 3329 == (-1int) % 3329);
    }
    if nb == 16 && blk == 1 {
        assert((2447 * 1974) % 3329 == (-1int) % 3329);
    }
    if nb == 16 && blk == 2 {
        assert((1339 * 2879) % 3329 == (-1int) % 3329);
    }
    if nb == 16 && blk == 3 {
        assert((1476 * 2393) % 3329 == (-1int) % 3329);
    }
    if nb == 16 && blk == 4 {
        assert((3046 * 2882) % 3329 == (-1int) % 3329);
    }
    if nb == 16 && blk == 5 {
        assert((56 * 535) % 3329 == (-1int) % 3329);
    }
    if nb == 16 && blk == 6 {
        assert((2240 * 2094) % 3329 == (-1int) % 3329);
    }
    if nb == 16 && blk == 7 {
        assert((1333 * 1426) % 3329 == (-1int) % 3329);
    }
    if nb == 16 && blk == 8 {
        assert((1426 * 1333) % 3329 == (-1int) % 3329);
    }
    if nb == 16 && blk == 9 {
        assert((2094 * 2240) % 3329 == (-1int) % 3329);
    }
    if nb == 16 && blk == 10 {
        assert((535 * 56) % 3329 == (-1int) % 3329);
    }
    if nb == 16 && blk == 11 {
        assert((2882 * 3046) % 3329 == (-1int) % 3329);
    }
    if nb == 16 && blk == 12 {
        assert((2393 * 1476) % 3329 == (-1int) % 3329);
    }
    if nb == 16 && blk == 13 {
        assert((2879 * 1339) % 3329 == (-1int) % 3329);
    }
    if nb == 16 && blk == 14 {
        assert((1974 * 2447) % 3329 == (-1int) % 3329);
    }
    if nb == 16 && blk == 15 {
        assert((821 * 296) % 3329 == (-1int) % 3329);
    }
    if nb == 32 && blk == 0 {
        assert((289 * 910) % 3329 == (-1int) % 3329);
    }
    if nb == 32 && blk == 1 {
        assert((331 * 1227) % 3329 == (-1int) % 3329);
    }
    if nb == 32 && blk == 2 {
        assert((3253 * 3110) % 3329 == (-1int) % 3329);
    }
    if nb == 32 && blk == 3 {
        assert((1756 * 2474) % 3329 == (-1int) % 3329);
    }
    if nb == 32 && blk == 4 {
        assert((1197 * 648) % 3329 == (-1int) % 3329);
    }
    if nb == 32 && blk == 5 {
        assert((2304 * 1481) % 3329 == (-1int) % 3329);
    }
    if nb == 32 && blk == 6 {
        assert((2277 * 2617) % 3329 == (-1int) % 3329);
    }
    if nb == 32 && blk == 7 {
        assert((2055 * 2647) % 3329 == (-1int) % 3329);
    }
    if nb == 32 && blk == 8 {
        assert((650 * 2402) % 3329 == (-1int) % 3329);
    }
    if nb == 32 && blk == 9 {
        assert((1977 * 1534) % 3329 == (-1int) % 3329);
    }
    if nb == 32 && blk == 10 {
        assert((2513 * 2868) % 3329 == (-1int) % 3329);
    }
    if nb == 32 && blk == 11 {
        assert((632 * 1438) % 3329 == (-1int) % 3329);
    }
    if nb == 32 && blk == 12 {
        assert((2865 * 452) % 3329 == (-1int) % 3329);
    }
    if nb == 32 && blk == 13 {
        assert((33 * 807) % 3329 == (-1int) % 3329);
    }
    if nb == 32 && blk == 14 {
        assert((1320 * 1435) % 3329 == (-1int) % 3329);
    }
    if nb == 32 && blk == 15 {
        assert((1915 * 2319) % 3329 == (-1int) % 3329);
    }
    if nb == 32 && blk == 16 {
        assert((2319 * 1915) % 3329 == (-1int) % 3329);
    }
    if nb == 32 && blk == 17 {
        assert((1435 * 1320) % 3329 == (-1int) % 3329);
    }
    if nb == 32 && blk == 18 {
        assert((807 * 33) % 3329 == (-1int) % 3329);
    }
    if nb == 32 && blk == 19 {
        assert((452 * 2865) % 3329 == (-1int) % 3329);
    }
    if nb == 32 && blk == 20 {
        assert((1438 * 632) % 3329 == (-1int) % 3329);
    }
    if nb == 32 && blk == 21 {
        assert((2868 * 2513) % 3329 == (-1int) % 3329);
    }
    if nb == 32 && blk == 22 {
        assert((1534 * 1977) % 3329 == (-1int) % 3329);
    }
    if nb == 32 && blk == 23 {
        assert((2402 * 650) % 3329 == (-1int) % 3329);
    }
    if nb == 32 && blk == 24 {
        assert((2647 * 2055) % 3329 == (-1int) % 3329);
    }
    if nb == 32 && blk == 25 {
        assert((2617 * 2277) % 3329 == (-1int) % 3329);
    }
    if nb == 32 && blk == 26 {
        assert((1481 * 2304) % 3329 == (-1int) % 3329);
    }
    if nb == 32 && blk == 27 {
        assert((648 * 1197) % 3329 == (-1int) % 3329);
    }
    if nb == 32 && blk == 28 {
        assert((2474 * 1756) % 3329 == (-1int) % 3329);
    }
    if nb == 32 && blk == 29 {
        assert((3110 * 3253) % 3329 == (-1int) % 3329);
    }
    if nb == 32 && blk == 30 {
        assert((1227 * 331) % 3329 == (-1int) % 3329);
    }
    if nb == 32 && blk == 31 {
        assert((910 * 289) % 3329 == (-1int) % 3329);
    }
    if nb == 64 && blk == 0 {
        assert((17 * 2154) % 3329 == (-1int) % 3329);
    }
    if nb == 64 && blk == 1 {
        assert((2761 * 885) % 3329 == (-1int) % 3329);
    }
    if nb == 64 && blk == 2 {
        assert((583 * 2935) % 3329 == (-1int) % 3329);
    }
    if nb == 64 && blk == 3 {
        assert((2649 * 2110) % 3329 == (-1int) % 3329);
    }
    if nb == 64 && blk == 4 {
        assert((1637 * 1029) % 3329 == (-1int) % 3329);
    }
    if nb == 64 && blk == 5 {
        assert((723 * 1874) % 3329 == (-1int) % 3329);
    }
    if nb == 64 && blk == 6 {
        assert((2288 * 1212) % 3329 == (-1int) % 3329);
    }
    if nb == 64 && blk == 7 {
        assert((1100 * 1722) % 3329 == (-1int) % 3329);
    }
    if nb == 64 && blk == 8 {
        assert((1409 * 886) % 3329 == (-1int) % 3329);
    }
    if nb == 64 && blk == 9 {
        assert((2662 * 2775) % 3329 == (-1int) % 3329);
    }
    if nb == 64 && blk == 10 {
        assert((3281 * 2150) % 3329 == (-1int) % 3329);
    }
    if nb == 64 && blk == 11 {
        assert((233 * 1143) % 3329 == (-1int) % 3329);
    }
    if nb == 64 && blk == 12 {
        assert((756 * 1026) % 3329 == (-1int) % 3329);
    }
    if nb == 64 && blk == 13 {
        assert((2156 * 403) % 3329 == (-1int) % 3329);
    }
    if nb == 64 && blk == 14 {
        assert((3015 * 1092) % 3329 == (-1int) % 3329);
    }
    if nb == 64 && blk == 15 {
        assert((3050 * 2804) % 3329 == (-1int) % 3329);
    }
    if nb == 64 && blk == 16 {
        assert((1703 * 2594) % 3329 == (-1int) % 3329);
    }
    if nb == 64 && blk == 17 {
        assert((1651 * 2466) % 3329 == (-1int) % 3329);
    }
    if nb == 64 && blk == 18 {
        assert((2789 * 561) % 3329 == (-1int) % 3329);
    }
    if nb == 64 && blk == 19 {
        assert((1789 * 2099) % 3329 == (-1int) % 3329);
    }
    if nb == 64 && blk == 20 {
        assert((1847 * 757) % 3329 == (-1int) % 3329);
    }
    if nb == 64 && blk == 21 {
        assert((952 * 2773) % 3329 == (-1int) % 3329);
    }
    if nb == 64 && blk == 22 {
        assert((1461 * 319) % 3329 == (-1int) % 3329);
    }
    if nb == 64 && blk == 23 {
        assert((2687 * 1063) % 3329 == (-1int) % 3329);
    }
    if nb == 64 && blk == 24 {
        assert((939 * 1645) % 3329 == (-1int) % 3329);
    }
    if nb == 64 && blk == 25 {
        assert((2308 * 2090) % 3329 == (-1int) % 3329);
    }
    if nb == 64 && blk == 26 {
        assert((2437 * 2549) % 3329 == (-1int) % 3329);
    }
    if nb == 64 && blk == 27 {
        assert((2388 * 375) % 3329 == (-1int) % 3329);
    }
    if nb == 64 && blk == 28 {
        assert((733 * 3220) % 3329 == (-1int) % 3329);
    }
    if nb == 64 && blk == 29 {
        assert((2337 * 2037) % 3329 == (-1int) % 3329);
    }
    if nb == 64 && blk == 30 {
        assert((268 * 2298) % 3329 == (-1int) % 3329);
    }
    if nb == 64 && blk == 31 {
        assert((641 * 1584) % 3329 == (-1int) % 3329);
    }
    if nb == 64 && blk == 32 {
        assert((1584 * 641) % 3329 == (-1int) % 3329);
    }
    if nb == 64 && blk == 33 {
        assert((2298 * 268) % 3329 == (-1int) % 3329);
    }
    if nb == 64 && blk == 34 {
        assert((2037 * 2337) % 3329 == (-1int) % 3329);
    }
    if nb == 64 && blk == 35 {
        assert((3220 * 733) % 3329 == (-1int) % 3329);
    }
    if nb == 64 && blk == 36 {
        assert((375 * 2388) % 3329 == (-1int) % 3329);
    }
    if nb == 64 && blk == 37 {
        assert((2549 * 2437) % 3329 == (-1int) % 3329);
    }
    if nb == 64 && blk == 38 {
        assert((2090 * 2308) % 3329 == (-1int) % 3329);
    }
    if nb == 64 && blk == 39 {
        assert((1645 * 939) % 3329 == (-1int) % 3329);
    }
    if nb == 64 && blk == 40 {
        assert((1063 * 2687) % 3329 == (-1int) % 3329);
    }
    if nb == 64 && blk == 41 {
        assert((319 * 1461) % 3329 == (-1int) % 3329);
    }
    if nb == 64 && blk == 42 {
        assert((2773 * 952) % 3329 == (-1int) % 3329);
    }
    if nb == 64 && blk == 43 {
        assert((757 * 1847) % 3329 == (-1int) % 3329);
    }
    if nb == 64 && blk == 44 {
        assert((2099 * 1789) % 3329 == (-1int) % 3329);
    }
    if nb == 64 && blk == 45 {
        assert((561 * 2789) % 3329 == (-1int) % 3329);
    }
    if nb == 64 && blk == 46 {
        assert((2466 * 1651) % 3329 == (-1int) % 3329);
    }
    if nb == 64 && blk == 47 {
        assert((2594 * 1703) % 3329 == (-1int) % 3329);
    }
    if nb == 64 && blk == 48 {
        assert((2804 * 3050) % 3329 == (-1int) % 3329);
    }
    if nb == 64 && blk == 49 {
        assert((1092 * 3015) % 3329 == (-1int) % 3329);
    }
    if nb == 64 && blk == 50 {
        assert((403 * 2156) % 3329 == (-1int) % 3329);
    }
    if nb == 64 && blk == 51 {
        assert((1026 * 756) % 3329 == (-1int) % 3329);
    }
    if nb == 64 && blk == 52 {
        assert((1143 * 233) % 3329 == (-1int) % 3329);
    }
    if nb == 64 && blk == 53 {
        assert((2150 * 3281) % 3329 == (-1int) % 3329);
    }
    if nb == 64 && blk == 54 {
        assert((2775 * 2662) % 3329 == (-1int) % 3329);
    }
    if nb == 64 && blk == 55 {
        assert((886 * 1409) % 3329 == (-1int) % 3329);
    }
    if nb == 64 && blk == 56 {
        assert((1722 * 1100) % 3329 == (-1int) % 3329);
    }
    if nb == 64 && blk == 57 {
        assert((1212 * 2288) % 3329 == (-1int) % 3329);
    }
    if nb == 64 && blk == 58 {
        assert((1874 * 723) % 3329 == (-1int) % 3329);
    }
    if nb == 64 && blk == 59 {
        assert((1029 * 1637) % 3329 == (-1int) % 3329);
    }
    if nb == 64 && blk == 60 {
        assert((2110 * 2649) % 3329 == (-1int) % 3329);
    }
    if nb == 64 && blk == 61 {
        assert((2935 * 583) % 3329 == (-1int) % 3329);
    }
    if nb == 64 && blk == 62 {
        assert((885 * 2761) % 3329 == (-1int) % 3329);
    }
    if nb == 64 && blk == 63 {
        assert((2154 * 17) % 3329 == (-1int) % 3329);
    }
}

/// 17 to the `e`, modulo `q`, for `e` below 256.
pub open spec fn pow17(e: int) -> int {
    if e < 16 {
        if e == 0 {
            1
        } else if e == 1 {
            17
        } else if e == 2 {
            289
        } else if e == 3 {
            1584
        } else if e == 4 {
            296
        } else if e == 5 {
            1703
        } else if e == 6 {
            2319
        } else if e == 7 {
            2804
        } else if e == 8 {
            1062
        } else if e == 9 {
            1409
        } else if e == 10 {
            650
        } else if e == 11 {
            1063
        } else if e == 12 {
            1426
        } else if e == 13 {
            939
        } else if e == 14 {
            2647
        } else {
            1722
        }
    } else if e < 32 {
        if e == 16 {
            2642
        } else if e == 17 {
            1637
        } else if e == 18 {
            1197
        } else if e == 19 {
            375
        } else if e == 20 {
            3046
        } else if e == 21 {
            1847
        } else if e == 22 {
            1438
        } else if e == 23 {
            1143
        } else if e == 24 {
            2786
        } else if e == 25 {
            756
        } else if e == 26 {
            2865
        } else if e == 27 {
            2099
        } else if e == 28 {
            2393
        } else if e == 29 {
            733
        } else if e == 30 {
            2474
        } else {
            2110
        }
    } else if e < 48 {
        if e == 32 {
            2580
        } else if e == 33 {
            583
        } else if e == 34 {
            3253
        } else if e == 35 {
            2037
        } else if e == 36 {
            1339
        } else if e == 37 {
            2789
        } else if e == 38 {
            807
        } else if e == 39 {
            403
        } else if e == 40 {
            193
        } else if e == 41 {
            3281
        } else if e == 42 {
            2513
        } else if e == 43 {
            2773
        } else if e == 44 {
            535
        } else if e == 45 {
            2437
        } else if e == 46 {
            1481
        } else {
            1874
        }
    } else if e < 64 {
        if e == 48 {
            1897
        } else if e == 49 {
            2288
        } else if e == 50 {
            2277
        } else if e == 51 {
            2090
        } else if e == 52 {
            2240
        } else if e == 53 {
            1461
        } else if e == 54 {
            1534
        } else if e == 55 {
            2775
        } else if e == 56 {
            569
        } else if e == 57 {
            3015
        } else if e == 58 {
            1320
        } else if e == 59 {
            2466
        } else if e == 60 {
            1974
        } else if e == 61 {
            268
        } else if e == 62 {
            1227
        } else {
            885
        }
    } else if e < 80 {
        if e == 64 {
            1729
        } else if e == 65 {
            2761
        } else if e == 66 {
            331
        } else if e == 67 {
            2298
        } else if e == 68 {
            2447
        } else if e == 69 {
            1651
        } else if e == 70 {
            1435
        } else if e == 71 {
            1092
        } else if e == 72 {
            1919
        } else if e == 73 {
            2662
        } else if e == 74 {
            1977
        } else if e == 75 {
            319
        } else if e == 76 {
            2094
        } else if e == 77 {
            2308
        } else if e == 78 {
            2617
        } else {
            1212
        }
    } else if e < 96 {
        if e == 80 {
            630
        } else if e == 81 {
            723
        } else if e == 82 {
            2304
        } else if e == 83 {
            2549
        } else if e == 84 {
            56
        } else if e == 85 {
            952
        } else if e == 86 {
            2868
        } else if e == 87 {
            2150
        } else if e == 88 {
            3260
        } else if e == 89 {
            2156
        } else if e == 90 {
            33
        } else if e == 91 {
            561
        } else if e == 92 {
            2879
        } else if e == 93 {
            2337
        } else if e == 94 {
            3110
        } else {
            2935
        }
    } else if e < 112 {
        if e == 96 {
            3289
        } else if e == 97 {
            2649
        } else if e == 98 {
            1756
        } else if e == 99 {
            3220
        } else if e == 100 {
            1476
        } else if e == 101 {
            1789
        } else if e == 102 {
            452
        } else if e == 103 {
            1026
        } else if e == 104 {
            797
        } else if e == 105 {
            233
        } else if e == 106 {
            632
        } else if e == 107 {
            757
        } else if e == 108 {
            2882
        } else if e == 109 {
            2388
        } else if e == 110 {
            648
        } else {
            1029
        }
    } else if e < 128 {
        if e == 112 {
            848
        } else if e == 113 {
            1100
        } else if e == 114 {
            2055
        } else if e == 115 {
            1645
        } else if e == 116 {
            1333
        } else if e == 117 {
            2687
        } else if e == 118 {
            2402
        } else if e == 119 {
            886
        } else if e == 120 {
            1746
        } else if e == 121 {
            3050
        } else if e == 122 {
            1915
        } else if e == 123 {
            2594
        } else if e == 124 {
            821
        } else if e == 125 {
            641
        } else if e == 126 {
            910
        } else {
            2154
        }
    } else if e < 144 {
        if e == 128 {
            3328
        } else if e == 129 {
            3312
        } else if e == 130 {
            3040
        } else if e == 131 {
            1745
        } else if e == 132 {
            3033
        } else if e == 133 {
            1626
        } else if e == 134 {
            1010
        } else if e == 135 {
            525
        } else if e == 136 {
            2267
        } else if e == 137 {
            1920
        } else if e == 138 {
            2679
        } else if e == 139 {
            2266
        } else if e == 140 {
            1903
        } else if e == 141 {
            2390
        } else if e == 142 {
            682
        } else {
            1607
        }
    } else if e < 160 {
        if e == 144 {
            687
        } else if e == 145 {
            1692
        } else if e == 146 {
            2132
        } else if e == 147 {
            2954
        } else if e == 148 {
            283
        } else if e == 149 {
            1482
        } else if e == 150 {
            1891
        } else if e == 151 {
            2186
        } else if e == 152 {
            543
        } else if e == 153 {
            2573
        } else if e == 154 {
            464
        } else if e == 155 {
            1230
        } else if e == 156 {
            936
        } else if e == 157 {
            2596
        } else if e == 158 {
            855
        } else {
            1219
        }
    } else if e < 176 {
        if e == 160 {
            749
        } else if e == 161 {
            2746
        } else if e == 162 {
            76
        } else if e == 163 {
            1292
        } else if e == 164 {
            1990
        } else if e == 165 {
            540
        } else if e == 166 {
            2522
        } else if e == 167 {
            2926
        } else if e == 168 {
            3136
        } else if e == 169 {
            48
        } else if e == 170 {
            816
        } else if e == 171 {
            556
        } else if e == 172 {
            2794
        } else if e == 173 {
            892
        } else if e == 174 {
            1848
        } else {
            1455
        }
    } else if e < 192 {
        if e == 176 {
            1432
        } else if e == 177 {
            1041
        } else if e == 178 {
            1052
        } else if e == 179 {
            1239
        } else if e == 180 {
            1089
        } else if e == 181 {
            1868
        } else if e == 182 {
            1795
        } else if e == 183 {
            554
        } else if e == 184 {
            2760
        } else if e == 185 {
            314
        } else if e == 186 {
            2009
        } else if e == 187 {
            863
        } else if e == 188 {
            1355
        } else if e == 189 {
            3061
        } else if e == 190 {
            2102
        } else {
            2444
        }
    } else if e < 208 {
        if e == 192 {
            1600
        } else if e == 193 {
            568
        } else if e == 194 {
            2998
        } else if e == 195 {
            1031
        } else if e == 196 {
            882
        } else if e == 197 {
            1678
        } else if e == 198 {
            1894
        } else if e == 199 {
            2237
        } else if e == 200 {
            1410
        } else if e == 201 {
            667
        } else if e == 202 {
            1352
        } else if e == 203 {
            3010
        } else if e == 204 {
            1235
        } else if e == 205 {
            1021
        } else if e == 206 {
            712
        } else {
            2117
        }
    } else if e < 224 {
        if e == 208 {
            2699
        } else if e == 209 {
            2606
        } else if e == 210 {
            1025
        } else if e == 211 {
            780
        } else if e == 212 {
            3273
        } else if e == 213 {
            2377
        } else if e == 214 {
            461
        } else if e == 215 {
            1179
        } else if e == 216 {
            69
        } else if e == 217 {
            1173
        } else if e == 218 {
            3296
        } else if e == 219 {
            2768
        } else if e == 220 {
            450
        } else if e == 221 {
            992
        } else if e == 222 {
            219
        } else {
            394
        }
    } else if e < 240 {
        if e == 224 {
            40
        } else if e == 225 {
            680
        } else if e == 226 {
            1573
        } else if e == 227 {
            109
        } else if e == 228 {
            1853
        } else if e == 229 {
            1540
        } else if e == 230 {
            2877
        } else if e == 231 {
            2303
        } else if e == 232 {
            2532
        } else if e == 233 {
            3096
        } else if e == 234 {
            2697
        } else if e == 235 {
            2572
        } else if e == 236 {
            447
        } else if e == 237 {
            941
        } else if e == 238 {
            2681
        } else {
            2300
        }
    } else {
        if e == 240 {
            2481
        } else if e == 241 {
            2229
        } else if e == 242 {
            1274
        } else if e == 243 {
            1684
        } else if e == 244 {
            1996
        } else if e == 245 {
            642
        } else if e == 246 {
            927
        } else if e == 247 {
            2443
        } else if e == 248 {
            1583
        } else if e == 249 {
            279
        } else if e == 250 {
            1414
        } else if e == 251 {
            735
        } else if e == 252 {
            2508
        } else if e == 253 {
            2688
        } else if e == 254 {
            2419
        } else {
            1175
        }
    }
}

/// Each entry of the table of powers is 17 times the one before, modulo `q`.
proof fn lemma_pow17_step(e: int)
    requires
        1 <= e < 256,
    ensures
        pow17(e) == (17 * pow17(e - 1)) % 3329,
{
    if e == 1 {
        assert((17 * 1) % 3329 == 17);
    } else if e == 2 {
        assert((17 * 17) % 3329 == 289);
    } else if e == 3 {
        assert((17 * 289) % 3329 == 1584);
    } else if e == 4 {
        assert((17 * 1584) % 3329 == 296);
    } else if e == 5 {
        assert((17 * 296) % 3329 == 1703);
    } else if e == 6 {
        assert((17 * 1703) % 3329 == 2319);
    } else if e == 7 {
        assert((17 * 2319) % 3329 == 2804);
    } else if e == 8 {
        assert((17 * 2804) % 3329 == 1062);
    } else if e == 9 {
        assert((17 * 1062) % 3329 == 1409);
    } else if e == 10 {
        assert((17 * 1409) % 3329 == 650);
    } else if e == 11 {
        assert((17 * 650) % 3329 == 1063);
    } else if e == 12 {
        assert((17 * 1063) % 3329 == 1426);
    } else if e == 13 {
        assert((17 * 1426) % 3329 == 939);
    } else if e == 14 {
        assert((17 * 939) % 3329 == 2647);
    } else if e == 15 {
        assert((17 * 2647) % 3329 == 1722);
    } else if e == 16 {
        assert((17 * 1722) % 3329 == 2642);
    } else if e == 17 {
        assert((17 * 2642) % 3329 == 1637);
    } else if e == 18 {
        assert((17 * 1637) % 3329 == 1197);
    } else if e == 19 {
        assert((17 * 1197) % 3329 == 375);
    } else if e == 20 {
        assert((17 * 375) % 3329 == 3046);
    } else if e == 21 {
        assert((17 * 3046) % 3329 == 1847);
    } else if e == 22 {
        assert((17 * 1847) % 3329 == 1438);
    } else if e == 23 {
        assert((17 * 1438) % 3329 == 1143);
    } else if e == 24 {
        assert((17 * 1143) % 3329 == 2786);
    } else if e == 25 {
        assert((17 * 2786) % 3329 == 756);
    } else if e == 26 {
        assert((17 * 756) % 3329 == 2865);
    } else if e == 27 {
        assert((17 * 2865) % 3329 == 2099);
    } else if e == 28 {
        assert((17 * 2099) % 3329 == 2393);
    } else if e == 29 {
        assert((17 * 2393) % 3329 == 733);
    } else if e == 30 {
        assert((17 * 733) % 3329 == 2474);
    } else if e == 31 {
        assert((17 * 2474) % 3329 == 2110);
    } else if e == 32 {
        assert((17 * 2110) % 3329 == 2580);
    } else if e == 33 {
        assert((17 * 2580) % 3329 == 583);
    } else if e == 34 {
        assert((17 * 583) % 3329 == 3253);
    } else if e == 35 {
        assert((17 * 3253) % 3329 == 2037);
    } else if e == 36 {
        assert((17 * 2037) % 3329 == 1339);
    } else if e == 37 {
        assert((17 * 1339) % 3329 == 2789);
    } else if e == 38 {
        assert((17 * 2789) % 3329 == 807);
    } else if e == 39 {
        assert((17 * 807) % 3329 == 403);
    } else if e == 40 {
        assert((17 * 403) % 3329 == 193);
    } else if e == 41 {
        assert((17 * 193) % 3329 == 3281);
    } else if e == 42 {
        assert((17 * 3281) % 3329 == 2513);
    } else if e == 43 {
        assert((17 * 2513) % 3329 == 2773);
    } else if e == 44 {
        assert((17 * 2773) % 3329 == 535);
    } else if e == 45 {
        assert((17 * 535) % 3329 == 2437);
    } else if e == 46 {
        assert((17 * 2437) % 3329 == 1481);
    } else if e == 47 {
        assert((17 * 1481) % 3329 == 1874);
    } else if e == 48 {
        assert((17 * 1874) % 3329 == 1897);
    } else if e == 49 {
        assert((17 * 1897) % 3329 == 2288);
    } else if e == 50 {
        assert((17 * 2288) % 3329 == 2277);
    } else if e == 51 {
        assert((17 * 2277) % 3329 == 2090);
    } else if e == 52 {
        assert((17 * 2090) % 3329 == 2240);
    } else if e == 53 {
        assert((17 * 2240) % 3329 == 1461);
    } else if e == 54 {
        assert((17 * 1461) % 3329 == 1534);
    } else if e == 55 {
        assert((17 * 1534) % 3329 == 2775);
    } else if e == 56 {
        assert((17 * 2775) % 3329 == 569);
    } else if e == 57 {
        assert((17 * 569) % 3329 == 3015);
    } else if e == 58 {
        assert((17 * 3015) % 3329 == 1320);
    } else if e == 59 {
        assert((17 * 1320) % 3329 == 2466);
    } else if e == 60 {
        assert((17 * 2466) % 3329 == 1974);
    } else if e == 61 {
        assert((17 * 1974) % 3329 == 268);
    } else if e == 62 {
        assert((17 * 268) % 3329 == 1227);
    } else if e == 63 {
        assert((17 * 1227) % 3329 == 885);
    } else if e == 64 {
        assert((17 * 885) % 3329 == 1729);
    } else if e == 65 {
        assert((17 * 1729) % 3329 == 2761);
    } else if e == 66 {
        assert((17 * 2761) % 3329 == 331);
    } else if e == 67 {
        assert((17 * 331) % 3329 == 2298);
    } else if e == 68 {
        assert((17 * 2298) % 3329 == 2447);
    } else if e == 69 {
        assert((17 * 2447) % 3329 == 1651);
    } else if e == 70 {
        assert((17 * 1651) % 3329 == 1435);
    } else if e == 71 {
        assert((17 * 1435) % 3329 == 1092);
    } else if e == 72 {
        assert((17 * 1092) % 3329 == 1919);
    } else if e == 73 {
        assert((17 * 1919) % 3329 == 2662);
    } else if e == 74 {
        assert((17 * 2662) % 3329 == 1977);
    } else if e == 75 {
        assert((17 * 1977) % 3329 == 319);
    } else if e == 76 {
        assert((17 * 319) % 3329 == 2094);
    } else if e == 77 {
        assert((17 * 2094) % 3329 == 2308);
    } else if e == 78 {
        assert((17 * 2308) % 3329 == 2617);
    } else if e == 79 {
        assert((17 * 2617) % 3329 == 1212);
    } else if e == 80 {
        assert((17 * 1212) % 3329 == 630);
    } else if e == 81 {
        assert((17 * 630) % 3329 == 723);
    } else if e == 82 {
        assert((17 * 723) % 3329 == 2304);
    } else if e == 83 {
        assert((17 * 2304) % 3329 == 2549);
    } else if e == 84 {
        assert((17 * 2549) % 3329 == 56);
    } else if e == 85 {
        assert((17 * 56) % 3329 == 952);
    } else if e == 86 {
        assert((17 * 952) % 3329 == 2868);
    } else if e == 87 {
        assert((17 * 2868) % 3329 == 2150);
    } else if e == 88 {
        assert((17 * 2150) % 3329 == 3260);
    } else if e == 89 {
        assert((17 * 3260) % 3329 == 2156);
    } else if e == 90 {
        assert((17 * 2156) % 3329 == 33);
    } else if e == 91 {
        assert((17 * 33) % 3329 == 561);
    } else if e == 92 {
        assert((17 * 561) % 3329 == 2879);
    } else if e == 93 {
        assert((17 * 2879) % 3329 == 2337);
    } else if e == 94 {
        assert((17 * 2337) % 3329 == 3110);
    } else if e == 95 {
        assert((17 * 3110) % 3329 == 2935);
    } else if e == 96 {
        assert((17 * 2935) % 3329 == 3289);
    } else if e == 97 {
        assert((17 * 3289) % 3329 == 2649);
    } else if e == 98 {
        assert((17 * 2649) % 3329 == 1756);
    } else if e == 99 {
        assert((17 * 1756) % 3329 == 3220);
    } else if e == 100 {
        assert((17 * 3220) % 3329 == 1476);
    } else if e == 101 {
        assert((17 * 1476) % 3329 == 1789);
    } else if e == 102 {
        assert((17 * 1789) % 3329 == 452);
    } else if e == 103 {
        assert((17 * 452) % 3329 == 1026);
    } else if e == 104 {
        assert((17 * 1026) % 3329 == 797);
    } else if e == 105 {
        assert((17 * 797) % 3329 == 233);
    } else if e == 106 {
        assert((17 * 233) % 3329 == 632);
    } else if e == 107 {
        assert((17 * 632) % 3329 == 757);
    } else if e == 108 {
        assert((17 * 757) % 3329 == 2882);
    } else if e == 109 {
        assert((17 * 2882) % 3329 == 2388);
    } else if e == 110 {
        assert((17 * 2388) % 3329 == 648);
    } else if e == 111 {
        assert((17 * 648) % 3329 == 1029);
    } else if e == 112 {
        assert((17 * 1029) % 3329 == 848);
    } else if e == 113 {
        assert((17 * 848) % 3329 == 1100);
    } else if e == 114 {
        assert((17 * 1100) % 3329 == 2055);
    } else if e == 115 {
        assert((17 * 2055) % 3329 == 1645);
    } else if e == 116 {
        assert((17 * 1645) % 3329 == 1333);
    } else if e == 117 {
        assert((17 * 1333) % 3329 == 2687);
    } else if e == 118 {
        assert((17 * 2687) % 3329 == 2402);
    } else if e == 119 {
        assert((17 * 2402) % 3329 == 886);
    } else if e == 120 {
        assert((17 * 886) % 3329 == 1746);
    } else if e == 121 {
        assert((17 * 1746) % 3329 == 3050);
    } else if e == 122 {
        assert((17 * 3050) % 3329 == 1915);
    } else if e == 123 {
        assert((17 * 1915) % 3329 == 2594);
    } else if e == 124 {
        assert((17 * 2594) % 3329 == 821);
    } else if e == 125 {
        assert((17 * 821) % 3329 == 641);
    } else if e == 126 {
        assert((17 * 641) % 3329 == 910);
    } else if e == 127 {
        assert((17 * 910) % 3329 == 2154);
    } else if e == 128 {
        assert((17 * 2154) % 3329 == 3328);
    } else if e == 129 {
        assert((17 * 3328) % 3329 == 3312);
    } else if e == 130 {
        assert((17 * 3312) % 3329 == 3040);
    } else if e == 131 {
        assert((17 * 3040) % 3329 == 1745);
    } else if e == 132 {
        assert((17 * 1745) % 3329 == 3033);
    } else if e == 133 {
        assert((17 * 3033) % 3329 == 1626);
    } else if e == 134 {
        assert((17 * 1626) % 3329 == 1010);
    } else if e == 135 {
        assert((17 * 1010) % 3329 == 525);
    } else if e == 136 {
        assert((17 * 525) % 3329 == 2267);
    } else if e == 137 {
        assert((17 * 2267) % 3329 == 1920);
    } else if e == 138 {
        assert((17 * 1920) % 3329 == 2679);
    } else if e == 139 {
        assert((17 * 2679) % 3329 == 2266);
    } else if e == 140 {
        assert((17 * 2266) % 3329 == 1903);
    } else if e == 141 {
        assert((17 * 1903) % 3329 == 2390);
    } else if e == 142 {
        assert((17 * 2390) % 3329 == 682);
    } else if e == 143 {
        assert((17 * 682) % 3329 == 1607);
    } else if e == 144 {
        assert((17 * 1607) % 3329 == 687);
    } else if e == 145 {
        assert((17 * 687) % 3329 == 1692);
    } else if e == 146 {
        assert((17 * 1692) % 3329 == 2132);
    } else if e == 147 {
        assert((17 * 2132) % 3329 == 2954);
    } else if e == 148 {
        assert((17 * 2954) % 3329 == 283);
    } else if e == 149 {
        assert((17 * 283) % 3329 == 1482);
    } else if e == 150 {
        assert((17 * 1482) % 3329 == 1891);
    } else if e == 151 {
        assert((17 * 1891) % 3329 == 2186);
    } else if e == 152 {
        assert((17 * 2186) % 3329 == 543);
    } else if e == 153 {
        assert((17 * 543) % 3329 == 2573);
    } else if e == 154 {
        assert((17 * 2573) % 3329 == 464);
    } else if e == 155 {
        assert((17 * 464) % 3329 == 1230);
    } else if e == 156 {
        assert((17 * 1230) % 3329 == 936);
    } else if e == 157 {
        assert((17 * 936) % 3329 == 2596);
    } else if e == 158 {
        assert((17 * 2596) % 3329 == 855);
    } else if e == 159 {
        assert((17 * 855) % 3329 == 1219);
    } else if e == 160 {
        assert((17 * 1219) % 3329 == 749);
    } else if e == 161 {
        assert((17 * 749) % 3329 == 2746);
    } else if e == 162 {
        assert((17 * 2746) % 3329 == 76);
    } else if e == 163 {
        assert((17 * 76) % 3329 == 1292);
    } else if e == 164 {
        assert((17 * 1292) % 3329 == 1990);
    } else if e == 165 {
        assert((17 * 1990) % 3329 == 540);
    } else if e == 166 {
        assert((17 * 540) % 3329 == 2522);
    } else if e == 167 {
        assert((17 * 2522) % 3329 == 2926);
    } else if e == 168 {
        assert((17 * 2926) % 3329 == 3136);
    } else if e == 169 {
        assert((17 * 3136) % 3329 == 48);
    } else if e == 170 {
        assert((17 * 48) % 3329 == 816);
    } else if e == 171 {
        assert((17 * 816) % 3329 == 556);
    } else if e == 172 {
        assert((17 * 556) % 3329 == 2794);
    } else if e == 173 {
        assert((17 * 2794) % 3329 == 892);
    } else if e == 174 {
        assert((17 * 892) % 3329 == 1848);
    } else if e == 175 {
        assert((17 * 1848) % 3329 == 1455);
    } else if e == 176 {
        assert((17 * 1455) % 3329 == 1432);
    } else if e == 177 {
        assert((17 * 1432) % 3329 == 1041);
    } else if e == 178 {
        assert((17 * 1041) % 3329 == 1052);
    } else if e == 179 {
        assert((17 * 1052) % 3329 == 1239);
    } else if e == 180 {
        assert((17 * 1239) % 3329 == 1089);
    } else if e == 181 {
        assert((17 * 1089) % 3329 == 1868);
    } else if e == 182 {
        assert((17 * 1868) % 3329 == 1795);
    } else if e == 183 {
        assert((17 * 1795) % 3329 == 554);
    } else if e == 184 {
        assert((17 * 554) % 3329 == 2760);
    } else if e == 185 {
        assert((17 * 2760) % 3329 == 314);
    } else if e == 186 {
        assert((17 * 314) % 3329 == 2009);
    } else if e == 187 {
        assert((17 * 2009) % 3329 == 863);
    } else if e == 188 {
        assert((17 * 863) % 3329 == 1355);
    } else if e == 189 {
        assert((17 * 1355) % 3329 == 3061);
    } else if e == 190 {
        assert((17 * 3061) % 3329 == 2102);
    } else if e == 191 {
        assert((17 * 2102) % 3329 == 2444);
    } else if e == 192 {
        assert((17 * 2444) % 3329 == 1600);
    } else if e == 193 {
        assert((17 * 1600) % 3329 == 568);
    } else if e == 194 {
        assert((17 * 568) % 3329 == 2998);
    } else if e == 195 {
        assert((17 * 2998) % 3329 == 1031);
    } else if e == 196 {
        assert((17 * 1031) % 3329 == 882);
    } else if e == 197 {
        assert((17 * 882) % 3329 == 1678);
    } else if e == 198 {
        assert((17 * 1678) % 3329 == 1894);
    } else if e == 199 {
        assert((17 * 1894) % 3329 == 2237);
    } else if e == 200 {
        assert((17 * 2237) % 3329 == 1410);
    } else if e == 201 {
        assert((17 * 1410) % 3329 == 667);
    } else if e == 202 {
        assert((17 * 667) % 3329 == 1352);
    } else if e == 203 {
        assert((17 * 1352) % 3329 == 3010);
    } else if e == 204 {
        assert((17 * 3010) % 3329 == 1235);
    } else if e == 205 {
        assert((17 * 1235) % 3329 == 1021);
    } else if e == 206 {
        assert((17 * 1021) % 3329 == 712);
    } else if e == 207 {
        assert((17 * 712) % 3329 == 2117);
    } else if e == 208 {
        assert((17 * 2117) % 3329 == 2699);
    } else if e == 209 {
        assert((17 * 2699) % 3329 == 2606);
    } else if e == 210 {
        assert((17 * 2606) % 3329 == 1025);
    } else if e == 211 {
        assert((17 * 1025) % 3329 == 780);
    } else if e == 212 {
        assert((17 * 780) % 3329 == 3273);
    } else if e == 213 {
        assert((17 * 3273) % 3329 == 2377);
    } else if e == 214 {
        assert((17 * 2377) % 3329 == 461);
    } else if e == 215 {
        assert((17 * 461) % 3329 == 1179);
    } else if e == 216 {
        assert((17 * 1179) % 3329 == 69);
    } else if e == 217 {
        assert((17 * 69) % 3329 == 1173);
    } else if e == 218 {
        assert((17 * 1173) % 3329 == 3296);
    } else if e == 219 {
        assert((17 * 3296) % 3329 == 2768);
    } else if e == 220 {
        assert((17 * 2768) % 3329 == 450);
    } else if e == 221 {
        assert((17 * 450) % 3329 == 992);
    } else if e == 222 {
        assert((17 * 992) % 3329 == 219);
    } else if e == 223 {
        assert((17 * 219) % 3329 == 394);
    } else if e == 224 {
        assert((17 * 394) % 3329 == 40);
    } else if e == 225 {
        assert((17 * 40) % 3329 == 680);
    } else if e == 226 {
        assert((17 * 680) % 3329 == 1573);
    } else if e == 227 {
        assert((17 * 1573) % 3329 == 109);
    } else if e == 228 {
        assert((17 * 109) % 3329 == 1853);
    } else if e == 229 {
        assert((17 * 1853) % 3329 == 1540);
    } else if e == 230 {
        assert((17 * 1540) % 3329 == 2877);
    } else if e == 231 {
        assert((17 * 2877) % 3329 == 2303);
    } else if e == 232 {
        assert((17 * 2303) % 3329 == 2532);
    } else if e == 233 {
        assert((17 * 2532) % 3329 == 3096);
    } else if e == 234 {
        assert((17 * 3096) % 3329 == 2697);
    } else if e == 235 {
        assert((17 * 2697) % 3329 == 2572);
    } else if e == 236 {
        assert((17 * 2572) % 3329 == 447);
    } else if e == 237 {
        assert((17 * 447) % 3329 == 941);
    } else if e == 238 {
        assert((17 * 941) % 3329 == 2681);
    } else if e == 239 {
        assert((17 * 2681) % 3329 == 2300);
    } else if e == 240 {
        assert((17 * 2300) % 3329 == 2481);
    } else if e == 241 {
        assert((17 * 2481) % 3329 == 2229);
    } else if e == 242 {
        assert((17 * 2229) % 3329 == 1274);
    } else if e == 243 {
        assert((17 * 1274) % 3329 == 1684);
    } else if e == 244 {
        assert((17 * 1684) % 3329 == 1996);
    } else if e == 245 {
        assert((17 * 1996) % 3329 == 642);
    } else if e == 246 {
        assert((17 * 642) % 3329 == 927);
    } else if e == 247 {
        assert((17 * 927) % 3329 == 2443);
    } else if e == 248 {
        assert((17 * 2443) % 3329 == 1583);
    } else if e == 249 {
        assert((17 * 1583) % 3329 == 279);
    } else if e == 250 {
        assert((17 * 279) % 3329 == 1414);
    } else if e == 251 {
        assert((17 * 1414) % 3329 == 735);
    } else if e == 252 {
        assert((17 * 735) % 3329 == 2508);
    } else if e == 253 {
        assert((17 * 2508) % 3329 == 2688);
    } else if e == 254 {
        assert((17 * 2688) % 3329 == 2419);
    } else if e == 255 {
        assert((17 * 2419) % 3329 == 1175);
    }
}

/// The table of powers holds the powers of 17 modulo `q`.
pub proof fn lemma_pow17(e: nat)
    requires
        e < 256,
    ensures
        pow17(e as int) == pow(17, e) % 3329,
    decreases e,
{
    if e == 0 {
        lemma_pow0(17);
    } else {
        lemma_pow17((e - 1) as nat);
        lemma_pow_adds(17, 1, (e - 1) as nat);
        lemma_pow1(17);
        lemma_mul_mod_noop_right(17, pow(17, (e - 1) as nat), 3329);
        lemma_pow17_step(e as int);
    }
}

/// Each twiddle factor is 17 to the bit reversal of its index, modulo `q`.
pub proof fn lemma_zeta_power_cases(i: int)
    requires
        0 <= i < 128,
    ensures
        zeta(i) == pow(17, bit_reverse_7(i) as nat) % 3329,
{
    lemma_zeta_values(i);
    if i == 0 {
        assert(bit_reverse_7(0) == 0);
        lemma_pow17(0);
        assert(pow17(0) == 1);
    } else if i == 1 {
        assert(bit_reverse_7(1) == 64);
        lemma_pow17(64);
        assert(pow17(64) == 1729);
    } else if i == 2 {
        assert(bit_reverse_7(2) == 32);
        lemma_pow17(32);
        assert(pow17(32) == 2580);
    } else if i == 3 {
        assert(bit_reverse_7(3) == 96);
        lemma_pow17(96);
        assert(pow17(96) == 3289);
    } else if i == 4 {
        assert(bit_reverse_7(4) == 16);
        lemma_pow17(16);
        assert(pow17(16) == 2642);
    } else if i == 5 {
        assert(bit_reverse_7(5) == 80);
        lemma_pow17(80);
        assert(pow17(80) == 630);
    } else if i == 6 {
        assert(bit_reverse_7(6) == 48);
        lemma_pow17(48);
        assert(pow17(48) == 1897);
    } else if i == 7 {
        assert(bit_reverse_7(7) == 112);
        lemma_pow17(112);
        assert(pow17(112) == 848);
    } else if i == 8 {
        assert(bit_reverse_7(8) == 8);
        lemma_pow17(8);
        assert(pow17(8) == 1062);
    } else if i == 9 {
        assert(bit_reverse_7(9) == 72);
        lemma_pow17(72);
        assert(pow17(72) == 1919);
    } else if i == 10 {
        assert(bit_reverse_7(10) == 40);
        lemma_pow17(40);
        assert(pow17(40) == 193);
    } else if i == 11 {
        assert(bit_reverse_7(11) == 104);
        lemma_pow17(104);
        assert(pow17(104) == 797);
    } else if i == 12 {
        assert(bit_reverse_7(12) == 24);
        lemma_pow17(24);
        assert(pow17(24) == 2786);
    } else if i == 13 {
        assert(bit_reverse_7(13) == 88);
        lemma_pow17(88);
        assert(pow17(88) == 3260);
    } else if i == 14 {
        assert(bit_reverse_7(14) == 56);
        lemma_pow17(56);
        assert(pow17(56) == 569);
    } else if i == 15 {
        assert(bit_reverse_7(15) == 120);
        lemma_pow17(120);
        assert(pow17(120) == 1746);
    } else if i == 16 {
        assert(bit_reverse_7(16) == 4);
        lemma_pow17(4);
        assert(pow17(4) == 296);
    } else if i == 17 {
        assert(bit_reverse_7(17) == 68);
        lemma_pow17(68);
        assert(pow17(68) == 2447);
    } else if i == 18 {
        assert(bit_reverse_7(18) == 36);
        lemma_pow17(36);
        assert(pow17(36) == 1339);
    } else if i == 19 {
        assert(bit_reverse_7(19) == 100);
        lemma_pow17(100);
        assert(pow17(100) == 1476);
    } else if i == 20 {
        assert(bit_reverse_7(20) == 20);
        lemma_pow17(20);
        assert(pow17(20) == 3046);
    } else if i == 21 {
        assert(bit_reverse_7(21) == 84);
        lemma_pow17(84);
        assert(pow17(84) == 56);
    } else if i == 22 {
        assert(bit_reverse_7(22) == 52);
        lemma_pow17(52);
        assert(pow17(52) == 2240);
    } else if i == 23 {
        assert(bit_reverse_7(23) == 116);
        lemma_pow17(116);
        assert(pow17(116) == 1333);
    } else if i == 24 {
        assert(bit_reverse_7(24) == 12);
        lemma_pow17(12);
        assert(pow17(12) == 1426);
    } else if i == 25 {
        assert(bit_reverse_7(25) == 76);
        lemma_pow17(76);
        assert(pow17(76) == 2094);
    } else if i == 26 {
        assert(bit_reverse_7(26) == 44);
        lemma_pow17(44);
        assert(pow17(44) == 535);
    } else if i == 27 {
        assert(bit_reverse_7(27) == 108);
        lemma_pow17(108);
        assert(pow17(108) == 2882);
    } else if i == 28 {
        assert(bit_reverse_7(28) == 28);
        lemma_pow17(28);
        assert(pow17(28) == 2393);
    } else if i == 29 {
        assert(bit_reverse_7(29) == 92);
        lemma_pow17(92);
        assert(pow17(92) == 2879);
    } else if i == 30 {
        assert(bit_reverse_7(30) == 60);
        lemma_pow17(60);
        assert(pow17(60) == 1974);
    } else if i == 31 {
        assert(bit_reverse_7(31) == 124);
        lemma_pow17(124);
        assert(pow17(124) == 821);
    } else if i == 32 {
        assert(bit_reverse_7(32) == 2);
        lemma_pow17(2);
        assert(pow17(2) == 289);
    } else if i == 33 {
        assert(bit_reverse_7(33) == 66);
        lemma_pow17(66);
        assert(pow17(66) == 331);
    } else if i == 34 {
        assert(bit_reverse_7(34) == 34);
        lemma_pow17(34);
        assert(pow17(34) == 3253);
    } else if i == 35 {
        assert(bit_reverse_7(35) == 98);
        lemma_pow17(98);
        assert(pow17(98) == 1756);
    } else if i == 36 {
        assert(bit_reverse_7(36) == 18);
        lemma_pow17(18);
        assert(pow17(18) == 1197);
    } else if i == 37 {
        assert(bit_reverse_7(37) == 82);
        lemma_pow17(82);
        assert(pow17(82) == 2304);
    } else if i == 38 {
        assert(bit_reverse_7(38) == 50);
        lemma_pow17(50);
        assert(pow17(50) == 2277);
    } else if i == 39 {
        assert(bit_reverse_7(39) == 114);
        lemma_pow17(114);
        assert(pow17(114) == 2055);
    } else if i == 40 {
        assert(bit_reverse_7(40) == 10);
        lemma_pow17(10);
        assert(pow17(10) == 650);
    } else if i == 41 {
        assert(bit_reverse_7(41) == 74);
        lemma_pow17(74);
        assert(pow17(74) == 1977);
    } else if i == 42 {
        assert(bit_reverse_7(42) == 42);
        lemma_pow17(42);
        assert(pow17(42) == 2513);
    } else if i == 43 {
        assert(bit_reverse_7(43) == 106);
        lemma_pow17(106);
        assert(pow17(106) == 632);
    } else if i == 44 {
        assert(bit_reverse_7(44) == 26);
        lemma_pow17(26);
        assert(pow17(26) == 2865);
    } else if i == 45 {
        assert(bit_reverse_7(45) == 90);
        lemma_pow17(90);
        assert(pow17(90) == 33);
    } else if i == 46 {
        assert(bit_reverse_7(46) == 58);
        lemma_pow17(58);
        assert(pow17(58) == 1320);
    } else if i == 47 {
        assert(bit_reverse_7(47) == 122);
        lemma_pow17(122);
        assert(pow17(122) == 1915);
    } else if i == 48 {
        assert(bit_reverse_7(48) == 6);
        lemma_pow17(6);
        assert(pow17(6) == 2319);
    } else if i == 49 {
        assert(bit_reverse_7(49) == 70);
        lemma_pow17(70);
        assert(pow17(70) == 1435);
    } else if i == 50 {
        assert(bit_reverse_7(50) == 38);
        lemma_pow17(38);
        assert(pow17(38) == 807);
    } else if i == 51 {
        assert(bit_reverse_7(51) == 102);
        lemma_pow17(102);
        assert(pow17(102) == 452);
    } else if i == 52 {
        assert(bit_reverse_7(52) == 22);
        lemma_pow17(22);
        assert(pow17(22) == 1438);
    } else if i == 53 {
        assert(bit_reverse_7(53) == 86);
        lemma_pow17(86);
        assert(pow17(86) == 2868);
    } else if i == 54 {
        assert(bit_reverse_7(54) == 54);
        lemma_pow17(54);
        assert(pow17(54) == 1534);
    } else if i == 55 {
        assert(bit_reverse_7(55) == 118);
        lemma_pow17(118);
        assert(pow17(118) == 2402);
    } else if i == 56 {
        assert(bit_reverse_7(56) == 14);
        lemma_pow17(14);
        assert(pow17(14) == 2647);
    } else if i == 57 {
        assert(bit_reverse_7(57) == 78);
        lemma_pow17(78);
        assert(pow17(78) == 2617);
    } else if i == 58 {
        assert(bit_reverse_7(58) == 46);
        lemma_pow17(46);
        assert(pow17(46) == 1481);
    } else if i == 59 {
        assert(bit_reverse_7(59) == 110);
        lemma_pow17(110);
        assert(pow17(110) == 648);
    } else if i == 60 {
        assert(bit_reverse_7(60) == 30);
        lemma_pow17(30);
        assert(pow17(30) == 2474);
    } else if i == 61 {
        assert(bit_reverse_7(61) == 94);
        lemma_pow17(94);
        assert(pow17(94) == 3110);
    } else if i == 62 {
        assert(bit_reverse_7(62) == 62);
        lemma_pow17(62);
        assert(pow17(62) == 1227);
    } else if i == 63 {
        assert(bit_reverse_7(63) == 126);
        lemma_pow17(126);
        assert(pow17(126) == 910);
    } else if i == 64 {
        assert(bit_reverse_7(64) == 1);
        lemma_pow17(1);
        assert(pow17(1) == 17);
    } else if i == 65 {
        assert(bit_reverse_7(65) == 65);
        lemma_pow17(65);
        assert(pow17(65) == 2761);
    } else if i == 66 {
        assert(bit_reverse_7(66) == 33);
        lemma_pow17(33);
        assert(pow17(33) == 583);
    } else if i == 67 {
        assert(bit_reverse_7(67) == 97);
        lemma_pow17(97);
        assert(pow17(97) == 2649);
    } else if i == 68 {
        assert(bit_reverse_7(68) == 17);
        lemma_pow17(17);
        assert(pow17(17) == 1637);
    } else if i == 69 {
        assert(bit_reverse_7(69) == 81);
        lemma_pow17(81);
        assert(pow17(81) == 723);
    } else if i == 70 {
        assert(bit_reverse_7(70) == 49);
        lemma_pow17(49);
        assert(pow17(49) == 2288);
    } else if i == 71 {
        assert(bit_reverse_7(71) == 113);
        lemma_pow17(113);
        assert(pow17(113) == 1100);
    } else if i == 72 {
        assert(bit_reverse_7(72) == 9);
        lemma_pow17(9);
        assert(pow17(9) == 1409);
    } else if i == 73 {
        assert(bit_reverse_7(73) == 73);
        lemma_pow17(73);
        assert(pow17(73) == 2662);
    } else if i == 74 {
        assert(bit_reverse_7(74) == 41);
        lemma_pow17(41);
        assert(pow17(41) == 3281);
    } else if i == 75 {
        assert(bit_reverse_7(75) == 105);
        lemma_pow17(105);
        assert(pow17(105) == 233);
    } else if i == 76 {
        assert(bit_reverse_7(76) == 25);
        lemma_pow17(25);
        assert(pow17(25) == 756);
    } else if i == 77 {
        assert(bit_reverse_7(77) == 89);
        lemma_pow17(89);
        assert(pow17(89) == 2156);
    } else if i == 78 {
        assert(bit_reverse_7(78) == 57);
        lemma_pow17(57);
        assert(pow17(57) == 3015);
    } else if i == 79 {
        assert(bit_reverse_7(79) == 121);
        lemma_pow17(121);
        assert(pow17(121) == 3050);
    } else if i == 80 {
        assert(bit_reverse_7(80) == 5);
        lemma_pow17(5);
        assert(pow17(5) == 1703);
    } else if i == 81 {
        assert(bit_reverse_7(81) == 69);
        lemma_pow17(69);
        assert(pow17(69) == 1651);
    } else if i == 82 {
        assert(bit_reverse_7(82) == 37);
        lemma_pow17(37);
        assert(pow17(37) == 2789);
    } else if i == 83 {
        assert(bit_reverse_7(83) == 101);
        lemma_pow17(101);
        assert(pow17(101) == 1789);
    } else if i == 84 {
        assert(bit_reverse_7(84) == 21);
        lemma_pow17(21);
        assert(pow17(21) == 1847);
    } else if i == 85 {
        assert(bit_reverse_7(85) == 85);
        lemma_pow17(85);
        assert(pow17(85) == 952);
    } else if i == 86 {
        assert(bit_reverse_7(86) == 53);
        lemma_pow17(53);
        assert(pow17(53) == 1461);
    } else if i == 87 {
        assert(bit_reverse_7(87) == 117);
        lemma_pow17(117);
        assert(pow17(117) == 2687);
    } else if i == 88 {
        assert(bit_reverse_7(88) == 13);
        lemma_pow17(13);
        assert(pow17(13) == 939);
    } else if i == 89 {
        assert(bit_reverse_7(89) == 77);
        lemma_pow17(77);
        assert(pow17(77) == 2308);
    } else if i == 90 {
        assert(bit_reverse_7(90) == 45);
        lemma_pow17(45);
        assert(pow17(45) == 2437);
    } else if i == 91 {
        assert(bit_reverse_7(91) == 109);
        lemma_pow17(109);
        assert(pow17(109) == 2388);
    } else if i == 92 {
        assert(bit_reverse_7(92) == 29);
        lemma_pow17(29);
        assert(pow17(29) == 733);
    } else if i == 93 {
        assert(bit_reverse_7(93) == 93);
        lemma_pow17(93);
        assert(pow17(93) == 2337);
    } else if i == 94 {
        assert(bit_reverse_7(94) == 61);
        lemma_pow17(61);
        assert(pow17(61) == 268);
    } else if i == 95 {
        assert(bit_reverse_7(95) == 125);
        lemma_pow17(125);
        assert(pow17(125) == 641);
    } else if i == 96 {
        assert(bit_reverse_7(96) == 3);
        lemma_pow17(3);
        assert(pow17(3) == 1584);
    } else if i == 97 {
        assert(bit_reverse_7(97) == 67);
        lemma_pow17(67);
        assert(pow17(67) == 2298);
    } else if i == 98 {
        assert(bit_reverse_7(98) == 35);
        lemma_pow17(35);
        assert(pow17(35) == 2037);
    } else if i == 99 {
        assert(bit_reverse_7(99) == 99);
        lemma_pow17(99);
        assert(pow17(99) == 3220);
    } else if i == 100 {
        assert(bit_reverse_7(100) == 19);
        lemma_pow17(19);
        assert(pow17(19) == 375);
    } else if i == 101 {
        assert(bit_reverse_7(101) == 83);
        lemma_pow17(83);
        assert(pow17(83) == 2549);
    } else if i == 102 {
        assert(bit_reverse_7(102) == 51);
        lemma_pow17(51);
        assert(pow17(51) == 2090);
    } else if i == 103 {
        assert(bit_reverse_7(103) == 115);
        lemma_pow17(115);
        assert(pow17(115) == 1645);
    } else if i == 104 {
        assert(bit_reverse_7(104) == 11);
        lemma_pow17(11);
        assert(pow17(11) == 1063);
    } else if i == 105 {
        assert(bit_reverse_7(105) == 75);
        lemma_pow17(75);
        assert(pow17(75) == 319);
    } else if i == 106 {
        assert(bit_reverse_7(106) == 43);
        lemma_pow17(43);
        assert(pow17(43) == 2773);
    } else if i == 107 {
        assert(bit_reverse_7(107) == 107);
        lemma_pow17(107);
        assert(pow17(107) == 757);
    } else if i == 108 {
        assert(bit_reverse_7(108) == 27);
        lemma_pow17(27);
        assert(pow17(27) == 2099);
    } else if i == 109 {
        assert(bit_reverse_7(109) == 91);
        lemma_pow17(91);
        assert(pow17(91) == 561);
    } else if i == 110 {
        assert(bit_reverse_7(110) == 59);
        lemma_pow17(59);
        assert(pow17(59) == 2466);
    } else if i == 111 {
        assert(bit_reverse_7(111) == 123);
        lemma_pow17(123);
        assert(pow17(123) == 2594);
    } else if i == 112 {
        assert(bit_reverse_7(112) == 7);
        lemma_pow17(7);
        assert(pow17(7) == 2804);
    } else if i == 113 {
        assert(bit_reverse_7(113) == 71);
        lemma_pow17(71);
        assert(pow17(71) == 1092);
    } else if i == 114 {
        assert(bit_reverse_7(114) == 39);
        lemma_pow17(39);
        assert(pow17(39) == 403);
    } else if i == 115 {
        assert(bit_reverse_7(115) == 103);
        lemma_pow17(103);
        assert(pow17(103) == 1026);
    } else if i == 116 {
        assert(bit_reverse_7(116) == 23);
        lemma_pow17(23);
        assert(pow17(23) == 1143);
    } else if i == 117 {
        assert(bit_reverse_7(117) == 87);
        lemma_pow17(87);
        assert(pow17(87) == 2150);
    } else if i == 118 {
        assert(bit_reverse_7(118) == 55);
        lemma_pow17(55);
        assert(pow17(55) == 2775);
    } else if i == 119 {
        assert(bit_reverse_7(119) == 119);
        lemma_pow17(119);
        assert(pow17(119) == 886);
    } else if i == 120 {
        assert(bit_reverse_7(120) == 15);
        lemma_pow17(15);
        assert(pow17(15) == 1722);
    } else if i == 121 {
        assert(bit_reverse_7(121) == 79);
        lemma_pow17(79);
        assert(pow17(79) == 1212);
    } else if i == 122 {
        assert(bit_reverse_7(122) == 47);
        lemma_pow17(47);
        assert(pow17(47) == 1874);
    } else if i == 123 {
        assert(bit_reverse_7(123) == 111);
        lemma_pow17(111);
        assert(pow17(111) == 1029);
    } else if i == 124 {
        assert(bit_reverse_7(124) == 31);
        lemma_pow17(31);
        assert(pow17(31) == 2110);
    } else if i == 125 {
        assert(bit_reverse_7(125) == 95);
        lemma_pow17(95);
        assert(pow17(95) == 2935);
    } else if i == 126 {
        assert(bit_reverse_7(126) == 63);
        lemma_pow17(63);
        assert(pow17(63) == 885);
    } else if i == 127 {
        assert(bit_reverse_7(127) == 127);
        lemma_pow17(127);
        assert(pow17(127) == 2154);
    }
}

/// Each leaf constant is 17 to twice the bit reversal of its index plus one,
/// modulo `q`.
pub proof fn lemma_gamma_power_cases(i: int)
    requires
        0 <= i < 128,
    ensures
        gamma(i) == pow(17, (2 * bit_reverse_7(i) + 1) as nat) % 3329,
{
    lemma_gamma_values(i);
    if i == 0 {
        assert(bit_reverse_7(0) == 0);
        lemma_pow17(1);
        assert(pow17(1) == 17);
    } else if i == 1 {
        assert(bit_reverse_7(1) == 64);
        lemma_pow17(129);
        assert(pow17(129) == 3312);
    } else if i == 2 {
        assert(bit_reverse_7(2) == 32);
        lemma_pow17(65);
        assert(pow17(65) == 2761);
    } else if i == 3 {
        assert(bit_reverse_7(3) == 96);
        lemma_pow17(193);
        assert(pow17(193) == 568);
    } else if i == 4 {
        assert(bit_reverse_7(4) == 16);
        lemma_pow17(33);
        assert(pow17(33) == 583);
    } else if i == 5 {
        assert(bit_reverse_7(5) == 80);
        lemma_pow17(161);
        assert(pow17(161) == 2746);
    } else if i == 6 {
        assert(bit_reverse_7(6) == 48);
        lemma_pow17(97);
        assert(pow17(97) == 2649);
    } else if i == 7 {
        assert(bit_reverse_7(7) == 112);
        lemma_pow17(225);
        assert(pow17(225) == 680);
    } else if i == 8 {
        assert(bit_reverse_7(8) == 8);
        lemma_pow17(17);
        assert(pow17(17) == 1637);
    } else if i == 9 {
        assert(bit_reverse_7(9) == 72);
        lemma_pow17(145);
        assert(pow17(145) == 1692);
    } else if i == 10 {
        assert(bit_reverse_7(10) == 40);
        lemma_pow17(81);
        assert(pow17(81) == 723);
    } else if i == 11 {
        assert(bit_reverse_7(11) == 104);
        lemma_pow17(209);
        assert(pow17(209) == 2606);
    } else if i == 12 {
        assert(bit_reverse_7(12) == 24);
        lemma_pow17(49);
        assert(pow17(49) == 2288);
    } else if i == 13 {
        assert(bit_reverse_7(13) == 88);
        lemma_pow17(177);
        assert(pow17(177) == 1041);
    } else if i == 14 {
        assert(bit_reverse_7(14) == 56);
        lemma_pow17(113);
        assert(pow17(113) == 1100);
    } else if i == 15 {
        assert(bit_reverse_7(15) == 120);
        lemma_pow17(241);
        assert(pow17(241) == 2229);
    } else if i == 16 {
        assert(bit_reverse_7(16) == 4);
        lemma_pow17(9);
        assert(pow17(9) == 1409);
    } else if i == 17 {
        assert(bit_reverse_7(17) == 68);
        lemma_pow17(137);
        assert(pow17(137) == 1920);
    } else if i == 18 {
        assert(bit_reverse_7(18) == 36);
        lemma_pow17(73);
        assert(pow17(73) == 2662);
    } else if i == 19 {
        assert(bit_reverse_7(19) == 100);
        lemma_pow17(201);
        assert(pow17(201) == 667);
    } else if i == 20 {
        assert(bit_reverse_7(20) == 20);
        lemma_pow17(41);
        assert(pow17(41) == 3281);
    } else if i == 21 {
        assert(bit_reverse_7(21) == 84);
        lemma_pow17(169);
        assert(pow17(169) == 48);
    } else if i == 22 {
        assert(bit_reverse_7(22) == 52);
        lemma_pow17(105);
        assert(pow17(105) == 233);
    } else if i == 23 {
        assert(bit_reverse_7(23) == 116);
        lemma_pow17(233);
        assert(pow17(233) == 3096);
    } else if i == 24 {
        assert(bit_reverse_7(24) == 12);
        lemma_pow17(25);
        assert(pow17(25) == 756);
    } else if i == 25 {
        assert(bit_reverse_7(25) == 76);
        lemma_pow17(153);
        assert(pow17(153) == 2573);
    } else if i == 26 {
        assert(bit_reverse_7(26) == 44);
        lemma_pow17(89);
        assert(pow17(89) == 2156);
    } else if i == 27 {
        assert(bit_reverse_7(27) == 108);
        lemma_pow17(217);
        assert(pow17(217) == 1173);
    } else if i == 28 {
        assert(bit_reverse_7(28) == 28);
        lemma_pow17(57);
        assert(pow17(57) == 3015);
    } else if i == 29 {
        assert(bit_reverse_7(29) == 92);
        lemma_pow17(185);
        assert(pow17(185) == 314);
    } else if i == 30 {
        assert(bit_reverse_7(30) == 60);
        lemma_pow17(121);
        assert(pow17(121) == 3050);
    } else if i == 31 {
        assert(bit_reverse_7(31) == 124);
        lemma_pow17(249);
        assert(pow17(249) == 279);
    } else if i == 32 {
        assert(bit_reverse_7(32) == 2);
        lemma_pow17(5);
        assert(pow17(5) == 1703);
    } else if i == 33 {
        assert(bit_reverse_7(33) == 66);
        lemma_pow17(133);
        assert(pow17(133) == 1626);
    } else if i == 34 {
        assert(bit_reverse_7(34) == 34);
        lemma_pow17(69);
        assert(pow17(69) == 1651);
    } else if i == 35 {
        assert(bit_reverse_7(35) == 98);
        lemma_pow17(197);
        assert(pow17(197) == 1678);
    } else if i == 36 {
        assert(bit_reverse_7(36) == 18);
        lemma_pow17(37);
        assert(pow17(37) == 2789);
    } else if i == 37 {
        assert(bit_reverse_7(37) == 82);
        lemma_pow17(165);
        assert(pow17(165) == 540);
    } else if i == 38 {
        assert(bit_reverse_7(38) == 50);
        lemma_pow17(101);
        assert(pow17(101) == 1789);
    } else if i == 39 {
        assert(bit_reverse_7(39) == 114);
        lemma_pow17(229);
        assert(pow17(229) == 1540);
    } else if i == 40 {
        assert(bit_reverse_7(40) == 10);
        lemma_pow17(21);
        assert(pow17(21) == 1847);
    } else if i == 41 {
        assert(bit_reverse_7(41) == 74);
        lemma_pow17(149);
        assert(pow17(149) == 1482);
    } else if i == 42 {
        assert(bit_reverse_7(42) == 42);
        lemma_pow17(85);
        assert(pow17(85) == 952);
    } else if i == 43 {
        assert(bit_reverse_7(43) == 106);
        lemma_pow17(213);
        assert(pow17(213) == 2377);
    } else if i == 44 {
        assert(bit_reverse_7(44) == 26);
        lemma_pow17(53);
        assert(pow17(53) == 1461);
    } else if i == 45 {
        assert(bit_reverse_7(45) == 90);
        lemma_pow17(181);
        assert(pow17(181) == 1868);
    } else if i == 46 {
        assert(bit_reverse_7(46) == 58);
        lemma_pow17(117);
        assert(pow17(117) == 2687);
    } else if i == 47 {
        assert(bit_reverse_7(47) == 122);
        lemma_pow17(245);
        assert(pow17(245) == 642);
    } else if i == 48 {
        assert(bit_reverse_7(48) == 6);
        lemma_pow17(13);
        assert(pow17(13) == 939);
    } else if i == 49 {
        assert(bit_reverse_7(49) == 70);
        lemma_pow17(141);
        assert(pow17(141) == 2390);
    } else if i == 50 {
        assert(bit_reverse_7(50) == 38);
        lemma_pow17(77);
        assert(pow17(77) == 2308);
    } else if i == 51 {
        assert(bit_reverse_7(51) == 102);
        lemma_pow17(205);
        assert(pow17(205) == 1021);
    } else if i == 52 {
        assert(bit_reverse_7(52) == 22);
        lemma_pow17(45);
        assert(pow17(45) == 2437);
    } else if i == 53 {
        assert(bit_reverse_7(53) == 86);
        lemma_pow17(173);
        assert(pow17(173) == 892);
    } else if i == 54 {
        assert(bit_reverse_7(54) == 54);
        lemma_pow17(109);
        assert(pow17(109) == 2388);
    } else if i == 55 {
        assert(bit_reverse_7(55) == 118);
        lemma_pow17(237);
        assert(pow17(237) == 941);
    } else if i == 56 {
        assert(bit_reverse_7(56) == 14);
        lemma_pow17(29);
        assert(pow17(29) == 733);
    } else if i == 57 {
        assert(bit_reverse_7(57) == 78);
        lemma_pow17(157);
        assert(pow17(157) == 2596);
    } else if i == 58 {
        assert(bit_reverse_7(58) == 46);
        lemma_pow17(93);
        assert(pow17(93) == 2337);
    } else if i == 59 {
        assert(bit_reverse_7(59) == 110);
        lemma_pow17(221);
        assert(pow17(221) == 992);
    } else if i == 60 {
        assert(bit_reverse_7(60) == 30);
        lemma_pow17(61);
        assert(pow17(61) == 268);
    } else if i == 61 {
        assert(bit_reverse_7(61) == 94);
        lemma_pow17(189);
        assert(pow17(189) == 3061);
    } else if i == 62 {
        assert(bit_reverse_7(62) == 62);
        lemma_pow17(125);
        assert(pow17(125) == 641);
    } else if i == 63 {
        assert(bit_reverse_7(63) == 126);
        lemma_pow17(253);
        assert(pow17(253) == 2688);
    } else if i == 64 {
        assert(bit_reverse_7(64) == 1);
        lemma_pow17(3);
        assert(pow17(3) == 1584);
    } else if i == 65 {
        assert(bit_reverse_7(65) == 65);
        lemma_pow17(131);
        assert(pow17(131) == 1745);
    } else if i == 66 {
        assert(bit_reverse_7(66) == 33);
        lemma_pow17(67);
        assert(pow17(67) == 2298);
    } else if i == 67 {
        assert(bit_reverse_7(67) == 97);
        lemma_pow17(195);
        assert(pow17(195) == 1031);
    } else if i == 68 {
        assert(bit_reverse_7(68) == 17);
        lemma_pow17(35);
        assert(pow17(35) == 2037);
    } else if i == 69 {
        assert(bit_reverse_7(69) == 81);
        lemma_pow17(163);
        assert(pow17(163) == 1292);
    } else if i == 70 {
        assert(bit_reverse_7(70) == 49);
        lemma_pow17(99);
        assert(pow17(99) == 3220);
    } else if i == 71 {
        assert(bit_reverse_7(71) == 113);
        lemma_pow17(227);
        assert(pow17(227) == 109);
    } else if i == 72 {
        assert(bit_reverse_7(72) == 9);
        lemma_pow17(19);
        assert(pow17(19) == 375);
    } else if i == 73 {
        assert(bit_reverse_7(73) == 73);
        lemma_pow17(147);
        assert(pow17(147) == 2954);
    } else if i == 74 {
        assert(bit_reverse_7(74) == 41);
        lemma_pow17(83);
        assert(pow17(83) == 2549);
    } else if i == 75 {
        assert(bit_reverse_7(75) == 105);
        lemma_pow17(211);
        assert(pow17(211) == 780);
    } else if i == 76 {
        assert(bit_reverse_7(76) == 25);
        lemma_pow17(51);
        assert(pow17(51) == 2090);
    } else if i == 77 {
        assert(bit_reverse_7(77) == 89);
        lemma_pow17(179);
        assert(pow17(179) == 1239);
    } else if i == 78 {
        assert(bit_reverse_7(78) == 57);
        lemma_pow17(115);
        assert(pow17(115) == 1645);
    } else if i == 79 {
        assert(bit_reverse_7(79) == 121);
        lemma_pow17(243);
        assert(pow17(243) == 1684);
    } else if i == 80 {
        assert(bit_reverse_7(80) == 5);
        lemma_pow17(11);
        assert(pow17(11) == 1063);
    } else if i == 81 {
        assert(bit_reverse_7(81) == 69);
        lemma_pow17(139);
        assert(pow17(139) == 2266);
    } else if i == 82 {
        assert(bit_reverse_7(82) == 37);
        lemma_pow17(75);
        assert(pow17(75) == 319);
    } else if i == 83 {
        assert(bit_reverse_7(83) == 101);
        lemma_pow17(203);
        assert(pow17(203) == 3010);
    } else if i == 84 {
        assert(bit_reverse_7(84) == 21);
        lemma_pow17(43);
        assert(pow17(43) == 2773);
    } else if i == 85 {
        assert(bit_reverse_7(85) == 85);
        lemma_pow17(171);
        assert(pow17(171) == 556);
    } else if i == 86 {
        assert(bit_reverse_7(86) == 53);
        lemma_pow17(107);
        assert(pow17(107) == 757);
    } else if i == 87 {
        assert(bit_reverse_7(87) == 117);
        lemma_pow17(235);
        assert(pow17(235) == 2572);
    } else if i == 88 {
        assert(bit_reverse_7(88) == 13);
        lemma_pow17(27);
        assert(pow17(27) == 2099);
    } else if i == 89 {
        assert(bit_reverse_7(89) == 77);
        lemma_pow17(155);
        assert(pow17(155) == 1230);
    } else if i == 90 {
        assert(bit_reverse_7(90) == 45);
        lemma_pow17(91);
        assert(pow17(91) == 561);
    } else if i == 91 {
        assert(bit_reverse_7(91) == 109);
        lemma_pow17(219);
        assert(pow17(219) == 2768);
    } else if i == 92 {
        assert(bit_reverse_7(92) == 29);
        lemma_pow17(59);
        assert(pow17(59) == 2466);
    } else if i == 93 {
        assert(bit_reverse_7(93) == 93);
        lemma_pow17(187);
        assert(pow17(187) == 863);
    } else if i == 94 {
        assert(bit_reverse_7(94) == 61);
        lemma_pow17(123);
        assert(pow17(123) == 2594);
    } else if i == 95 {
        assert(bit_reverse_7(95) == 125);
        lemma_pow17(251);
        assert(pow17(251) == 735);
    } else if i == 96 {
        assert(bit_reverse_7(96) == 3);
        lemma_pow17(7);
        assert(pow17(7) == 2804);
    } else if i == 97 {
        assert(bit_reverse_7(97) == 67);
        lemma_pow17(135);
        assert(pow17(135) == 525);
    } else if i == 98 {
        assert(bit_reverse_7(98) == 35);
        lemma_pow17(71);
        assert(pow17(71) == 1092);
    } else if i == 99 {
        assert(bit_reverse_7(99) == 99);
        lemma_pow17(199);
        assert(pow17(199) == 2237);
    } else if i == 100 {
        assert(bit_reverse_7(100) == 19);
        lemma_pow17(39);
        assert(pow17(39) == 403);
    } else if i == 101 {
        assert(bit_reverse_7(101) == 83);
        lemma_pow17(167);
        assert(pow17(167) == 2926);
    } else if i == 102 {
        assert(bit_reverse_7(102) == 51);
        lemma_pow17(103);
        assert(pow17(103) == 1026);
    } else if i == 103 {
        assert(bit_reverse_7(103) == 115);
        lemma_pow17(231);
        assert(pow17(231) == 2303);
    } else if i == 104 {
        assert(bit_reverse_7(104) == 11);
        lemma_pow17(23);
        assert(pow17(23) == 1143);
    } else if i == 105 {
        assert(bit_reverse_7(105) == 75);
        lemma_pow17(151);
        assert(pow17(151) == 2186);
    } else if i == 106 {
        assert(bit_reverse_7(106) == 43);
        lemma_pow17(87);
        assert(pow17(87) == 2150);
    } else if i == 107 {
        assert(bit_reverse_7(107) == 107);
        lemma_pow17(215);
        assert(pow17(215) == 1179);
    } else if i == 108 {
        assert(bit_reverse_7(108) == 27);
        lemma_pow17(55);
        assert(pow17(55) == 2775);
    } else if i == 109 {
        assert(bit_reverse_7(109) == 91);
        lemma_pow17(183);
        assert(pow17(183) == 554);
    } else if i == 110 {
        assert(bit_reverse_7(110) == 59);
        lemma_pow17(119);
        assert(pow17(119) == 886);
    } else if i == 111 {
        assert(bit_reverse_7(111) == 123);
        lemma_pow17(247);
        assert(pow17(247) == 2443);
    } else if i == 112 {
        assert(bit_reverse_7(112) == 7);
        lemma_pow17(15);
        assert(pow17(15) == 1722);
    } else if i == 113 {
        assert(bit_reverse_7(113) == 71);
        lemma_pow17(143);
        assert(pow17(143) == 1607);
    } else if i == 114 {
        assert(bit_reverse_7(114) == 39);
        lemma_pow17(79);
        assert(pow17(79) == 1212);
    } else if i == 115 {
        assert(bit_reverse_7(115) == 103);
        lemma_pow17(207);
        assert(pow17(207) == 2117);
    } else if i == 116 {
        assert(bit_reverse_7(116) == 23);
        lemma_pow17(47);
        assert(pow17(47) == 1874);
    } else if i == 117 {
        assert(bit_reverse_7(117) == 87);
        lemma_pow17(175);
        assert(pow17(175) == 1455);
    } else if i == 118 {
        assert(bit_reverse_7(118) == 55);
        lemma_pow17(111);
        assert(pow17(111) == 1029);
    } else if i == 119 {
        assert(bit_reverse_7(119) == 119);
        lemma_pow17(239);
        assert(pow17(239) == 2300);
    } else if i == 120 {
        assert(bit_reverse_7(120) == 15);
        lemma_pow17(31);
        assert(pow17(31) == 2110);
    } else if i == 121 {
        assert(bit_reverse_7(121) == 79);
        lemma_pow17(159);
        assert(pow17(159) == 1219);
    } else if i == 122 {
        assert(bit_reverse_7(122) == 47);
        lemma_pow17(95);
        assert(pow17(95) == 2935);
    } else if i == 123 {
        assert(bit_reverse_7(123) == 111);
        lemma_pow17(223);
        assert(pow17(223) == 394);
    } else if i == 124 {
        assert(bit_reverse_7(124) == 31);
        lemma_pow17(63);
        assert(pow17(63) == 885);
    } else if i == 125 {
        assert(bit_reverse_7(125) == 95);
        lemma_pow17(191);
        assert(pow17(191) == 2444);
    } else if i == 126 {
        assert(bit_reverse_7(126) == 63);
        lemma_pow17(127);
        assert(pow17(127) == 2154);
    } else if i == 127 {
        assert(bit_reverse_7(127) == 127);
        lemma_pow17(255);
        assert(pow17(255) == 1175);
    }
}

} // verus!
