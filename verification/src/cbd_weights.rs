//! The weights of the centred binomial distribution: how many of the values
//! of `2 * eta` bits give each coefficient. Where the bytes are uniform, a
//! coefficient has the probability of its weight over the number of values.

use crate::sampling::{bit_count, cbd_count, cbd_value};
use vstd::arithmetic::power2::{lemma2_to64, pow2};
use vstd::prelude::*;

verus! {

/// The coefficient that each value of 4 bits gives.
proof fn lemma_cbd_values_2(v: int)
    requires
        0 <= v < 16,
    ensures
        v == 0 ==> cbd_value(v, 2) == 0,
        v == 1 ==> cbd_value(v, 2) == 1,
        v == 2 ==> cbd_value(v, 2) == 1,
        v == 3 ==> cbd_value(v, 2) == 2,
        v == 4 ==> cbd_value(v, 2) == 3328,
        v == 5 ==> cbd_value(v, 2) == 0,
        v == 6 ==> cbd_value(v, 2) == 0,
        v == 7 ==> cbd_value(v, 2) == 1,
        v == 8 ==> cbd_value(v, 2) == 3328,
        v == 9 ==> cbd_value(v, 2) == 0,
        v == 10 ==> cbd_value(v, 2) == 0,
        v == 11 ==> cbd_value(v, 2) == 1,
        v == 12 ==> cbd_value(v, 2) == 3327,
        v == 13 ==> cbd_value(v, 2) == 3328,
        v == 14 ==> cbd_value(v, 2) == 3328,
        v == 15 ==> cbd_value(v, 2) == 0,
{
    lemma2_to64();
    reveal_with_fuel(bit_count, 4);
    if v == 0 {
        assert(bit_count(0) == 0 && bit_count(0) == 0);
        assert(0int % (pow2(2) as int) == 0 && 0int / (pow2(2) as int) == 0);
        assert((0int - 0int) % 3329 == 0);
    } else if v == 1 {
        assert(bit_count(1) == 1 && bit_count(0) == 0);
        assert(1int % (pow2(2) as int) == 1 && 1int / (pow2(2) as int) == 0);
        assert((1int - 0int) % 3329 == 1);
    } else if v == 2 {
        assert(bit_count(2) == 1 && bit_count(0) == 0);
        assert(2int % (pow2(2) as int) == 2 && 2int / (pow2(2) as int) == 0);
        assert((1int - 0int) % 3329 == 1);
    } else if v == 3 {
        assert(bit_count(3) == 2 && bit_count(0) == 0);
        assert(3int % (pow2(2) as int) == 3 && 3int / (pow2(2) as int) == 0);
        assert((2int - 0int) % 3329 == 2);
    } else if v == 4 {
        assert(bit_count(0) == 0 && bit_count(1) == 1);
        assert(4int % (pow2(2) as int) == 0 && 4int / (pow2(2) as int) == 1);
        assert((0int - 1int) % 3329 == 3328);
    } else if v == 5 {
        assert(bit_count(1) == 1 && bit_count(1) == 1);
        assert(5int % (pow2(2) as int) == 1 && 5int / (pow2(2) as int) == 1);
        assert((1int - 1int) % 3329 == 0);
    } else if v == 6 {
        assert(bit_count(2) == 1 && bit_count(1) == 1);
        assert(6int % (pow2(2) as int) == 2 && 6int / (pow2(2) as int) == 1);
        assert((1int - 1int) % 3329 == 0);
    } else if v == 7 {
        assert(bit_count(3) == 2 && bit_count(1) == 1);
        assert(7int % (pow2(2) as int) == 3 && 7int / (pow2(2) as int) == 1);
        assert((2int - 1int) % 3329 == 1);
    } else if v == 8 {
        assert(bit_count(0) == 0 && bit_count(2) == 1);
        assert(8int % (pow2(2) as int) == 0 && 8int / (pow2(2) as int) == 2);
        assert((0int - 1int) % 3329 == 3328);
    } else if v == 9 {
        assert(bit_count(1) == 1 && bit_count(2) == 1);
        assert(9int % (pow2(2) as int) == 1 && 9int / (pow2(2) as int) == 2);
        assert((1int - 1int) % 3329 == 0);
    } else if v == 10 {
        assert(bit_count(2) == 1 && bit_count(2) == 1);
        assert(10int % (pow2(2) as int) == 2 && 10int / (pow2(2) as int) == 2);
        assert((1int - 1int) % 3329 == 0);
    } else if v == 11 {
        assert(bit_count(3) == 2 && bit_count(2) == 1);
        assert(11int % (pow2(2) as int) == 3 && 11int / (pow2(2) as int) == 2);
        assert((2int - 1int) % 3329 == 1);
    } else if v == 12 {
        assert(bit_count(0) == 0 && bit_count(3) == 2);
        assert(12int % (pow2(2) as int) == 0 && 12int / (pow2(2) as int) == 3);
        assert((0int - 2int) % 3329 == 3327);
    } else if v == 13 {
        assert(bit_count(1) == 1 && bit_count(3) == 2);
        assert(13int % (pow2(2) as int) == 1 && 13int / (pow2(2) as int) == 3);
        assert((1int - 2int) % 3329 == 3328);
    } else if v == 14 {
        assert(bit_count(2) == 1 && bit_count(3) == 2);
        assert(14int % (pow2(2) as int) == 2 && 14int / (pow2(2) as int) == 3);
        assert((1int - 2int) % 3329 == 3328);
    } else if v == 15 {
        assert(bit_count(3) == 2 && bit_count(3) == 2);
        assert(15int % (pow2(2) as int) == 3 && 15int / (pow2(2) as int) == 3);
        assert((2int - 2int) % 3329 == 0);
    }
}

/// The values of 4 bits that give the coefficient 3327, counted one by one.
proof fn lemma_cbd_count_2_minus_2()
    ensures
        cbd_count(2, 3327, 16) == 1,
{
    assert(cbd_count(2, 3327, 0) == 0);
    lemma_cbd_values_2(0);
    assert(cbd_count(2, 3327, 1) == 0);
    lemma_cbd_values_2(1);
    assert(cbd_count(2, 3327, 2) == 0);
    lemma_cbd_values_2(2);
    assert(cbd_count(2, 3327, 3) == 0);
    lemma_cbd_values_2(3);
    assert(cbd_count(2, 3327, 4) == 0);
    lemma_cbd_values_2(4);
    assert(cbd_count(2, 3327, 5) == 0);
    lemma_cbd_values_2(5);
    assert(cbd_count(2, 3327, 6) == 0);
    lemma_cbd_values_2(6);
    assert(cbd_count(2, 3327, 7) == 0);
    lemma_cbd_values_2(7);
    assert(cbd_count(2, 3327, 8) == 0);
    lemma_cbd_values_2(8);
    assert(cbd_count(2, 3327, 9) == 0);
    lemma_cbd_values_2(9);
    assert(cbd_count(2, 3327, 10) == 0);
    lemma_cbd_values_2(10);
    assert(cbd_count(2, 3327, 11) == 0);
    lemma_cbd_values_2(11);
    assert(cbd_count(2, 3327, 12) == 0);
    lemma_cbd_values_2(12);
    assert(cbd_count(2, 3327, 13) == 1);
    lemma_cbd_values_2(13);
    assert(cbd_count(2, 3327, 14) == 1);
    lemma_cbd_values_2(14);
    assert(cbd_count(2, 3327, 15) == 1);
    lemma_cbd_values_2(15);
    assert(cbd_count(2, 3327, 16) == 1);
}

/// The values of 4 bits that give the coefficient 3328, counted one by one.
proof fn lemma_cbd_count_2_minus_1()
    ensures
        cbd_count(2, 3328, 16) == 4,
{
    assert(cbd_count(2, 3328, 0) == 0);
    lemma_cbd_values_2(0);
    assert(cbd_count(2, 3328, 1) == 0);
    lemma_cbd_values_2(1);
    assert(cbd_count(2, 3328, 2) == 0);
    lemma_cbd_values_2(2);
    assert(cbd_count(2, 3328, 3) == 0);
    lemma_cbd_values_2(3);
    assert(cbd_count(2, 3328, 4) == 0);
    lemma_cbd_values_2(4);
    assert(cbd_count(2, 3328, 5) == 1);
    lemma_cbd_values_2(5);
    assert(cbd_count(2, 3328, 6) == 1);
    lemma_cbd_values_2(6);
    assert(cbd_count(2, 3328, 7) == 1);
    lemma_cbd_values_2(7);
    assert(cbd_count(2, 3328, 8) == 1);
    lemma_cbd_values_2(8);
    assert(cbd_count(2, 3328, 9) == 2);
    lemma_cbd_values_2(9);
    assert(cbd_count(2, 3328, 10) == 2);
    lemma_cbd_values_2(10);
    assert(cbd_count(2, 3328, 11) == 2);
    lemma_cbd_values_2(11);
    assert(cbd_count(2, 3328, 12) == 2);
    lemma_cbd_values_2(12);
    assert(cbd_count(2, 3328, 13) == 2);
    lemma_cbd_values_2(13);
    assert(cbd_count(2, 3328, 14) == 3);
    lemma_cbd_values_2(14);
    assert(cbd_count(2, 3328, 15) == 4);
    lemma_cbd_values_2(15);
    assert(cbd_count(2, 3328, 16) == 4);
}

/// The values of 4 bits that give the coefficient 0, counted one by one.
proof fn lemma_cbd_count_2_zero()
    ensures
        cbd_count(2, 0, 16) == 6,
{
    assert(cbd_count(2, 0, 0) == 0);
    lemma_cbd_values_2(0);
    assert(cbd_count(2, 0, 1) == 1);
    lemma_cbd_values_2(1);
    assert(cbd_count(2, 0, 2) == 1);
    lemma_cbd_values_2(2);
    assert(cbd_count(2, 0, 3) == 1);
    lemma_cbd_values_2(3);
    assert(cbd_count(2, 0, 4) == 1);
    lemma_cbd_values_2(4);
    assert(cbd_count(2, 0, 5) == 1);
    lemma_cbd_values_2(5);
    assert(cbd_count(2, 0, 6) == 2);
    lemma_cbd_values_2(6);
    assert(cbd_count(2, 0, 7) == 3);
    lemma_cbd_values_2(7);
    assert(cbd_count(2, 0, 8) == 3);
    lemma_cbd_values_2(8);
    assert(cbd_count(2, 0, 9) == 3);
    lemma_cbd_values_2(9);
    assert(cbd_count(2, 0, 10) == 4);
    lemma_cbd_values_2(10);
    assert(cbd_count(2, 0, 11) == 5);
    lemma_cbd_values_2(11);
    assert(cbd_count(2, 0, 12) == 5);
    lemma_cbd_values_2(12);
    assert(cbd_count(2, 0, 13) == 5);
    lemma_cbd_values_2(13);
    assert(cbd_count(2, 0, 14) == 5);
    lemma_cbd_values_2(14);
    assert(cbd_count(2, 0, 15) == 5);
    lemma_cbd_values_2(15);
    assert(cbd_count(2, 0, 16) == 6);
}

/// The values of 4 bits that give the coefficient 1, counted one by one.
proof fn lemma_cbd_count_2_plus_1()
    ensures
        cbd_count(2, 1, 16) == 4,
{
    assert(cbd_count(2, 1, 0) == 0);
    lemma_cbd_values_2(0);
    assert(cbd_count(2, 1, 1) == 0);
    lemma_cbd_values_2(1);
    assert(cbd_count(2, 1, 2) == 1);
    lemma_cbd_values_2(2);
    assert(cbd_count(2, 1, 3) == 2);
    lemma_cbd_values_2(3);
    assert(cbd_count(2, 1, 4) == 2);
    lemma_cbd_values_2(4);
    assert(cbd_count(2, 1, 5) == 2);
    lemma_cbd_values_2(5);
    assert(cbd_count(2, 1, 6) == 2);
    lemma_cbd_values_2(6);
    assert(cbd_count(2, 1, 7) == 2);
    lemma_cbd_values_2(7);
    assert(cbd_count(2, 1, 8) == 3);
    lemma_cbd_values_2(8);
    assert(cbd_count(2, 1, 9) == 3);
    lemma_cbd_values_2(9);
    assert(cbd_count(2, 1, 10) == 3);
    lemma_cbd_values_2(10);
    assert(cbd_count(2, 1, 11) == 3);
    lemma_cbd_values_2(11);
    assert(cbd_count(2, 1, 12) == 4);
    lemma_cbd_values_2(12);
    assert(cbd_count(2, 1, 13) == 4);
    lemma_cbd_values_2(13);
    assert(cbd_count(2, 1, 14) == 4);
    lemma_cbd_values_2(14);
    assert(cbd_count(2, 1, 15) == 4);
    lemma_cbd_values_2(15);
    assert(cbd_count(2, 1, 16) == 4);
}

/// The values of 4 bits that give the coefficient 2, counted one by one.
proof fn lemma_cbd_count_2_plus_2()
    ensures
        cbd_count(2, 2, 16) == 1,
{
    assert(cbd_count(2, 2, 0) == 0);
    lemma_cbd_values_2(0);
    assert(cbd_count(2, 2, 1) == 0);
    lemma_cbd_values_2(1);
    assert(cbd_count(2, 2, 2) == 0);
    lemma_cbd_values_2(2);
    assert(cbd_count(2, 2, 3) == 0);
    lemma_cbd_values_2(3);
    assert(cbd_count(2, 2, 4) == 1);
    lemma_cbd_values_2(4);
    assert(cbd_count(2, 2, 5) == 1);
    lemma_cbd_values_2(5);
    assert(cbd_count(2, 2, 6) == 1);
    lemma_cbd_values_2(6);
    assert(cbd_count(2, 2, 7) == 1);
    lemma_cbd_values_2(7);
    assert(cbd_count(2, 2, 8) == 1);
    lemma_cbd_values_2(8);
    assert(cbd_count(2, 2, 9) == 1);
    lemma_cbd_values_2(9);
    assert(cbd_count(2, 2, 10) == 1);
    lemma_cbd_values_2(10);
    assert(cbd_count(2, 2, 11) == 1);
    lemma_cbd_values_2(11);
    assert(cbd_count(2, 2, 12) == 1);
    lemma_cbd_values_2(12);
    assert(cbd_count(2, 2, 13) == 1);
    lemma_cbd_values_2(13);
    assert(cbd_count(2, 2, 14) == 1);
    lemma_cbd_values_2(14);
    assert(cbd_count(2, 2, 15) == 1);
    lemma_cbd_values_2(15);
    assert(cbd_count(2, 2, 16) == 1);
}

/// The coefficient that each value of 6 bits gives.
proof fn lemma_cbd_values_3(v: int)
    requires
        0 <= v < 64,
    ensures
        v == 0 ==> cbd_value(v, 3) == 0,
        v == 1 ==> cbd_value(v, 3) == 1,
        v == 2 ==> cbd_value(v, 3) == 1,
        v == 3 ==> cbd_value(v, 3) == 2,
        v == 4 ==> cbd_value(v, 3) == 1,
        v == 5 ==> cbd_value(v, 3) == 2,
        v == 6 ==> cbd_value(v, 3) == 2,
        v == 7 ==> cbd_value(v, 3) == 3,
        v == 8 ==> cbd_value(v, 3) == 3328,
        v == 9 ==> cbd_value(v, 3) == 0,
        v == 10 ==> cbd_value(v, 3) == 0,
        v == 11 ==> cbd_value(v, 3) == 1,
        v == 12 ==> cbd_value(v, 3) == 0,
        v == 13 ==> cbd_value(v, 3) == 1,
        v == 14 ==> cbd_value(v, 3) == 1,
        v == 15 ==> cbd_value(v, 3) == 2,
        v == 16 ==> cbd_value(v, 3) == 3328,
        v == 17 ==> cbd_value(v, 3) == 0,
        v == 18 ==> cbd_value(v, 3) == 0,
        v == 19 ==> cbd_value(v, 3) == 1,
        v == 20 ==> cbd_value(v, 3) == 0,
        v == 21 ==> cbd_value(v, 3) == 1,
        v == 22 ==> cbd_value(v, 3) == 1,
        v == 23 ==> cbd_value(v, 3) == 2,
        v == 24 ==> cbd_value(v, 3) == 3327,
        v == 25 ==> cbd_value(v, 3) == 3328,
        v == 26 ==> cbd_value(v, 3) == 3328,
        v == 27 ==> cbd_value(v, 3) == 0,
        v == 28 ==> cbd_value(v, 3) == 3328,
        v == 29 ==> cbd_value(v, 3) == 0,
        v == 30 ==> cbd_value(v, 3) == 0,
        v == 31 ==> cbd_value(v, 3) == 1,
        v == 32 ==> cbd_value(v, 3) == 3328,
        v == 33 ==> cbd_value(v, 3) == 0,
        v == 34 ==> cbd_value(v, 3) == 0,
        v == 35 ==> cbd_value(v, 3) == 1,
        v == 36 ==> cbd_value(v, 3) == 0,
        v == 37 ==> cbd_value(v, 3) == 1,
        v == 38 ==> cbd_value(v, 3) == 1,
        v == 39 ==> cbd_value(v, 3) == 2,
        v == 40 ==> cbd_value(v, 3) == 3327,
        v == 41 ==> cbd_value(v, 3) == 3328,
        v == 42 ==> cbd_value(v, 3) == 3328,
        v == 43 ==> cbd_value(v, 3) == 0,
        v == 44 ==> cbd_value(v, 3) == 3328,
        v == 45 ==> cbd_value(v, 3) == 0,
        v == 46 ==> cbd_value(v, 3) == 0,
        v == 47 ==> cbd_value(v, 3) == 1,
        v == 48 ==> cbd_value(v, 3) == 3327,
        v == 49 ==> cbd_value(v, 3) == 3328,
        v == 50 ==> cbd_value(v, 3) == 3328,
        v == 51 ==> cbd_value(v, 3) == 0,
        v == 52 ==> cbd_value(v, 3) == 3328,
        v == 53 ==> cbd_value(v, 3) == 0,
        v == 54 ==> cbd_value(v, 3) == 0,
        v == 55 ==> cbd_value(v, 3) == 1,
        v == 56 ==> cbd_value(v, 3) == 3326,
        v == 57 ==> cbd_value(v, 3) == 3327,
        v == 58 ==> cbd_value(v, 3) == 3327,
        v == 59 ==> cbd_value(v, 3) == 3328,
        v == 60 ==> cbd_value(v, 3) == 3327,
        v == 61 ==> cbd_value(v, 3) == 3328,
        v == 62 ==> cbd_value(v, 3) == 3328,
        v == 63 ==> cbd_value(v, 3) == 0,
{
    lemma2_to64();
    reveal_with_fuel(bit_count, 4);
    if v == 0 {
        assert(bit_count(0) == 0 && bit_count(0) == 0);
        assert(0int % (pow2(3) as int) == 0 && 0int / (pow2(3) as int) == 0);
        assert((0int - 0int) % 3329 == 0);
    } else if v == 1 {
        assert(bit_count(1) == 1 && bit_count(0) == 0);
        assert(1int % (pow2(3) as int) == 1 && 1int / (pow2(3) as int) == 0);
        assert((1int - 0int) % 3329 == 1);
    } else if v == 2 {
        assert(bit_count(2) == 1 && bit_count(0) == 0);
        assert(2int % (pow2(3) as int) == 2 && 2int / (pow2(3) as int) == 0);
        assert((1int - 0int) % 3329 == 1);
    } else if v == 3 {
        assert(bit_count(3) == 2 && bit_count(0) == 0);
        assert(3int % (pow2(3) as int) == 3 && 3int / (pow2(3) as int) == 0);
        assert((2int - 0int) % 3329 == 2);
    } else if v == 4 {
        assert(bit_count(4) == 1 && bit_count(0) == 0);
        assert(4int % (pow2(3) as int) == 4 && 4int / (pow2(3) as int) == 0);
        assert((1int - 0int) % 3329 == 1);
    } else if v == 5 {
        assert(bit_count(5) == 2 && bit_count(0) == 0);
        assert(5int % (pow2(3) as int) == 5 && 5int / (pow2(3) as int) == 0);
        assert((2int - 0int) % 3329 == 2);
    } else if v == 6 {
        assert(bit_count(6) == 2 && bit_count(0) == 0);
        assert(6int % (pow2(3) as int) == 6 && 6int / (pow2(3) as int) == 0);
        assert((2int - 0int) % 3329 == 2);
    } else if v == 7 {
        assert(bit_count(7) == 3 && bit_count(0) == 0);
        assert(7int % (pow2(3) as int) == 7 && 7int / (pow2(3) as int) == 0);
        assert((3int - 0int) % 3329 == 3);
    } else if v == 8 {
        assert(bit_count(0) == 0 && bit_count(1) == 1);
        assert(8int % (pow2(3) as int) == 0 && 8int / (pow2(3) as int) == 1);
        assert((0int - 1int) % 3329 == 3328);
    } else if v == 9 {
        assert(bit_count(1) == 1 && bit_count(1) == 1);
        assert(9int % (pow2(3) as int) == 1 && 9int / (pow2(3) as int) == 1);
        assert((1int - 1int) % 3329 == 0);
    } else if v == 10 {
        assert(bit_count(2) == 1 && bit_count(1) == 1);
        assert(10int % (pow2(3) as int) == 2 && 10int / (pow2(3) as int) == 1);
        assert((1int - 1int) % 3329 == 0);
    } else if v == 11 {
        assert(bit_count(3) == 2 && bit_count(1) == 1);
        assert(11int % (pow2(3) as int) == 3 && 11int / (pow2(3) as int) == 1);
        assert((2int - 1int) % 3329 == 1);
    } else if v == 12 {
        assert(bit_count(4) == 1 && bit_count(1) == 1);
        assert(12int % (pow2(3) as int) == 4 && 12int / (pow2(3) as int) == 1);
        assert((1int - 1int) % 3329 == 0);
    } else if v == 13 {
        assert(bit_count(5) == 2 && bit_count(1) == 1);
        assert(13int % (pow2(3) as int) == 5 && 13int / (pow2(3) as int) == 1);
        assert((2int - 1int) % 3329 == 1);
    } else if v == 14 {
        assert(bit_count(6) == 2 && bit_count(1) == 1);
        assert(14int % (pow2(3) as int) == 6 && 14int / (pow2(3) as int) == 1);
        assert((2int - 1int) % 3329 == 1);
    } else if v == 15 {
        assert(bit_count(7) == 3 && bit_count(1) == 1);
        assert(15int % (pow2(3) as int) == 7 && 15int / (pow2(3) as int) == 1);
        assert((3int - 1int) % 3329 == 2);
    } else if v == 16 {
        assert(bit_count(0) == 0 && bit_count(2) == 1);
        assert(16int % (pow2(3) as int) == 0 && 16int / (pow2(3) as int) == 2);
        assert((0int - 1int) % 3329 == 3328);
    } else if v == 17 {
        assert(bit_count(1) == 1 && bit_count(2) == 1);
        assert(17int % (pow2(3) as int) == 1 && 17int / (pow2(3) as int) == 2);
        assert((1int - 1int) % 3329 == 0);
    } else if v == 18 {
        assert(bit_count(2) == 1 && bit_count(2) == 1);
        assert(18int % (pow2(3) as int) == 2 && 18int / (pow2(3) as int) == 2);
        assert((1int - 1int) % 3329 == 0);
    } else if v == 19 {
        assert(bit_count(3) == 2 && bit_count(2) == 1);
        assert(19int % (pow2(3) as int) == 3 && 19int / (pow2(3) as int) == 2);
        assert((2int - 1int) % 3329 == 1);
    } else if v == 20 {
        assert(bit_count(4) == 1 && bit_count(2) == 1);
        assert(20int % (pow2(3) as int) == 4 && 20int / (pow2(3) as int) == 2);
        assert((1int - 1int) % 3329 == 0);
    } else if v == 21 {
        assert(bit_count(5) == 2 && bit_count(2) == 1);
        assert(21int % (pow2(3) as int) == 5 && 21int / (pow2(3) as int) == 2);
        assert((2int - 1int) % 3329 == 1);
    } else if v == 22 {
        assert(bit_count(6) == 2 && bit_count(2) == 1);
        assert(22int % (pow2(3) as int) == 6 && 22int / (pow2(3) as int) == 2);
        assert((2int - 1int) % 3329 == 1);
    } else if v == 23 {
        assert(bit_count(7) == 3 && bit_count(2) == 1);
        assert(23int % (pow2(3) as int) == 7 && 23int / (pow2(3) as int) == 2);
        assert((3int - 1int) % 3329 == 2);
    } else if v == 24 {
        assert(bit_count(0) == 0 && bit_count(3) == 2);
        assert(24int % (pow2(3) as int) == 0 && 24int / (pow2(3) as int) == 3);
        assert((0int - 2int) % 3329 == 3327);
    } else if v == 25 {
        assert(bit_count(1) == 1 && bit_count(3) == 2);
        assert(25int % (pow2(3) as int) == 1 && 25int / (pow2(3) as int) == 3);
        assert((1int - 2int) % 3329 == 3328);
    } else if v == 26 {
        assert(bit_count(2) == 1 && bit_count(3) == 2);
        assert(26int % (pow2(3) as int) == 2 && 26int / (pow2(3) as int) == 3);
        assert((1int - 2int) % 3329 == 3328);
    } else if v == 27 {
        assert(bit_count(3) == 2 && bit_count(3) == 2);
        assert(27int % (pow2(3) as int) == 3 && 27int / (pow2(3) as int) == 3);
        assert((2int - 2int) % 3329 == 0);
    } else if v == 28 {
        assert(bit_count(4) == 1 && bit_count(3) == 2);
        assert(28int % (pow2(3) as int) == 4 && 28int / (pow2(3) as int) == 3);
        assert((1int - 2int) % 3329 == 3328);
    } else if v == 29 {
        assert(bit_count(5) == 2 && bit_count(3) == 2);
        assert(29int % (pow2(3) as int) == 5 && 29int / (pow2(3) as int) == 3);
        assert((2int - 2int) % 3329 == 0);
    } else if v == 30 {
        assert(bit_count(6) == 2 && bit_count(3) == 2);
        assert(30int % (pow2(3) as int) == 6 && 30int / (pow2(3) as int) == 3);
        assert((2int - 2int) % 3329 == 0);
    } else if v == 31 {
        assert(bit_count(7) == 3 && bit_count(3) == 2);
        assert(31int % (pow2(3) as int) == 7 && 31int / (pow2(3) as int) == 3);
        assert((3int - 2int) % 3329 == 1);
    } else if v == 32 {
        assert(bit_count(0) == 0 && bit_count(4) == 1);
        assert(32int % (pow2(3) as int) == 0 && 32int / (pow2(3) as int) == 4);
        assert((0int - 1int) % 3329 == 3328);
    } else if v == 33 {
        assert(bit_count(1) == 1 && bit_count(4) == 1);
        assert(33int % (pow2(3) as int) == 1 && 33int / (pow2(3) as int) == 4);
        assert((1int - 1int) % 3329 == 0);
    } else if v == 34 {
        assert(bit_count(2) == 1 && bit_count(4) == 1);
        assert(34int % (pow2(3) as int) == 2 && 34int / (pow2(3) as int) == 4);
        assert((1int - 1int) % 3329 == 0);
    } else if v == 35 {
        assert(bit_count(3) == 2 && bit_count(4) == 1);
        assert(35int % (pow2(3) as int) == 3 && 35int / (pow2(3) as int) == 4);
        assert((2int - 1int) % 3329 == 1);
    } else if v == 36 {
        assert(bit_count(4) == 1 && bit_count(4) == 1);
        assert(36int % (pow2(3) as int) == 4 && 36int / (pow2(3) as int) == 4);
        assert((1int - 1int) % 3329 == 0);
    } else if v == 37 {
        assert(bit_count(5) == 2 && bit_count(4) == 1);
        assert(37int % (pow2(3) as int) == 5 && 37int / (pow2(3) as int) == 4);
        assert((2int - 1int) % 3329 == 1);
    } else if v == 38 {
        assert(bit_count(6) == 2 && bit_count(4) == 1);
        assert(38int % (pow2(3) as int) == 6 && 38int / (pow2(3) as int) == 4);
        assert((2int - 1int) % 3329 == 1);
    } else if v == 39 {
        assert(bit_count(7) == 3 && bit_count(4) == 1);
        assert(39int % (pow2(3) as int) == 7 && 39int / (pow2(3) as int) == 4);
        assert((3int - 1int) % 3329 == 2);
    } else if v == 40 {
        assert(bit_count(0) == 0 && bit_count(5) == 2);
        assert(40int % (pow2(3) as int) == 0 && 40int / (pow2(3) as int) == 5);
        assert((0int - 2int) % 3329 == 3327);
    } else if v == 41 {
        assert(bit_count(1) == 1 && bit_count(5) == 2);
        assert(41int % (pow2(3) as int) == 1 && 41int / (pow2(3) as int) == 5);
        assert((1int - 2int) % 3329 == 3328);
    } else if v == 42 {
        assert(bit_count(2) == 1 && bit_count(5) == 2);
        assert(42int % (pow2(3) as int) == 2 && 42int / (pow2(3) as int) == 5);
        assert((1int - 2int) % 3329 == 3328);
    } else if v == 43 {
        assert(bit_count(3) == 2 && bit_count(5) == 2);
        assert(43int % (pow2(3) as int) == 3 && 43int / (pow2(3) as int) == 5);
        assert((2int - 2int) % 3329 == 0);
    } else if v == 44 {
        assert(bit_count(4) == 1 && bit_count(5) == 2);
        assert(44int % (pow2(3) as int) == 4 && 44int / (pow2(3) as int) == 5);
        assert((1int - 2int) % 3329 == 3328);
    } else if v == 45 {
        assert(bit_count(5) == 2 && bit_count(5) == 2);
        assert(45int % (pow2(3) as int) == 5 && 45int / (pow2(3) as int) == 5);
        assert((2int - 2int) % 3329 == 0);
    } else if v == 46 {
        assert(bit_count(6) == 2 && bit_count(5) == 2);
        assert(46int % (pow2(3) as int) == 6 && 46int / (pow2(3) as int) == 5);
        assert((2int - 2int) % 3329 == 0);
    } else if v == 47 {
        assert(bit_count(7) == 3 && bit_count(5) == 2);
        assert(47int % (pow2(3) as int) == 7 && 47int / (pow2(3) as int) == 5);
        assert((3int - 2int) % 3329 == 1);
    } else if v == 48 {
        assert(bit_count(0) == 0 && bit_count(6) == 2);
        assert(48int % (pow2(3) as int) == 0 && 48int / (pow2(3) as int) == 6);
        assert((0int - 2int) % 3329 == 3327);
    } else if v == 49 {
        assert(bit_count(1) == 1 && bit_count(6) == 2);
        assert(49int % (pow2(3) as int) == 1 && 49int / (pow2(3) as int) == 6);
        assert((1int - 2int) % 3329 == 3328);
    } else if v == 50 {
        assert(bit_count(2) == 1 && bit_count(6) == 2);
        assert(50int % (pow2(3) as int) == 2 && 50int / (pow2(3) as int) == 6);
        assert((1int - 2int) % 3329 == 3328);
    } else if v == 51 {
        assert(bit_count(3) == 2 && bit_count(6) == 2);
        assert(51int % (pow2(3) as int) == 3 && 51int / (pow2(3) as int) == 6);
        assert((2int - 2int) % 3329 == 0);
    } else if v == 52 {
        assert(bit_count(4) == 1 && bit_count(6) == 2);
        assert(52int % (pow2(3) as int) == 4 && 52int / (pow2(3) as int) == 6);
        assert((1int - 2int) % 3329 == 3328);
    } else if v == 53 {
        assert(bit_count(5) == 2 && bit_count(6) == 2);
        assert(53int % (pow2(3) as int) == 5 && 53int / (pow2(3) as int) == 6);
        assert((2int - 2int) % 3329 == 0);
    } else if v == 54 {
        assert(bit_count(6) == 2 && bit_count(6) == 2);
        assert(54int % (pow2(3) as int) == 6 && 54int / (pow2(3) as int) == 6);
        assert((2int - 2int) % 3329 == 0);
    } else if v == 55 {
        assert(bit_count(7) == 3 && bit_count(6) == 2);
        assert(55int % (pow2(3) as int) == 7 && 55int / (pow2(3) as int) == 6);
        assert((3int - 2int) % 3329 == 1);
    } else if v == 56 {
        assert(bit_count(0) == 0 && bit_count(7) == 3);
        assert(56int % (pow2(3) as int) == 0 && 56int / (pow2(3) as int) == 7);
        assert((0int - 3int) % 3329 == 3326);
    } else if v == 57 {
        assert(bit_count(1) == 1 && bit_count(7) == 3);
        assert(57int % (pow2(3) as int) == 1 && 57int / (pow2(3) as int) == 7);
        assert((1int - 3int) % 3329 == 3327);
    } else if v == 58 {
        assert(bit_count(2) == 1 && bit_count(7) == 3);
        assert(58int % (pow2(3) as int) == 2 && 58int / (pow2(3) as int) == 7);
        assert((1int - 3int) % 3329 == 3327);
    } else if v == 59 {
        assert(bit_count(3) == 2 && bit_count(7) == 3);
        assert(59int % (pow2(3) as int) == 3 && 59int / (pow2(3) as int) == 7);
        assert((2int - 3int) % 3329 == 3328);
    } else if v == 60 {
        assert(bit_count(4) == 1 && bit_count(7) == 3);
        assert(60int % (pow2(3) as int) == 4 && 60int / (pow2(3) as int) == 7);
        assert((1int - 3int) % 3329 == 3327);
    } else if v == 61 {
        assert(bit_count(5) == 2 && bit_count(7) == 3);
        assert(61int % (pow2(3) as int) == 5 && 61int / (pow2(3) as int) == 7);
        assert((2int - 3int) % 3329 == 3328);
    } else if v == 62 {
        assert(bit_count(6) == 2 && bit_count(7) == 3);
        assert(62int % (pow2(3) as int) == 6 && 62int / (pow2(3) as int) == 7);
        assert((2int - 3int) % 3329 == 3328);
    } else if v == 63 {
        assert(bit_count(7) == 3 && bit_count(7) == 3);
        assert(63int % (pow2(3) as int) == 7 && 63int / (pow2(3) as int) == 7);
        assert((3int - 3int) % 3329 == 0);
    }
}

/// The values of 6 bits that give the coefficient 3326, counted one by one.
proof fn lemma_cbd_count_3_minus_3()
    ensures
        cbd_count(3, 3326, 64) == 1,
{
    assert(cbd_count(3, 3326, 0) == 0);
    lemma_cbd_values_3(0);
    assert(cbd_count(3, 3326, 1) == 0);
    lemma_cbd_values_3(1);
    assert(cbd_count(3, 3326, 2) == 0);
    lemma_cbd_values_3(2);
    assert(cbd_count(3, 3326, 3) == 0);
    lemma_cbd_values_3(3);
    assert(cbd_count(3, 3326, 4) == 0);
    lemma_cbd_values_3(4);
    assert(cbd_count(3, 3326, 5) == 0);
    lemma_cbd_values_3(5);
    assert(cbd_count(3, 3326, 6) == 0);
    lemma_cbd_values_3(6);
    assert(cbd_count(3, 3326, 7) == 0);
    lemma_cbd_values_3(7);
    assert(cbd_count(3, 3326, 8) == 0);
    lemma_cbd_values_3(8);
    assert(cbd_count(3, 3326, 9) == 0);
    lemma_cbd_values_3(9);
    assert(cbd_count(3, 3326, 10) == 0);
    lemma_cbd_values_3(10);
    assert(cbd_count(3, 3326, 11) == 0);
    lemma_cbd_values_3(11);
    assert(cbd_count(3, 3326, 12) == 0);
    lemma_cbd_values_3(12);
    assert(cbd_count(3, 3326, 13) == 0);
    lemma_cbd_values_3(13);
    assert(cbd_count(3, 3326, 14) == 0);
    lemma_cbd_values_3(14);
    assert(cbd_count(3, 3326, 15) == 0);
    lemma_cbd_values_3(15);
    assert(cbd_count(3, 3326, 16) == 0);
    lemma_cbd_values_3(16);
    assert(cbd_count(3, 3326, 17) == 0);
    lemma_cbd_values_3(17);
    assert(cbd_count(3, 3326, 18) == 0);
    lemma_cbd_values_3(18);
    assert(cbd_count(3, 3326, 19) == 0);
    lemma_cbd_values_3(19);
    assert(cbd_count(3, 3326, 20) == 0);
    lemma_cbd_values_3(20);
    assert(cbd_count(3, 3326, 21) == 0);
    lemma_cbd_values_3(21);
    assert(cbd_count(3, 3326, 22) == 0);
    lemma_cbd_values_3(22);
    assert(cbd_count(3, 3326, 23) == 0);
    lemma_cbd_values_3(23);
    assert(cbd_count(3, 3326, 24) == 0);
    lemma_cbd_values_3(24);
    assert(cbd_count(3, 3326, 25) == 0);
    lemma_cbd_values_3(25);
    assert(cbd_count(3, 3326, 26) == 0);
    lemma_cbd_values_3(26);
    assert(cbd_count(3, 3326, 27) == 0);
    lemma_cbd_values_3(27);
    assert(cbd_count(3, 3326, 28) == 0);
    lemma_cbd_values_3(28);
    assert(cbd_count(3, 3326, 29) == 0);
    lemma_cbd_values_3(29);
    assert(cbd_count(3, 3326, 30) == 0);
    lemma_cbd_values_3(30);
    assert(cbd_count(3, 3326, 31) == 0);
    lemma_cbd_values_3(31);
    assert(cbd_count(3, 3326, 32) == 0);
    lemma_cbd_values_3(32);
    assert(cbd_count(3, 3326, 33) == 0);
    lemma_cbd_values_3(33);
    assert(cbd_count(3, 3326, 34) == 0);
    lemma_cbd_values_3(34);
    assert(cbd_count(3, 3326, 35) == 0);
    lemma_cbd_values_3(35);
    assert(cbd_count(3, 3326, 36) == 0);
    lemma_cbd_values_3(36);
    assert(cbd_count(3, 3326, 37) == 0);
    lemma_cbd_values_3(37);
    assert(cbd_count(3, 3326, 38) == 0);
    lemma_cbd_values_3(38);
    assert(cbd_count(3, 3326, 39) == 0);
    lemma_cbd_values_3(39);
    assert(cbd_count(3, 3326, 40) == 0);
    lemma_cbd_values_3(40);
    assert(cbd_count(3, 3326, 41) == 0);
    lemma_cbd_values_3(41);
    assert(cbd_count(3, 3326, 42) == 0);
    lemma_cbd_values_3(42);
    assert(cbd_count(3, 3326, 43) == 0);
    lemma_cbd_values_3(43);
    assert(cbd_count(3, 3326, 44) == 0);
    lemma_cbd_values_3(44);
    assert(cbd_count(3, 3326, 45) == 0);
    lemma_cbd_values_3(45);
    assert(cbd_count(3, 3326, 46) == 0);
    lemma_cbd_values_3(46);
    assert(cbd_count(3, 3326, 47) == 0);
    lemma_cbd_values_3(47);
    assert(cbd_count(3, 3326, 48) == 0);
    lemma_cbd_values_3(48);
    assert(cbd_count(3, 3326, 49) == 0);
    lemma_cbd_values_3(49);
    assert(cbd_count(3, 3326, 50) == 0);
    lemma_cbd_values_3(50);
    assert(cbd_count(3, 3326, 51) == 0);
    lemma_cbd_values_3(51);
    assert(cbd_count(3, 3326, 52) == 0);
    lemma_cbd_values_3(52);
    assert(cbd_count(3, 3326, 53) == 0);
    lemma_cbd_values_3(53);
    assert(cbd_count(3, 3326, 54) == 0);
    lemma_cbd_values_3(54);
    assert(cbd_count(3, 3326, 55) == 0);
    lemma_cbd_values_3(55);
    assert(cbd_count(3, 3326, 56) == 0);
    lemma_cbd_values_3(56);
    assert(cbd_count(3, 3326, 57) == 1);
    lemma_cbd_values_3(57);
    assert(cbd_count(3, 3326, 58) == 1);
    lemma_cbd_values_3(58);
    assert(cbd_count(3, 3326, 59) == 1);
    lemma_cbd_values_3(59);
    assert(cbd_count(3, 3326, 60) == 1);
    lemma_cbd_values_3(60);
    assert(cbd_count(3, 3326, 61) == 1);
    lemma_cbd_values_3(61);
    assert(cbd_count(3, 3326, 62) == 1);
    lemma_cbd_values_3(62);
    assert(cbd_count(3, 3326, 63) == 1);
    lemma_cbd_values_3(63);
    assert(cbd_count(3, 3326, 64) == 1);
}

/// The values of 6 bits that give the coefficient 3327, counted one by one.
proof fn lemma_cbd_count_3_minus_2()
    ensures
        cbd_count(3, 3327, 64) == 6,
{
    assert(cbd_count(3, 3327, 0) == 0);
    lemma_cbd_values_3(0);
    assert(cbd_count(3, 3327, 1) == 0);
    lemma_cbd_values_3(1);
    assert(cbd_count(3, 3327, 2) == 0);
    lemma_cbd_values_3(2);
    assert(cbd_count(3, 3327, 3) == 0);
    lemma_cbd_values_3(3);
    assert(cbd_count(3, 3327, 4) == 0);
    lemma_cbd_values_3(4);
    assert(cbd_count(3, 3327, 5) == 0);
    lemma_cbd_values_3(5);
    assert(cbd_count(3, 3327, 6) == 0);
    lemma_cbd_values_3(6);
    assert(cbd_count(3, 3327, 7) == 0);
    lemma_cbd_values_3(7);
    assert(cbd_count(3, 3327, 8) == 0);
    lemma_cbd_values_3(8);
    assert(cbd_count(3, 3327, 9) == 0);
    lemma_cbd_values_3(9);
    assert(cbd_count(3, 3327, 10) == 0);
    lemma_cbd_values_3(10);
    assert(cbd_count(3, 3327, 11) == 0);
    lemma_cbd_values_3(11);
    assert(cbd_count(3, 3327, 12) == 0);
    lemma_cbd_values_3(12);
    assert(cbd_count(3, 3327, 13) == 0);
    lemma_cbd_values_3(13);
    assert(cbd_count(3, 3327, 14) == 0);
    lemma_cbd_values_3(14);
    assert(cbd_count(3, 3327, 15) == 0);
    lemma_cbd_values_3(15);
    assert(cbd_count(3, 3327, 16) == 0);
    lemma_cbd_values_3(16);
    assert(cbd_count(3, 3327, 17) == 0);
    lemma_cbd_values_3(17);
    assert(cbd_count(3, 3327, 18) == 0);
    lemma_cbd_values_3(18);
    assert(cbd_count(3, 3327, 19) == 0);
    lemma_cbd_values_3(19);
    assert(cbd_count(3, 3327, 20) == 0);
    lemma_cbd_values_3(20);
    assert(cbd_count(3, 3327, 21) == 0);
    lemma_cbd_values_3(21);
    assert(cbd_count(3, 3327, 22) == 0);
    lemma_cbd_values_3(22);
    assert(cbd_count(3, 3327, 23) == 0);
    lemma_cbd_values_3(23);
    assert(cbd_count(3, 3327, 24) == 0);
    lemma_cbd_values_3(24);
    assert(cbd_count(3, 3327, 25) == 1);
    lemma_cbd_values_3(25);
    assert(cbd_count(3, 3327, 26) == 1);
    lemma_cbd_values_3(26);
    assert(cbd_count(3, 3327, 27) == 1);
    lemma_cbd_values_3(27);
    assert(cbd_count(3, 3327, 28) == 1);
    lemma_cbd_values_3(28);
    assert(cbd_count(3, 3327, 29) == 1);
    lemma_cbd_values_3(29);
    assert(cbd_count(3, 3327, 30) == 1);
    lemma_cbd_values_3(30);
    assert(cbd_count(3, 3327, 31) == 1);
    lemma_cbd_values_3(31);
    assert(cbd_count(3, 3327, 32) == 1);
    lemma_cbd_values_3(32);
    assert(cbd_count(3, 3327, 33) == 1);
    lemma_cbd_values_3(33);
    assert(cbd_count(3, 3327, 34) == 1);
    lemma_cbd_values_3(34);
    assert(cbd_count(3, 3327, 35) == 1);
    lemma_cbd_values_3(35);
    assert(cbd_count(3, 3327, 36) == 1);
    lemma_cbd_values_3(36);
    assert(cbd_count(3, 3327, 37) == 1);
    lemma_cbd_values_3(37);
    assert(cbd_count(3, 3327, 38) == 1);
    lemma_cbd_values_3(38);
    assert(cbd_count(3, 3327, 39) == 1);
    lemma_cbd_values_3(39);
    assert(cbd_count(3, 3327, 40) == 1);
    lemma_cbd_values_3(40);
    assert(cbd_count(3, 3327, 41) == 2);
    lemma_cbd_values_3(41);
    assert(cbd_count(3, 3327, 42) == 2);
    lemma_cbd_values_3(42);
    assert(cbd_count(3, 3327, 43) == 2);
    lemma_cbd_values_3(43);
    assert(cbd_count(3, 3327, 44) == 2);
    lemma_cbd_values_3(44);
    assert(cbd_count(3, 3327, 45) == 2);
    lemma_cbd_values_3(45);
    assert(cbd_count(3, 3327, 46) == 2);
    lemma_cbd_values_3(46);
    assert(cbd_count(3, 3327, 47) == 2);
    lemma_cbd_values_3(47);
    assert(cbd_count(3, 3327, 48) == 2);
    lemma_cbd_values_3(48);
    assert(cbd_count(3, 3327, 49) == 3);
    lemma_cbd_values_3(49);
    assert(cbd_count(3, 3327, 50) == 3);
    lemma_cbd_values_3(50);
    assert(cbd_count(3, 3327, 51) == 3);
    lemma_cbd_values_3(51);
    assert(cbd_count(3, 3327, 52) == 3);
    lemma_cbd_values_3(52);
    assert(cbd_count(3, 3327, 53) == 3);
    lemma_cbd_values_3(53);
    assert(cbd_count(3, 3327, 54) == 3);
    lemma_cbd_values_3(54);
    assert(cbd_count(3, 3327, 55) == 3);
    lemma_cbd_values_3(55);
    assert(cbd_count(3, 3327, 56) == 3);
    lemma_cbd_values_3(56);
    assert(cbd_count(3, 3327, 57) == 3);
    lemma_cbd_values_3(57);
    assert(cbd_count(3, 3327, 58) == 4);
    lemma_cbd_values_3(58);
    assert(cbd_count(3, 3327, 59) == 5);
    lemma_cbd_values_3(59);
    assert(cbd_count(3, 3327, 60) == 5);
    lemma_cbd_values_3(60);
    assert(cbd_count(3, 3327, 61) == 6);
    lemma_cbd_values_3(61);
    assert(cbd_count(3, 3327, 62) == 6);
    lemma_cbd_values_3(62);
    assert(cbd_count(3, 3327, 63) == 6);
    lemma_cbd_values_3(63);
    assert(cbd_count(3, 3327, 64) == 6);
}

/// The values of 6 bits that give the coefficient 3328, counted one by one.
proof fn lemma_cbd_count_3_minus_1()
    ensures
        cbd_count(3, 3328, 64) == 15,
{
    assert(cbd_count(3, 3328, 0) == 0);
    lemma_cbd_values_3(0);
    assert(cbd_count(3, 3328, 1) == 0);
    lemma_cbd_values_3(1);
    assert(cbd_count(3, 3328, 2) == 0);
    lemma_cbd_values_3(2);
    assert(cbd_count(3, 3328, 3) == 0);
    lemma_cbd_values_3(3);
    assert(cbd_count(3, 3328, 4) == 0);
    lemma_cbd_values_3(4);
    assert(cbd_count(3, 3328, 5) == 0);
    lemma_cbd_values_3(5);
    assert(cbd_count(3, 3328, 6) == 0);
    lemma_cbd_values_3(6);
    assert(cbd_count(3, 3328, 7) == 0);
    lemma_cbd_values_3(7);
    assert(cbd_count(3, 3328, 8) == 0);
    lemma_cbd_values_3(8);
    assert(cbd_count(3, 3328, 9) == 1);
    lemma_cbd_values_3(9);
    assert(cbd_count(3, 3328, 10) == 1);
    lemma_cbd_values_3(10);
    assert(cbd_count(3, 3328, 11) == 1);
    lemma_cbd_values_3(11);
    assert(cbd_count(3, 3328, 12) == 1);
    lemma_cbd_values_3(12);
    assert(cbd_count(3, 3328, 13) == 1);
    lemma_cbd_values_3(13);
    assert(cbd_count(3, 3328, 14) == 1);
    lemma_cbd_values_3(14);
    assert(cbd_count(3, 3328, 15) == 1);
    lemma_cbd_values_3(15);
    assert(cbd_count(3, 3328, 16) == 1);
    lemma_cbd_values_3(16);
    assert(cbd_count(3, 3328, 17) == 2);
    lemma_cbd_values_3(17);
    assert(cbd_count(3, 3328, 18) == 2);
    lemma_cbd_values_3(18);
    assert(cbd_count(3, 3328, 19) == 2);
    lemma_cbd_values_3(19);
    assert(cbd_count(3, 3328, 20) == 2);
    lemma_cbd_values_3(20);
    assert(cbd_count(3, 3328, 21) == 2);
    lemma_cbd_values_3(21);
    assert(cbd_count(3, 3328, 22) == 2);
    lemma_cbd_values_3(22);
    assert(cbd_count(3, 3328, 23) == 2);
    lemma_cbd_values_3(23);
    assert(cbd_count(3, 3328, 24) == 2);
    lemma_cbd_values_3(24);
    assert(cbd_count(3, 3328, 25) == 2);
    lemma_cbd_values_3(25);
    assert(cbd_count(3, 3328, 26) == 3);
    lemma_cbd_values_3(26);
    assert(cbd_count(3, 3328, 27) == 4);
    lemma_cbd_values_3(27);
    assert(cbd_count(3, 3328, 28) == 4);
    lemma_cbd_values_3(28);
    assert(cbd_count(3, 3328, 29) == 5);
    lemma_cbd_values_3(29);
    assert(cbd_count(3, 3328, 30) == 5);
    lemma_cbd_values_3(30);
    assert(cbd_count(3, 3328, 31) == 5);
    lemma_cbd_values_3(31);
    assert(cbd_count(3, 3328, 32) == 5);
    lemma_cbd_values_3(32);
    assert(cbd_count(3, 3328, 33) == 6);
    lemma_cbd_values_3(33);
    assert(cbd_count(3, 3328, 34) == 6);
    lemma_cbd_values_3(34);
    assert(cbd_count(3, 3328, 35) == 6);
    lemma_cbd_values_3(35);
    assert(cbd_count(3, 3328, 36) == 6);
    lemma_cbd_values_3(36);
    assert(cbd_count(3, 3328, 37) == 6);
    lemma_cbd_values_3(37);
    assert(cbd_count(3, 3328, 38) == 6);
    lemma_cbd_values_3(38);
    assert(cbd_count(3, 3328, 39) == 6);
    lemma_cbd_values_3(39);
    assert(cbd_count(3, 3328, 40) == 6);
    lemma_cbd_values_3(40);
    assert(cbd_count(3, 3328, 41) == 6);
    lemma_cbd_values_3(41);
    assert(cbd_count(3, 3328, 42) == 7);
    lemma_cbd_values_3(42);
    assert(cbd_count(3, 3328, 43) == 8);
    lemma_cbd_values_3(43);
    assert(cbd_count(3, 3328, 44) == 8);
    lemma_cbd_values_3(44);
    assert(cbd_count(3, 3328, 45) == 9);
    lemma_cbd_values_3(45);
    assert(cbd_count(3, 3328, 46) == 9);
    lemma_cbd_values_3(46);
    assert(cbd_count(3, 3328, 47) == 9);
    lemma_cbd_values_3(47);
    assert(cbd_count(3, 3328, 48) == 9);
    lemma_cbd_values_3(48);
    assert(cbd_count(3, 3328, 49) == 9);
    lemma_cbd_values_3(49);
    assert(cbd_count(3, 3328, 50) == 10);
    lemma_cbd_values_3(50);
    assert(cbd_count(3, 3328, 51) == 11);
    lemma_cbd_values_3(51);
    assert(cbd_count(3, 3328, 52) == 11);
    lemma_cbd_values_3(52);
    assert(cbd_count(3, 3328, 53) == 12);
    lemma_cbd_values_3(53);
    assert(cbd_count(3, 3328, 54) == 12);
    lemma_cbd_values_3(54);
    assert(cbd_count(3, 3328, 55) == 12);
    lemma_cbd_values_3(55);
    assert(cbd_count(3, 3328, 56) == 12);
    lemma_cbd_values_3(56);
    assert(cbd_count(3, 3328, 57) == 12);
    lemma_cbd_values_3(57);
    assert(cbd_count(3, 3328, 58) == 12);
    lemma_cbd_values_3(58);
    assert(cbd_count(3, 3328, 59) == 12);
    lemma_cbd_values_3(59);
    assert(cbd_count(3, 3328, 60) == 13);
    lemma_cbd_values_3(60);
    assert(cbd_count(3, 3328, 61) == 13);
    lemma_cbd_values_3(61);
    assert(cbd_count(3, 3328, 62) == 14);
    lemma_cbd_values_3(62);
    assert(cbd_count(3, 3328, 63) == 15);
    lemma_cbd_values_3(63);
    assert(cbd_count(3, 3328, 64) == 15);
}

/// The values of 6 bits that give the coefficient 0, counted one by one.
proof fn lemma_cbd_count_3_zero()
    ensures
        cbd_count(3, 0, 64) == 20,
{
    assert(cbd_count(3, 0, 0) == 0);
    lemma_cbd_values_3(0);
    assert(cbd_count(3, 0, 1) == 1);
    lemma_cbd_values_3(1);
    assert(cbd_count(3, 0, 2) == 1);
    lemma_cbd_values_3(2);
    assert(cbd_count(3, 0, 3) == 1);
    lemma_cbd_values_3(3);
    assert(cbd_count(3, 0, 4) == 1);
    lemma_cbd_values_3(4);
    assert(cbd_count(3, 0, 5) == 1);
    lemma_cbd_values_3(5);
    assert(cbd_count(3, 0, 6) == 1);
    lemma_cbd_values_3(6);
    assert(cbd_count(3, 0, 7) == 1);
    lemma_cbd_values_3(7);
    assert(cbd_count(3, 0, 8) == 1);
    lemma_cbd_values_3(8);
    assert(cbd_count(3, 0, 9) == 1);
    lemma_cbd_values_3(9);
    assert(cbd_count(3, 0, 10) == 2);
    lemma_cbd_values_3(10);
    assert(cbd_count(3, 0, 11) == 3);
    lemma_cbd_values_3(11);
    assert(cbd_count(3, 0, 12) == 3);
    lemma_cbd_values_3(12);
    assert(cbd_count(3, 0, 13) == 4);
    lemma_cbd_values_3(13);
    assert(cbd_count(3, 0, 14) == 4);
    lemma_cbd_values_3(14);
    assert(cbd_count(3, 0, 15) == 4);
    lemma_cbd_values_3(15);
    assert(cbd_count(3, 0, 16) == 4);
    lemma_cbd_values_3(16);
    assert(cbd_count(3, 0, 17) == 4);
    lemma_cbd_values_3(17);
    assert(cbd_count(3, 0, 18) == 5);
    lemma_cbd_values_3(18);
    assert(cbd_count(3, 0, 19) == 6);
    lemma_cbd_values_3(19);
    assert(cbd_count(3, 0, 20) == 6);
    lemma_cbd_values_3(20);
    assert(cbd_count(3, 0, 21) == 7);
    lemma_cbd_values_3(21);
    assert(cbd_count(3, 0, 22) == 7);
    lemma_cbd_values_3(22);
    assert(cbd_count(3, 0, 23) == 7);
    lemma_cbd_values_3(23);
    assert(cbd_count(3, 0, 24) == 7);
    lemma_cbd_values_3(24);
    assert(cbd_count(3, 0, 25) == 7);
    lemma_cbd_values_3(25);
    assert(cbd_count(3, 0, 26) == 7);
    lemma_cbd_values_3(26);
    assert(cbd_count(3, 0, 27) == 7);
    lemma_cbd_values_3(27);
    assert(cbd_count(3, 0, 28) == 8);
    lemma_cbd_values_3(28);
    assert(cbd_count(3, 0, 29) == 8);
    lemma_cbd_values_3(29);
    assert(cbd_count(3, 0, 30) == 9);
    lemma_cbd_values_3(30);
    assert(cbd_count(3, 0, 31) == 10);
    lemma_cbd_values_3(31);
    assert(cbd_count(3, 0, 32) == 10);
    lemma_cbd_values_3(32);
    assert(cbd_count(3, 0, 33) == 10);
    lemma_cbd_values_3(33);
    assert(cbd_count(3, 0, 34) == 11);
    lemma_cbd_values_3(34);
    assert(cbd_count(3, 0, 35) == 12);
    lemma_cbd_values_3(35);
    assert(cbd_count(3, 0, 36) == 12);
    lemma_cbd_values_3(36);
    assert(cbd_count(3, 0, 37) == 13);
    lemma_cbd_values_3(37);
    assert(cbd_count(3, 0, 38) == 13);
    lemma_cbd_values_3(38);
    assert(cbd_count(3, 0, 39) == 13);
    lemma_cbd_values_3(39);
    assert(cbd_count(3, 0, 40) == 13);
    lemma_cbd_values_3(40);
    assert(cbd_count(3, 0, 41) == 13);
    lemma_cbd_values_3(41);
    assert(cbd_count(3, 0, 42) == 13);
    lemma_cbd_values_3(42);
    assert(cbd_count(3, 0, 43) == 13);
    lemma_cbd_values_3(43);
    assert(cbd_count(3, 0, 44) == 14);
    lemma_cbd_values_3(44);
    assert(cbd_count(3, 0, 45) == 14);
    lemma_cbd_values_3(45);
    assert(cbd_count(3, 0, 46) == 15);
    lemma_cbd_values_3(46);
    assert(cbd_count(3, 0, 47) == 16);
    lemma_cbd_values_3(47);
    assert(cbd_count(3, 0, 48) == 16);
    lemma_cbd_values_3(48);
    assert(cbd_count(3, 0, 49) == 16);
    lemma_cbd_values_3(49);
    assert(cbd_count(3, 0, 50) == 16);
    lemma_cbd_values_3(50);
    assert(cbd_count(3, 0, 51) == 16);
    lemma_cbd_values_3(51);
    assert(cbd_count(3, 0, 52) == 17);
    lemma_cbd_values_3(52);
    assert(cbd_count(3, 0, 53) == 17);
    lemma_cbd_values_3(53);
    assert(cbd_count(3, 0, 54) == 18);
    lemma_cbd_values_3(54);
    assert(cbd_count(3, 0, 55) == 19);
    lemma_cbd_values_3(55);
    assert(cbd_count(3, 0, 56) == 19);
    lemma_cbd_values_3(56);
    assert(cbd_count(3, 0, 57) == 19);
    lemma_cbd_values_3(57);
    assert(cbd_count(3, 0, 58) == 19);
    lemma_cbd_values_3(58);
    assert(cbd_count(3, 0, 59) == 19);
    lemma_cbd_values_3(59);
    assert(cbd_count(3, 0, 60) == 19);
    lemma_cbd_values_3(60);
    assert(cbd_count(3, 0, 61) == 19);
    lemma_cbd_values_3(61);
    assert(cbd_count(3, 0, 62) == 19);
    lemma_cbd_values_3(62);
    assert(cbd_count(3, 0, 63) == 19);
    lemma_cbd_values_3(63);
    assert(cbd_count(3, 0, 64) == 20);
}

/// The values of 6 bits that give the coefficient 1, counted one by one.
proof fn lemma_cbd_count_3_plus_1()
    ensures
        cbd_count(3, 1, 64) == 15,
{
    assert(cbd_count(3, 1, 0) == 0);
    lemma_cbd_values_3(0);
    assert(cbd_count(3, 1, 1) == 0);
    lemma_cbd_values_3(1);
    assert(cbd_count(3, 1, 2) == 1);
    lemma_cbd_values_3(2);
    assert(cbd_count(3, 1, 3) == 2);
    lemma_cbd_values_3(3);
    assert(cbd_count(3, 1, 4) == 2);
    lemma_cbd_values_3(4);
    assert(cbd_count(3, 1, 5) == 3);
    lemma_cbd_values_3(5);
    assert(cbd_count(3, 1, 6) == 3);
    lemma_cbd_values_3(6);
    assert(cbd_count(3, 1, 7) == 3);
    lemma_cbd_values_3(7);
    assert(cbd_count(3, 1, 8) == 3);
    lemma_cbd_values_3(8);
    assert(cbd_count(3, 1, 9) == 3);
    lemma_cbd_values_3(9);
    assert(cbd_count(3, 1, 10) == 3);
    lemma_cbd_values_3(10);
    assert(cbd_count(3, 1, 11) == 3);
    lemma_cbd_values_3(11);
    assert(cbd_count(3, 1, 12) == 4);
    lemma_cbd_values_3(12);
    assert(cbd_count(3, 1, 13) == 4);
    lemma_cbd_values_3(13);
    assert(cbd_count(3, 1, 14) == 5);
    lemma_cbd_values_3(14);
    assert(cbd_count(3, 1, 15) == 6);
    lemma_cbd_values_3(15);
    assert(cbd_count(3, 1, 16) == 6);
    lemma_cbd_values_3(16);
    assert(cbd_count(3, 1, 17) == 6);
    lemma_cbd_values_3(17);
    assert(cbd_count(3, 1, 18) == 6);
    lemma_cbd_values_3(18);
    assert(cbd_count(3, 1, 19) == 6);
    lemma_cbd_values_3(19);
    assert(cbd_count(3, 1, 20) == 7);
    lemma_cbd_values_3(20);
    assert(cbd_count(3, 1, 21) == 7);
    lemma_cbd_values_3(21);
    assert(cbd_count(3, 1, 22) == 8);
    lemma_cbd_values_3(22);
    assert(cbd_count(3, 1, 23) == 9);
    lemma_cbd_values_3(23);
    assert(cbd_count(3, 1, 24) == 9);
    lemma_cbd_values_3(24);
    assert(cbd_count(3, 1, 25) == 9);
    lemma_cbd_values_3(25);
    assert(cbd_count(3, 1, 26) == 9);
    lemma_cbd_values_3(26);
    assert(cbd_count(3, 1, 27) == 9);
    lemma_cbd_values_3(27);
    assert(cbd_count(3, 1, 28) == 9);
    lemma_cbd_values_3(28);
    assert(cbd_count(3, 1, 29) == 9);
    lemma_cbd_values_3(29);
    assert(cbd_count(3, 1, 30) == 9);
    lemma_cbd_values_3(30);
    assert(cbd_count(3, 1, 31) == 9);
    lemma_cbd_values_3(31);
    assert(cbd_count(3, 1, 32) == 10);
    lemma_cbd_values_3(32);
    assert(cbd_count(3, 1, 33) == 10);
    lemma_cbd_values_3(33);
    assert(cbd_count(3, 1, 34) == 10);
    lemma_cbd_values_3(34);
    assert(cbd_count(3, 1, 35) == 10);
    lemma_cbd_values_3(35);
    assert(cbd_count(3, 1, 36) == 11);
    lemma_cbd_values_3(36);
    assert(cbd_count(3, 1, 37) == 11);
    lemma_cbd_values_3(37);
    assert(cbd_count(3, 1, 38) == 12);
    lemma_cbd_values_3(38);
    assert(cbd_count(3, 1, 39) == 13);
    lemma_cbd_values_3(39);
    assert(cbd_count(3, 1, 40) == 13);
    lemma_cbd_values_3(40);
    assert(cbd_count(3, 1, 41) == 13);
    lemma_cbd_values_3(41);
    assert(cbd_count(3, 1, 42) == 13);
    lemma_cbd_values_3(42);
    assert(cbd_count(3, 1, 43) == 13);
    lemma_cbd_values_3(43);
    assert(cbd_count(3, 1, 44) == 13);
    lemma_cbd_values_3(44);
    assert(cbd_count(3, 1, 45) == 13);
    lemma_cbd_values_3(45);
    assert(cbd_count(3, 1, 46) == 13);
    lemma_cbd_values_3(46);
    assert(cbd_count(3, 1, 47) == 13);
    lemma_cbd_values_3(47);
    assert(cbd_count(3, 1, 48) == 14);
    lemma_cbd_values_3(48);
    assert(cbd_count(3, 1, 49) == 14);
    lemma_cbd_values_3(49);
    assert(cbd_count(3, 1, 50) == 14);
    lemma_cbd_values_3(50);
    assert(cbd_count(3, 1, 51) == 14);
    lemma_cbd_values_3(51);
    assert(cbd_count(3, 1, 52) == 14);
    lemma_cbd_values_3(52);
    assert(cbd_count(3, 1, 53) == 14);
    lemma_cbd_values_3(53);
    assert(cbd_count(3, 1, 54) == 14);
    lemma_cbd_values_3(54);
    assert(cbd_count(3, 1, 55) == 14);
    lemma_cbd_values_3(55);
    assert(cbd_count(3, 1, 56) == 15);
    lemma_cbd_values_3(56);
    assert(cbd_count(3, 1, 57) == 15);
    lemma_cbd_values_3(57);
    assert(cbd_count(3, 1, 58) == 15);
    lemma_cbd_values_3(58);
    assert(cbd_count(3, 1, 59) == 15);
    lemma_cbd_values_3(59);
    assert(cbd_count(3, 1, 60) == 15);
    lemma_cbd_values_3(60);
    assert(cbd_count(3, 1, 61) == 15);
    lemma_cbd_values_3(61);
    assert(cbd_count(3, 1, 62) == 15);
    lemma_cbd_values_3(62);
    assert(cbd_count(3, 1, 63) == 15);
    lemma_cbd_values_3(63);
    assert(cbd_count(3, 1, 64) == 15);
}

/// The values of 6 bits that give the coefficient 2, counted one by one.
proof fn lemma_cbd_count_3_plus_2()
    ensures
        cbd_count(3, 2, 64) == 6,
{
    assert(cbd_count(3, 2, 0) == 0);
    lemma_cbd_values_3(0);
    assert(cbd_count(3, 2, 1) == 0);
    lemma_cbd_values_3(1);
    assert(cbd_count(3, 2, 2) == 0);
    lemma_cbd_values_3(2);
    assert(cbd_count(3, 2, 3) == 0);
    lemma_cbd_values_3(3);
    assert(cbd_count(3, 2, 4) == 1);
    lemma_cbd_values_3(4);
    assert(cbd_count(3, 2, 5) == 1);
    lemma_cbd_values_3(5);
    assert(cbd_count(3, 2, 6) == 2);
    lemma_cbd_values_3(6);
    assert(cbd_count(3, 2, 7) == 3);
    lemma_cbd_values_3(7);
    assert(cbd_count(3, 2, 8) == 3);
    lemma_cbd_values_3(8);
    assert(cbd_count(3, 2, 9) == 3);
    lemma_cbd_values_3(9);
    assert(cbd_count(3, 2, 10) == 3);
    lemma_cbd_values_3(10);
    assert(cbd_count(3, 2, 11) == 3);
    lemma_cbd_values_3(11);
    assert(cbd_count(3, 2, 12) == 3);
    lemma_cbd_values_3(12);
    assert(cbd_count(3, 2, 13) == 3);
    lemma_cbd_values_3(13);
    assert(cbd_count(3, 2, 14) == 3);
    lemma_cbd_values_3(14);
    assert(cbd_count(3, 2, 15) == 3);
    lemma_cbd_values_3(15);
    assert(cbd_count(3, 2, 16) == 4);
    lemma_cbd_values_3(16);
    assert(cbd_count(3, 2, 17) == 4);
    lemma_cbd_values_3(17);
    assert(cbd_count(3, 2, 18) == 4);
    lemma_cbd_values_3(18);
    assert(cbd_count(3, 2, 19) == 4);
    lemma_cbd_values_3(19);
    assert(cbd_count(3, 2, 20) == 4);
    lemma_cbd_values_3(20);
    assert(cbd_count(3, 2, 21) == 4);
    lemma_cbd_values_3(21);
    assert(cbd_count(3, 2, 22) == 4);
    lemma_cbd_values_3(22);
    assert(cbd_count(3, 2, 23) == 4);
    lemma_cbd_values_3(23);
    assert(cbd_count(3, 2, 24) == 5);
    lemma_cbd_values_3(24);
    assert(cbd_count(3, 2, 25) == 5);
    lemma_cbd_values_3(25);
    assert(cbd_count(3, 2, 26) == 5);
    lemma_cbd_values_3(26);
    assert(cbd_count(3, 2, 27) == 5);
    lemma_cbd_values_3(27);
    assert(cbd_count(3, 2, 28) == 5);
    lemma_cbd_values_3(28);
    assert(cbd_count(3, 2, 29) == 5);
    lemma_cbd_values_3(29);
    assert(cbd_count(3, 2, 30) == 5);
    lemma_cbd_values_3(30);
    assert(cbd_count(3, 2, 31) == 5);
    lemma_cbd_values_3(31);
    assert(cbd_count(3, 2, 32) == 5);
    lemma_cbd_values_3(32);
    assert(cbd_count(3, 2, 33) == 5);
    lemma_cbd_values_3(33);
    assert(cbd_count(3, 2, 34) == 5);
    lemma_cbd_values_3(34);
    assert(cbd_count(3, 2, 35) == 5);
    lemma_cbd_values_3(35);
    assert(cbd_count(3, 2, 36) == 5);
    lemma_cbd_values_3(36);
    assert(cbd_count(3, 2, 37) == 5);
    lemma_cbd_values_3(37);
    assert(cbd_count(3, 2, 38) == 5);
    lemma_cbd_values_3(38);
    assert(cbd_count(3, 2, 39) == 5);
    lemma_cbd_values_3(39);
    assert(cbd_count(3, 2, 40) == 6);
    lemma_cbd_values_3(40);
    assert(cbd_count(3, 2, 41) == 6);
    lemma_cbd_values_3(41);
    assert(cbd_count(3, 2, 42) == 6);
    lemma_cbd_values_3(42);
    assert(cbd_count(3, 2, 43) == 6);
    lemma_cbd_values_3(43);
    assert(cbd_count(3, 2, 44) == 6);
    lemma_cbd_values_3(44);
    assert(cbd_count(3, 2, 45) == 6);
    lemma_cbd_values_3(45);
    assert(cbd_count(3, 2, 46) == 6);
    lemma_cbd_values_3(46);
    assert(cbd_count(3, 2, 47) == 6);
    lemma_cbd_values_3(47);
    assert(cbd_count(3, 2, 48) == 6);
    lemma_cbd_values_3(48);
    assert(cbd_count(3, 2, 49) == 6);
    lemma_cbd_values_3(49);
    assert(cbd_count(3, 2, 50) == 6);
    lemma_cbd_values_3(50);
    assert(cbd_count(3, 2, 51) == 6);
    lemma_cbd_values_3(51);
    assert(cbd_count(3, 2, 52) == 6);
    lemma_cbd_values_3(52);
    assert(cbd_count(3, 2, 53) == 6);
    lemma_cbd_values_3(53);
    assert(cbd_count(3, 2, 54) == 6);
    lemma_cbd_values_3(54);
    assert(cbd_count(3, 2, 55) == 6);
    lemma_cbd_values_3(55);
    assert(cbd_count(3, 2, 56) == 6);
    lemma_cbd_values_3(56);
    assert(cbd_count(3, 2, 57) == 6);
    lemma_cbd_values_3(57);
    assert(cbd_count(3, 2, 58) == 6);
    lemma_cbd_values_3(58);
    assert(cbd_count(3, 2, 59) == 6);
    lemma_cbd_values_3(59);
    assert(cbd_count(3, 2, 60) == 6);
    lemma_cbd_values_3(60);
    assert(cbd_count(3, 2, 61) == 6);
    lemma_cbd_values_3(61);
    assert(cbd_count(3, 2, 62) == 6);
    lemma_cbd_values_3(62);
    assert(cbd_count(3, 2, 63) == 6);
    lemma_cbd_values_3(63);
    assert(cbd_count(3, 2, 64) == 6);
}

/// The values of 6 bits that give the coefficient 3, counted one by one.
proof fn lemma_cbd_count_3_plus_3()
    ensures
        cbd_count(3, 3, 64) == 1,
{
    assert(cbd_count(3, 3, 0) == 0);
    lemma_cbd_values_3(0);
    assert(cbd_count(3, 3, 1) == 0);
    lemma_cbd_values_3(1);
    assert(cbd_count(3, 3, 2) == 0);
    lemma_cbd_values_3(2);
    assert(cbd_count(3, 3, 3) == 0);
    lemma_cbd_values_3(3);
    assert(cbd_count(3, 3, 4) == 0);
    lemma_cbd_values_3(4);
    assert(cbd_count(3, 3, 5) == 0);
    lemma_cbd_values_3(5);
    assert(cbd_count(3, 3, 6) == 0);
    lemma_cbd_values_3(6);
    assert(cbd_count(3, 3, 7) == 0);
    lemma_cbd_values_3(7);
    assert(cbd_count(3, 3, 8) == 1);
    lemma_cbd_values_3(8);
    assert(cbd_count(3, 3, 9) == 1);
    lemma_cbd_values_3(9);
    assert(cbd_count(3, 3, 10) == 1);
    lemma_cbd_values_3(10);
    assert(cbd_count(3, 3, 11) == 1);
    lemma_cbd_values_3(11);
    assert(cbd_count(3, 3, 12) == 1);
    lemma_cbd_values_3(12);
    assert(cbd_count(3, 3, 13) == 1);
    lemma_cbd_values_3(13);
    assert(cbd_count(3, 3, 14) == 1);
    lemma_cbd_values_3(14);
    assert(cbd_count(3, 3, 15) == 1);
    lemma_cbd_values_3(15);
    assert(cbd_count(3, 3, 16) == 1);
    lemma_cbd_values_3(16);
    assert(cbd_count(3, 3, 17) == 1);
    lemma_cbd_values_3(17);
    assert(cbd_count(3, 3, 18) == 1);
    lemma_cbd_values_3(18);
    assert(cbd_count(3, 3, 19) == 1);
    lemma_cbd_values_3(19);
    assert(cbd_count(3, 3, 20) == 1);
    lemma_cbd_values_3(20);
    assert(cbd_count(3, 3, 21) == 1);
    lemma_cbd_values_3(21);
    assert(cbd_count(3, 3, 22) == 1);
    lemma_cbd_values_3(22);
    assert(cbd_count(3, 3, 23) == 1);
    lemma_cbd_values_3(23);
    assert(cbd_count(3, 3, 24) == 1);
    lemma_cbd_values_3(24);
    assert(cbd_count(3, 3, 25) == 1);
    lemma_cbd_values_3(25);
    assert(cbd_count(3, 3, 26) == 1);
    lemma_cbd_values_3(26);
    assert(cbd_count(3, 3, 27) == 1);
    lemma_cbd_values_3(27);
    assert(cbd_count(3, 3, 28) == 1);
    lemma_cbd_values_3(28);
    assert(cbd_count(3, 3, 29) == 1);
    lemma_cbd_values_3(29);
    assert(cbd_count(3, 3, 30) == 1);
    lemma_cbd_values_3(30);
    assert(cbd_count(3, 3, 31) == 1);
    lemma_cbd_values_3(31);
    assert(cbd_count(3, 3, 32) == 1);
    lemma_cbd_values_3(32);
    assert(cbd_count(3, 3, 33) == 1);
    lemma_cbd_values_3(33);
    assert(cbd_count(3, 3, 34) == 1);
    lemma_cbd_values_3(34);
    assert(cbd_count(3, 3, 35) == 1);
    lemma_cbd_values_3(35);
    assert(cbd_count(3, 3, 36) == 1);
    lemma_cbd_values_3(36);
    assert(cbd_count(3, 3, 37) == 1);
    lemma_cbd_values_3(37);
    assert(cbd_count(3, 3, 38) == 1);
    lemma_cbd_values_3(38);
    assert(cbd_count(3, 3, 39) == 1);
    lemma_cbd_values_3(39);
    assert(cbd_count(3, 3, 40) == 1);
    lemma_cbd_values_3(40);
    assert(cbd_count(3, 3, 41) == 1);
    lemma_cbd_values_3(41);
    assert(cbd_count(3, 3, 42) == 1);
    lemma_cbd_values_3(42);
    assert(cbd_count(3, 3, 43) == 1);
    lemma_cbd_values_3(43);
    assert(cbd_count(3, 3, 44) == 1);
    lemma_cbd_values_3(44);
    assert(cbd_count(3, 3, 45) == 1);
    lemma_cbd_values_3(45);
    assert(cbd_count(3, 3, 46) == 1);
    lemma_cbd_values_3(46);
    assert(cbd_count(3, 3, 47) == 1);
    lemma_cbd_values_3(47);
    assert(cbd_count(3, 3, 48) == 1);
    lemma_cbd_values_3(48);
    assert(cbd_count(3, 3, 49) == 1);
    lemma_cbd_values_3(49);
    assert(cbd_count(3, 3, 50) == 1);
    lemma_cbd_values_3(50);
    assert(cbd_count(3, 3, 51) == 1);
    lemma_cbd_values_3(51);
    assert(cbd_count(3, 3, 52) == 1);
    lemma_cbd_values_3(52);
    assert(cbd_count(3, 3, 53) == 1);
    lemma_cbd_values_3(53);
    assert(cbd_count(3, 3, 54) == 1);
    lemma_cbd_values_3(54);
    assert(cbd_count(3, 3, 55) == 1);
    lemma_cbd_values_3(55);
    assert(cbd_count(3, 3, 56) == 1);
    lemma_cbd_values_3(56);
    assert(cbd_count(3, 3, 57) == 1);
    lemma_cbd_values_3(57);
    assert(cbd_count(3, 3, 58) == 1);
    lemma_cbd_values_3(58);
    assert(cbd_count(3, 3, 59) == 1);
    lemma_cbd_values_3(59);
    assert(cbd_count(3, 3, 60) == 1);
    lemma_cbd_values_3(60);
    assert(cbd_count(3, 3, 61) == 1);
    lemma_cbd_values_3(61);
    assert(cbd_count(3, 3, 62) == 1);
    lemma_cbd_values_3(62);
    assert(cbd_count(3, 3, 63) == 1);
    lemma_cbd_values_3(63);
    assert(cbd_count(3, 3, 64) == 1);
}

/// The weights of the distribution with parameter 2: of the 16 values of
/// four bits, 1, 4, 6, 4 and 1 give the coefficients -2, -1, 0, 1 and 2.
pub proof fn lemma_cbd_weights_2()
    ensures
        cbd_count(2, 3327, 16) == 1,
        cbd_count(2, 3328, 16) == 4,
        cbd_count(2, 0, 16) == 6,
        cbd_count(2, 1, 16) == 4,
        cbd_count(2, 2, 16) == 1,
{
    lemma_cbd_count_2_minus_2();
    lemma_cbd_count_2_minus_1();
    lemma_cbd_count_2_zero();
    lemma_cbd_count_2_plus_1();
    lemma_cbd_count_2_plus_2();
}

/// The weights of the distribution with parameter 3: of the 64 values of
/// six bits, 1, 6, 15, 20, 15, 6 and 1 give the coefficients -3 to 3.
pub proof fn lemma_cbd_weights_3()
    ensures
        cbd_count(3, 3326, 64) == 1,
        cbd_count(3, 3327, 64) == 6,
        cbd_count(3, 3328, 64) == 15,
        cbd_count(3, 0, 64) == 20,
        cbd_count(3, 1, 64) == 15,
        cbd_count(3, 2, 64) == 6,
        cbd_count(3, 3, 64) == 1,
{
    lemma_cbd_count_3_minus_3();
    lemma_cbd_count_3_minus_2();
    lemma_cbd_count_3_minus_1();
    lemma_cbd_count_3_zero();
    lemma_cbd_count_3_plus_1();
    lemma_cbd_count_3_plus_2();
    lemma_cbd_count_3_plus_3();
}

} // verus!
