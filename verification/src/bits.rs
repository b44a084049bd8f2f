//! Shifts and bitwise or on 128-bit words, as arithmetic.

use vstd::arithmetic::power2::{
    lemma_pow2_pos, lemma_pow2_strictly_increases, lemma_pow2_unfold, pow2,
};
use vstd::prelude::*;

verus! {

/// Shifting left by `s` multiplies by two to the `s`, as long as nothing is
/// shifted out.
pub proof fn lemma_shl_is_mul(v: u128, s: u128)
    requires
        s < 128,
        v * pow2(s as nat) <= u128::MAX,
    ensures
        v << s == v * pow2(s as nat),
    decreases s,
{
    if s == 0 {
        assert(v << 0 == v) by (bit_vector);
        assert(pow2(0) == 1) by {
            vstd::arithmetic::power2::lemma2_to64();
        }
        assert(v * pow2(s as nat) == v) by (nonlinear_arith)
            requires
                pow2(s as nat) == 1,
        ;
    } else {
        let t = (s - 1) as u128;
        lemma_pow2_unfold(s as nat);
        lemma_pow2_pos(t as nat);
        assert(v * pow2(s as nat) == 2 * (v * pow2(t as nat))) by (nonlinear_arith)
            requires
                pow2(s as nat) == 2 * pow2(t as nat),
        ;
        lemma_shl_is_mul(v, t);
        let y = v << t;
        assert(y < 0x8000_0000_0000_0000_0000_0000_0000_0000);
        assert(v << s == (y << 1)) by (bit_vector)
            requires
                y == v << t,
                s == t + 1,
                s < 128,
        ;
        assert(y << 1 == 2 * y) by (bit_vector)
            requires
                y < 0x8000_0000_0000_0000_0000_0000_0000_0000,
        ;
    }
}

/// Or-ing a value shifted past every set bit of `x` onto `x` adds it.
pub proof fn lemma_or_is_add(x: u128, v: u128, s: u128)
    requires
        s < 128,
        x < pow2(s as nat),
        v * pow2(s as nat) <= u128::MAX,
    ensures
        x | (v << s) == x + v * pow2(s as nat),
        x + v * pow2(s as nat) <= u128::MAX,
{
    lemma_shl_is_mul(v, s);
    lemma_pow2_bound(s);
    lemma_shl_is_mul(1, s);
    let one = 1u128 << s;
    let y = v << s;
    assert(x | y == x + y && x + y <= 0xffff_ffff_ffff_ffff_ffff_ffff_ffff_ffff) by (bit_vector)
        requires
            x < one,
            one == 1u128 << s,
            y == v << s,
            s < 128,
    ;
}

/// Two to a power below 128 fits in 128 bits.
pub proof fn lemma_pow2_bound(s: u128)
    requires
        s < 128,
    ensures
        pow2(s as nat) <= u128::MAX,
        pow2(s as nat) <= 0x8000_0000_0000_0000_0000_0000_0000_0000,
    decreases s,
{
    if s == 0 {
        vstd::arithmetic::power2::lemma2_to64();
    } else {
        lemma_pow2_unfold(s as nat);
        lemma_pow2_bound((s - 1) as u128);
        lemma_pow2_strictly_increases((s - 1) as nat, 127);
        lemma_pow2_unfold(127);
        if s < 127 {
            lemma_pow2_strictly_increases(s as nat, 127);
        }
        lemma_pow2_127();
    }
}

/// The value of two to the 127.
proof fn lemma_pow2_127()
    ensures
        pow2(127) == 0x8000_0000_0000_0000_0000_0000_0000_0000,
{
    vstd::arithmetic::power2::lemma2_to64();
    vstd::arithmetic::power2::lemma_pow2_adds(64, 63);
    vstd::arithmetic::power2::lemma_pow2_adds(32, 31);
}

/// A digit of `w` bits put above a number of `s` bits gives a number of
/// `s + w` bits.
pub proof fn lemma_digit_bound(x: int, v: int, s: nat, w: nat)
    requires
        0 <= x < pow2(s),
        0 <= v < pow2(w),
        s + w < 128,
    ensures
        0 <= v * pow2(s),
        x + v * pow2(s) < pow2(s + w),
        pow2(s + w) <= u128::MAX,
{
    vstd::arithmetic::power2::lemma_pow2_adds(s, w);
    lemma_pow2_bound((s + w) as u128);
    lemma_pow2_pos(s);
    assert(0 <= v * pow2(s) && x + v * pow2(s) < pow2(s) * pow2(w)) by (nonlinear_arith)
        requires
            0 <= x < pow2(s),
            0 <= v,
            v + 1 <= pow2(w),
    ;
}

} // verus!
