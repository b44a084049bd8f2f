//! The byte codec bit by bit: bit `j` of value `i` is bit `i * d + j` of the
//! encoding, where bit `n` of a byte string is bit `n % 8` of byte `n / 8`.

use crate::codec_laws::{
    fits, lemma_byte_of, lemma_field_of_sum, lemma_packed_is_sum, packed_sum,
};
use crate::encode::{
    byte_step, bytes_value, decode_field, encode_at, encode_spec, field_of, gcd8, packed,
    valid_width, value_step,
};
use vstd::arithmetic::div_mod::{
    lemma_div_denominator, lemma_div_pos_is_pos, lemma_fundamental_div_mod,
    lemma_fundamental_div_mod_converse, lemma_hoist_over_denominator, lemma_mod_bound,
    lemma_mod_multiples_vanish,
};
use vstd::arithmetic::power2::{lemma2_to64, lemma_pow2_adds, lemma_pow2_pos, pow2};
use vstd::prelude::*;

verus! {

/// Bit `r` of `x`, the least significant being bit 0.
pub open spec fn bit_at(x: int, r: int) -> int {
    (x / (pow2(r as nat) as int)) % 2
}

/// Bit `n` of a byte string: bit `n % 8` of byte `n / 8`.
pub open spec fn stream_bit(bytes: Seq<u8>, n: int) -> int {
    bit_at(bytes[n / 8] as int, n % 8)
}

/// A bit of the `w` low-order bits of `y` is that bit of `y`.
pub proof fn lemma_bit_of_low_bits(y: int, w: nat, r: nat)
    requires
        0 <= y,
        r < w,
    ensures
        bit_at(y % (pow2(w) as int), r as int) == bit_at(y, r as int),
{
    let low = pow2(r) as int;
    let high = pow2((w - r) as nat) as int;
    let whole = pow2(w) as int;
    lemma_pow2_pos(r);
    lemma_pow2_pos(w);
    lemma_pow2_pos((w - r) as nat);
    lemma_pow2_adds(r, (w - r) as nat);
    let q = y / whole;
    let m = y % whole;
    lemma_fundamental_div_mod(y, whole);
    // y = m + (high q) low, so that y / low = m / low + high q
    assert(y == m + (high * q) * low) by (nonlinear_arith)
        requires
            y == whole * q + m,
            whole == low * high,
    ;
    lemma_hoist_over_denominator(m, high * q, low as nat);
    // high is even
    lemma_pow2_adds(1, (w - r - 1) as nat);
    lemma2_to64();
    let half = pow2((w - r - 1) as nat) as int;
    assert(high * q == 2 * (half * q)) by (nonlinear_arith)
        requires
            high == 2 * half,
    ;
    lemma_mod_multiples_vanish(half * q, m / low, 2);
}

/// A bit of `x` without its `a` low-order bits is a higher bit of `x`.
pub proof fn lemma_bit_of_shifted(x: int, a: nat, r: nat)
    requires
        0 <= x,
    ensures
        bit_at(x / (pow2(a) as int), r as int) == bit_at(x, (a + r) as int),
{
    lemma_pow2_pos(a);
    lemma_pow2_pos(r);
    lemma_pow2_adds(a, r);
    lemma_div_denominator(x, pow2(a) as int, pow2(r) as int);
}

/// A bit of field `j` of `d` bits of `x` is a bit of `x`.
pub proof fn lemma_bit_of_field(x: int, d: int, j: int, r: int)
    requires
        0 <= x,
        0 <= j,
        0 <= r < d,
    ensures
        bit_at(field_of(x, d, j), r) == bit_at(x, d * j + r),
{
    assert(0 <= d * j) by (nonlinear_arith)
        requires
            0 <= j,
            0 < d,
    ;
    lemma_pow2_pos((d * j) as nat);
    lemma_div_pos_is_pos(x, pow2((d * j) as nat) as int);
    lemma_bit_of_low_bits(x / (pow2((d * j) as nat) as int), d as nat, r as nat);
    lemma_bit_of_shifted(x, (d * j) as nat, r as nat);
}

/// The number that bytes are the digits of is the number with the bytes as
/// values of eight bits.
pub proof fn lemma_bytes_value_is_sum(bytes: Seq<u8>, base: int, n: int)
    requires
        0 <= base,
        0 <= n,
        base + n <= bytes.len(),
    ensures
        bytes_value(bytes, base, n) == packed_sum(bytes.map(|i: int, b: u8| b as int), base, 8, n),
        fits(bytes.map(|i: int, b: u8| b as int), base, 8, n),
    decreases n,
{
    lemma2_to64();
    if n > 0 {
        lemma_bytes_value_is_sum(bytes, base, n - 1);
    }
}

/// The numbers of values and of bytes in a chunk, for each width.
pub proof fn lemma_steps(d: int)
    requires
        valid_width(d),
    ensures
        d == 1 ==> value_step(d) == 8 && byte_step(d) == 1,
        d == 4 ==> value_step(d) == 2 && byte_step(d) == 1,
        d == 5 ==> value_step(d) == 8 && byte_step(d) == 5,
        d == 6 ==> value_step(d) == 4 && byte_step(d) == 3,
        d == 10 ==> value_step(d) == 4 && byte_step(d) == 5,
        d == 11 ==> value_step(d) == 8 && byte_step(d) == 11,
        d == 12 ==> value_step(d) == 2 && byte_step(d) == 3,
        d * value_step(d) == 8 * byte_step(d),
        1 <= value_step(d) <= 8,
        1 <= byte_step(d) <= 11,
{
    let g = gcd8(d);
    if d == 1 || d == 5 || d == 11 {
        assert(g == 1);
        lemma_fundamental_div_mod_converse(8, g, 8, 0);
        lemma_fundamental_div_mod_converse(d, g, d, 0);
    } else if d == 6 || d == 10 {
        assert(g == 2);
        lemma_fundamental_div_mod_converse(8, g, 4, 0);
        lemma_fundamental_div_mod_converse(d, g, d / 2, 0);
    } else {
        assert(g == 4);
        lemma_fundamental_div_mod_converse(8, g, 2, 0);
        lemma_fundamental_div_mod_converse(d, g, d / 4, 0);
    }
}

/// Where bit `n` of an encoding lies: in chunk `c`, in byte `t` and in
/// value `j` of the chunk, at the same bit of the chunk.
proof fn lemma_bit_position(d: int, n: int) -> (r: (int, int, int))
    requires
        valid_width(d),
        0 <= n < 256 * d,
    ensures
        ({
            let (c, t, j) = r;
            let v = value_step(d);
            let w = byte_step(d);
            &&& 0 <= c
            &&& 0 <= t < w
            &&& 0 <= j < v
            &&& 1 <= v <= 8
            &&& 1 <= w <= 11
            &&& d * v == 8 * w
            &&& n / 8 == c * w + t
            &&& n / d == c * v + j
            &&& 8 * t + n % 8 == d * j + n % d
            &&& (c * w + t) / w == c
            &&& (c * w + t) % w == t
            &&& (c * v + j) / v == c
            &&& (c * v + j) % v == j
            &&& 0 <= c * v
            &&& c * v + v <= 256
            &&& 0 <= c * w
            &&& c * w + w <= 32 * d
        }),
{
    let v = value_step(d);
    let w = byte_step(d);
    lemma_steps(d);
    let bits = 8 * w;
    let c = n / bits;
    let m = n % bits;
    lemma_fundamental_div_mod(n, bits);
    lemma_mod_bound(n, bits);
    lemma_div_pos_is_pos(n, bits);
    let t = m / 8;
    let j = m / d;
    lemma_fundamental_div_mod(m, d);
    lemma_mod_bound(m, d);
    lemma_div_pos_is_pos(m, d);
    assert(j < v) by (nonlinear_arith)
        requires
            m == d * j + m % d,
            0 <= m % d,
            m < d * v,
            0 < d,
    ;
    assert(n == (c * w + t) * 8 + m % 8 && n == (c * v + j) * d + m % d && c * (8 * w) == bits * c)
        by (nonlinear_arith)
        requires
            n == bits * c + m,
            bits == 8 * w,
            bits == d * v,
            m == 8 * t + m % 8,
            m == d * j + m % d,
    ;
    lemma_fundamental_div_mod_converse(n, 8, c * w + t, m % 8);
    lemma_fundamental_div_mod_converse(n, d, c * v + j, m % d);
    lemma_fundamental_div_mod_converse(c * w + t, w, c, t);
    lemma_fundamental_div_mod_converse(c * v + j, v, c, j);
    assert(c * v < 256 && 0 <= c * v) by (nonlinear_arith)
        requires
            0 <= c,
            n == (d * v) * c + m,
            0 <= m,
            n < 256 * d,
            0 < v,
            0 < d,
    ;
    assert(c * v + v <= 256) by {
        let k: int = if v == 8 {
            32
        } else if v == 4 {
            64
        } else {
            128
        };
        assert(v * k == 256);
        assert(c < k) by (nonlinear_arith)
            requires
                c * v < 256,
                256 == v * k,
                0 < v,
        ;
        assert(c * v + v <= v * k) by (nonlinear_arith)
            requires
                c < k,
                0 < v,
        ;
    }
    assert(0 <= c * w && c * w + w <= 32 * d) by (nonlinear_arith)
        requires
            0 <= c,
            c * v + v <= 256,
            d * v == 8 * w,
            0 < v,
            0 < w,
            0 < d,
    ;
    (c, t, j)
}

/// Encoding puts bit `n % d` of value `n / d` at bit `n` of the bytes, where
/// every value fits in `d` bits.
pub proof fn lemma_encode_bits(vals: Seq<int>, d: int, n: int)
    requires
        valid_width(d),
        vals.len() == 256,
        forall|i: int| 0 <= i < 256 ==> 0 <= #[trigger] vals[i] < pow2(d as nat),
        0 <= n < 256 * d,
    ensures
        stream_bit(encode_spec(vals, d), n) == bit_at(vals[n / d], n % d),
{
    let (c, t, j) = lemma_bit_position(d, n);
    let v = value_step(d);
    let w = byte_step(d);
    let base = c * v;
    let enc = encode_spec(vals, d);
    assert(fits(vals, base, d, v)) by {
        assert forall|k: int| 0 <= k < v implies 0 <= #[trigger] vals[base + k] < pow2(
            d as nat,
        ) by {}
    }
    lemma_packed_is_sum(vals, base, d, v);
    let x = packed(vals, base, d, v);
    // the bit of the byte
    assert(enc[c * w + t] == encode_at(vals, d, c * w + t));
    lemma_byte_of(x, t);
    lemma2_to64();
    assert(enc[c * w + t] as int == field_of(x as int, 8, t));
    lemma_bit_of_field(x as int, 8, t, n % 8);
    // the bit of the value
    lemma_field_of_sum(vals, base, d, v, j);
    lemma_bit_of_field(x as int, d, j, n % d);
}

/// Decoding takes bit `r` of field `i` from bit `i * d + r` of the bytes.
pub proof fn lemma_decode_bits(bytes: Seq<u8>, d: int, i: int, r: int)
    requires
        valid_width(d),
        bytes.len() == 32 * d,
        0 <= i < 256,
        0 <= r < d,
    ensures
        bit_at(decode_field(bytes, d, i), r) == stream_bit(bytes, i * d + r),
        0 <= decode_field(bytes, d, i) < pow2(d as nat),
{
    let n = i * d + r;
    assert(0 <= n < 256 * d) by (nonlinear_arith)
        requires
            n == i * d + r,
            0 <= i < 256,
            0 <= r < d,
    ;
    let (c, t, j) = lemma_bit_position(d, n);
    lemma_fundamental_div_mod_converse(n, d, i, r);
    let v = value_step(d);
    let w = byte_step(d);
    let y = bytes_value(bytes, c * w, w);
    let digits = bytes.map(|k: int, b: u8| b as int);
    lemma_bytes_value_is_sum(bytes, c * w, w);
    // the bit of the field
    lemma_field_of_sum(digits, c * w, 8, w, t);
    lemma_bit_of_field(y, d, j, r);
    // the bit of the byte
    assert(bytes[c * w + t] as int == field_of(y, 8, t));
    lemma_bit_of_field(y, 8, t, n % 8);
    lemma_pow2_pos(d as nat);
    lemma_mod_bound(y / (pow2((d * j) as nat) as int), pow2(d as nat) as int);
}

} // verus!
