//! Laws of the byte codec: what the encoder's accumulator is as a number, and
//! that decoding undoes encoding.

use crate::bits::{lemma_digit_bound, lemma_or_is_add, lemma_pow2_bound};
use crate::encode::{
    byte_of, byte_step, bytes_value, decode_at, decode_spec, encode_at, encode_spec, field_of,
    packed, valid_width, value_step, vec_decode_spec, vec_encode_spec,
};
use vstd::arithmetic::div_mod::{
    lemma_div_multiples_vanish_fancy, lemma_div_pos_is_pos, lemma_fundamental_div_mod,
    lemma_fundamental_div_mod_converse, lemma_mod_bound,
    lemma_hoist_over_denominator, lemma_mod_breakdown, lemma_mod_multiples_vanish,
    lemma_small_mod,
};
use vstd::arithmetic::power2::{lemma2_to64, lemma_pow2_adds, lemma_pow2_pos, pow2};
use vstd::bits::lemma_u128_shr_is_div;
use vstd::prelude::*;

verus! {

/// The number whose digits of `d` bits are the `n` values from `base` on.
pub open spec fn packed_sum(vals: Seq<int>, base: int, d: int, n: int) -> int
    decreases n,
{
    if n <= 0 {
        0
    } else {
        packed_sum(vals, base, d, n - 1) + vals[base + n - 1] * pow2((d * (n - 1)) as nat)
    }
}

/// The `n` values from `base` on fit in `d` bits each.
pub open spec fn fits(vals: Seq<int>, base: int, d: int, n: int) -> bool {
    forall|j: int| 0 <= j < n ==> 0 <= #[trigger] vals[base + j] < pow2(d as nat)
}

/// Where every value fits in `d` bits, the accumulator is the number with
/// the values as digits.
pub proof fn lemma_packed_is_sum(vals: Seq<int>, base: int, d: int, n: int)
    requires
        1 <= d,
        0 <= n,
        d * n < 128,
        fits(vals, base, d, n),
    ensures
        packed(vals, base, d, n) == packed_sum(vals, base, d, n),
        0 <= packed_sum(vals, base, d, n) < pow2((d * n) as nat),
    decreases n,
{
    if n <= 0 {
        lemma2_to64();
        assert(d * n == 0) by (nonlinear_arith)
            requires
                n == 0,
        ;
    } else {
        assert(d * (n - 1) + d == d * n && 0 <= d * (n - 1)) by (nonlinear_arith)
            requires
                1 <= d,
                1 <= n,
        ;
        assert(fits(vals, base, d, n - 1));
        lemma_packed_is_sum(vals, base, d, n - 1);
        let s = (d * (n - 1)) as nat;
        let v = vals[base + (n - 1)];
        let x = packed(vals, base, d, n - 1);
        lemma_digit_bound(x as int, v, s, d as nat);
        lemma_pow2_bound(d as u128);
        lemma_or_is_add(x, v as u128, s as u128);
    }
}

/// A byte of a 128-bit word is a base-256 digit of it.
pub proof fn lemma_byte_of(x: u128, t: int)
    requires
        0 <= t < 16,
    ensures
        byte_of(x, t) == (x as int / pow2((8 * t) as nat) as int) % 256,
{
    let s = (8 * t) as u128;
    lemma_u128_shr_is_div(x, s);
    let y = x >> s;
    assert(y & 0xff == y % 256) by (bit_vector);
}

/// The number that the base-256 digits of `x` are the digits of is `x`
/// itself, up to the number of digits taken.
pub proof fn lemma_bytes_recompose(bytes: Seq<u8>, base: int, x: int, n: int)
    requires
        0 <= x,
        0 <= n,
        forall|t: int|
            0 <= t < n ==> #[trigger] bytes[base + t] == (x / pow2((8 * t) as nat) as int) % 256,
    ensures
        bytes_value(bytes, base, n) == x % (pow2((8 * n) as nat) as int),
    decreases n,
{
    lemma2_to64();
    if n > 0 {
        lemma_bytes_recompose(bytes, base, x, n - 1);
        let lo = pow2((8 * (n - 1)) as nat) as int;
        lemma_pow2_pos((8 * (n - 1)) as nat);
        lemma_pow2_adds((8 * (n - 1)) as nat, 8);
        lemma_mod_breakdown(x, lo, 256);
        assert(bytes[base + (n - 1)] == (x / lo) % 256);
        assert(bytes[base + n - 1] * lo == lo * ((x / lo) % 256)) by (nonlinear_arith)
            requires
                bytes[base + n - 1] == (x / lo) % 256,
        ;
    }
}

/// Digit `j` of the number with the values as digits is value `j`.
pub proof fn lemma_field_of_sum(vals: Seq<int>, base: int, d: int, n: int, j: int)
    requires
        1 <= d,
        0 <= j < n,
        fits(vals, base, d, n),
    ensures
        field_of(packed_sum(vals, base, d, n), d, j) == vals[base + j],
        0 <= packed_sum(vals, base, d, n) < pow2((d * n) as nat),
    decreases n,
{
    let lo = pow2((d * j) as nat) as int;
    let radix = pow2(d as nat) as int;
    let v = vals[base + (n - 1)];
    assert(0 <= v < radix);
    assert(d * (n - 1) + d == d * n && 0 <= d * (n - 1) && 0 <= d * j && d * j <= d * (n - 1))
        by (nonlinear_arith)
        requires
            1 <= d,
            0 <= j < n,
    ;
    lemma_pow2_pos((d * j) as nat);
    lemma_pow2_pos(d as nat);
    lemma_sum_bound(vals, base, d, n - 1);
    lemma_sum_bound(vals, base, d, n);
    let rest = packed_sum(vals, base, d, n - 1);
    if j == n - 1 {
        // the lower digits are the remainder
        assert(packed_sum(vals, base, d, n) == lo * v + rest) by (nonlinear_arith)
            requires
                packed_sum(vals, base, d, n) == rest + v * lo,
        ;
        lemma_div_multiples_vanish_fancy(v, rest, lo);
        lemma_small_mod(v as nat, radix as nat);
    } else {
        assert(fits(vals, base, d, n - 1));
        lemma_field_of_sum(vals, base, d, n - 1, j);
        // the top digit is a multiple of the radix above digit j
        let gap = (d * (n - 1) - d * j - d) as nat;
        assert(d * (n - 1) - d * j - d >= 0) by (nonlinear_arith)
            requires
                1 <= d,
                j + 1 <= n - 1,
        ;
        lemma_pow2_adds((d * j) as nat, (d + gap) as nat);
        lemma_pow2_adds(d as nat, gap);
        let up = pow2(gap) as int;
        assert(v * pow2((d * (n - 1)) as nat) == (v * (radix * up)) * lo) by (nonlinear_arith)
            requires
                pow2((d * (n - 1)) as nat) == lo * (radix * up),
        ;
        lemma_hoist_over_denominator(rest, v * (radix * up), lo as nat);
        assert(v * (radix * up) == radix * (v * up)) by (nonlinear_arith);
        lemma_mod_multiples_vanish(v * up, rest / lo, radix);
    }
}

/// The number with `n` values of `d` bits as digits has `d * n` bits.
pub proof fn lemma_sum_bound(vals: Seq<int>, base: int, d: int, n: int)
    requires
        1 <= d,
        0 <= n,
        fits(vals, base, d, n),
    ensures
        0 <= packed_sum(vals, base, d, n) < pow2((d * n) as nat),
    decreases n,
{
    if n <= 0 {
        lemma2_to64();
        assert(d * n == 0) by (nonlinear_arith)
            requires
                n == 0,
        ;
    } else {
        assert(d * (n - 1) + d == d * n && 0 <= d * (n - 1)) by (nonlinear_arith)
            requires
                1 <= d,
                1 <= n,
        ;
        assert(fits(vals, base, d, n - 1));
        lemma_sum_bound(vals, base, d, n - 1);
        let s = (d * (n - 1)) as nat;
        let v = vals[base + (n - 1)];
        let x = packed_sum(vals, base, d, n - 1);
        lemma_pow2_adds(s, d as nat);
        lemma_pow2_pos(s);
        assert(0 <= v * pow2(s) && x + v * pow2(s) < pow2(s) * pow2(d as nat)) by (nonlinear_arith)
            requires
                0 <= x < pow2(s),
                0 <= v,
                v + 1 <= pow2(d as nat),
        ;
    }
}

/// The values that an encoding with width `d` represents: 256 of them, each
/// of `d` bits, and canonical where `d` is 12.
pub open spec fn encodable(vals: Seq<int>, d: int) -> bool {
    &&& vals.len() == 256
    &&& forall|i: int| 0 <= i < 256 ==> 0 <= #[trigger] vals[i] < pow2(d as nat)
    &&& d == 12 ==> forall|i: int| 0 <= i < 256 ==> #[trigger] vals[i] < 3329
}

/// Where value `i` lies: in chunk `i / v`, at position `i % v`.
proof fn lemma_chunk_of(d: int, i: int)
    requires
        valid_width(d),
        0 <= i < 256,
    ensures
        ({
            let v = value_step(d);
            let w = byte_step(d);
            let c = i / v;
            let j = i % v;
            &&& v * d == 8 * w
            &&& 1 <= w <= 11
            &&& 1 <= v <= 8
            &&& 0 <= c
            &&& c * v + j == i
            &&& 0 <= j < v
            &&& 0 <= c * w
            &&& c * w + w <= 32 * d
            &&& c * v + v <= 256
        }),
{
    if d == 1 {
        lemma_chunk_facts(8, 1, 32, d, i);
    } else if d == 4 {
        lemma_chunk_facts(2, 1, 128, d, i);
    } else if d == 5 {
        lemma_chunk_facts(8, 5, 32, d, i);
    } else if d == 6 {
        lemma_chunk_facts(4, 3, 64, d, i);
    } else if d == 10 {
        lemma_chunk_facts(4, 5, 64, d, i);
    } else if d == 11 {
        lemma_chunk_facts(8, 11, 32, d, i);
    } else {
        lemma_chunk_facts(2, 3, 128, d, i);
    }
}

/// The same for `k` chunks of `v` values and `w` bytes.
proof fn lemma_chunk_facts(v: int, w: int, k: int, d: int, i: int)
    requires
        0 < v,
        0 < w,
        k * v == 256,
        k * w == 32 * d,
        0 <= i < 256,
    ensures
        ({
            let c = i / v;
            let j = i % v;
            &&& 0 <= c
            &&& c * v + j == i
            &&& 0 <= j < v
            &&& 0 <= c * w
            &&& c * w + w <= 32 * d
            &&& c * v + v <= 256
        }),
{
    let c = i / v;
    let j = i % v;
    lemma_fundamental_div_mod(i, v);
    lemma_mod_bound(i, v);
    lemma_div_pos_is_pos(i, v);
    assert(c * v + j == i && c < k && 0 <= c * w && c * w + w <= k * w && c * v + v <= k * v)
        by (nonlinear_arith)
        requires
            i == v * c + j,
            0 <= j < v,
            0 <= c,
            0 < w,
            i < k * v,
    ;
}

/// One value of the round trip.
proof fn lemma_decode_encode_at(vals: Seq<int>, d: int, i: int)
    requires
        valid_width(d),
        encodable(vals, d),
        0 <= i < 256,
    ensures
        decode_at(encode_spec(vals, d), d, i) == vals[i],
{
    let v = value_step(d);
    let w = byte_step(d);
    let c = i / v;
    let j = i % v;
    let bytes = encode_spec(vals, d);
    lemma_chunk_of(d, i);
    let base = c * v;
    assert(fits(vals, base, d, v)) by {
        assert forall|k: int| 0 <= k < v implies 0 <= #[trigger] vals[base + k] < pow2(
            d as nat,
        ) by {}
    }
    lemma_packed_is_sum(vals, base, d, v);
    let x = packed(vals, base, d, v);
    assert forall|t: int| 0 <= t < w implies #[trigger] bytes[c * w + t] == (x as int / pow2(
        (8 * t) as nat,
    ) as int) % 256 by {
        lemma_fundamental_div_mod_converse(c * w + t, w, c, t);
        assert(bytes[c * w + t] == encode_at(vals, d, c * w + t));
        lemma_byte_of(x, t);
    }
    lemma_bytes_recompose(bytes, c * w, x as int, w);
    assert(d * v == 8 * w);
    lemma_small_mod(x as nat, pow2((8 * w) as nat));
    lemma_field_of_sum(vals, base, d, v, j);
    if d == 12 {
        lemma_small_mod(vals[i] as nat, 3329);
    }
}

/// Decoding undoes encoding: for every width, and every 256 values that fit
/// in it (canonical ones, with width 12), decoding the encoding gives the
/// values back.
pub proof fn lemma_decode_encode(vals: Seq<int>, d: int)
    requires
        valid_width(d),
        encodable(vals, d),
    ensures
        decode_spec(encode_spec(vals, d), d) == vals,
{
    assert forall|i: int| 0 <= i < 256 implies decode_spec(encode_spec(vals, d), d)[i]
        == vals[i] by {
        lemma_decode_encode_at(vals, d, i);
    }
    assert(decode_spec(encode_spec(vals, d), d) =~= vals);
}

/// Decoding undoes encoding for vectors: the encoding of `k` polynomials
/// that each have an encoding decodes to the `k` polynomials.
pub proof fn lemma_vec_decode_encode(v: Seq<Seq<int>>, d: int, k: int)
    requires
        valid_width(d),
        v.len() == k,
        forall|i: int| 0 <= i < k ==> encodable(#[trigger] v[i], d),
    ensures
        vec_decode_spec(vec_encode_spec(v, d), d, k) == v,
{
    let len = 32 * d;
    let enc = vec_encode_spec(v, d);
    let back = vec_decode_spec(enc, d, k);
    assert forall|i: int| 0 <= i < k implies back[i] == v[i] by {
        assert(0 <= i * len && (i + 1) * len <= k * len && (i + 1) * len == i * len + len)
            by (nonlinear_arith)
            requires
                0 <= i < k,
                0 < len,
        ;
        let part = enc.subrange(i * len, (i + 1) * len);
        assert forall|t: int| 0 <= t < len implies part[t] == encode_spec(v[i], d)[t] by {
            lemma_fundamental_div_mod_converse(i * len + t, len, i, t);
        }
        assert(part =~= encode_spec(v[i], d));
        assert(encodable(v[i], d));
        lemma_decode_encode(v[i], d);
    }
    assert(back =~= v);
}

} // verus!
