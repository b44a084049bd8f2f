//! The bit-packed byte encoding of polynomials: `d` bits for each of the 256
//! coefficients, least significant bit first.

use crate::algebra::{
    coeffs, FieldElement, Integer, NttPolynomial, NttVector, Polynomial, PolynomialVector,
};
use crate::bits::{lemma_digit_bound, lemma_or_is_add, lemma_shl_is_mul};
use crate::linear::poly_wf;
use crate::modular::all_canonical;
use crate::util::Truncate;
use vstd::arithmetic::div_mod::{
    lemma_fundamental_div_mod, lemma_fundamental_div_mod_converse, lemma_mod_bound,
};
use vstd::arithmetic::power2::{lemma2_to64, lemma_pow2_pos, lemma_pow2_strictly_increases, pow2};
use vstd::bits::lemma_u128_shr_is_div;
use vstd::prelude::*;

verus! {

/// What a decoder reports when it cannot decode.
#[derive(Clone, Copy, Debug, PartialEq, Eq, Structural)]
pub enum CodecError {
    /// The buffer does not have the length of an encoding.
    MalformedEncoding,
}

/// The widths that coefficients are encoded with.
pub open spec fn valid_width(d: int) -> bool {
    d == 1 || d == 4 || d == 5 || d == 6 || d == 10 || d == 11 || d == 12
}

/// The greatest common divisor of `d` and 8.
pub open spec fn gcd8(d: int) -> int {
    if d % 8 == 0 {
        8
    } else if d % 4 == 0 {
        4
    } else if d % 2 == 0 {
        2
    } else {
        1
    }
}

/// The number of values in a chunk: the least number of `d`-bit values
/// that fill whole bytes.
pub open spec fn value_step(d: int) -> int {
    8int / gcd8(d)
}

/// The number of bytes in a chunk.
pub open spec fn byte_step(d: int) -> int {
    d / gcd8(d)
}

/// The accumulator after the first `n` values of the chunk that starts at
/// `base`: value `j` shifted left by `d * j`, all or-ed together.
pub open spec fn packed(vals: Seq<int>, base: int, d: int, n: int) -> u128
    decreases n,
{
    if n <= 0 {
        0
    } else {
        packed(vals, base, d, n - 1) | ((vals[base + n - 1] as u128) << ((d * (n - 1)) as u128))
    }
}

/// Byte `t` of `x`, the least significant being byte 0.
pub open spec fn byte_of(x: u128, t: int) -> u8 {
    ((x >> ((8 * t) as u128)) & 0xff) as u8
}

/// Byte `b` of the encoding of `vals` with width `d`.
pub open spec fn encode_at(vals: Seq<int>, d: int, b: int) -> u8 {
    byte_of(
        packed(vals, (b / byte_step(d)) * value_step(d), d, value_step(d)),
        b % byte_step(d),
    )
}

/// The encoding of 256 values with width `d`: `32 * d` bytes, chunk by chunk.
pub open spec fn encode_spec(vals: Seq<int>, d: int) -> Seq<u8> {
    Seq::new((32 * d) as nat, |b: int| encode_at(vals, d, b))
}

/// The number that the `n` bytes from `base` on are the little-endian digits of.
pub open spec fn bytes_value(bytes: Seq<u8>, base: int, n: int) -> int
    decreases n,
{
    if n <= 0 {
        0
    } else {
        bytes_value(bytes, base, n - 1) + bytes[base + n - 1] * pow2((8 * (n - 1)) as nat)
    }
}

/// The `j`-th field of `d` bits of `x`.
pub open spec fn field_of(x: int, d: int, j: int) -> int {
    (x / (pow2((d * j) as nat) as int)) % (pow2(d as nat) as int)
}

/// Field `i` of `d` bits of `bytes`: the field with the index of `i` in its
/// chunk, of the number that the bytes of the chunk are the digits of.
pub open spec fn decode_field(bytes: Seq<u8>, d: int, i: int) -> int {
    let c = i / value_step(d);
    field_of(bytes_value(bytes, c * byte_step(d), byte_step(d)), d, i % value_step(d))
}

/// Value `i` that `bytes` decode to with width `d`: field `i`, and with
/// width 12 its residue modulo `q`.
pub open spec fn decode_at(bytes: Seq<u8>, d: int, i: int) -> int {
    let f = decode_field(bytes, d, i);
    if d == 12 {
        f % 3329
    } else {
        f
    }
}

/// The 256 values that `32 * d` bytes decode to with width `d`.
pub open spec fn decode_spec(bytes: Seq<u8>, d: int) -> Seq<int> {
    Seq::new(256, |i: int| decode_at(bytes, d, i))
}

/// The chunk sizes for a width.
fn chunk_steps(d: usize) -> (r: (usize, usize))
    requires
        valid_width(d as int),
    ensures
        r.0 == value_step(d as int),
        r.1 == byte_step(d as int),
        r.0 == 1 || r.0 == 2 || r.0 == 4 || r.0 == 8,
        1 <= r.1 <= 11,
        r.0 * d == 8 * r.1,
{
    let g: usize = if d % 8 == 0 {
        8
    } else if d % 4 == 0 {
        4
    } else if d % 2 == 0 {
        2
    } else {
        1
    };
    (8 / g, d / g)
}

/// Encodes 256 field elements with `D` bits each.
pub fn byte_encode<const D: usize>(vals: &[FieldElement; 256]) -> (bytes: Vec<u8>)
    requires
        valid_width(D as int),
    ensures
        bytes@ == encode_spec(coeffs(*vals), D as int),
{
    let (val_step, byte_step) = chunk_steps(D);
    let chunks: usize = 256 / val_step;
    let ghost v = coeffs(*vals);
    let mut bytes: Vec<u8> = Vec::with_capacity(32 * D);
    let mut c: usize = 0;
    while c < chunks
        invariant
            valid_width(D as int),
            val_step == value_step(D as int),
            byte_step == self::byte_step(D as int),
            val_step == 1 || val_step == 2 || val_step == 4 || val_step == 8,
            1 <= byte_step <= 11,
            val_step * D == 8 * byte_step,
            chunks * val_step == 256,
            c <= chunks,
            v == coeffs(*vals),
            bytes@.len() == c * byte_step,
            forall|b: int| 0 <= b < bytes@.len() ==> bytes@[b] == encode_at(v, D as int, b),
        decreases chunks - c,
    {
        let mut x: u128 = 0;
        let mut j: usize = 0;
        while j < val_step
            invariant
                valid_width(D as int),
                val_step == 1 || val_step == 2 || val_step == 4 || val_step == 8,
                val_step * D == 8 * byte_step,
                1 <= byte_step <= 11,
                chunks * val_step == 256,
                c < chunks,
                j <= val_step,
                v == coeffs(*vals),
                x == packed(v, c * val_step, D as int, j as int),
            decreases val_step - j,
        {
            assert(c * val_step + j < 256) by (nonlinear_arith)
                requires
                    c < chunks,
                    j < val_step,
                    chunks * val_step == 256,
            ;
            assert(D * j < 88) by (nonlinear_arith)
                requires
                    j < val_step,
                    val_step * D <= 88,
            ;
            let shift: u128 = (D * j) as u128;
            x = x | ((vals[c * val_step + j].0 as u128) << shift);
            j += 1;
        }
        let mut t: usize = 0;
        while t < byte_step
            invariant
                valid_width(D as int),
                val_step == value_step(D as int),
                byte_step == self::byte_step(D as int),
                1 <= byte_step <= 11,
                t <= byte_step,
                c < chunks,
                x == packed(v, c * val_step, D as int, val_step as int),
                bytes@.len() == c * byte_step + t,
                forall|b: int| 0 <= b < bytes@.len() ==> bytes@[b] == encode_at(v, D as int, b),
            decreases byte_step - t,
        {
            let shift: u128 = (8 * t) as u128;
            let byte: u8 = ((x >> shift) & 0xff) as u8;
            proof {
                lemma_fundamental_div_mod_converse(
                    c * byte_step + t,
                    byte_step as int,
                    c as int,
                    t as int,
                );
                assert(byte == encode_at(v, D as int, c * byte_step + t));
            }
            bytes.push(byte);
            t += 1;
        }
        assert(bytes@.len() == (c + 1) * byte_step) by (nonlinear_arith)
            requires
                bytes@.len() == c * byte_step + byte_step,
        ;
        c += 1;
    }
    proof {
        assert(chunks * byte_step == 32 * D) by (nonlinear_arith)
            requires
                chunks * val_step == 256,
                val_step * D == 8 * byte_step,
        ;
        assert(bytes@ =~= encode_spec(v, D as int));
    }
    bytes
}

/// Decodes `32 * D` bytes into 256 field elements of `D` bits each; with
/// `D = 12` each is reduced modulo `q`.
pub fn byte_decode<const D: usize>(bytes: &[u8]) -> (r: Result<[FieldElement; 256], CodecError>)
    requires
        valid_width(D as int),
    ensures
        bytes@.len() == 32 * D ==> r is Ok && coeffs(r->Ok_0) == decode_spec(bytes@, D as int)
            && all_canonical(coeffs(r->Ok_0)),
        bytes@.len() != 32 * D ==> r == Err::<[FieldElement; 256], CodecError>(
            CodecError::MalformedEncoding,
        ),
{
    if bytes.len() != 32 * D {
        return Err(CodecError::MalformedEncoding);
    }
    let (val_step, byte_step) = chunk_steps(D);
    let chunks: usize = 256 / val_step;
    assert(chunks * val_step == 256);
    proof {
        lemma2_to64();
        lemma_shl_is_mul(1, D as u128);
        assert(chunks * byte_step == 32 * D) by (nonlinear_arith)
            requires
                chunks * val_step == 256,
                val_step * D == 8 * byte_step,
        ;
    }
    let radix: u128 = 1u128 << (D as u128);
    let mut vals = [FieldElement(0);256];
    let mut c: usize = 0;
    while c < chunks
        invariant
            valid_width(D as int),
            val_step == value_step(D as int),
            byte_step == self::byte_step(D as int),
            val_step == 1 || val_step == 2 || val_step == 4 || val_step == 8,
            1 <= byte_step <= 11,
            val_step * D == 8 * byte_step,
            chunks * val_step == 256,
            chunks * byte_step == 32 * D,
            bytes@.len() == 32 * D,
            radix == pow2(D as nat),
            c <= chunks,
            forall|i: int|
                0 <= i < c * val_step ==> coeffs(vals)[i] == decode_at(bytes@, D as int, i),
            forall|i: int| 0 <= i < c * val_step ==> 0 <= #[trigger] coeffs(vals)[i] < 3329,
            forall|i: int| c * val_step <= i < 256 ==> coeffs(vals)[i] == 0,
        decreases chunks - c,
    {
        assert(c * byte_step + byte_step <= bytes@.len() && c * val_step + val_step <= 256 && 0
            <= c * byte_step && 0 <= c * val_step) by (nonlinear_arith)
            requires
                0 <= c < chunks,
                chunks * byte_step == bytes@.len(),
                chunks * val_step == 256,
                byte_step >= 0,
                val_step >= 0,
        ;
        let byte_base: usize = c * byte_step;
        let val_base: usize = c * val_step;
        let mut x: u128 = 0;
        let mut t: usize = 0;
        proof {
            lemma2_to64();
        }
        while t < byte_step
            invariant
                1 <= byte_step <= 11,
                t <= byte_step,
                byte_base + byte_step <= bytes@.len(),
                bytes@.len() <= 384,
                x == bytes_value(bytes@, byte_base as int, t as int),
                x < pow2((8 * t) as nat),
            decreases byte_step - t,
        {
            let b: u8 = bytes[byte_base + t];
            let shift: u128 = (8 * t) as u128;
            proof {
                lemma2_to64();
                lemma_digit_bound(x as int, b as int, (8 * t) as nat, 8);
                lemma_or_is_add(x, b as u128, shift);
            }
            x = x | ((b as u128) << shift);
            t += 1;
        }
        let mut j: usize = 0;
        while j < val_step
            invariant
                valid_width(D as int),
                val_step == value_step(D as int),
                byte_step == self::byte_step(D as int),
                val_step == 1 || val_step == 2 || val_step == 4 || val_step == 8,
                val_step * D == 8 * byte_step,
                1 <= byte_step <= 11,
                val_base + val_step <= 256,
                val_base == c * val_step,
                byte_base == c * byte_step,
                radix == pow2(D as nat),
                j <= val_step,
                x == bytes_value(bytes@, byte_base as int, byte_step as int),
                forall|i: int|
                    0 <= i < val_base + j ==> coeffs(vals)[i] == decode_at(bytes@, D as int, i),
                forall|i: int| 0 <= i < val_base + j ==> 0 <= #[trigger] coeffs(vals)[i] < 3329,
                forall|i: int| val_base + j <= i < 256 ==> coeffs(vals)[i] == 0,
            decreases val_step - j,
        {
            assert(D * j < 88) by (nonlinear_arith)
                requires
                    j < val_step,
                    val_step * D <= 88,
            ;
            let shift: u128 = (D * j) as u128;
            let ghost before = coeffs(vals);
            proof {
                lemma2_to64();
                lemma_u128_shr_is_div(x, shift);
                lemma_pow2_pos(D as nat);
                lemma_mod_bound((x >> shift) as int, pow2(D as nat) as int);
                lemma_pow2_strictly_increases(D as nat, 16);
                lemma_fundamental_div_mod_converse(
                    val_base + j,
                    val_step as int,
                    c as int,
                    j as int,
                );
            }
            let field: u128 = (x >> shift) % radix;
            let mut val: Integer = field.truncate();
            assert(val == field_of(x as int, D as int, j as int));
            if D == 12 {
                val = val % FieldElement::Q;
            }
            assert(val == decode_at(bytes@, D as int, val_base + j));
            assert(val < 3329) by {
                if D != 12 {
                    lemma_pow2_strictly_increases(D as nat, 12);
                }
            }
            vals[val_base + j] = FieldElement(val);
            proof {
                let after = coeffs(vals);
                assert forall|i: int| 0 <= i < 256 && i != val_base + j implies after[i]
                    == before[i] by {}
            }
            j += 1;
        }
        assert(c * val_step + val_step == (c + 1) * val_step) by (nonlinear_arith);
        c += 1;
    }
    proof {
        assert(coeffs(vals) =~= decode_spec(bytes@, D as int));
    }
    Ok(vals)
}

/// The encoding of a vector: the encodings of its components, one after another.
pub open spec fn vec_encode_spec(v: Seq<Seq<int>>, d: int) -> Seq<u8> {
    Seq::new((v.len() * (32 * d)) as nat, |b: int| encode_spec(v[b / (32 * d)], d)[b % (32 * d)])
}

/// The vector of `k` polynomials that `k * 32 * d` bytes decode to:
/// component `i` from the `i`-th slice of `32 * d` bytes.
pub open spec fn vec_decode_spec(bytes: Seq<u8>, d: int, k: int) -> Seq<Seq<int>> {
    Seq::new(k as nat, |i: int| decode_spec(bytes.subrange(i * (32 * d), (i + 1) * (32 * d)), d))
}

/// Values that have an encoding with `D` bits for each coefficient.
pub trait Encode<const D: usize>: Sized {
    /// The length of an encoding.
    spec fn encoded_len() -> int;

    /// The bytes that encode `self`.
    spec fn encoding(&self) -> Seq<u8>;

    /// `self` is the value that `enc` decodes to.
    spec fn decoded_from(&self, enc: Seq<u8>) -> bool;

    /// The encoding of `self`.
    fn encode(&self) -> (enc: Vec<u8>)
        requires
            valid_width(D as int),
            Self::encoded_len() <= usize::MAX,
        ensures
            enc@ == self.encoding(),
            enc@.len() == Self::encoded_len(),
    ;

    /// The value that `enc` decodes to, or an error where `enc` has not the
    /// length of an encoding.
    fn decode(enc: &[u8]) -> (r: Result<Self, CodecError>)
        requires
            valid_width(D as int),
            Self::encoded_len() <= usize::MAX,
        ensures
            match r {
                Ok(v) => enc@.len() == Self::encoded_len() && v.decoded_from(enc@),
                Err(e) => enc@.len() != Self::encoded_len() && e == CodecError::MalformedEncoding,
            },
    ;
}

impl<const D: usize> Encode<D> for Polynomial {
    open spec fn encoded_len() -> int {
        32 * D
    }

    open spec fn encoding(&self) -> Seq<u8> {
        encode_spec(self@, D as int)
    }

    open spec fn decoded_from(&self, enc: Seq<u8>) -> bool {
        self@ == decode_spec(enc, D as int) && self.wf()
    }

    fn encode(&self) -> (enc: Vec<u8>) {
        byte_encode::<D>(&self.0)
    }

    fn decode(enc: &[u8]) -> (r: Result<Self, CodecError>) {
        match byte_decode::<D>(enc) {
            Ok(vals) => Ok(Polynomial(vals)),
            Err(e) => Err(e),
        }
    }
}

impl<const D: usize> Encode<D> for NttPolynomial {
    open spec fn encoded_len() -> int {
        32 * D
    }

    open spec fn encoding(&self) -> Seq<u8> {
        encode_spec(self@, D as int)
    }

    open spec fn decoded_from(&self, enc: Seq<u8>) -> bool {
        self@ == decode_spec(enc, D as int) && self.wf()
    }

    fn encode(&self) -> (enc: Vec<u8>) {
        byte_encode::<D>(&self.0)
    }

    fn decode(enc: &[u8]) -> (r: Result<Self, CodecError>) {
        match byte_decode::<D>(enc) {
            Ok(vals) => Ok(NttPolynomial(vals)),
            Err(e) => Err(e),
        }
    }
}

/// Byte `b` of `k` parts of `len` bytes lies in part `b / len`, which is one
/// of the `k`.
proof fn lemma_part_of(b: int, len: int, k: int)
    requires
        0 < len,
        0 <= b < k * len,
    ensures
        0 <= b / len < k,
        0 <= b % len < len,
{
    lemma_fundamental_div_mod(b, len);
    lemma_mod_bound(b, len);
    let q = b / len;
    let r = b % len;
    assert(0 <= q < k) by (nonlinear_arith)
        requires
            b == len * q + r,
            0 <= r < len,
            0 <= b < k * len,
    ;
}

/// Encodes `K` values, one after another.
fn encode_each<const D: usize, const K: usize, T: Encode<D>>(items: &[T; K]) -> (enc: Vec<u8>)
    requires
        valid_width(D as int),
        0 <= T::encoded_len(),
        K * T::encoded_len() <= usize::MAX,
    ensures
        enc@.len() == K * T::encoded_len(),
        forall|b: int|
            0 <= b < enc@.len() ==> enc@[b] == items[b / T::encoded_len()].encoding()[b
                % T::encoded_len()],
{
    let mut enc: Vec<u8> = Vec::new();
    let mut i: usize = 0;
    while i < K
        invariant
            valid_width(D as int),
            0 <= T::encoded_len(),
            K * T::encoded_len() <= usize::MAX,
            i <= K,
            enc@.len() == i * T::encoded_len(),
            forall|b: int|
                0 <= b < enc@.len() ==> enc@[b] == items[b / T::encoded_len()].encoding()[b
                    % T::encoded_len()],
        decreases K - i,
    {
        let ghost len = T::encoded_len();
        assert((i + 1) * len == i * len + len && (i + 1) * len <= K * len) by (nonlinear_arith)
            requires
                0 <= i < K,
                0 <= len,
        ;
        let part = items[i].encode();
        let ghost before = enc@;
        enc.extend_from_slice(part.as_slice());
        proof {
            assert(enc@ == before + part@);
            assert forall|b: int| 0 <= b < enc@.len() implies enc@[b] == items[b
                / len].encoding()[b % len] by {
                if b >= before.len() {
                    let t = b - i * len;
                    lemma_fundamental_div_mod_converse(b, len, i as int, t);
                    assert(enc@[b] == part@[t]);
                }
            }
        }
        i += 1;
    }
    enc
}

/// Decodes `K` values from `K` slices of `part_len` bytes each. `zero` fills
/// the array before the first value is decoded.
fn decode_each<const D: usize, const K: usize, T: Encode<D> + Copy>(
    enc: &[u8],
    part_len: usize,
    zero: T,
) -> (r: Result<[T; K], CodecError>)
    requires
        valid_width(D as int),
        part_len == T::encoded_len(),
        K * part_len <= usize::MAX,
    ensures
        match r {
            Ok(items) => {
                &&& enc@.len() == K * part_len
                &&& forall|i: int|
                    0 <= i < K ==> (#[trigger] items[i]).decoded_from(
                        enc@.subrange(i * part_len, (i + 1) * part_len),
                    )
            },
            Err(e) => enc@.len() != K * part_len && e == CodecError::MalformedEncoding,
        },
{
    if enc.len() != K * part_len {
        return Err(CodecError::MalformedEncoding);
    }
    let mut items = [zero;K];
    let mut i: usize = 0;
    while i < K
        invariant
            valid_width(D as int),
            part_len == T::encoded_len(),
            K * part_len <= usize::MAX,
            enc@.len() == K * part_len,
            i <= K,
            forall|c: int|
                0 <= c < i ==> (#[trigger] items[c]).decoded_from(
                    enc@.subrange(c * part_len, (c + 1) * part_len),
                ),
        decreases K - i,
    {
        assert(i * part_len + part_len <= K * part_len && 0 <= i * part_len && (i + 1) * part_len
            == i * part_len + part_len) by (nonlinear_arith)
            requires
                0 <= i < K,
                0 <= part_len,
        ;
        let from: usize = i * part_len;
        let part = vstd::slice::slice_subrange(enc, from, from + part_len);
        match T::decode(part) {
            Ok(v) => {
                items[i] = v;
            },
            Err(e) => {
                return Err(e);
            },
        }
        i += 1;
    }
    Ok(items)
}

impl<const D: usize, const K: usize> Encode<D> for PolynomialVector<K> {
    open spec fn encoded_len() -> int {
        K * (32 * D)
    }

    open spec fn encoding(&self) -> Seq<u8> {
        vec_encode_spec(self@, D as int)
    }

    open spec fn decoded_from(&self, enc: Seq<u8>) -> bool {
        self@ == vec_decode_spec(enc, D as int, K as int) && self.wf()
    }

    fn encode(&self) -> (enc: Vec<u8>) {
        let enc = encode_each::<D, K, Polynomial>(&self.0);
        proof {
            let len = 32 * D as int;
            assert forall|b: int| 0 <= b < enc@.len() implies enc@[b] == vec_encode_spec(
                self@,
                D as int,
            )[b] by {
                lemma_part_of(b, len, K as int);
                assert(self@[b / len] == self.0[b / len]@);
            }
            assert(enc@ =~= vec_encode_spec(self@, D as int));
        }
        enc
    }

    fn decode(enc: &[u8]) -> (r: Result<Self, CodecError>) {
        match decode_each::<D, K, Polynomial>(enc, 32 * D, Polynomial::default()) {
            Ok(polys) => {
                let v = PolynomialVector(polys);
                proof {
                    assert(v@ =~= vec_decode_spec(enc@, D as int, K as int));
                    assert forall|i: int| 0 <= i < K implies poly_wf(#[trigger] v@[i]) by {
                        assert(polys[i].wf());
                    }
                }
                Ok(v)
            },
            Err(e) => Err(e),
        }
    }
}

impl<const D: usize, const K: usize> Encode<D> for NttVector<K> {
    open spec fn encoded_len() -> int {
        K * (32 * D)
    }

    open spec fn encoding(&self) -> Seq<u8> {
        vec_encode_spec(self@, D as int)
    }

    open spec fn decoded_from(&self, enc: Seq<u8>) -> bool {
        self@ == vec_decode_spec(enc, D as int, K as int) && self.wf()
    }

    fn encode(&self) -> (enc: Vec<u8>) {
        let enc = encode_each::<D, K, NttPolynomial>(&self.0);
        proof {
            let len = 32 * D as int;
            assert forall|b: int| 0 <= b < enc@.len() implies enc@[b] == vec_encode_spec(
                self@,
                D as int,
            )[b] by {
                lemma_part_of(b, len, K as int);
                assert(self@[b / len] == self.0[b / len]@);
            }
            assert(enc@ =~= vec_encode_spec(self@, D as int));
        }
        enc
    }

    fn decode(enc: &[u8]) -> (r: Result<Self, CodecError>) {
        match decode_each::<D, K, NttPolynomial>(enc, 32 * D, NttPolynomial::default()) {
            Ok(polys) => {
                let v = NttVector(polys);
                proof {
                    assert(v@ =~= vec_decode_spec(enc@, D as int, K as int));
                    assert forall|i: int| 0 <= i < K implies poly_wf(#[trigger] v@[i]) by {
                        assert(polys[i].wf());
                    }
                }
                Ok(v)
            },
            Err(e) => Err(e),
        }
    }
}

} // verus!
