//! The laws of the library, stated for its types.

use crate::algebra::{NttMatrix, NttPolynomial, NttVector, Polynomial, PolynomialVector};
use crate::cbd_weights::{lemma_cbd_weights_2, lemma_cbd_weights_3};
use crate::codec_bits::{bit_at, lemma_decode_bits, lemma_encode_bits, stream_bit};
use crate::codec_laws::{encodable, lemma_decode_encode, lemma_vec_decode_encode};
use crate::encode::{
    decode_field, decode_spec, encode_spec, valid_width, vec_decode_spec, Encode,
};
use crate::linear::{mat_add, mat_vec, transpose_spec, vec_add};
use crate::linear_laws::{
    lemma_mat_vec_additive_left, lemma_mat_vec_additive_right, lemma_transpose_twice,
};
use crate::ntt_eval::{lemma_ntt_evaluates, residue_at};
use crate::ntt_laws::{lemma_ntt_additive, lemma_ntt_inverse_of_ntt, lemma_ntt_of_ntt_inverse};
use crate::zeta::{
    bit_reverse_7, gamma, lemma_gamma_is_power, lemma_zeta_is_power, GAMMA, ZETA_POW_BITREV,
};
use vstd::arithmetic::div_mod::lemma_fundamental_div_mod_converse;
use vstd::arithmetic::power::pow;
use vstd::arithmetic::power2::pow2;
use crate::ntt_product::lemma_ntt_multiplies;
use crate::ring::poly_mul;
use crate::sampling::cbd_count;
use crate::transform::{ntt_inverse_spec, ntt_mul_spec, ntt_spec, poly_add};
use vstd::prelude::*;

verus! {

/// Decoding undoes encoding: for every width `D` and every polynomial whose
/// coefficients fit in `D` bits (and are canonical, for `D = 12`), the
/// encoding of the polynomial decodes to the polynomial.
pub proof fn law_decode_encode<const D: usize>(p: Polynomial)
    requires
        valid_width(D as int),
        encodable(p@, D as int),
    ensures
        decode_spec(<Polynomial as Encode<D>>::encoding(&p), D as int) == p@,
        decode_spec(encode_spec(p@, D as int), D as int) == p@,
{
    lemma_decode_encode(p@, D as int);
}

/// Encoding puts bit `j` of coefficient `i` at bit `i * D + j` of the bytes,
/// where bit `n` of the bytes is bit `n % 8` of byte `n / 8`.
pub proof fn law_encode_bits<const D: usize>(p: Polynomial, i: int, j: int)
    requires
        valid_width(D as int),
        encodable(p@, D as int),
        0 <= i < 256,
        0 <= j < D,
    ensures
        stream_bit(<Polynomial as Encode<D>>::encoding(&p), i * D + j) == bit_at(p@[i], j),
{
    let n = i * D + j;
    assert(0 <= n < 256 * D) by (nonlinear_arith)
        requires
            n == i * D + j,
            0 <= i < 256,
            0 <= j < D,
    ;
    lemma_fundamental_div_mod_converse(n, D as int, i, j);
    lemma_encode_bits(p@, D as int, n);
}

/// Decoding takes bit `j` of field `i` from bit `i * D + j` of the bytes; the
/// coefficient is the field, or its residue modulo `q` where `D` is 12.
pub proof fn law_decode_bits<const D: usize>(p: Polynomial, enc: Seq<u8>, i: int, j: int)
    requires
        valid_width(D as int),
        enc.len() == 32 * D,
        <Polynomial as Encode<D>>::decoded_from(&p, enc),
        0 <= i < 256,
        0 <= j < D,
    ensures
        bit_at(decode_field(enc, D as int, i), j) == stream_bit(enc, i * D + j),
        0 <= decode_field(enc, D as int, i) < pow2(D as nat),
        p@[i] == if D == 12 {
            decode_field(enc, D as int, i) % 3329
        } else {
            decode_field(enc, D as int, i)
        },
{
    lemma_decode_bits(enc, D as int, i, j);
}

/// Decoding undoes encoding for vectors as it does for polynomials.
pub proof fn law_vector_decode_encode<const D: usize, const K: usize>(v: PolynomialVector<K>)
    requires
        valid_width(D as int),
        forall|i: int| 0 <= i < K ==> encodable(#[trigger] v@[i], D as int),
    ensures
        vec_decode_spec(<PolynomialVector<K> as Encode<D>>::encoding(&v), D as int, K as int)
            == v@,
{
    lemma_vec_decode_encode(v@, D as int, K as int);
}

/// The inverse transform undoes the transform.
pub proof fn law_ntt_inverse(p: Polynomial)
    requires
        p.wf(),
    ensures
        ntt_inverse_spec(ntt_spec(p@)) == p@,
{
    lemma_ntt_inverse_of_ntt(p@);
}

/// The transform undoes the inverse transform.
pub proof fn law_ntt_of_inverse(p: NttPolynomial)
    requires
        p.wf(),
    ensures
        ntt_spec(ntt_inverse_spec(p@)) == p@,
{
    lemma_ntt_of_ntt_inverse(p@);
}

/// The transform evaluates: coefficient `k` of pair `i` of the transform of
/// `p` is the sum over `t` of coefficient `2t + k` of `p` times the `t`-th
/// power of 17 to the `2 BitRev7(i) + 1`, modulo `q`.
pub proof fn law_ntt_evaluates(p: Polynomial, i: int, k: int)
    requires
        0 <= i < 128,
        0 <= k < 2,
    ensures
        ntt_spec(p@)[2 * i + k] == residue_at(p@, k, 2, gamma(i), 128) % 3329,
        gamma(i) == pow(17, (2 * bit_reverse_7(i) + 1) as nat) % 3329,
{
    lemma_ntt_evaluates(p@, i, k);
    lemma_gamma_is_power(i);
}

/// The tables hold the powers of 17 that they are named after.
pub proof fn law_twiddle_tables(i: int)
    requires
        0 <= i < 128,
    ensures
        ZETA_POW_BITREV[i] == pow(17, bit_reverse_7(i) as nat) % 3329,
        GAMMA[i] == pow(17, (2 * bit_reverse_7(i) + 1) as nat) % 3329,
{
    lemma_zeta_is_power(i);
    lemma_gamma_is_power(i);
}

/// The transform of a sum is the sum of the transforms.
pub proof fn law_ntt_additive(p: Polynomial, q: Polynomial)
    requires
        p.wf(),
        q.wf(),
    ensures
        ntt_spec(poly_add(p@, q@)) == poly_add(ntt_spec(p@), ntt_spec(q@)),
{
    lemma_ntt_additive(p@, q@);
}

/// Transforming two polynomials, multiplying the transforms pair by pair and
/// transforming back gives their product in `R_q`, where `X^256` is `-1`.
pub proof fn law_ntt_multiplicative(p: Polynomial, q: Polynomial)
    requires
        p.wf(),
        q.wf(),
    ensures
        ntt_inverse_spec(ntt_mul_spec(ntt_spec(p@), ntt_spec(q@))) == poly_mul(p@, q@),
{
    lemma_ntt_multiplies(p@, q@);
}

/// Transposing a matrix twice gives the matrix back.
pub proof fn law_transpose_involution<const K: usize>(a: NttMatrix<K>)
    ensures
        transpose_spec(transpose_spec(a@)) == a@,
{
    assert forall|i: int| 0 <= i < K implies (#[trigger] a@[i]).len() == K by {}
    lemma_transpose_twice(a@, K as int);
}

/// A matrix times a sum of vectors is the sum of the products, and a sum of
/// matrices times a vector is the sum of the products.
pub proof fn law_mat_vec_bilinear<const K: usize>(
    a: NttMatrix<K>,
    b: NttMatrix<K>,
    u: NttVector<K>,
    v: NttVector<K>,
)
    requires
        a.wf(),
        b.wf(),
        u.wf(),
        v.wf(),
    ensures
        mat_vec(a@, vec_add(u@, v@)) == vec_add(mat_vec(a@, u@), mat_vec(a@, v@)),
        mat_vec(mat_add(a@, b@), v@) == vec_add(mat_vec(a@, v@), mat_vec(b@, v@)),
{
    lemma_mat_vec_additive_right(a@, u@, v@, K as int);
    lemma_mat_vec_additive_left(a@, b@, v@, K as int);
}

/// The coefficients of a sample from the centred binomial distribution have
/// the weights of the difference of two binomial variates: of the 16 values
/// of four bits, 1, 4, 6, 4 and 1 give -2, -1, 0, 1 and 2, and of the 64
/// values of six bits, 1, 6, 15, 20, 15, 6 and 1 give -3 to 3, where a
/// negative coefficient `-k` is `q - k`.
pub proof fn law_cbd_weights()
    ensures
        cbd_count(2, 3327, 16) == 1,
        cbd_count(2, 3328, 16) == 4,
        cbd_count(2, 0, 16) == 6,
        cbd_count(2, 1, 16) == 4,
        cbd_count(2, 2, 16) == 1,
        cbd_count(3, 3326, 64) == 1,
        cbd_count(3, 3327, 64) == 6,
        cbd_count(3, 3328, 64) == 15,
        cbd_count(3, 0, 64) == 20,
        cbd_count(3, 1, 64) == 15,
        cbd_count(3, 2, 64) == 6,
        cbd_count(3, 3, 64) == 1,
{
    lemma_cbd_weights_2();
    lemma_cbd_weights_3();
}

} // verus!
