//! The algebraic and encoding core of ML-KEM, verified with Verus: arithmetic
//! in the field of `q = 3329` elements, the number-theoretic transform on the
//! ring `R_q = Z_q[X] / (X^256 + 1)`, sampling of polynomials from SHAKE
//! output, and the bit-packed byte encoding of polynomials and vectors.
//!
//! The executable code:
//!
//! - [`algebra`]: field elements, polynomials in the two domains, vectors and
//!   matrices, and their operations;
//! - [`encode`]: the byte codec;
//! - [`sampling`]: the uniform and the centred binomial sampler;
//! - [`crypto`]: the two byte sources, SHAKE-128 and SHAKE-256 of the `sha3`
//!   crate, the only code that the contracts take on trust;
//! - [`util`]: narrowing of integers, and element-wise operations on arrays.
//!
//! What the code computes is written down in [`modular`], [`transform`],
//! [`ring`], [`linear`] and [`zeta`], and beside the functions of [`encode`]
//! and [`sampling`]. The laws that hold of it are stated for the types of the
//! library in [`laws`]; the other modules prove them.

pub mod algebra;
pub mod crypto;
pub mod encode;
pub mod sampling;
pub mod util;

pub mod linear;
pub mod modular;
pub mod ring;
pub mod transform;
pub mod zeta;

pub mod laws;

pub mod bits;
pub mod cbd_weights;
pub mod codec_bits;
pub mod codec_laws;
pub mod linear_laws;
pub mod ntt_eval;
pub mod ntt_laws;
pub mod ntt_product;
pub mod zeta_values;
