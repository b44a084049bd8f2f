//! The two byte sources of the scheme, both built on SHAKE from the `sha3`
//! crate: the stream that the matrix is sampled from, and the pseudo-random
//! function that noise is sampled from.
//!
//! Nothing is proved about SHAKE itself. Its output is given a name, and the
//! contracts here say which output a call returns.

use sha3::digest::{ExtendableOutput, Update, XofReader};
use vstd::prelude::*;

verus! {

/// A 32-byte seed.
pub type B32 = [u8; 32];

/// A SHAKE-128 state that is still absorbing input. Holds a `sha3::Shake128`,
/// which Verus cannot look into.
#[verifier::external_body]
pub struct Absorber {
    inner: sha3::Shake128,
}

/// A SHAKE-128 output stream. Holds a `sha3::Shake128Reader`, which Verus
/// cannot look into.
#[verifier::external_body]
pub struct Xof {
    inner: sha3::Shake128Reader,
}

/// The bytes that a SHAKE-128 state has absorbed so far.
pub uninterp spec fn absorbed(h: Absorber) -> Seq<u8>;

/// The input that the stream is the SHAKE-128 output of.
pub uninterp spec fn xof_input(x: Xof) -> Seq<u8>;

/// The number of bytes that have been read from the stream.
pub uninterp spec fn xof_position(x: Xof) -> nat;

/// The `len` bytes from position `from` on of the SHAKE-128 output for `input`.
pub uninterp spec fn shake128(input: Seq<u8>, from: nat, len: nat) -> Seq<u8>;

/// The first `len` bytes of the SHAKE-256 output for `input`.
pub uninterp spec fn shake256(input: Seq<u8>, len: nat) -> Seq<u8>;

/// `sha3::Shake128::default()`: a fresh SHAKE-128 state, which has absorbed nothing.
#[verifier::external_body]
fn shake128_new() -> (h: Absorber)
    ensures
        absorbed(h) == Seq::<u8>::empty(),
{
    Absorber { inner: sha3::Shake128::default() }
}

/// `Update::update` of `sha3::Shake128`: the state absorbs `data` after what
/// it has absorbed before.
#[verifier::external_body]
fn shake128_update(h: &mut Absorber, data: &[u8])
    ensures
        absorbed(*final(h)) == absorbed(*old(h)) + data@,
{
    h.inner.update(data)
}

/// `ExtendableOutput::finalize_xof` of `sha3::Shake128`: the output stream
/// for what the state has absorbed, at its start.
#[verifier::external_body]
fn shake128_finalize(h: Absorber) -> (x: Xof)
    ensures
        xof_input(x) == absorbed(h),
        xof_position(x) == 0,
{
    Xof { inner: h.inner.finalize_xof() }
}

/// `XofReader::read` of `sha3::Shake128Reader` with a buffer of 96 bytes: the
/// next 96 bytes of the stream, which moves on by as many.
#[verifier::external_body]
pub(crate) fn xof_read(x: &mut Xof) -> (block: [u8; 96])
    ensures
        block@ == shake128(xof_input(*old(x)), xof_position(*old(x)), 96),
        xof_input(*final(x)) == xof_input(*old(x)),
        xof_position(*final(x)) == xof_position(*old(x)) + 96,
{
    let mut block = [0u8; 96];
    x.inner.read(&mut block);
    block
}

/// `ExtendableOutput::digest_xof` of `sha3::Shake256`: the first `len` bytes
/// of the SHAKE-256 output for `input`.
#[verifier::external_body]
fn shake256_digest(input: &[u8], len: usize) -> (out: Vec<u8>)
    ensures
        out@ == shake256(input@, len as nat),
        out@.len() == len,
{
    let mut out = vec![0u8; len];
    sha3::Shake256::digest_xof(input, &mut out);
    out
}

/// The stream that entry `(i, j)` of the matrix is sampled from: SHAKE-128
/// of the seed followed by the two indices.
#[allow(non_snake_case)]
pub fn XOF(rho: &B32, i: u8, j: u8) -> (x: Xof)
    ensures
        xof_input(x) == rho@ + seq![i, j],
        xof_position(x) == 0,
{
    let mut h = shake128_new();
    shake128_update(&mut h, rho.as_slice());
    let indices: [u8; 2] = [i, j];
    shake128_update(&mut h, indices.as_slice());
    proof {
        assert(indices@ =~= seq![i, j]);
        assert(Seq::<u8>::empty() + rho@ =~= rho@);
    }
    shake128_finalize(h)
}

/// The pseudo-random function: `64 * ETA` bytes of SHAKE-256 of the seed
/// followed by the counter.
#[allow(non_snake_case)]
pub fn PRF<const ETA: usize>(s: &B32, b: u8) -> (out: Vec<u8>)
    requires
        ETA == 2 || ETA == 3,
    ensures
        out@ == shake256(s@ + seq![b], (64 * ETA) as nat),
        out@.len() == 64 * ETA,
{
    let mut input: Vec<u8> = Vec::with_capacity(33);
    input.extend_from_slice(s.as_slice());
    input.push(b);
    proof {
        assert(input@ =~= s@ + seq![b]);
    }
    shake256_digest(input.as_slice(), 64 * ETA)
}

} // verus!
