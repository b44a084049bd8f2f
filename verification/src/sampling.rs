//! Sampling polynomials from SHAKE output: uniformly, by rejection, from a
//! stream, and from the centred binomial distribution, from a block of bytes.

use crate::algebra::{
    coeffs, FieldElement, Integer, NttMatrix, NttPolynomial, NttVector, Polynomial,
    PolynomialVector,
};
use crate::linear::{poly_wf, vec_wf};
use crate::util::Truncate;
use crate::encode::{
    byte_decode, byte_step, bytes_value, decode_at, decode_spec, valid_width, value_step,
};
use crate::crypto::{shake128, shake256, xof_input, xof_position, xof_read, Xof, B32, PRF, XOF};
use crate::modular::canonical;
use vstd::arithmetic::div_mod::lemma_mod_bound;
use vstd::arithmetic::power2::{lemma2_to64, lemma_pow2_pos, pow2};
use vstd::prelude::*;

verus! {

/// The first candidate of three bytes: the twelve low-order bits.
pub open spec fn candidate_lo(b0: u8, b1: u8) -> int {
    b0 + 256 * (b1 % 16)
}

/// The second candidate of three bytes: the twelve high-order bits.
pub open spec fn candidate_hi(b1: u8, b2: u8) -> int {
    b1 / 16 + 16 * b2
}

/// `prev`, followed by `d` if it is below `q`.
pub open spec fn accept(prev: Seq<int>, d: int) -> Seq<int> {
    if d < 3329 {
        prev.push(d)
    } else {
        prev
    }
}

/// The candidates below `q` of the first `n` triples of `bytes`, in the order
/// of the stream, the first candidate of a triple before the second.
pub open spec fn accepted(bytes: Seq<u8>, n: int) -> Seq<int>
    decreases n,
{
    if n <= 0 {
        Seq::empty()
    } else {
        let k = 3 * (n - 1);
        accept(
            accept(accepted(bytes, n - 1), candidate_lo(bytes[k], bytes[k + 1])),
            candidate_hi(bytes[k + 1], bytes[k + 2]),
        )
    }
}

/// The first `blocks` blocks of 96 bytes of the SHAKE-128 output for `input`,
/// from position `from` on.
pub open spec fn xof_stream(input: Seq<u8>, from: int, blocks: int) -> Seq<u8>
    decreases blocks,
{
    if blocks <= 0 {
        Seq::empty()
    } else {
        xof_stream(input, from, blocks - 1) + shake128(
            input,
            (from + 96 * (blocks - 1)) as nat,
            96,
        )
    }
}

/// The accepted candidates of a stream depend on the bytes of its triples only.
pub proof fn lemma_accepted_prefix(bytes: Seq<u8>, other: Seq<u8>, n: int)
    requires
        forall|k: int| 0 <= k < 3 * n ==> bytes[k] == other[k],
    ensures
        accepted(bytes, n) == accepted(other, n),
    decreases n,
{
    if n > 0 {
        lemma_accepted_prefix(bytes, other, n - 1);
    }
}

/// More triples give more accepted candidates, after those of fewer.
pub proof fn lemma_accepted_grows(s: Seq<u8>, n: int, m: int)
    requires
        0 <= n <= m,
    ensures
        accepted(s, n).len() <= accepted(s, m).len(),
        accepted(s, m).take(accepted(s, n).len() as int) == accepted(s, n),
        forall|i: int| 0 <= i < accepted(s, m).len() ==> canonical(#[trigger] accepted(s, m)[i]),
    decreases m,
{
    if m <= 0 {
        assert(accepted(s, m).take(0) =~= accepted(s, n));
    } else if n == m {
        lemma_accepted_grows(s, n - 1, m - 1);
        assert(accepted(s, m).take(accepted(s, n).len() as int) =~= accepted(s, n));
    } else {
        lemma_accepted_grows(s, n, m - 1);
        let prev = accepted(s, m - 1);
        assert(accepted(s, m).take(accepted(s, n).len() as int) =~= prev.take(
            accepted(s, n).len() as int,
        ));
    }
}

/// The state of the rejection sampler: a buffer of 96 bytes of the stream,
/// how far it has been used, and a second candidate that was accepted
/// together with the first of its triple and is delivered next.
pub struct FieldElementReader {
    data: [u8; 96],
    start: usize,
    next: Option<Integer>,
    blocks: usize,
    seen: Ghost<Seq<u8>>,
    origin: Ghost<int>,
}

impl FieldElementReader {
    /// The number of triples that have been used.
    pub closed spec fn triples(&self) -> int {
        32 * (self.blocks - 1) + self.start as int / 3
    }

    /// The number of blocks that have been read from the stream.
    pub closed spec fn blocks_read(&self) -> int {
        self.blocks as int
    }

    /// The bytes that have been read from the stream.
    pub closed spec fn bytes_read(&self) -> Seq<u8> {
        self.seen@
    }

    /// The position of the stream at which the reader began.
    pub closed spec fn began_at(&self) -> int {
        self.origin@
    }

    /// Every block that has been read has been used up, and nothing is
    /// waiting to be delivered.
    pub closed spec fn drained(&self) -> bool {
        self.start == 96 && self.next is None
    }

    /// The field elements that have been delivered.
    pub closed spec fn emitted(&self) -> Seq<int> {
        let all = accepted(self.seen@, self.triples());
        if self.next is Some {
            all.drop_last()
        } else {
            all
        }
    }

    /// The reader and the stream belong together: the buffer is the last
    /// block read, and a waiting candidate is the second of the last triple.
    pub closed spec fn inv(&self, xof: Xof) -> bool {
        &&& 1 <= self.blocks
        &&& self.start <= 96
        &&& self.start as int % 3 == 0
        &&& xof_position(xof) == self.origin@ + 96 * self.blocks
        &&& 0 <= self.origin@
        &&& self.seen@.len() == 96 * self.blocks
        &&& self.seen@ == xof_stream(xof_input(xof), self.origin@, self.blocks as int)
        &&& forall|m: int|
            0 <= m <= self.blocks ==> (#[trigger] xof_stream(
                xof_input(xof),
                self.origin@,
                m,
            )).len() == 96 * m
        &&& forall|k: int|
            0 <= k < 96 ==> self.data@[k] == #[trigger] self.seen@[96 * (self.blocks - 1) + k]
        &&& match self.next {
            Some(d2) => {
                &&& 3 <= self.start
                &&& candidate_lo(self.data@[self.start - 3], self.data@[self.start - 2]) < 3329
                &&& d2 == candidate_hi(self.data@[self.start - 2], self.data@[self.start - 1])
                &&& d2 < 3329
            },
            None => true,
        }
    }

    /// A reader at the current position of the stream, with the first block
    /// read.
    pub fn new(xof: &mut Xof) -> (r: Self)
        ensures
            r.inv(*final(xof)),
            xof_input(*final(xof)) == xof_input(*old(xof)),
            r.began_at() == xof_position(*old(xof)),
            r.blocks_read() == 1,
            r.emitted() == Seq::<int>::empty(),
    {
        let ghost origin = xof_position(*xof) as int;
        // Fill the buffer
        let data = xof_read(xof);
        let r = FieldElementReader {
            data,
            start: 0,
            next: None,
            blocks: 1,
            seen: Ghost(data@),
            origin: Ghost(origin),
        };
        proof {
            let input = xof_input(*xof);
            assert(xof_stream(input, origin, 0) =~= Seq::<u8>::empty());
            assert(xof_stream(input, origin, 1) =~= data@);
            assert forall|m: int| 0 <= m <= 1 implies (#[trigger] xof_stream(
                input,
                origin,
                m,
            )).len() == 96 * m by {
                if m == 0 {
                } else {
                    assert(m == 1);
                }
            }
        }
        r
    }

    /// The next field element of the stream, or `None` when as many blocks
    /// have been read as a `usize` can count and none of them holds another.
    pub fn next(&mut self, xof: &mut Xof) -> (r: Option<FieldElement>)
        requires
            old(self).inv(*old(xof)),
        ensures
            final(self).inv(*final(xof)),
            xof_input(*final(xof)) == xof_input(*old(xof)),
            final(self).began_at() == old(self).began_at(),
            final(self).blocks_read() >= old(self).blocks_read(),
            match r {
                Some(fe) => fe.wf() && final(self).emitted() == old(self).emitted().push(fe@),
                None => {
                    &&& final(self).emitted() == old(self).emitted()
                    &&& final(self).drained()
                    &&& final(self).blocks_read() == usize::MAX
                },
            },
            final(self).blocks_read() > old(self).blocks_read() ==> accepted(
                final(self).bytes_read(),
                32 * (final(self).blocks_read() - 1),
            ) == old(self).emitted(),
    {
        if let Some(val) = self.next {
            proof {
                self.lemma_last_triple(*xof);
                let all = accepted(self.seen@, self.triples());
                assert(all.drop_last().push(val as int) =~= all);
            }
            self.next = None;
            return Some(FieldElement(val));
        }
        let ghost emitted = self.emitted();
        let ghost blocks0 = self.blocks;
        loop
            invariant
                self.inv(*xof),
                self.next is None,
                self.emitted() == emitted,
                emitted == old(self).emitted(),
                xof_input(*xof) == xof_input(*old(xof)),
                self.origin@ == old(self).origin@,
                self.blocks >= blocks0,
                blocks0 == old(self).blocks,
                self.blocks > blocks0 ==> accepted(self.seen@, 32 * (self.blocks - 1)) == emitted,
            decreases usize::MAX - self.blocks, 96 - self.start,
        {
            if self.start == 96 {
                if self.blocks == usize::MAX {
                    return None;
                }
                let ghost before = self.seen@;
                let block = xof_read(xof);
                self.data = block;
                self.start = 0;
                self.blocks = self.blocks + 1;
                self.seen = Ghost(before + block@);
                proof {
                    let input = xof_input(*xof);
                    assert(before.len() == 96 * (self.blocks - 1));
                    lemma_accepted_prefix(before, self.seen@, 32 * (self.blocks - 1));
                    assert forall|k: int| 0 <= k < 96 implies self.data@[k]
                        == #[trigger] self.seen@[96 * (self.blocks - 1) + k] by {}
                    assert forall|m: int| 0 <= m <= self.blocks implies (#[trigger] xof_stream(
                        input,
                        self.origin@,
                        m,
                    )).len() == 96 * m by {
                        if m == self.blocks {
                            assert(xof_stream(input, self.origin@, m) == self.seen@);
                        }
                    }
                }
            }
            let b0: u8 = self.data[self.start];
            let b1: u8 = self.data[self.start + 1];
            let b2: u8 = self.data[self.start + 2];
            let ghost t = self.triples();
            proof {
                assert(self.seen@[96 * (self.blocks - 1) + self.start] == b0);
                assert(self.seen@[96 * (self.blocks - 1) + (self.start + 1)] == b1);
                assert(self.seen@[96 * (self.blocks - 1) + (self.start + 2)] == b2);
                assert(3 * t == 96 * (self.blocks - 1) + self.start);
            }
            self.start = self.start + 3;
            assert(self.triples() == t + 1);

            let lo: Integer = (b1 as Integer) & 0xf;
            let hi: Integer = (b1 as Integer) >> 4;
            assert(lo == b1 % 16 && hi == b1 / 16 && (lo << 8) == 256 * lo) by (bit_vector)
                requires
                    lo == (b1 as u16) & 0xf,
                    hi == (b1 as u16) >> 4,
            ;
            let wide: Integer = b2 as Integer;
            assert((wide << 4) == 16 * wide) by (bit_vector)
                requires
                    wide < 256,
            ;
            let d1: Integer = (b0 as Integer) + (lo << 8);
            let d2: Integer = hi + (wide << 4);
            assert(d1 == candidate_lo(b0, b1) && d2 == candidate_hi(b1, b2));

            if d1 < FieldElement::Q {
                if d2 < FieldElement::Q {
                    self.next = Some(d2);
                    proof {
                        let all = accepted(self.seen@, t + 1);
                        assert(all.drop_last() =~= emitted.push(d1 as int));
                    }
                }
                return Some(FieldElement(d1));
            }
            if d2 < FieldElement::Q {
                return Some(FieldElement(d2));
            }
        }
    }
}

/// What `blocks` blocks of the stream give a sample of: 256 accepted
/// candidates, which one block less does not hold.
pub open spec fn sample_needs(input: Seq<u8>, from: int, blocks: int) -> bool {
    &&& 1 <= blocks
    &&& xof_stream(input, from, blocks).len() == 96 * blocks
    &&& accepted(xof_stream(input, from, blocks), 32 * blocks).len() >= 256
    &&& accepted(xof_stream(input, from, blocks - 1), 32 * (blocks - 1)).len() < 256
}

/// As many blocks of the stream as a `usize` can count do not hold 256
/// accepted candidates.
pub open spec fn sample_fails(input: Seq<u8>, from: int) -> bool {
    accepted(xof_stream(input, from, usize::MAX as int), 32 * usize::MAX).len() < 256
}

/// The sample that the first `blocks` blocks of the stream give.
pub open spec fn sample_of(input: Seq<u8>, from: int, blocks: int) -> Seq<int> {
    accepted(xof_stream(input, from, blocks), 32 * blocks).take(256)
}

/// `p` is the sample from the SHAKE-128 output for `input`.
pub open spec fn is_uniform_sample(input: Seq<u8>, p: Seq<int>) -> bool {
    exists|blocks: int| #[trigger] sample_needs(input, 0, blocks) && p == sample_of(input, 0, blocks)
}

/// Fewer blocks of the stream are the beginning of more.
pub proof fn lemma_stream_prefix(input: Seq<u8>, from: int, n: int, m: int)
    requires
        0 <= n <= m,
    ensures
        xof_stream(input, from, n).len() <= xof_stream(input, from, m).len(),
        forall|k: int|
            0 <= k < xof_stream(input, from, n).len() ==> xof_stream(input, from, n)[k]
                == xof_stream(input, from, m)[k],
    decreases m,
{
    if n < m {
        lemma_stream_prefix(input, from, n, m - 1);
    }
}

/// Where some number of blocks gives a sample, the stream does not fail.
pub proof fn lemma_sample_does_not_fail(input: Seq<u8>, from: int, blocks: int)
    requires
        sample_needs(input, from, blocks),
        blocks <= usize::MAX,
    ensures
        !sample_fails(input, from),
{
    let top = usize::MAX as int;
    lemma_stream_prefix(input, from, blocks, top);
    lemma_accepted_prefix(
        xof_stream(input, from, blocks),
        xof_stream(input, from, top),
        32 * blocks,
    );
    lemma_accepted_grows(xof_stream(input, from, top), 32 * blocks, 32 * top);
}

impl NttPolynomial {
    /// Samples a polynomial from the stream by rejection: its coefficients
    /// are the first 256 candidates of twelve bits that are below `q`. The
    /// stream is read in blocks of 96 bytes, as many as it takes and no more.
    ///
    /// Gives `None` when as many blocks as a `usize` can count do not hold
    /// 256 such candidates.
    pub fn sample_uniform(xof: &mut Xof) -> (r: Option<Self>)
        ensures
            xof_input(*final(xof)) == xof_input(*old(xof)),
            xof_position(*final(xof)) >= xof_position(*old(xof)) + 96,
            (xof_position(*final(xof)) - xof_position(*old(xof))) % 96 == 0,
            ({
                let input = xof_input(*old(xof));
                let from = xof_position(*old(xof)) as int;
                let blocks = (xof_position(*final(xof)) - from) / 96;
                match r {
                    Some(p) => {
                        &&& sample_needs(input, from, blocks)
                        &&& p@ == sample_of(input, from, blocks)
                        &&& p.wf()
                        &&& !sample_fails(input, from)
                    },
                    None => blocks == usize::MAX && sample_fails(input, from),
                }
            }),
    {
        let ghost input = xof_input(*xof);
        let ghost from = xof_position(*xof) as int;
        let mut reader = FieldElementReader::new(xof);
        let mut out = [FieldElement(0);256];
        let mut i: usize = 0;
        proof {
            assert(xof_stream(input, from, 0) =~= Seq::<u8>::empty());
        }
        while i < 256
            invariant
                i <= 256,
                reader.inv(*xof),
                xof_input(*xof) == input,
                input == xof_input(*old(xof)),
                from == xof_position(*old(xof)),
                reader.began_at() == from,
                reader.emitted().len() == i,
                forall|j: int| 0 <= j < i ==> coeffs(out)[j] == reader.emitted()[j],
                forall|j: int| 0 <= j < i ==> canonical(#[trigger] coeffs(out)[j]),
                forall|j: int| i <= j < 256 ==> coeffs(out)[j] == 0,
                accepted(
                    xof_stream(input, from, reader.blocks_read() - 1),
                    32 * (reader.blocks_read() - 1),
                ).len() < 256,
            decreases 256 - i,
        {
            let ghost before = coeffs(out);
            let ghost emitted = reader.emitted();
            let ghost blocks0 = reader.blocks_read();
            match reader.next(xof) {
                Some(fe) => {
                    out[i] = fe;
                    proof {
                        let after = coeffs(out);
                        assert forall|j: int| 0 <= j < 256 && j != i implies after[j]
                            == before[j] by {}
                        reader.lemma_read(*xof);
                        if reader.blocks_read() > blocks0 {
                            lemma_accepted_prefix(
                                reader.bytes_read(),
                                xof_stream(input, from, reader.blocks_read() - 1),
                                32 * (reader.blocks_read() - 1),
                            );
                        }
                    }
                },
                None => {
                    proof {
                        reader.lemma_read(*xof);
                        reader.lemma_drained();
                    }
                    return None;
                },
            }
            i += 1;
        }
        proof {
            reader.lemma_read(*xof);
            reader.lemma_emitted(*xof);
            let blocks = reader.blocks_read();
            let all = accepted(xof_stream(input, from, blocks), 32 * blocks);
            assert(coeffs(out) =~= all.take(256));
            lemma_sample_does_not_fail(input, from, blocks);
        }
        Some(NttPolynomial(out))
    }
}

impl FieldElementReader {
    /// What the reader has read is the stream from where it began, and the
    /// stream stands behind the last block read.
    pub proof fn lemma_read(&self, xof: Xof)
        requires
            self.inv(xof),
        ensures
            1 <= self.blocks_read() <= usize::MAX,
            xof_position(xof) == self.began_at() + 96 * self.blocks_read(),
            self.bytes_read() == xof_stream(xof_input(xof), self.began_at(), self.blocks_read()),
            self.bytes_read().len() == 96 * self.blocks_read(),
            forall|k: int|
                0 <= k < 96 * (self.blocks_read() - 1) ==> self.bytes_read()[k] == xof_stream(
                    xof_input(xof),
                    self.began_at(),
                    self.blocks_read() - 1,
                )[k],
    {
        let input = xof_input(xof);
        let n = self.blocks as int;
        let shorter = xof_stream(input, self.origin@, n - 1);
        let last = shake128(input, (self.origin@ + 96 * (n - 1)) as nat, 96);
        assert(self.seen@ == shorter + last);
        assert(shorter.len() == 96 * (n - 1));
        assert(xof_stream(input, self.origin@, n).len() == 96 * n);
    }

    /// With a candidate waiting, the last triple used gave two accepted
    /// candidates, and the waiting one is the second.
    proof fn lemma_last_triple(&self, xof: Xof)
        requires
            self.inv(xof),
            self.next is Some,
        ensures
            1 <= self.triples(),
            accepted(self.seen@, self.triples()) == accepted(self.seen@, self.triples() - 1).push(
                candidate_lo(self.data@[self.start - 3], self.data@[self.start - 2]),
            ).push(self.next->Some_0 as int),
    {
        let t = self.triples();
        assert(3 * (self.start as int / 3) == self.start);
        assert(3 * (t - 1) == 96 * (self.blocks - 1) + (self.start - 3));
        assert(self.seen@[96 * (self.blocks - 1) + (self.start - 3)] == self.data@[self.start - 3]);
        assert(self.seen@[96 * (self.blocks - 1) + (self.start - 2)] == self.data@[self.start - 2]);
        assert(self.seen@[96 * (self.blocks - 1) + (self.start - 1)] == self.data@[self.start - 1]);
        assert(self.seen@[3 * (t - 1)] == self.data@[self.start - 3]);
        assert(self.seen@[3 * (t - 1) + 1] == self.data@[self.start - 2]);
        assert(self.seen@[3 * (t - 1) + 2] == self.data@[self.start - 1]);
    }

    /// What has been delivered are the first of the accepted candidates of
    /// the blocks read.
    pub proof fn lemma_emitted(&self, xof: Xof)
        requires
            self.inv(xof),
        ensures
            self.emitted().len() <= accepted(self.bytes_read(), 32 * self.blocks_read()).len(),
            self.emitted() == accepted(self.bytes_read(), 32 * self.blocks_read()).take(
                self.emitted().len() as int,
            ),
            forall|i: int|
                0 <= i < accepted(self.bytes_read(), 32 * self.blocks_read()).len() ==> canonical(
                    #[trigger] accepted(self.bytes_read(), 32 * self.blocks_read())[i],
                ),
    {
        let total = 32 * self.blocks as int;
        lemma_accepted_grows(self.seen@, self.triples(), total);
        let all = accepted(self.seen@, self.triples());
        let full = accepted(self.seen@, total);
        assert(full.take(all.len() as int) == all);
        if self.next is Some {
            self.lemma_last_triple(xof);
            assert(all.drop_last() =~= full.take(all.len() - 1));
        }
    }

    /// A drained reader has delivered every accepted candidate of the blocks read.
    pub proof fn lemma_drained(&self)
        requires
            self.drained(),
        ensures
            self.emitted() == accepted(self.bytes_read(), 32 * self.blocks_read()),
    {
    }
}

/// `ONES[x][y]` is the number of ones in `x` minus the number of ones in `y`,
/// modulo `q`, for `x` and `y` of three bits.
pub const ONES: [[u16; 8]; 8] = [
    [0, 3328, 3328, 3327, 3328, 3327, 3327, 3326],
    [1, 0, 0, 3328, 0, 3328, 3328, 3327],
    [1, 0, 0, 3328, 0, 3328, 3328, 3327],
    [2, 1, 1, 0, 1, 0, 0, 3328],
    [1, 0, 0, 3328, 0, 3328, 3328, 3327],
    [2, 1, 1, 0, 1, 0, 0, 3328],
    [2, 1, 1, 0, 1, 0, 0, 3328],
    [3, 2, 2, 1, 2, 1, 1, 0],
];

/// The number of ones in the binary expansion of `x`.
pub open spec fn bit_count(x: int) -> int
    decreases x,
{
    if x <= 0 {
        0
    } else {
        x % 2 + bit_count(x / 2)
    }
}

/// The coefficient that a value `v` of `2 * eta` bits gives: the number of
/// ones in its lower half of `eta` bits minus that in its upper half, modulo
/// `q`.
pub open spec fn cbd_value(v: int, eta: int) -> int {
    (bit_count(v % (pow2(eta as nat) as int)) - bit_count(v / (pow2(eta as nat) as int))) % 3329
}

/// The number of values below `n` that give the coefficient `c`.
pub open spec fn cbd_count(eta: int, c: int, n: int) -> int
    decreases n,
{
    if n <= 0 {
        0
    } else {
        cbd_count(eta, c, n - 1) + if cbd_value(n - 1, eta) == c {
            1int
        } else {
            0int
        }
    }
}

/// Coefficient `i` of the sample from `bytes`: what the `i`-th value of
/// `2 * eta` bits gives.
pub open spec fn cbd_at(bytes: Seq<u8>, eta: int, i: int) -> int {
    cbd_value(decode_at(bytes, 2 * eta, i), eta)
}

/// The sample from the centred binomial distribution that `64 * eta` bytes give.
pub open spec fn cbd_spec(bytes: Seq<u8>, eta: int) -> Seq<int> {
    Seq::new(256, |i: int| cbd_at(bytes, eta, i))
}

/// The table holds what its description says.
pub proof fn lemma_ones(x: int, y: int)
    requires
        0 <= x < 8,
        0 <= y < 8,
    ensures
        ONES[x][y] == (bit_count(x) - bit_count(y)) % 3329,
        ONES[x][y] < 3329,
        x < 4 && y < 4 ==> ONES[x][y] <= 2 || ONES[x][y] >= 3327,
        ONES[x][y] <= 3 || ONES[x][y] >= 3326,
{
    reveal_with_fuel(bit_count, 4);
    if x == 0 {
        assert(bit_count(0) == 0);
        assert(y == 0 ==> ONES[0][0] == 0 && bit_count(0) == 0);
        assert(y == 1 ==> ONES[0][1] == 3328 && bit_count(1) == 1);
        assert(y == 2 ==> ONES[0][2] == 3328 && bit_count(2) == 1);
        assert(y == 3 ==> ONES[0][3] == 3327 && bit_count(3) == 2);
        assert(y == 4 ==> ONES[0][4] == 3328 && bit_count(4) == 1);
        assert(y == 5 ==> ONES[0][5] == 3327 && bit_count(5) == 2);
        assert(y == 6 ==> ONES[0][6] == 3327 && bit_count(6) == 2);
        assert(y == 7 ==> ONES[0][7] == 3326 && bit_count(7) == 3);
    }
    if x == 1 {
        assert(bit_count(1) == 1);
        assert(y == 0 ==> ONES[1][0] == 1 && bit_count(0) == 0);
        assert(y == 1 ==> ONES[1][1] == 0 && bit_count(1) == 1);
        assert(y == 2 ==> ONES[1][2] == 0 && bit_count(2) == 1);
        assert(y == 3 ==> ONES[1][3] == 3328 && bit_count(3) == 2);
        assert(y == 4 ==> ONES[1][4] == 0 && bit_count(4) == 1);
        assert(y == 5 ==> ONES[1][5] == 3328 && bit_count(5) == 2);
        assert(y == 6 ==> ONES[1][6] == 3328 && bit_count(6) == 2);
        assert(y == 7 ==> ONES[1][7] == 3327 && bit_count(7) == 3);
    }
    if x == 2 {
        assert(bit_count(2) == 1);
        assert(y == 0 ==> ONES[2][0] == 1 && bit_count(0) == 0);
        assert(y == 1 ==> ONES[2][1] == 0 && bit_count(1) == 1);
        assert(y == 2 ==> ONES[2][2] == 0 && bit_count(2) == 1);
        assert(y == 3 ==> ONES[2][3] == 3328 && bit_count(3) == 2);
        assert(y == 4 ==> ONES[2][4] == 0 && bit_count(4) == 1);
        assert(y == 5 ==> ONES[2][5] == 3328 && bit_count(5) == 2);
        assert(y == 6 ==> ONES[2][6] == 3328 && bit_count(6) == 2);
        assert(y == 7 ==> ONES[2][7] == 3327 && bit_count(7) == 3);
    }
    if x == 3 {
        assert(bit_count(3) == 2);
        assert(y == 0 ==> ONES[3][0] == 2 && bit_count(0) == 0);
        assert(y == 1 ==> ONES[3][1] == 1 && bit_count(1) == 1);
        assert(y == 2 ==> ONES[3][2] == 1 && bit_count(2) == 1);
        assert(y == 3 ==> ONES[3][3] == 0 && bit_count(3) == 2);
        assert(y == 4 ==> ONES[3][4] == 1 && bit_count(4) == 1);
        assert(y == 5 ==> ONES[3][5] == 0 && bit_count(5) == 2);
        assert(y == 6 ==> ONES[3][6] == 0 && bit_count(6) == 2);
        assert(y == 7 ==> ONES[3][7] == 3328 && bit_count(7) == 3);
    }
    if x == 4 {
        assert(bit_count(4) == 1);
        assert(y == 0 ==> ONES[4][0] == 1 && bit_count(0) == 0);
        assert(y == 1 ==> ONES[4][1] == 0 && bit_count(1) == 1);
        assert(y == 2 ==> ONES[4][2] == 0 && bit_count(2) == 1);
        assert(y == 3 ==> ONES[4][3] == 3328 && bit_count(3) == 2);
        assert(y == 4 ==> ONES[4][4] == 0 && bit_count(4) == 1);
        assert(y == 5 ==> ONES[4][5] == 3328 && bit_count(5) == 2);
        assert(y == 6 ==> ONES[4][6] == 3328 && bit_count(6) == 2);
        assert(y == 7 ==> ONES[4][7] == 3327 && bit_count(7) == 3);
    }
    if x == 5 {
        assert(bit_count(5) == 2);
        assert(y == 0 ==> ONES[5][0] == 2 && bit_count(0) == 0);
        assert(y == 1 ==> ONES[5][1] == 1 && bit_count(1) == 1);
        assert(y == 2 ==> ONES[5][2] == 1 && bit_count(2) == 1);
        assert(y == 3 ==> ONES[5][3] == 0 && bit_count(3) == 2);
        assert(y == 4 ==> ONES[5][4] == 1 && bit_count(4) == 1);
        assert(y == 5 ==> ONES[5][5] == 0 && bit_count(5) == 2);
        assert(y == 6 ==> ONES[5][6] == 0 && bit_count(6) == 2);
        assert(y == 7 ==> ONES[5][7] == 3328 && bit_count(7) == 3);
    }
    if x == 6 {
        assert(bit_count(6) == 2);
        assert(y == 0 ==> ONES[6][0] == 2 && bit_count(0) == 0);
        assert(y == 1 ==> ONES[6][1] == 1 && bit_count(1) == 1);
        assert(y == 2 ==> ONES[6][2] == 1 && bit_count(2) == 1);
        assert(y == 3 ==> ONES[6][3] == 0 && bit_count(3) == 2);
        assert(y == 4 ==> ONES[6][4] == 1 && bit_count(4) == 1);
        assert(y == 5 ==> ONES[6][5] == 0 && bit_count(5) == 2);
        assert(y == 6 ==> ONES[6][6] == 0 && bit_count(6) == 2);
        assert(y == 7 ==> ONES[6][7] == 3328 && bit_count(7) == 3);
    }
    if x == 7 {
        assert(bit_count(7) == 3);
        assert(y == 0 ==> ONES[7][0] == 3 && bit_count(0) == 0);
        assert(y == 1 ==> ONES[7][1] == 2 && bit_count(1) == 1);
        assert(y == 2 ==> ONES[7][2] == 2 && bit_count(2) == 1);
        assert(y == 3 ==> ONES[7][3] == 1 && bit_count(3) == 2);
        assert(y == 4 ==> ONES[7][4] == 2 && bit_count(4) == 1);
        assert(y == 5 ==> ONES[7][5] == 1 && bit_count(5) == 2);
        assert(y == 6 ==> ONES[7][6] == 1 && bit_count(6) == 2);
        assert(y == 7 ==> ONES[7][7] == 0 && bit_count(7) == 3);
    }
}

impl Polynomial {
    /// Samples a polynomial from the centred binomial distribution with
    /// parameter `ETA`, from `64 * ETA` bytes of pseudo-random output.
    pub fn sample_cbd<const ETA: usize>(b: &[u8]) -> (r: Polynomial)
        requires
            ETA == 2 || ETA == 3,
            b@.len() == 64 * ETA,
        ensures
            r@ == cbd_spec(b@, ETA as int),
            forall|i: int| 0 <= i < 256 ==> (#[trigger] r@[i]) <= ETA || r@[i] >= 3329 - ETA,
            r.wf(),
    {
        let decoded = if ETA == 2 {
            byte_decode::<4>(b)
        } else {
            byte_decode::<6>(b)
        };
        let vals = match decoded {
            Ok(v) => v,
            Err(_) => unreached(),
        };
        let mask: Integer = if ETA == 2 {
            3
        } else {
            7
        };
        let mut out = [FieldElement(0);256];
        let mut i: usize = 0;
        proof {
            lemma2_to64();
        }
        while i < 256
            invariant
                i <= 256,
                ETA == 2 || ETA == 3,
                mask == pow2(ETA as nat) - 1,
                coeffs(vals) == decode_spec(b@, 2 * ETA),
                forall|j: int| 0 <= j < i ==> coeffs(out)[j] == cbd_at(b@, ETA as int, j),
                forall|j: int| 0 <= j < i ==> canonical(#[trigger] coeffs(out)[j]),
                forall|j: int|
                    0 <= j < i ==> (#[trigger] coeffs(out)[j]) <= ETA || coeffs(out)[j] >= 3329
                        - ETA,
                forall|j: int| i <= j < 256 ==> coeffs(out)[j] == 0,
            decreases 256 - i,
        {
            let val: Integer = vals[i].0;
            proof {
                lemma2_to64();
                lemma_decoded_fits(b@, 2 * ETA, i as int);
                assert(coeffs(vals)[i as int] == decode_at(b@, 2 * ETA, i as int));
            }
            let x: Integer = val & mask;
            let y: Integer = val >> (ETA as Integer);
            assert(x == (val as int) % (pow2(ETA as nat) as int) && y == (val as int) / (pow2(
                ETA as nat,
            ) as int) && x < 8 && y < 8) by {
                lemma2_to64();
                if ETA == 2 {
                    assert(val & 3 == val % 4 && val >> 2 == val / 4) by (bit_vector);
                } else {
                    assert(val & 7 == val % 8 && val >> 3 == val / 8) by (bit_vector);
                }
            }
            proof {
                lemma_ones(x as int, y as int);
            }
            let ghost before = coeffs(out);
            out[i] = FieldElement(ONES[x as usize][y as usize]);
            proof {
                let after = coeffs(out);
                assert forall|j: int| 0 <= j < 256 && j != i implies after[j] == before[j] by {}
            }
            i += 1;
        }
        proof {
            assert(coeffs(out) =~= cbd_spec(b@, ETA as int));
        }
        let r = Polynomial(out);
        proof {
            assert forall|i: int| 0 <= i < 256 implies (#[trigger] r@[i]) <= ETA || r@[i] >= 3329
                - ETA by {
                assert(coeffs(out)[i] <= ETA || coeffs(out)[i] >= 3329 - ETA);
            }
        }
        r
    }
}

/// Every decoded value fits in the width.
pub proof fn lemma_decoded_fits(bytes: Seq<u8>, d: int, i: int)
    requires
        valid_width(d),
    ensures
        0 <= decode_at(bytes, d, i) < pow2(d as nat),
{
    lemma_pow2_pos(d as nat);
    let c = i / value_step(d);
    let x = bytes_value(bytes, c * byte_step(d), byte_step(d));
    lemma_mod_bound(x / (pow2((d * (i % value_step(d))) as nat) as int), pow2(d as nat) as int);
    if d == 12 {
        lemma2_to64();
    }
}

/// The input of the stream that entry `(i, j)` of the matrix is sampled
/// from: the seed, then the two indices as bytes, row before column, or
/// column before row where `transpose` is set.
pub open spec fn entry_input(rho: Seq<u8>, i: int, j: int, transpose: bool) -> Seq<u8> {
    if transpose {
        rho + seq![(j % 256) as u8, (i % 256) as u8]
    } else {
        rho + seq![(i % 256) as u8, (j % 256) as u8]
    }
}

/// The input of the pseudo-random function for counter `n`.
pub open spec fn prf_input(sigma: Seq<u8>, n: int) -> Seq<u8> {
    sigma + seq![n as u8]
}

impl<const K: usize> NttVector<K> {
    /// Samples row `i` of the matrix: entry `j` from the stream for the seed
    /// and the indices `(i, j)`, or `(j, i)` where `transpose` is set.
    ///
    /// Gives `None` when the stream of an entry fails to give a sample.
    pub fn sample_uniform(rho: &B32, i: usize, transpose: bool) -> (r: Option<Self>)
        ensures
            match r {
                Some(v) => {
                    &&& v.wf()
                    &&& forall|j: int|
                        0 <= j < K ==> is_uniform_sample(
                            entry_input(rho@, i as int, j, transpose),
                            #[trigger] v@[j],
                        )
                    &&& forall|j: int|
                        0 <= j < K ==> !#[trigger] sample_fails(
                            entry_input(rho@, i as int, j, transpose),
                            0,
                        )
                },
                None => exists|j: int|
                    0 <= j < K && #[trigger] sample_fails(
                        entry_input(rho@, i as int, j, transpose),
                        0,
                    ),
            },
    {
        let mut out = [NttPolynomial::default();K];
        let mut j: usize = 0;
        while j < K
            invariant
                j <= K,
                forall|c: int|
                    0 <= c < j ==> is_uniform_sample(
                        entry_input(rho@, i as int, c, transpose),
                        (#[trigger] out[c])@,
                    ),
                forall|c: int| 0 <= c < j ==> (#[trigger] out[c]).wf(),
                forall|c: int|
                    0 <= c < j ==> !#[trigger] sample_fails(
                        entry_input(rho@, i as int, c, transpose),
                        0,
                    ),
            decreases K - j,
        {
            let (a, b) = if transpose {
                (j, i)
            } else {
                (i, j)
            };
            let mut xof = XOF(rho, a.truncate(), b.truncate());
            let ghost input = entry_input(rho@, i as int, j as int, transpose);
            assert(xof_input(xof) == input);
            match NttPolynomial::sample_uniform(&mut xof) {
                Some(p) => {
                    proof {
                        let blocks = xof_position(xof) as int / 96;
                        assert(sample_needs(input, 0, blocks));
                    }
                    out[j] = p;
                },
                None => {
                    assert(sample_fails(entry_input(rho@, i as int, j as int, transpose), 0));
                    return None;
                },
            }
            j += 1;
        }
        let v = NttVector(out);
        proof {
            assert forall|c: int| 0 <= c < K implies poly_wf(#[trigger] v@[c]) by {
                assert(out[c].wf());
            }
            assert forall|c: int| 0 <= c < K implies is_uniform_sample(
                entry_input(rho@, i as int, c, transpose),
                #[trigger] v@[c],
            ) by {
                assert(v@[c] == out[c]@);
            }
        }
        Some(v)
    }
}

impl<const K: usize> NttMatrix<K> {
    /// Samples the matrix from the seed, row by row.
    ///
    /// Gives `None` when the stream of an entry fails to give a sample.
    pub fn sample_uniform(rho: &B32, transpose: bool) -> (r: Option<Self>)
        ensures
            match r {
                Some(m) => {
                    &&& m.wf()
                    &&& forall|i: int, j: int|
                        0 <= i < K && 0 <= j < K ==> is_uniform_sample(
                            entry_input(rho@, i, j, transpose),
                            #[trigger] m@[i][j],
                        )
                    &&& forall|i: int, j: int|
                        0 <= i < K && 0 <= j < K ==> !#[trigger] sample_fails(
                            entry_input(rho@, i, j, transpose),
                            0,
                        )
                },
                None => exists|i: int, j: int|
                    0 <= i < K && 0 <= j < K && #[trigger] sample_fails(
                        entry_input(rho@, i, j, transpose),
                        0,
                    ),
            },
    {
        let mut out = [NttVector::<K>::default();K];
        let mut i: usize = 0;
        while i < K
            invariant
                i <= K,
                forall|a: int, b: int|
                    0 <= a < i && 0 <= b < K ==> is_uniform_sample(
                        entry_input(rho@, a, b, transpose),
                        #[trigger] out[a]@[b],
                    ),
                forall|a: int| 0 <= a < i ==> (#[trigger] out[a]).wf(),
                forall|a: int, b: int|
                    0 <= a < i && 0 <= b < K ==> !#[trigger] sample_fails(
                        entry_input(rho@, a, b, transpose),
                        0,
                    ),
            decreases K - i,
        {
            match NttVector::<K>::sample_uniform(rho, i, transpose) {
                Some(row) => {
                    out[i] = row;
                },
                None => {
                    return None;
                },
            }
            i += 1;
        }
        let m = NttMatrix(out);
        proof {
            assert forall|a: int| 0 <= a < K implies vec_wf(#[trigger] m@[a], K as int) by {
                assert(out[a].wf());
            }
            assert forall|a: int, b: int| 0 <= a < K && 0 <= b < K implies is_uniform_sample(
                entry_input(rho@, a, b, transpose),
                #[trigger] m@[a][b],
            ) by {
                assert(m@[a] == out[a]@);
            }
        }
        Some(m)
    }
}

impl<const K: usize> PolynomialVector<K> {
    /// Samples `K` polynomials from the centred binomial distribution: the
    /// one with index `i` from the pseudo-random output for the seed and the
    /// counter `start_n + i`.
    pub fn sample_cbd<const ETA: usize>(sigma: &B32, start_n: u8) -> (r: Self)
        requires
            ETA == 2 || ETA == 3,
            start_n + K <= 256,
        ensures
            r.wf(),
            forall|i: int|
                0 <= i < K ==> #[trigger] r@[i] == cbd_spec(
                    shake256(prf_input(sigma@, start_n + i), (64 * ETA) as nat),
                    ETA as int,
                ),
    {
        let mut out = [Polynomial::default();K];
        let mut i: usize = 0;
        while i < K
            invariant
                i <= K,
                ETA == 2 || ETA == 3,
                start_n + K <= 256,
                forall|c: int|
                    0 <= c < i ==> (#[trigger] out[c])@ == cbd_spec(
                        shake256(prf_input(sigma@, start_n + c), (64 * ETA) as nat),
                        ETA as int,
                    ),
                forall|c: int| 0 <= c < i ==> (#[trigger] out[c]).wf(),
            decreases K - i,
        {
            let step: u8 = i.truncate();
            let n: u8 = start_n + step;
            let prf_output = PRF::<ETA>(sigma, n);
            out[i] = Polynomial::sample_cbd::<ETA>(prf_output.as_slice());
            i += 1;
        }
        let r = PolynomialVector(out);
        proof {
            assert forall|c: int| 0 <= c < K implies poly_wf(#[trigger] r@[c]) by {
                assert(out[c].wf());
            }
            assert forall|c: int| 0 <= c < K implies #[trigger] r@[c] == cbd_spec(
                shake256(prf_input(sigma@, start_n + c), (64 * ETA) as nat),
                ETA as int,
            ) by {
                assert(r@[c] == out[c]@);
            }
        }
        r
    }
}

} // verus!
