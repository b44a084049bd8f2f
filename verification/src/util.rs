//! Small helpers: lossless narrowing of integers and copies of arrays.

use vstd::arithmetic::div_mod::{lemma_fundamental_div_mod, lemma_fundamental_div_mod_converse};
use vstd::prelude::*;

verus! {

/// Narrow an unsigned integer to a shorter type, keeping its low-order bits.
pub trait Truncate<T>: Sized {
    /// The low-order bits of `self` that fit in `T`.
    spec fn truncated(self) -> T;

    /// `self` without the bits that do not fit in `T`.
    fn truncate(self) -> (r: T)
        ensures
            r == self.truncated(),
    ;
}

impl Truncate<u16> for u32 {
    open spec fn truncated(self) -> u16 {
        (self % 0x1_0000) as u16
    }

    fn truncate(self) -> (r: u16) {
        assert(self & 0xffff == self % 0x1_0000) by (bit_vector);
        (self & 0xffff) as u16
    }
}

impl Truncate<u32> for u64 {
    open spec fn truncated(self) -> u32 {
        (self % 0x1_0000_0000) as u32
    }

    fn truncate(self) -> (r: u32) {
        assert(self & 0xffff_ffff == self % 0x1_0000_0000) by (bit_vector);
        (self & 0xffff_ffff) as u32
    }
}

impl Truncate<u8> for usize {
    open spec fn truncated(self) -> u8 {
        (self % 0x100) as u8
    }

    fn truncate(self) -> (r: u8) {
        assert(self & 0xff == self % 0x100) by (bit_vector);
        (self & 0xff) as u8
    }
}

impl Truncate<u16> for u128 {
    open spec fn truncated(self) -> u16 {
        (self % 0x1_0000) as u16
    }

    fn truncate(self) -> (r: u16) {
        assert(self & 0xffff == self % 0x1_0000) by (bit_vector);
        (self & 0xffff) as u16
    }
}

impl Truncate<u8> for u128 {
    open spec fn truncated(self) -> u8 {
        (self % 0x100) as u8
    }

    fn truncate(self) -> (r: u8) {
        assert(self & 0xff == self % 0x100) by (bit_vector);
        (self & 0xff) as u8
    }
}

/// A copy of a value, under a name of its own so that arrays can have a
/// faster one than `Clone` gives them.
pub trait FastClone: Sized {
    /// A copy of `self`.
    fn fast_clone(&self) -> (r: Self)
        ensures
            r == *self,
    ;
}

impl<T: Copy, const N: usize> FastClone for [T; N] {
    fn fast_clone(&self) -> (r: Self) {
        *self
    }
}

/// `accs` holds what combining the elements of `s` with `f`, from the left,
/// can give step by step: element 0 of `s`, then `f` of what there is and
/// the next element.
pub open spec fn is_fold_trace<T, F: Fn(&T, &T) -> T>(f: F, s: Seq<T>, accs: Seq<T>) -> bool {
    &&& 1 <= accs.len() <= s.len()
    &&& accs[0] == s[0]
    &&& forall|i: int|
        1 <= i < accs.len() ==> call_ensures(f, (&accs[i - 1], &s[i]), #[trigger] accs[i])
}

/// Element-wise operations on arrays.
pub trait FunctionalArray<T, const N: usize>: Sized {
    /// The elements of the array.
    spec fn elements(&self) -> Seq<T>;

    /// The array of the images of the elements under `f`.
    fn map<U, F>(&self, f: F) -> (r: [U; N]) where U: Default + Copy, F: Fn(&T) -> U
        requires
            forall|i: int| 0 <= i < N ==> call_requires(f, (&#[trigger] self.elements()[i],)),
        ensures
            forall|i: int|
                0 <= i < N ==> call_ensures(f, (&self.elements()[i],), #[trigger] r@[i]),
    ;

    /// The array of the images of the pairs of elements under `f`.
    fn zip<U, F>(&self, b: &Self, f: F) -> (r: [U; N]) where U: Default + Copy, F: Fn(&T, &T) -> U
        requires
            forall|i: int|
                0 <= i < N ==> call_requires(
                    f,
                    (&#[trigger] self.elements()[i], &b.elements()[i]),
                ),
        ensures
            forall|i: int|
                0 <= i < N ==> call_ensures(
                    f,
                    (&self.elements()[i], &b.elements()[i]),
                    #[trigger] r@[i],
                ),
    ;

    /// The elements combined with `f`, from the left: the first, then `f` of
    /// what there is and the next.
    fn fold<F>(&self, f: F) -> (r: T) where T: Copy, F: Fn(&T, &T) -> T
        requires
            1 <= N,
            self.elements().len() == N,
            forall|accs: Seq<T>|
                #[trigger] is_fold_trace(f, self.elements(), accs) && accs.len() < N
                    ==> call_requires(f, (&accs.last(), &self.elements()[accs.len() as int])),
        ensures
            exists|accs: Seq<T>|
                #[trigger] is_fold_trace(f, self.elements(), accs) && accs.len() == N && r
                    == accs.last(),
    ;
}

impl<T, const N: usize> FunctionalArray<T, N> for [T; N] {
    open spec fn elements(&self) -> Seq<T> {
        self@
    }

    fn map<U, F>(&self, f: F) -> (r: [U; N]) where U: Default + Copy, F: Fn(&T) -> U {
        let mut out = [U::default();N];
        let mut i: usize = 0;
        while i < N
            invariant
                i <= N,
                forall|j: int|
                    0 <= j < N ==> call_requires(f, (&#[trigger] self.elements()[j],)),
                forall|j: int|
                    0 <= j < i ==> call_ensures(f, (&self.elements()[j],), #[trigger] out@[j]),
            decreases N - i,
        {
            assert(call_requires(f, (&self.elements()[i as int],)));
            out[i] = f(&self[i]);
            i += 1;
        }
        out
    }

    fn zip<U, F>(&self, b: &Self, f: F) -> (r: [U; N]) where
        U: Default + Copy,
        F: Fn(&T, &T) -> U,
     {
        let mut out = [U::default();N];
        let mut i: usize = 0;
        while i < N
            invariant
                i <= N,
                forall|j: int|
                    0 <= j < N ==> call_requires(
                        f,
                        (&#[trigger] self.elements()[j], &b.elements()[j]),
                    ),
                forall|j: int|
                    0 <= j < i ==> call_ensures(
                        f,
                        (&self.elements()[j], &b.elements()[j]),
                        #[trigger] out@[j],
                    ),
            decreases N - i,
        {
            assert(call_requires(f, (&self.elements()[i as int], &b.elements()[i as int])));
            out[i] = f(&self[i], &b[i]);
            i += 1;
        }
        out
    }

    fn fold<F>(&self, f: F) -> (r: T) where T: Copy, F: Fn(&T, &T) -> T {
        let mut out = self[0];
        let ghost mut accs: Seq<T> = seq![out];
        let mut i: usize = 1;
        while i < N
            invariant
                1 <= i <= N,
                self.elements().len() == N,
                forall|a: Seq<T>|
                    #[trigger] is_fold_trace(f, self.elements(), a) && a.len() < N
                        ==> call_requires(f, (&a.last(), &self.elements()[a.len() as int])),
                is_fold_trace(f, self.elements(), accs),
                accs.len() == i,
                out == accs.last(),
            decreases N - i,
        {
            let ghost before = accs;
            out = f(&out, &self[i]);
            proof {
                accs = before.push(out);
                assert forall|j: int| 1 <= j < accs.len() implies call_ensures(
                    f,
                    (&accs[j - 1], &self.elements()[j]),
                    #[trigger] accs[j],
                ) by {
                    if j < before.len() {
                        assert(accs[j] == before[j] && accs[j - 1] == before[j - 1]);
                    }
                }
            }
            i += 1;
        }
        out
    }
}

/// A sequence of sequences that can be merged into one.
pub trait Flatten<T>: Sized {
    /// The elements of the parts, in order.
    spec fn flat(&self) -> Seq<T>;

    /// The elements of the parts, one part after another.
    fn flatten(self) -> (r: Vec<T>)
        ensures
            r@ == self.flat(),
    ;
}

impl<T: Copy, const M: usize, const N: usize> Flatten<T> for [[T; M]; N] {
    open spec fn flat(&self) -> Seq<T> {
        Seq::new((N * M) as nat, |i: int| self@[i / M as int]@[i % M as int])
    }

    fn flatten(self) -> (r: Vec<T>) {
        let mut out: Vec<T> = Vec::new();
        let mut i: usize = 0;
        while i < N
            invariant
                i <= N,
                out@.len() == i * M,
                forall|b: int| 0 <= b < out@.len() ==> out@[b] == self@[b / M as int]@[b % M as int],
            decreases N - i,
        {
            let mut j: usize = 0;
            while j < M
                invariant
                    i < N,
                    j <= M,
                    out@.len() == i * M + j,
                    forall|b: int|
                        0 <= b < out@.len() ==> out@[b] == self@[b / M as int]@[b % M as int],
                decreases M - j,
            {
                proof {
                    lemma_fundamental_div_mod_converse(i * M + j, M as int, i as int, j as int);
                }
                out.push(self[i][j]);
                j += 1;
            }
            assert((i + 1) * M == i * M + M) by (nonlinear_arith);
            i += 1;
        }
        proof {
            assert(out@ =~= self.flat());
        }
        out
    }
}

/// A sequence that can be split into `M` parts of equal length.
pub trait Unflatten<const M: usize>: Sized {
    /// A part of the sequence.
    type Part;

    /// The elements of the sequence.
    spec fn whole(&self) -> Seq<Self::Item>;

    /// The element type.
    type Item;

    /// The elements of a part.
    spec fn part_elements(part: &Self::Part) -> Seq<Self::Item>;

    /// The `M` parts of equal length, in order.
    fn unflatten(self) -> (r: Vec<Self::Part>)
        requires
            0 < M,
            self.whole().len() as int % M as int == 0,
        ensures
            r@.len() == M,
            forall|i: int|
                0 <= i < M ==> Self::part_elements(#[trigger] &r@[i]) == self.whole().subrange(
                    i * (self.whole().len() as int / M as int),
                    (i + 1) * (self.whole().len() as int / M as int),
                ),
    ;
}

impl<T: Copy, const N: usize, const M: usize> Unflatten<M> for [T; N] {
    type Part = Vec<T>;

    type Item = T;

    open spec fn whole(&self) -> Seq<T> {
        self@
    }

    open spec fn part_elements(part: &Vec<T>) -> Seq<T> {
        part@
    }

    fn unflatten(self) -> (r: Vec<Vec<T>>) {
        let part_size: usize = N / M;
        let mut out: Vec<Vec<T>> = Vec::new();
        let mut i: usize = 0;
        proof {
            lemma_fundamental_div_mod(N as int, M as int);
        }
        while i < M
            invariant
                0 < M,
                i <= M,
                part_size == N / M,
                N == M * part_size,
                out@.len() == i,
                forall|c: int|
                    0 <= c < i ==> (#[trigger] out@[c])@ == self@.subrange(
                        c * part_size,
                        (c + 1) * part_size,
                    ),
            decreases M - i,
        {
            assert(i * part_size + part_size <= M * part_size && 0 <= i * part_size && (i + 1)
                * part_size == i * part_size + part_size) by (nonlinear_arith)
                requires
                    0 <= i < M,
                    0 <= part_size,
            ;
            let from: usize = i * part_size;
            let mut part: Vec<T> = Vec::new();
            let mut j: usize = 0;
            while j < part_size
                invariant
                    j <= part_size,
                    from + part_size <= N,
                    part@.len() == j,
                    forall|b: int| 0 <= b < j ==> part@[b] == self@[from + b],
                decreases part_size - j,
            {
                part.push(self[from + j]);
                j += 1;
            }
            proof {
                assert(part@ =~= self@.subrange(i * part_size, (i + 1) * part_size));
            }
            out.push(part);
            i += 1;
        }
        out
    }
}

impl<'a, T, const N: usize, const M: usize> Unflatten<M> for &'a [T; N] {
    type Part = &'a [T];

    type Item = T;

    open spec fn whole(&self) -> Seq<T> {
        self@
    }

    open spec fn part_elements(part: &&'a [T]) -> Seq<T> {
        part@
    }

    fn unflatten(self) -> (r: Vec<&'a [T]>) {
        let part_size: usize = N / M;
        let mut out: Vec<&'a [T]> = Vec::new();
        let mut i: usize = 0;
        proof {
            lemma_fundamental_div_mod(N as int, M as int);
        }
        while i < M
            invariant
                0 < M,
                i <= M,
                part_size == N / M,
                N == M * part_size,
                out@.len() == i,
                forall|c: int|
                    0 <= c < i ==> (#[trigger] out@[c])@ == self@.subrange(
                        c * part_size,
                        (c + 1) * part_size,
                    ),
            decreases M - i,
        {
            assert(i * part_size + part_size <= M * part_size && 0 <= i * part_size && (i + 1)
                * part_size == i * part_size + part_size) by (nonlinear_arith)
                requires
                    0 <= i < M,
                    0 <= part_size,
            ;
            let from: usize = i * part_size;
            let part = vstd::slice::slice_subrange(self.as_slice(), from, from + part_size);
            out.push(part);
            i += 1;
        }
        out
    }
}

} // verus!
