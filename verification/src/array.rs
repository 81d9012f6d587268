//! The fixed-length array container family: `ArrayT` applied to an
//! element type holds exactly `N` elements. The array is borrowed and its
//! elements are duplicated through the caller's ownership witness before
//! they are transformed or folded.

use core::marker::PhantomData;

use vstd::prelude::*;

use crate::fold::{fold_while_describes, FoldWhile};
use crate::id::IdHkt;
use crate::traits::{CloneK, Foldable, Functor, HktClassification, OuterHkt, Pure};
use crate::vec_t::{maps_row_with, maps_row_through, VecT};

verus! {

/// Marker for the fixed-length array container family.
pub struct ArrayT<const N: usize, TInner = IdHkt>(pub PhantomData<TInner>);

impl<const N: usize, TInner> HktClassification for ArrayT<N, TInner> {
    type Choice = OuterHkt;
}

impl<const N: usize, TInner: Functor> Functor for ArrayT<N, TInner> {}

impl<const N: usize, TInner: Foldable> Foldable for ArrayT<N, TInner> {}

impl<TInner: Pure> Pure for ArrayT<1, TInner> {}

impl<const N: usize, TInner: CloneK> CloneK for ArrayT<N, TInner> {}

impl<const N: usize> ArrayT<N> {
    /// Transform a duplicate of every element, in order.
    pub fn map<A, B, GA, GB, F>(clone_a: GA, _clone_b: GB, f: F, fa: &[A; N]) -> (r: Vec<B>) where
        GA: Fn(&A) -> A,
        GB: Fn(&B) -> B,
        F: Fn(A) -> B,

        requires
            forall|i: int| 0 <= i < N ==> call_requires(clone_a, (&fa@[i],)),
            forall|i: int, a2: A|
                0 <= i < N && call_ensures(clone_a, (&fa@[i],), a2) ==> call_requires(f, (a2,)),
        ensures
            r@.len() == N,
            maps_row_through(clone_a, f, fa@, r@),
    {
        let mut out: Vec<B> = Vec::new();
        let ghost mut wits: Seq<A> = Seq::empty();
        let mut i: usize = 0;
        while i < N
            invariant
                0 <= i <= N,
                out@.len() == i,
                wits.len() == i,
                forall|j: int| 0 <= j < N ==> call_requires(clone_a, (&fa@[j],)),
                forall|j: int, a2: A|
                    0 <= j < N && call_ensures(clone_a, (&fa@[j],), a2) ==> call_requires(
                        f,
                        (a2,),
                    ),
                forall|j: int|
                    0 <= j < i ==> call_ensures(clone_a, (&fa@[j],), #[trigger] wits[j]),
                forall|j: int| 0 <= j < i ==> call_ensures(f, (wits[j],), #[trigger] out@[j]),
            decreases N - i,
        {
            let a2 = clone_a(&fa[i]);
            let ghost ga2 = a2;
            let b = f(a2);
            out.push(b);
            proof {
                wits = wits.push(ga2);
            }
            i += 1;
        }
        proof {
            assert(maps_row_with(clone_a, f, fa@, out@, wits));
        }
        out
    }

    /// Fold duplicates of the elements left to right into the
    /// accumulator, stopping as soon as the step answers `Break`.
    pub fn fold_while<A, B, GA, GB, F>(
        clone_a: GA,
        clone_b: GB,
        f: F,
        init: B,
        fa: &[A; N],
    ) -> (r: FoldWhile<B>) where
        GA: Fn(&A) -> A,
        GB: Fn(&B) -> B,
        F: Fn(B, A) -> FoldWhile<B>,

        requires
            forall|i: int| 0 <= i < N ==> call_requires(clone_a, (&fa@[i],)),
            forall|b: B, i: int, a2: A|
                0 <= i < N && call_ensures(clone_a, (&fa@[i],), a2) ==> call_requires(f, (b, a2)),
        ensures
            exists|elts: Seq<A>|
                {
                    &&& elts.len() == N
                    &&& forall|i: int|
                        0 <= i < N ==> call_ensures(clone_a, (&fa@[i],), #[trigger] elts[i])
                    &&& fold_while_describes(f, elts, init, r)
                },
    {
        let mut copies: Vec<A> = Vec::new();
        let mut i: usize = 0;
        while i < N
            invariant
                0 <= i <= N,
                copies@.len() == i,
                forall|j: int| 0 <= j < N ==> call_requires(clone_a, (&fa@[j],)),
                forall|b: B, j: int, a2: A|
                    0 <= j < N && call_ensures(clone_a, (&fa@[j],), a2) ==> call_requires(
                        f,
                        (b, a2),
                    ),
                forall|j: int|
                    0 <= j < i ==> call_ensures(clone_a, (&fa@[j],), #[trigger] copies@[j]),
            decreases N - i,
        {
            let a2 = clone_a(&fa[i]);
            copies.push(a2);
            i += 1;
        }
        let ghost elts = copies@;
        VecT::fold_while(clone_a, clone_b, f, init, copies)
    }

    /// Duplicate the array.
    pub fn clone<A: Clone>(a: &[A; N]) -> (r: [A; N])
        ensures
            forall|i: int| 0 <= i < N ==> cloned(a@[i], #[trigger] r@[i]),
    {
        a.clone()
    }
}

impl ArrayT<1> {
    /// Lift a bare value into a one-element array.
    pub fn pure<A, GA>(_clone_a: GA, a: A) -> (r: [A; 1]) where GA: Fn(&A) -> A
        ensures
            r@ =~= seq![a],
    {
        [a]
    }
}

} // verus!
