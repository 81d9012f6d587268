//! The identity container: the representation of `IdHkt` applied to an
//! element type is the element itself. Every algebra in the hierarchy holds
//! trivially, which makes this family the unit for stack composition.

use vstd::prelude::*;

use crate::fold::FoldWhile;
use crate::traits::{
    Applicative, CloneK, CloneOwnedK, CovariantK, Foldable, Functor, HktClassification, Monad,
    Pure, Rfoldable, Traversable, TransparentHkt, UnsizedHkt, UnsizedHktUnsized,
};

verus! {

/// Marker for the identity container family.
pub struct IdHkt;

impl UnsizedHkt for IdHkt {}

impl UnsizedHktUnsized for IdHkt {}

impl HktClassification for IdHkt {
    type Choice = TransparentHkt;
}

impl Functor for IdHkt {}

impl Foldable for IdHkt {}

impl Rfoldable for IdHkt {}

impl Pure for IdHkt {}

impl Applicative for IdHkt {}

impl Monad for IdHkt {}

impl Traversable for IdHkt {}

impl CloneK for IdHkt {}

impl CloneOwnedK for IdHkt {}

impl CovariantK for IdHkt {}

impl IdHkt {
    /// Transform the single element.
    pub fn map<A, B, GA, GB, F>(_clone_a: GA, _clone_b: GB, f: F, fa: A) -> (r: B) where
        GA: Fn(&A) -> A,
        GB: Fn(&B) -> B,
        F: FnOnce(A) -> B,

        requires
            call_requires(f, (fa,)),
        ensures
            call_ensures(f, (fa,), r),
    {
        f(fa)
    }

    /// Fold the single element into the accumulator.
    pub fn fold_while<A, B, GA, GB, F>(
        _clone_a: GA,
        _clone_b: GB,
        f: F,
        init: B,
        fb: A,
    ) -> (r: FoldWhile<B>) where
        GA: Fn(&A) -> A,
        GB: Fn(&B) -> B,
        F: FnOnce(B, A) -> FoldWhile<B>,

        requires
            call_requires(f, (init, fb)),
        ensures
            call_ensures(f, (init, fb), r),
    {
        f(init, fb)
    }

    /// Fold the single element, right to left: identical to `fold_while`,
    /// since there is exactly one element.
    pub fn rfold_while<A, B, GA, GB, F>(
        _clone_a: GA,
        _clone_b: GB,
        f: F,
        init: B,
        fb: A,
    ) -> (r: FoldWhile<B>) where
        GA: Fn(&A) -> A,
        GB: Fn(&B) -> B,
        F: FnOnce(B, A) -> FoldWhile<B>,

        requires
            call_requires(f, (init, fb)),
        ensures
            call_ensures(f, (init, fb), r),
    {
        f(init, fb)
    }

    /// Lift a bare value; for the identity family this is the value.
    pub fn pure<A, GA>(_clone_a: GA, a: A) -> (r: A) where GA: Fn(&A) -> A
        ensures
            r == a,
    {
        a
    }

    /// Apply a container of transformers — here, the transformer itself —
    /// to a container of values.
    pub fn apply<A, B, GA, GB, F>(_clone_a: GA, _clone_b: GB, ff: F, fa: A) -> (r: B) where
        GA: Fn(&A) -> A,
        GB: Fn(&B) -> B,
        F: FnOnce(A) -> B,

        requires
            call_requires(ff, (fa,)),
        ensures
            call_ensures(ff, (fa,), r),
    {
        ff(fa)
    }

    /// Sequence a container-producing continuation across the single
    /// element.
    pub fn bind<A, B, GA, GB, F>(_clone_a: GA, _clone_b: GB, fa: A, f: F) -> (r: B) where
        GA: Fn(&A) -> A,
        GB: Fn(&B) -> B,
        F: FnOnce(A) -> B,

        requires
            call_requires(f, (fa,)),
        ensures
            call_ensures(f, (fa,), r),
    {
        f(fa)
    }

    /// Traverse the single element into a target container: the result is
    /// exactly what the continuation produced.
    pub fn traverse<A, FB, GA, F>(_clone_a: GA, f: F, fa: A) -> (r: FB) where
        GA: Fn(&A) -> A,
        F: FnOnce(A) -> FB,

        requires
            call_requires(f, (fa,)),
        ensures
            call_ensures(f, (fa,), r),
    {
        f(fa)
    }

    /// Duplicate the single element through the caller's ownership witness.
    pub fn clone<A, GA>(clone_a: GA, a: &A) -> (r: A) where GA: Fn(&A) -> A
        requires
            call_requires(clone_a, (a,)),
        ensures
            call_ensures(clone_a, (a,), r),
    {
        clone_a(a)
    }

    /// Duplicate the single element into a fresh validity region.
    pub fn clone_owned<A, GA>(clone_a: GA, a: &A) -> (r: A) where GA: Fn(&A) -> A
        requires
            call_requires(clone_a, (a,)),
        ensures
            call_ensures(clone_a, (a,), r),
    {
        clone_a(a)
    }

    /// Rescope covariantly: the value itself is unchanged.
    pub fn covariant_convert<A>(a: A) -> (r: A)
        ensures
            r == a,
    {
        a
    }
}

} // verus!
