//! The nullary container family: `NullaryHkt<T>` applied to any element
//! type is just `T` — a container that is not actually higher kinded over
//! anything. Mapping does nothing; duplication duplicates the carried
//! value.

use core::marker::PhantomData;

use vstd::prelude::*;

use crate::traits::{
    CloneK, CloneOwnedK, CovariantK, Functor, HktClassification, TransparentHkt, UnsizedHkt,
    UnsizedHktUnsized,
};

verus! {

/// Marker for the nullary container family carrying `T`.
pub struct NullaryHkt<T = ()>(pub PhantomData<T>);

impl<T> UnsizedHkt for NullaryHkt<T> {}

impl<T> UnsizedHktUnsized for NullaryHkt<T> {}

impl<T> HktClassification for NullaryHkt<T> {
    type Choice = TransparentHkt;
}

impl<T> Functor for NullaryHkt<T> {}

impl<T: Clone> CloneK for NullaryHkt<T> {}

impl<T: Clone> CloneOwnedK for NullaryHkt<T> {}

impl<T> CovariantK for NullaryHkt<T> {}

impl<T> NullaryHkt<T> {
    /// Mapping over a container that carries no elements does nothing.
    pub fn map<A, B, GA, GB, F>(_clone_a: GA, _clone_b: GB, _f: F, fa: T) -> (r: T) where
        GA: Fn(&A) -> A,
        GB: Fn(&B) -> B,
        F: FnOnce(A) -> B,

        ensures
            r == fa,
    {
        fa
    }

    /// Duplicate the carried value.
    pub fn clone<A, GA>(_clone_a: GA, a: &T) -> (r: T) where T: Clone, GA: Fn(&A) -> A
        ensures
            cloned(*a, r),
    {
        a.clone()
    }

    /// Duplicate the carried value into a fresh validity region.
    pub fn clone_owned<A, GA>(_clone_a: GA, a: &T) -> (r: T) where T: Clone, GA: Fn(&A) -> A
        ensures
            cloned(*a, r),
    {
        a.clone()
    }

    /// Rescope covariantly: the value itself is unchanged.
    pub fn covariant_convert(a: T) -> (r: T)
        ensures
            r == a,
    {
        a
    }
}

} // verus!
