//! A dependent wrapper: a newtype around a container's representation
//! that is associated with its family marker, so that a whole stack can
//! be re-expressed with an explicit seam between layers. Wrapping and
//! unwrapping are exact inverses, which is what makes the wrapper safe to
//! introduce and remove during relayering.

use core::marker::PhantomData;

use vstd::prelude::*;

use crate::id::IdHkt;
use crate::traits::{
    Applicative, CloneK, CovariantK, Functor, HktClassification, OuterHkt, Pure,
};

verus! {

/// Marker for the dependent-wrapper container family.
pub struct DependentWrapperT<TInner = IdHkt>(pub PhantomData<TInner>);

impl<TInner> HktClassification for DependentWrapperT<TInner> {
    type Choice = OuterHkt;
}

impl<TInner: Functor> Functor for DependentWrapperT<TInner> {}

impl<TInner: Pure> Pure for DependentWrapperT<TInner> {}

impl<TInner: Applicative> Applicative for DependentWrapperT<TInner> {}

impl<TInner: CloneK> CloneK for DependentWrapperT<TInner> {}

impl<TInner: CovariantK> CovariantK for DependentWrapperT<TInner> {}

/// The wrapped representation itself: exactly the inner value, behind a
/// seam.
pub struct DependentWrapper<A>(pub A);

impl DependentWrapperT {
    /// Put a representation behind the seam.
    pub fn wrap<A>(a: A) -> (r: DependentWrapper<A>)
        ensures
            r.0 == a,
    {
        DependentWrapper(a)
    }

    /// Rescope covariantly: the value itself is unchanged.
    pub fn covariant_convert<A>(a: DependentWrapper<A>) -> (r: DependentWrapper<A>)
        ensures
            r == a,
    {
        a
    }

    /// Transform the wrapped value.
    pub fn map<A, B, F>(f: F, fa: DependentWrapper<A>) -> (r: DependentWrapper<B>) where
        F: FnOnce(A) -> B,

        requires
            call_requires(f, (fa.0,)),
        ensures
            call_ensures(f, (fa.0,), r.0),
    {
        DependentWrapper(f(fa.0))
    }

    /// Lift a bare value behind the seam.
    pub fn pure<A>(a: A) -> (r: DependentWrapper<A>)
        ensures
            r.0 == a,
    {
        DependentWrapper(a)
    }

    /// Apply a wrapped transformer to a wrapped value.
    pub fn apply<A, B, F>(ff: DependentWrapper<F>, fa: DependentWrapper<A>) -> (r:
        DependentWrapper<B>) where
        F: FnOnce(A) -> B,

        requires
            call_requires(ff.0, (fa.0,)),
        ensures
            call_ensures(ff.0, (fa.0,), r.0),
    {
        let f = ff.0;
        DependentWrapper(f(fa.0))
    }

    /// Duplicate the wrapped value through the caller's ownership
    /// witness.
    pub fn clone<A, GA>(clone_a: GA, a: &DependentWrapper<A>) -> (r: DependentWrapper<A>) where
        GA: Fn(&A) -> A,

        requires
            call_requires(clone_a, (&a.0,)),
        ensures
            call_ensures(clone_a, (&a.0,), r.0),
    {
        DependentWrapper(clone_a(&a.0))
    }
}

impl<A> DependentWrapper<A> {
    /// Take the representation back out from behind the seam.
    pub fn into_inner(self) -> (r: A)
        ensures
            r == self.0,
    {
        self.0
    }
}

/// Wrapping and then unwrapping gives back the original value.
pub proof fn wrap_round_trip_law<A>(a: A)
    ensures
        (DependentWrapper(a)).0 == a,
{
}

} // verus!
