//! The plain-reference container families: `RefT` stands for a shared
//! borrow of the inner representation, `RefMutT` for an exclusive one.
//! Their representations live only as long as the borrow, so the
//! executable algebra is carried by the borrowed family itself; here the
//! families exist as stack ingredients.

use core::marker::PhantomData;

use vstd::prelude::*;

use crate::id::IdHkt;
use crate::traits::{HktClassification, OuterHkt};

verus! {

/// Marker for the shared-reference container family.
pub struct RefT<TInner = IdHkt>(pub PhantomData<TInner>);

impl<TInner> HktClassification for RefT<TInner> {
    type Choice = OuterHkt;
}

impl RefT {
    /// Rescope covariantly: the reference itself is unchanged.
    pub fn covariant_convert<'a, A>(a: &'a A) -> (r: &'a A)
        ensures
            r == a,
    {
        a
    }
}

/// Marker for the exclusive-reference container family.
pub struct RefMutT<TInner = IdHkt>(pub PhantomData<TInner>);

impl<TInner> HktClassification for RefMutT<TInner> {
    type Choice = OuterHkt;
}

} // verus!
