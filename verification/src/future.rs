//! The pinned-future container family. Its algebra composes cooperative
//! suspension points of an asynchronous runtime, which the verified core
//! cannot model; the executable combinators live with the unverified
//! adapters, and only the family's marker stands here so stacks can name
//! it.

use core::marker::PhantomData;

use vstd::prelude::*;

use crate::id::IdHkt;
use crate::traits::{CovariantK, HktClassification, OuterHkt};

verus! {

/// Marker for the pinned-future container family.
pub struct PinBoxFutureT<TInner = IdHkt>(pub PhantomData<TInner>);

impl<TInner> HktClassification for PinBoxFutureT<TInner> {
    type Choice = OuterHkt;
}

impl<TInner: CovariantK> CovariantK for PinBoxFutureT<TInner> {}

} // verus!
