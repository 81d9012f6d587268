//! The erased-iterator container family: a lazily produced stream of
//! elements whose exact type is erased. Erasure demands a trait object,
//! which the verified core cannot hold; the executable combinators live
//! with the unverified adapters, and only the family's marker stands here
//! so stacks can name it.

use core::marker::PhantomData;

use vstd::prelude::*;

use crate::id::IdHkt;
use crate::traits::{HktClassification, OuterHkt, UnsizedHkt, UnsizedHktUnsized};

verus! {

/// Marker for the erased-iterator container family.
pub struct DynIteratorT<TInner = IdHkt>(pub PhantomData<TInner>);

impl<TInner> UnsizedHkt for DynIteratorT<TInner> {}

impl<TInner> UnsizedHktUnsized for DynIteratorT<TInner> {}

impl<TInner> HktClassification for DynIteratorT<TInner> {
    type Choice = OuterHkt;
}

} // verus!
