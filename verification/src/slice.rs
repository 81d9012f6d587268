//! The slice container family: a contiguous run of elements of
//! indeterminate length. The representation is inherently open-ended, so
//! consumers reach it through a sized handle from another family; the
//! marker here is the open-ended half of that pair.

use core::marker::PhantomData;

use vstd::prelude::*;

use crate::id::IdHkt;
use crate::traits::{HktClassification, OuterHkt, UnsizedHkt, UnsizedHktUnsized};

verus! {

/// Marker for the slice container family.
pub struct SliceT<TInner = IdHkt>(pub PhantomData<TInner>);

impl<TInner> UnsizedHkt for SliceT<TInner> {}

impl<TInner> UnsizedHktUnsized for SliceT<TInner> {}

impl<TInner> HktClassification for SliceT<TInner> {
    type Choice = OuterHkt;
}

} // verus!
