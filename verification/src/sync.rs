//! The shared-pointer and mutual-exclusion container families. A shared
//! pointer dereferences to its contents and supports duplication of the
//! handle; the mutual-exclusion family defers entirely to its underlying
//! lock, whose blocking behaviour is outside the verified core, so only
//! its marker lives here.

use core::marker::PhantomData;

use std::sync::Arc;

use vstd::prelude::*;

use crate::id::IdHkt;
use crate::traits::{CloneK, DerefHkt, HktClassification, OuterHkt, UnsizedHkt, UnsizedHktUnsized};

verus! {

/// Marker for the shared-pointer container family.
pub struct ArcT<TInner = IdHkt>(pub PhantomData<TInner>);

impl<TInner> UnsizedHkt for ArcT<TInner> {}

impl<TInner> UnsizedHktUnsized for ArcT<TInner> {}

impl<TInner> DerefHkt for ArcT<TInner> {}

impl<TInner> CloneK for ArcT<TInner> {}

impl<TInner> HktClassification for ArcT<TInner> {
    type Choice = OuterHkt;
}

impl ArcT {
    /// Borrow the contents behind the shared pointer.
    pub fn deref<A>(fa: &Arc<A>) -> (r: &A)
        ensures
            *r == **fa,
    {
        &**fa
    }
}

/// Marker for the mutual-exclusion container family. Its in-place
/// mutation happens only inside its lock's narrowly scoped acquisition,
/// which the verified core does not model.
pub struct MutexT<TInner = IdHkt>(pub PhantomData<TInner>);

impl<TInner> HktClassification for MutexT<TInner> {
    type Choice = OuterHkt;
}

} // verus!
