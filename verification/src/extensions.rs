//! Extension surface over the folding algebra: a place for derived
//! folding conveniences shared by every foldable family.

use vstd::prelude::*;

use crate::traits::Foldable;

verus! {

/// Foldable families with the derived conveniences available.
pub trait FoldableExt: Foldable {}

impl<T: Foldable> FoldableExt for T {}

} // verus!
