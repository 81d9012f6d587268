//! Spec-level helpers over sequences of per-element results, shared by the
//! contracts of the container algebras: viewing a sequence of vectors as a
//! sequence of sequences, and collecting a sequence of optional results
//! into an optional sequence.

use vstd::prelude::*;

verus! {

/// The views of a sequence of vectors.
pub open spec fn seq_of_views<B>(vs: Seq<Vec<B>>) -> Seq<Seq<B>> {
    vs.map_values(|v: Vec<B>| v@)
}

/// Every element is present.
pub open spec fn seq_all_some<T>(mid: Seq<Option<T>>) -> bool {
    forall|i: int| 0 <= i < mid.len() ==> mid[i] is Some
}

/// The carried values of a sequence of present elements.
pub open spec fn seq_unwrap_all<T>(mid: Seq<Option<T>>) -> Seq<T> {
    Seq::new(mid.len(), |i: int| mid[i]->0)
}

/// Collect a sequence of optional values: present exactly when every
/// element is, and then the sequence of carried values.
pub open spec fn opt_collect<T>(mid: Seq<Option<T>>) -> Option<Seq<T>> {
    if seq_all_some(mid) {
        Some(seq_unwrap_all(mid))
    } else {
        None
    }
}

/// The spec-level content of an optional vector.
pub open spec fn opt_vec_view<B>(m: Option<Vec<B>>) -> Option<Seq<B>> {
    match m {
        Some(v) => Some(v@),
        None => None,
    }
}

/// Collect a sequence of optional vectors: present exactly when every
/// element is, and then the concatenation of the carried vectors.
pub open spec fn opt_vec_collect<B>(mid: Seq<Option<Vec<B>>>) -> Option<Seq<B>> {
    if seq_all_some(mid) {
        Some(seq_of_views(seq_unwrap_all(mid)).flatten())
    } else {
        None
    }
}

} // verus!
