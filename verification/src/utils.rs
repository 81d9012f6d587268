//! Small utilities around function values and ownership: a wrapper that
//! pairs a value with its duplication witness so both can move into a
//! closure together, a wrapper that vouches for a value's auto traits,
//! and helpers for re-expressing function values with different borrowing
//! shapes.

use vstd::prelude::*;

verus! {

/// Pairs a value with a function that duplicates it, so that closures can
/// move the pair and duplicate later.
pub struct CloneWrapper<T, F>(pub T, pub F);

impl<T, F> CloneWrapper<T, F> {
    /// Borrow the carried value; borrowing through the wrapper forces a
    /// closure to move the whole pair rather than just the value.
    pub fn get_ref_t(&self) -> (r: &T)
        ensures
            r == &self.0,
    {
        &self.0
    }

    /// Duplicate the pair: the value through its witness, the witness by
    /// its own duplication.
    pub fn clone(&self) -> (r: CloneWrapper<T, F>) where F: Fn(&T) -> T + Clone
        requires
            call_requires(self.1, (&self.0,)),
        ensures
            call_ensures(self.1, (&self.0,), r.0),
            cloned(self.1, r.1),
    {
        let v = (self.1)(&self.0);
        let f = self.1.clone();
        CloneWrapper(v, f)
    }
}

/// Wraps a value the caller vouches satisfies the auto traits the library
/// asks of values crossing container boundaries.
pub struct UnsafeAuto<T>(pub T);

impl<T> UnsafeAuto<T> {
    /// Checks, at the type level, that a value satisfies the auto traits.
    pub fn assert_markers_implemented(_witness: T) where T: Send + Sync + Unpin {
    }

    /// Take the vouched-for value back out.
    pub fn into_inner(self) -> (r: T)
        ensures
            r == self.0,
    {
        self.0
    }
}

/// Re-borrow a shared function value: the borrowed function answers for
/// the original.
pub fn clone_fn_from_ref<A, B, F>(f1: &F) -> (r: &F) where F: Fn(A) -> B
    ensures
        r == f1,
{
    f1
}

/// Duplicate a shareable, duplicable function value.
pub fn clone_fn<A, B, F>(f1: &F) -> (r: F) where F: Fn(A) -> B + Clone
    ensures
        cloned(*f1, r),
{
    f1.clone()
}

/// Duplicate a one-shot function value through a borrow, so the original
/// stays usable.
pub fn clone_fn_once_ref<A, B, F>(f1: &F) -> (r: F) where F: FnOnce(A) -> B + Clone
    ensures
        cloned(*f1, r),
{
    f1.clone()
}

/// Use a duplicable one-shot function without consuming it: duplicate it,
/// call the duplicate, and hand the original back.
pub fn clone_fn_once<A, B, F>(f1: F, a: A) -> (r: (B, F)) where F: FnOnce(A) -> B + Clone
    requires
        forall|g: F| #[trigger] cloned(f1, g) ==> call_requires(g, (a,)),
    ensures
        exists|g: F| #[trigger] cloned(f1, g) && call_ensures(g, (a,), r.0),
        r.1 == f1,
{
    let g = f1.clone();
    proof {
        assert(cloned(f1, g));
        assert(call_requires(g, (a,)));
    }
    let b = g(a);
    (b, f1)
}

} // verus!
