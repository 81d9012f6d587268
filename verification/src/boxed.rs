//! The boxed container family: `BoxT` applied to an element type is the
//! element behind an owning pointer. Behaviourally the box is the identity
//! container — every algebra acts on the single element — with the
//! indirection of the pointer as its only representational difference.

use core::marker::PhantomData;

use vstd::prelude::*;

use crate::fold::FoldWhile;
use crate::id::IdHkt;
use crate::traits::{
    Applicative, CloneK, CloneOwnedK, CovariantK, DerefHkt, Foldable, Functor, HktClassification,
    Monad, OuterHkt, Pure, Rfoldable, Traversable, UnsizedHkt, UnsizedHktUnsized,
};

verus! {

/// Marker for the boxed container family, wrapped around an inner family.
pub struct BoxT<TInner = IdHkt>(pub PhantomData<TInner>);

impl<TInner> UnsizedHkt for BoxT<TInner> {}

impl<TInner> UnsizedHktUnsized for BoxT<TInner> {}

impl<TInner> DerefHkt for BoxT<TInner> {}

impl<TInner> HktClassification for BoxT<TInner> {
    type Choice = OuterHkt;
}

impl<TInner: Functor> Functor for BoxT<TInner> {}

impl<TInner: Foldable> Foldable for BoxT<TInner> {}

impl<TInner: Rfoldable> Rfoldable for BoxT<TInner> {}

impl<TInner: Pure> Pure for BoxT<TInner> {}

impl<TInner: Applicative> Applicative for BoxT<TInner> {}

impl<TInner: Monad> Monad for BoxT<TInner> {}

impl<TInner: Traversable> Traversable for BoxT<TInner> {}

impl<TInner: CloneK> CloneK for BoxT<TInner> {}

impl<TInner: CloneOwnedK> CloneOwnedK for BoxT<TInner> {}

impl<TInner: CovariantK> CovariantK for BoxT<TInner> {}

impl BoxT {
    /// Transform the boxed element.
    pub fn map<A, B, GA, GB, F>(_clone_a: GA, _clone_b: GB, f: F, fa: Box<A>) -> (r: Box<B>) where
        GA: Fn(&A) -> A,
        GB: Fn(&B) -> B,
        F: FnOnce(A) -> B,

        requires
            call_requires(f, (*fa,)),
        ensures
            call_ensures(f, (*fa,), *r),
    {
        Box::new(f(*fa))
    }

    /// Lift a bare value into a box.
    pub fn pure<A, GA>(_clone_a: GA, a: A) -> (r: Box<A>) where GA: Fn(&A) -> A
        ensures
            *r == a,
    {
        Box::new(a)
    }

    /// Apply a boxed transformer to a boxed value.
    pub fn apply<A, B, GA, GB, F>(_clone_a: GA, _clone_b: GB, ff: Box<F>, fa: Box<A>) -> (r: Box<
        B,
    >) where
        GA: Fn(&A) -> A,
        GB: Fn(&B) -> B,
        F: FnOnce(A) -> B,

        requires
            call_requires(*ff, (*fa,)),
        ensures
            call_ensures(*ff, (*fa,), *r),
    {
        let f = *ff;
        Box::new(f(*fa))
    }

    /// Sequence a box-producing continuation across the boxed element.
    pub fn bind<A, B, GA, GB, F>(_clone_a: GA, _clone_b: GB, fa: Box<A>, f: F) -> (r: Box<
        B,
    >) where
        GA: Fn(&A) -> A,
        GB: Fn(&B) -> B,
        F: FnOnce(A) -> Box<B>,

        requires
            call_requires(f, (*fa,)),
        ensures
            call_ensures(f, (*fa,), r),
    {
        f(*fa)
    }

    /// Fold the boxed element into the accumulator.
    pub fn fold_while<A, B, GA, GB, F>(
        _clone_a: GA,
        _clone_b: GB,
        f: F,
        init: B,
        fb: Box<A>,
    ) -> (r: FoldWhile<B>) where
        GA: Fn(&A) -> A,
        GB: Fn(&B) -> B,
        F: FnOnce(B, A) -> FoldWhile<B>,

        requires
            call_requires(f, (init, *fb)),
        ensures
            call_ensures(f, (init, *fb), r),
    {
        f(init, *fb)
    }

    /// Fold the boxed element, right to left: identical to `fold_while`,
    /// since there is exactly one element.
    pub fn rfold_while<A, B, GA, GB, F>(
        _clone_a: GA,
        _clone_b: GB,
        f: F,
        init: B,
        fb: Box<A>,
    ) -> (r: FoldWhile<B>) where
        GA: Fn(&A) -> A,
        GB: Fn(&B) -> B,
        F: FnOnce(B, A) -> FoldWhile<B>,

        requires
            call_requires(f, (init, *fb)),
        ensures
            call_ensures(f, (init, *fb), r),
    {
        f(init, *fb)
    }

    /// Traverse the boxed element into an optional result: present exactly
    /// when the continuation's result is, and then carrying it boxed.
    pub fn traverse_option<A, B, GA, GB, F>(_clone_a: GA, _clone_b: GB, f: F, fa: Box<A>) -> (r:
        Option<Box<B>>) where
        GA: Fn(&A) -> A,
        GB: Fn(&B) -> B,
        F: FnOnce(A) -> Option<B>,

        requires
            call_requires(f, (*fa,)),
        ensures
            exists|x: Option<B>|
                {
                    &&& call_ensures(f, (*fa,), x)
                    &&& r is Some <==> x is Some
                    &&& x matches Some(b) ==> r matches Some(rb) && *rb == b
                },
    {
        let x = f(*fa);
        let ghost gx = x;
        let r = match x {
            Some(b) => Some(Box::new(b)),
            None => None,
        };
        proof {
            assert(call_ensures(f, (*fa,), gx) && (r is Some <==> gx is Some) && (
            gx matches Some(b) ==> r matches Some(rb) && *rb == b));
        }
        r
    }

    /// Duplicate the boxed element through the caller's ownership witness.
    pub fn clone<A, GA>(clone_a: GA, a: &Box<A>) -> (r: Box<A>) where GA: Fn(&A) -> A
        requires
            call_requires(clone_a, (&**a,)),
        ensures
            call_ensures(clone_a, (&**a,), *r),
    {
        Box::new(clone_a(&**a))
    }

    /// Duplicate the boxed element into a fresh validity region.
    pub fn clone_owned<A, GA>(clone_a: GA, a: &Box<A>) -> (r: Box<A>) where GA: Fn(&A) -> A
        requires
            call_requires(clone_a, (&**a,)),
        ensures
            call_ensures(clone_a, (&**a,), *r),
    {
        Box::new(clone_a(&**a))
    }

    /// Rescope covariantly: the value itself is unchanged.
    pub fn covariant_convert<A>(a: Box<A>) -> (r: Box<A>)
        ensures
            r == a,
    {
        a
    }
}

} // verus!
