//! The success-or-failure container family: `ResultT` applied to an
//! element type holds the element or an error of the family's error type.
//! Failure values propagate exactly like the host language's own
//! error-carrying type; combining two failures in `apply` uses the error
//! type's own addition.

use core::marker::PhantomData;

use vstd::prelude::*;
use vstd::std_specs::ops::AddSpec;

use crate::fold::FoldWhile;
use crate::id::IdHkt;
use crate::traits::{
    Applicative, CloneK, CloneOwnedK, CovariantK, Foldable, Functor, HktClassification, Monad,
    OuterHkt, Pure, Rfoldable, Traversable,
};

verus! {

/// Marker for the success-or-failure container family with error type `E`,
/// wrapped around an inner family.
pub struct ResultT<E, TInner = IdHkt>(pub PhantomData<(E, TInner)>);

impl<E, TInner> HktClassification for ResultT<E, TInner> {
    type Choice = OuterHkt;
}

impl<E, TInner: Functor> Functor for ResultT<E, TInner> {}

impl<E, TInner: Foldable> Foldable for ResultT<E, TInner> {}

impl<E, TInner: Rfoldable> Rfoldable for ResultT<E, TInner> {}

impl<E, TInner: Pure> Pure for ResultT<E, TInner> {}

impl<E, TInner: Applicative> Applicative for ResultT<E, TInner> {}

impl<E, TInner: Monad> Monad for ResultT<E, TInner> {}

impl<E, TInner: Traversable> Traversable for ResultT<E, TInner> {}

impl<E, TInner: CloneK> CloneK for ResultT<E, TInner> {}

impl<E, TInner: CloneOwnedK> CloneOwnedK for ResultT<E, TInner> {}

impl<E, TInner: CovariantK> CovariantK for ResultT<E, TInner> {}

impl<E> ResultT<E> {
    /// Transform the element of a success; a failure passes through
    /// unchanged.
    pub fn map<A, B, GA, GB, F>(_clone_a: GA, _clone_b: GB, f: F, fa: Result<A, E>) -> (r: Result<
        B,
        E,
    >) where
        GA: Fn(&A) -> A,
        GB: Fn(&B) -> B,
        F: FnOnce(A) -> B,

        requires
            fa matches Ok(a) ==> call_requires(f, (a,)),
        ensures
            fa matches Ok(a) ==> r is Ok && call_ensures(f, (a,), r->Ok_0),
            fa matches Err(e) ==> r == Result::<B, E>::Err(e),
    {
        match fa {
            Ok(a) => Ok(f(a)),
            Err(e) => Err(e),
        }
    }

    /// Lift a bare value into a success.
    pub fn pure<A, GA>(_clone_a: GA, a: A) -> (r: Result<A, E>) where GA: Fn(&A) -> A
        ensures
            r == Result::<A, E>::Ok(a),
    {
        Ok(a)
    }

    /// Apply a transformer-or-failure to a value-or-failure: two successes
    /// combine; one failure wins; two failures are added together with the
    /// error type's own addition.
    pub fn apply<A, B, GA, GB, F>(
        _clone_a: GA,
        _clone_b: GB,
        ff: Result<F, E>,
        fa: Result<A, E>,
    ) -> (r: Result<B, E>) where
        E: core::ops::Add<Output = E>,
        GA: Fn(&A) -> A,
        GB: Fn(&B) -> B,
        F: FnOnce(A) -> B,

        requires
            ff matches Ok(f) ==> (fa matches Ok(a) ==> call_requires(f, (a,))),
            ff matches Err(e1) ==> (fa matches Err(e2) ==> e1.add_req(e2)),
        ensures
            ff matches Ok(f) ==> (fa matches Ok(a) ==> r is Ok && call_ensures(f, (a,), r->Ok_0)),
            ff matches Ok(f) ==> (fa matches Err(e) ==> r == Result::<B, E>::Err(e)),
            ff matches Err(e1) ==> (fa matches Ok(a) ==> r == Result::<B, E>::Err(e1)),
            ff matches Err(e1) ==> (fa matches Err(e2) ==> r is Err && call_ensures(
                <E as core::ops::Add>::add,
                (e1, e2),
                r->Err_0,
            )),
    {
        match (ff, fa) {
            (Ok(f), Ok(a)) => Ok(f(a)),
            (Ok(_), Err(e)) => Err(e),
            (Err(e), Ok(_)) => Err(e),
            (Err(e1), Err(e2)) => Err(e1 + e2),
        }
    }

    /// Sequence a result-producing continuation across a success; a
    /// failure passes through unchanged.
    pub fn bind<A, B, GA, GB, F>(_clone_a: GA, _clone_b: GB, fa: Result<A, E>, f: F) -> (r: Result<
        B,
        E,
    >) where
        GA: Fn(&A) -> A,
        GB: Fn(&B) -> B,
        F: FnOnce(A) -> Result<B, E>,

        requires
            fa matches Ok(a) ==> call_requires(f, (a,)),
        ensures
            fa matches Ok(a) ==> call_ensures(f, (a,), r),
            fa matches Err(e) ==> r == Result::<B, E>::Err(e),
    {
        match fa {
            Ok(a) => f(a),
            Err(e) => Err(e),
        }
    }

    /// Fold the element of a success into the accumulator; a failure stops
    /// the fold with the accumulator unchanged.
    pub fn fold_while<A, B, GA, GB, F>(
        _clone_a: GA,
        _clone_b: GB,
        f: F,
        init: B,
        fb: Result<A, E>,
    ) -> (r: FoldWhile<B>) where
        GA: Fn(&A) -> A,
        GB: Fn(&B) -> B,
        F: FnOnce(B, A) -> FoldWhile<B>,

        requires
            fb matches Ok(a) ==> call_requires(f, (init, a)),
        ensures
            fb matches Ok(a) ==> call_ensures(f, (init, a), r),
            fb is Err ==> r == FoldWhile::<B>::Break(init),
    {
        match fb {
            Ok(a) => f(init, a),
            Err(_) => FoldWhile::Break(init),
        }
    }

    /// Fold right to left: identical to `fold_while`, since at most one
    /// element is present.
    pub fn rfold_while<A, B, GA, GB, F>(
        _clone_a: GA,
        _clone_b: GB,
        f: F,
        init: B,
        fb: Result<A, E>,
    ) -> (r: FoldWhile<B>) where
        GA: Fn(&A) -> A,
        GB: Fn(&B) -> B,
        F: FnOnce(B, A) -> FoldWhile<B>,

        requires
            fb matches Ok(a) ==> call_requires(f, (init, a)),
        ensures
            fb matches Ok(a) ==> call_ensures(f, (init, a), r),
            fb is Err ==> r == FoldWhile::<B>::Break(init),
    {
        match fb {
            Ok(a) => f(init, a),
            Err(_) => FoldWhile::Break(init),
        }
    }

    /// Traverse the element of a success into a list of results: a failure
    /// becomes the single failed element, a success yields everything the
    /// continuation produced, each marked successful.
    pub fn traverse_vec<A, B, GA, GB, F>(_clone_a: GA, _clone_b: GB, f: F, fa: Result<A, E>) -> (r:
        Vec<Result<B, E>>) where
        GA: Fn(&A) -> A,
        GB: Fn(&B) -> B,
        F: FnOnce(A) -> Vec<B>,

        requires
            fa matches Ok(a) ==> call_requires(f, (a,)),
        ensures
            fa matches Err(e) ==> r@ == seq![Result::<B, E>::Err(e)],
            fa matches Ok(a) ==> exists|w: Vec<B>|
                call_ensures(f, (a,), w) && r@ == w@.map_values(|b: B| Result::<B, E>::Ok(b)),
    {
        match fa {
            Err(e) => {
                let ghost ge = e;
                let mut out: Vec<Result<B, E>> = Vec::new();
                out.push(Err(e));
                proof {
                    assert(out@ =~= seq![Result::<B, E>::Err(ge)]);
                }
                out
            },
            Ok(a) => {
                let w = f(a);
                let ghost worig = w@;
                let mut rest = w;
                let mut out: Vec<Result<B, E>> = Vec::new();
                while rest.len() > 0
                    invariant
                        out@.len() + rest@.len() == worig.len(),
                        rest@ == worig.skip(out@.len() as int),
                        forall|i: int|
                            0 <= i < out@.len() ==> out@[i] == Result::<B, E>::Ok(worig[i]),
                    decreases rest@.len(),
                {
                    let ghost k = out@.len() as int;
                    let b = rest.remove(0);
                    proof {
                        assert(b == worig[k]);
                        assert(rest@ =~= worig.skip(k + 1));
                    }
                    out.push(Ok(b));
                }
                proof {
                    assert(out@ =~= worig.map_values(|b: B| Result::<B, E>::Ok(b)));
                }
                out
            },
        }
    }

    /// Duplicate the result through the caller's ownership witnesses, one
    /// for the element and one for the error.
    pub fn clone<A, GA, GE>(clone_a: GA, clone_e: GE, a: &Result<A, E>) -> (r: Result<A, E>) where
        GA: Fn(&A) -> A,
        GE: Fn(&E) -> E,

        requires
            a matches Ok(x) ==> call_requires(clone_a, (&x,)),
            a matches Err(e) ==> call_requires(clone_e, (&e,)),
        ensures
            r is Ok <==> a is Ok,
            a matches Ok(x) ==> call_ensures(clone_a, (&x,), r->Ok_0),
            a matches Err(e) ==> call_ensures(clone_e, (&e,), r->Err_0),
    {
        match a {
            Ok(x) => Ok(clone_a(x)),
            Err(e) => Err(clone_e(e)),
        }
    }

    /// Rescope covariantly: the value itself is unchanged.
    pub fn covariant_convert<A>(a: Result<A, E>) -> (r: Result<A, E>)
        ensures
            r == a,
    {
        a
    }
}

} // verus!
