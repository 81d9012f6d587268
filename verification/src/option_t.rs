//! The optional-value container family: `OptionT` applied to an element
//! type holds the element or nothing. Also home to the nested stacks with
//! an optional value outermost — an optional list and an optional optional
//! — whose monad structure is derived by traversing the inner layer.

use core::marker::PhantomData;

use vstd::prelude::*;

use crate::fold::FoldWhile;
use crate::id::IdHkt;
use crate::traits::{
    Applicative, CloneK, CloneOwnedK, CovariantK, Foldable, Functor, HktClassification, Monad,
    OuterHkt, Pure, Rfoldable, Traversable,
};
use crate::vec_t::VecT;
use crate::views::{opt_vec_collect, seq_all_some, seq_of_views, seq_unwrap_all};

verus! {

/// Marker for the optional-value container family, wrapped around an
/// inner family.
pub struct OptionT<TInner = IdHkt>(pub PhantomData<TInner>);

impl<TInner> HktClassification for OptionT<TInner> {
    type Choice = OuterHkt;
}

impl<TInner: Functor> Functor for OptionT<TInner> {}

impl<TInner: Foldable> Foldable for OptionT<TInner> {}

impl<TInner: Rfoldable> Rfoldable for OptionT<TInner> {}

impl<TInner: Pure> Pure for OptionT<TInner> {}

impl<TInner: Applicative> Applicative for OptionT<TInner> {}

impl<TInner: Monad> Monad for OptionT<TInner> {}

impl<TInner: Traversable> Traversable for OptionT<TInner> {}

impl<TInner: CloneK> CloneK for OptionT<TInner> {}

impl<TInner: CloneOwnedK> CloneOwnedK for OptionT<TInner> {}

impl<TInner: CovariantK> CovariantK for OptionT<TInner> {}

impl OptionT {
    /// Transform the element, if present.
    pub fn map<A, B, GA, GB, F>(_clone_a: GA, _clone_b: GB, f: F, fa: Option<A>) -> (r: Option<
        B,
    >) where
        GA: Fn(&A) -> A,
        GB: Fn(&B) -> B,
        F: FnOnce(A) -> B,

        requires
            fa matches Some(a) ==> call_requires(f, (a,)),
        ensures
            r is Some <==> fa is Some,
            fa matches Some(a) ==> call_ensures(f, (a,), r->0),
    {
        match fa {
            Some(a) => Some(f(a)),
            None => None,
        }
    }

    /// Lift a bare value into a present optional.
    pub fn pure<A, GA>(_clone_a: GA, a: A) -> (r: Option<A>) where GA: Fn(&A) -> A
        ensures
            r == Some(a),
    {
        Some(a)
    }

    /// Apply an optional transformer to an optional value: present exactly
    /// when both are.
    pub fn apply<A, B, GA, GB, F>(_clone_a: GA, _clone_b: GB, ff: Option<F>, fa: Option<A>) -> (r:
        Option<B>) where
        GA: Fn(&A) -> A,
        GB: Fn(&B) -> B,
        F: FnOnce(A) -> B,

        requires
            ff matches Some(f) ==> (fa matches Some(a) ==> call_requires(f, (a,))),
        ensures
            r is Some <==> (ff is Some && fa is Some),
            ff matches Some(f) ==> (fa matches Some(a) ==> call_ensures(f, (a,), r->0)),
    {
        match (ff, fa) {
            (Some(f), Some(a)) => Some(f(a)),
            _ => None,
        }
    }

    /// Sequence an optional-producing continuation across the element, if
    /// present; nothing in gives nothing out.
    pub fn bind<A, B, GA, GB, F>(_clone_a: GA, _clone_b: GB, fa: Option<A>, f: F) -> (r: Option<
        B,
    >) where
        GA: Fn(&A) -> A,
        GB: Fn(&B) -> B,
        F: FnOnce(A) -> Option<B>,

        requires
            fa matches Some(a) ==> call_requires(f, (a,)),
        ensures
            fa is None ==> r is None,
            fa matches Some(a) ==> call_ensures(f, (a,), r),
    {
        match fa {
            Some(a) => f(a),
            None => None,
        }
    }

    /// Fold the element, if present, into the accumulator; an absent
    /// element stops the fold with the accumulator unchanged.
    pub fn fold_while<A, B, GA, GB, F>(
        _clone_a: GA,
        _clone_b: GB,
        f: F,
        init: B,
        fb: Option<A>,
    ) -> (r: FoldWhile<B>) where
        GA: Fn(&A) -> A,
        GB: Fn(&B) -> B,
        F: FnOnce(B, A) -> FoldWhile<B>,

        requires
            fb matches Some(a) ==> call_requires(f, (init, a)),
        ensures
            fb is None ==> r == FoldWhile::<B>::Break(init),
            fb matches Some(a) ==> call_ensures(f, (init, a), r),
    {
        match fb {
            Some(a) => f(init, a),
            None => FoldWhile::Break(init),
        }
    }

    /// Fold right to left: identical to `fold_while`, since at most one
    /// element is present.
    pub fn rfold_while<A, B, GA, GB, F>(
        _clone_a: GA,
        _clone_b: GB,
        f: F,
        init: B,
        fb: Option<A>,
    ) -> (r: FoldWhile<B>) where
        GA: Fn(&A) -> A,
        GB: Fn(&B) -> B,
        F: FnOnce(B, A) -> FoldWhile<B>,

        requires
            fb matches Some(a) ==> call_requires(f, (init, a)),
        ensures
            fb is None ==> r == FoldWhile::<B>::Break(init),
            fb matches Some(a) ==> call_ensures(f, (init, a), r),
    {
        match fb {
            Some(a) => f(init, a),
            None => FoldWhile::Break(init),
        }
    }

    /// Traverse the element, if present, into a list of results: an absent
    /// optional becomes the single absent element, a present one yields
    /// everything the continuation produced, each marked present.
    pub fn traverse_vec<A, B, GA, GB, F>(_clone_a: GA, _clone_b: GB, f: F, fa: Option<A>) -> (r:
        Vec<Option<B>>) where
        GA: Fn(&A) -> A,
        GB: Fn(&B) -> B,
        F: FnOnce(A) -> Vec<B>,

        requires
            fa matches Some(a) ==> call_requires(f, (a,)),
        ensures
            fa is None ==> r@ == seq![Option::<B>::None],
            fa matches Some(a) ==> exists|w: Vec<B>|
                call_ensures(f, (a,), w) && r@ == w@.map_values(|b: B| Some(b)),
    {
        match fa {
            None => {
                let mut out: Vec<Option<B>> = Vec::new();
                out.push(None);
                proof {
                    assert(out@ =~= seq![Option::<B>::None]);
                }
                out
            },
            Some(a) => {
                let w = f(a);
                let ghost gw = w;
                let ghost worig = w@;
                let mut rest = w;
                let mut out: Vec<Option<B>> = Vec::new();
                while rest.len() > 0
                    invariant
                        out@.len() + rest@.len() == worig.len(),
                        rest@ == worig.skip(out@.len() as int),
                        forall|i: int| 0 <= i < out@.len() ==> out@[i] == Some(worig[i]),
                    decreases rest@.len(),
                {
                    let ghost k = out@.len() as int;
                    let b = rest.remove(0);
                    proof {
                        assert(b == worig[k]);
                        assert(rest@ =~= worig.skip(k + 1));
                    }
                    out.push(Some(b));
                }
                proof {
                    assert(out@ =~= worig.map_values(|b: B| Some(b)));
                }
                out
            },
        }
    }

    /// Duplicate the optional through the caller's ownership witness.
    pub fn clone<A, GA>(clone_a: GA, a: &Option<A>) -> (r: Option<A>) where GA: Fn(&A) -> A
        requires
            a matches Some(x) ==> call_requires(clone_a, (&x,)),
        ensures
            r is Some <==> a is Some,
            a matches Some(x) ==> call_ensures(clone_a, (&x,), r->0),
    {
        match a {
            Some(x) => Some(clone_a(x)),
            None => None,
        }
    }

    /// Duplicate the optional into a fresh validity region; same behaviour
    /// as `clone`, since the value itself does not change.
    pub fn clone_owned<A, GA>(clone_a: GA, a: &Option<A>) -> (r: Option<A>) where GA: Fn(&A) -> A
        requires
            a matches Some(x) ==> call_requires(clone_a, (&x,)),
        ensures
            r is Some <==> a is Some,
            a matches Some(x) ==> call_ensures(clone_a, (&x,), r->0),
    {
        match a {
            Some(x) => Some(clone_a(x)),
            None => None,
        }
    }

    /// Rescope covariantly: the value itself is unchanged.
    pub fn covariant_convert<A>(a: Option<A>) -> (r: Option<A>)
        ensures
            r == a,
    {
        a
    }

    /// Lower and upper bounds on the element count: exactly one when
    /// present, exactly none when absent.
    pub fn size_hint<A>(s: &Option<A>) -> (r: (usize, Option<usize>))
        ensures
            s is Some ==> r.0 == 1 && r.1 == Some(1usize),
            s is None ==> r.0 == 0 && r.1 == Some(0usize),
    {
        match s {
            Some(_) => (1, Some(1)),
            None => (0, Some(0)),
        }
    }
}

impl OptionT<VecT> {
    /// Sequence a continuation across an optional list: the whole result
    /// is present exactly when the input and every per-element result are,
    /// and then carries the concatenation of the produced lists. The
    /// continuation runs on every element, even after an absence has been
    /// seen.
    pub fn bind<A, B, GA, GB, F>(_clone_a: GA, _clone_b: GB, fa: Option<Vec<A>>, f: F) -> (r:
        Option<Vec<B>>) where
        GA: Fn(&A) -> A,
        GB: Fn(&B) -> B,
        F: Fn(A) -> Option<Vec<B>>,

        requires
            fa matches Some(v) ==> forall|i: int| 0 <= i < v@.len() ==> call_requires(
                f,
                (v@[i],),
            ),
        ensures
            fa is None ==> r is None,
            fa matches Some(v) ==> exists|mid: Seq<Option<Vec<B>>>|
                {
                    &&& mid.len() == v@.len()
                    &&& forall|i: int|
                        0 <= i < mid.len() ==> call_ensures(f, (v@[i],), #[trigger] mid[i])
                    &&& match opt_vec_collect(mid) {
                        Some(s) => r matches Some(rv) && rv@ == s,
                        None => r is None,
                    }
                },
    {
        match fa {
            None => None,
            Some(v) => {
                let ghost orig = v@;
                let mut rest = v;
                let mut acc: Option<Vec<B>> = Some(Vec::new());
                let ghost mut mid: Seq<Option<Vec<B>>> = Seq::empty();
                while rest.len() > 0
                    invariant
                        mid.len() + rest@.len() == orig.len(),
                        rest@ == orig.skip(mid.len() as int),
                        forall|i: int| 0 <= i < orig.len() ==> call_requires(f, (orig[i],)),
                        forall|i: int|
                            0 <= i < mid.len() ==> call_ensures(f, (orig[i],), #[trigger] mid[i]),
                        match opt_vec_collect(mid) {
                            Some(s) => acc matches Some(av) && av@ == s,
                            None => acc is None,
                        },
                    decreases rest@.len(),
                {
                    let ghost k = mid.len() as int;
                    let a = rest.remove(0);
                    proof {
                        assert(a == orig[k]);
                        assert(rest@ =~= orig.skip(k + 1));
                    }
                    let x = f(a);
                    let ghost gx = x;
                    acc = match (acc, x) {
                        (Some(mut av), Some(mut w)) => {
                            av.append(&mut w);
                            Some(av)
                        },
                        _ => None,
                    };
                    proof {
                        let mid0 = mid;
                        mid = mid.push(gx);
                        if gx is Some && seq_all_some(mid0) {
                            assert forall|i: int| 0 <= i < mid.len() implies mid[i] is Some by {
                                if i < mid0.len() {
                                    assert(mid[i] == mid0[i]);
                                }
                            }
                            assert(seq_unwrap_all(mid) =~= seq_unwrap_all(mid0).push(gx->0));
                            assert(seq_of_views(seq_unwrap_all(mid)) =~= seq_of_views(
                                seq_unwrap_all(mid0),
                            ).push(gx->0@));
                            seq_of_views(seq_unwrap_all(mid0)).lemma_flatten_push(gx->0@);
                            assert(seq_of_views(seq_unwrap_all(mid0)).push(gx->0@).flatten()
                                =~= seq_of_views(seq_unwrap_all(mid0)).flatten() + gx->0@);
                        } else {
                            if seq_all_some(mid) {
                                assert(seq_all_some(mid0)) by {
                                    assert forall|i: int|
                                        0 <= i < mid0.len() implies mid0[i] is Some by {
                                        assert(mid0[i] == mid[i]);
                                    }
                                }
                                assert(mid[mid0.len() as int] == gx);
                                assert(false);
                            }
                        }
                    }
                }
                acc
            },
        }
    }
}

impl OptionT<OptionT> {
    /// Sequence a continuation across a doubly-optional value: nothing in
    /// gives nothing out at each layer, and a present inner value is
    /// handed to the continuation.
    pub fn bind<A, B, GA, GB, F>(_clone_a: GA, _clone_b: GB, fa: Option<Option<A>>, f: F) -> (r:
        Option<Option<B>>) where
        GA: Fn(&A) -> A,
        GB: Fn(&B) -> B,
        F: FnOnce(A) -> Option<Option<B>>,

        requires
            fa matches Some(m) ==> (m matches Some(a) ==> call_requires(f, (a,))),
        ensures
            fa is None ==> r is None,
            fa matches Some(m) ==> (m is None ==> r == Some(Option::<B>::None)),
            fa matches Some(m) ==> (m matches Some(a) ==> call_ensures(f, (a,), r)),
    {
        match fa {
            None => None,
            Some(None) => Some(None),
            Some(Some(a)) => f(a),
        }
    }
}

} // verus!
