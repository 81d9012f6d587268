//! Stack composition: `BindT<TOuter, TInner>` is the container family
//! whose representation nests the inner family's containers inside the
//! outer family's, with no wrapper overhead. Its behaviour is derived by
//! delegation — the outer family acts on each inner container, the inner
//! family on each element — and only the functor, folding and duplication
//! capabilities compose this way; an applicative or a monad for a stack
//! needs extra structure from the specific pair of families.

use core::marker::PhantomData;

use vstd::prelude::*;

use crate::fold::{fold_while_describes, FoldWhile};
use crate::option_t::OptionT;
use crate::traits::{CloneK, CovariantK, Foldable, Functor, HktClassification, OuterHkt};
use crate::vec_t::VecT;

verus! {

/// Marker for the stack of `TOuter` containers holding `TInner`
/// containers.
pub struct BindT<TOuter, TInner>(pub PhantomData<(TOuter, TInner)>);

impl<TOuter, TInner> HktClassification for BindT<TOuter, TInner> {
    type Choice = OuterHkt;
}

impl<TOuter: Functor, TInner: Functor + CloneK> Functor for BindT<TOuter, TInner> {}

impl<TOuter: Foldable, TInner: Foldable> Foldable for BindT<TOuter, TInner> {}

impl<TOuter: CloneK, TInner: CloneK> CloneK for BindT<TOuter, TInner> {}

impl<TOuter: CovariantK, TInner: CovariantK> CovariantK for BindT<TOuter, TInner> {}

/// Characterises a run of an early-terminating left fold over a list of
/// optional elements: a present element feeds the step, an absent one
/// stops the fold with the accumulator as it stands — the behaviour the
/// optional family's own fold gives each element of the stack.
pub open spec fn fold_while_opt_describes<A, B, F: FnOnce(B, A) -> FoldWhile<B>>(
    f: F,
    s: Seq<Option<A>>,
    init: B,
    r: FoldWhile<B>,
) -> bool
    decreases s.len(),
{
    if s.len() == 0 {
        r == FoldWhile::<B>::Continue(init)
    } else {
        match s[0] {
            None => r == FoldWhile::<B>::Break(init),
            Some(a) => exists|step: FoldWhile<B>|
                {
                    &&& #[trigger] call_ensures(f, (init, a), step)
                    &&& match step {
                        FoldWhile::Continue(b) => fold_while_opt_describes(
                            f,
                            s.drop_first(),
                            b,
                            r,
                        ),
                        FoldWhile::Break(b) => r == FoldWhile::<B>::Break(b),
                    }
                },
        }
    }
}

/// An empty run of the stacked fold keeps the accumulator and reports
/// `Continue`. Stated as a lemma so that callers holding a concrete step
/// function can unfold the description.
pub proof fn lemma_fold_while_opt_describes_empty<A, B, F: FnOnce(B, A) -> FoldWhile<B>>(
    f: F,
    s: Seq<Option<A>>,
    init: B,
    r: FoldWhile<B>,
)
    requires
        s.len() == 0,
    ensures
        fold_while_opt_describes(f, s, init, r) <==> r == FoldWhile::<B>::Continue(init),
{
}

/// A non-empty run of the stacked fold stops at an absent first element,
/// and otherwise takes one step on the present value. Stated as a lemma
/// so that callers holding a concrete step function can unfold the
/// description.
pub proof fn lemma_fold_while_opt_describes_step<A, B, F: FnOnce(B, A) -> FoldWhile<B>>(
    f: F,
    s: Seq<Option<A>>,
    init: B,
    r: FoldWhile<B>,
)
    requires
        s.len() > 0,
    ensures
        fold_while_opt_describes(f, s, init, r) <==> match s[0] {
            None => r == FoldWhile::<B>::Break(init),
            Some(a) => exists|step: FoldWhile<B>|
                {
                    &&& #[trigger] call_ensures(f, (init, a), step)
                    &&& match step {
                        FoldWhile::Continue(b) => fold_while_opt_describes(
                            f,
                            s.drop_first(),
                            b,
                            r,
                        ),
                        FoldWhile::Break(b) => r == FoldWhile::<B>::Break(b),
                    }
                },
        },
{
}

impl BindT<OptionT, VecT> {
    /// Transform every element of the optional list: the outer optional
    /// maps the inner list's map over its contents.
    pub fn map<A, B, GA, GB, F>(_clone_a: GA, _clone_b: GB, f: F, fa: Option<Vec<A>>) -> (r:
        Option<Vec<B>>) where
        GA: Fn(&A) -> A,
        GB: Fn(&B) -> B,
        F: Fn(A) -> B,

        requires
            fa matches Some(v) ==> forall|i: int| 0 <= i < v@.len() ==> call_requires(
                f,
                (v@[i],),
            ),
        ensures
            r is Some <==> fa is Some,
            fa matches Some(v) ==> {
                &&& r->0@.len() == v@.len()
                &&& forall|i: int|
                    0 <= i < v@.len() ==> call_ensures(f, (v@[i],), #[trigger] r->0@[i])
            },
    {
        match fa {
            None => None,
            Some(v) => Some(VecT::map(_clone_a, _clone_b, f, v)),
        }
    }

    /// Fold the elements of the optional list: an absent list stops the
    /// fold with the accumulator unchanged, a present one folds left to
    /// right.
    pub fn fold_while<A, B, GA, GB, F>(
        _clone_a: GA,
        _clone_b: GB,
        f: F,
        init: B,
        fa: Option<Vec<A>>,
    ) -> (r: FoldWhile<B>) where
        GA: Fn(&A) -> A,
        GB: Fn(&B) -> B,
        F: Fn(B, A) -> FoldWhile<B>,

        requires
            fa matches Some(v) ==> forall|b: B, i: int| 0 <= i < v@.len() ==> call_requires(
                f,
                (b, v@[i]),
            ),
        ensures
            fa is None ==> r == FoldWhile::<B>::Break(init),
            fa matches Some(v) ==> fold_while_describes(f, v@, init, r),
    {
        match fa {
            None => FoldWhile::Break(init),
            Some(v) => VecT::fold_while(_clone_a, _clone_b, f, init, v),
        }
    }
}

impl BindT<VecT, OptionT> {
    /// Transform every present element of the list of optionals; absent
    /// elements stay absent.
    pub fn map<A, B, GA, GB, F>(_clone_a: GA, _clone_b: GB, f: F, fa: Vec<Option<A>>) -> (r: Vec<
        Option<B>,
    >) where
        GA: Fn(&A) -> A,
        GB: Fn(&B) -> B,
        F: Fn(A) -> B,

        requires
            forall|i: int|
                0 <= i < fa@.len() ==> (#[trigger] fa@[i] matches Some(a) ==> call_requires(
                    f,
                    (a,),
                )),
        ensures
            r@.len() == fa@.len(),
            forall|i: int|
                0 <= i < fa@.len() ==> match fa@[i] {
                    Some(a) => #[trigger] r@[i] is Some && call_ensures(f, (a,), r@[i]->0),
                    None => r@[i] is None,
                },
    {
        let ghost orig = fa@;
        let mut rest = fa;
        let mut out: Vec<Option<B>> = Vec::new();
        while rest.len() > 0
            invariant
                out@.len() + rest@.len() == orig.len(),
                rest@ == orig.skip(out@.len() as int),
                forall|i: int|
                    0 <= i < orig.len() ==> (#[trigger] orig[i] matches Some(a) ==> call_requires(
                        f,
                        (a,),
                    )),
                forall|i: int|
                    0 <= i < out@.len() ==> match orig[i] {
                        Some(a) => #[trigger] out@[i] is Some && call_ensures(f, (a,), out@[i]->0),
                        None => out@[i] is None,
                    },
            decreases rest@.len(),
        {
            let ghost k = out@.len() as int;
            let e = rest.remove(0);
            proof {
                assert(e == orig[k]);
                assert(rest@ =~= orig.skip(k + 1));
            }
            let b = match e {
                Some(a) => Some(f(a)),
                None => None,
            };
            out.push(b);
        }
        out
    }

    /// Fold the list of optionals left to right: each present element
    /// feeds the step, and the first absent element stops the fold with
    /// the accumulator as it stands.
    #[verifier::loop_isolation(false)]
    pub fn fold_while<A, B, GA, GB, F>(
        _clone_a: GA,
        _clone_b: GB,
        f: F,
        init: B,
        fa: Vec<Option<A>>,
    ) -> (r: FoldWhile<B>) where
        GA: Fn(&A) -> A,
        GB: Fn(&B) -> B,
        F: Fn(B, A) -> FoldWhile<B>,

        requires
            forall|b: B, i: int, a: A|
                #![trigger call_requires(f, (b, a)), fa@[i]]
                0 <= i < fa@.len() && fa@[i] == Some(a) ==> call_requires(f, (b, a)),
        ensures
            fold_while_opt_describes(f, fa@, init, r),
    {
        let ghost orig = fa@;
        let mut rest = fa;
        let mut acc = init;
        let ghost mut k: int = 0;
        proof {
            assert(orig.skip(0) =~= orig);
        }
        while rest.len() > 0
            invariant
                0 <= k <= orig.len(),
                k + rest@.len() == orig.len(),
                rest@ == orig.skip(k),
                forall|b: B, i: int, a: A|
                    #![trigger call_requires(f, (b, a)), orig[i]]
                    0 <= i < orig.len() && orig[i] == Some(a) ==> call_requires(f, (b, a)),
                forall|r2: FoldWhile<B>|
                    #[trigger] fold_while_opt_describes(f, orig.skip(k), acc, r2)
                        ==> fold_while_opt_describes(f, orig, init, r2),
            decreases rest@.len(),
        {
            let e = rest.remove(0);
            let ghost acc0 = acc;
            proof {
                assert(e == orig[k]);
                assert(rest@ =~= orig.skip(k + 1));
                assert(orig.skip(k).drop_first() =~= orig.skip(k + 1));
                assert(orig.skip(k)[0] == orig[k]);
            }
            match e {
                None => {
                    proof {
                        assert(fold_while_opt_describes(
                            f,
                            orig.skip(k),
                            acc0,
                            FoldWhile::<B>::Break(acc0),
                        ));
                    }
                    return FoldWhile::Break(acc);
                },
                Some(a) => {
                    let step = f(acc, a);
                    match step {
                        FoldWhile::Continue(b) => {
                            proof {
                                let stepg = FoldWhile::<B>::Continue(b);
                                assert forall|r2: FoldWhile<B>|
                                    #[trigger] fold_while_opt_describes(
                                        f,
                                        orig.skip(k + 1),
                                        b,
                                        r2,
                                    ) implies fold_while_opt_describes(f, orig, init, r2) by {
                                    assert(call_ensures(f, (acc0, a), stepg));
                                    assert(fold_while_opt_describes(f, orig.skip(k), acc0, r2));
                                }
                                k = k + 1;
                            }
                            acc = b;
                        },
                        FoldWhile::Break(b) => {
                            proof {
                                let stepg = FoldWhile::<B>::Break(b);
                                assert(call_ensures(f, (acc0, a), stepg));
                                assert(fold_while_opt_describes(
                                    f,
                                    orig.skip(k),
                                    acc0,
                                    FoldWhile::<B>::Break(b),
                                ));
                            }
                            return FoldWhile::Break(b);
                        },
                    }
                },
            }
        }
        proof {
            assert(orig.skip(k).len() == 0);
            assert(fold_while_opt_describes(f, orig.skip(k), acc, FoldWhile::<B>::Continue(acc)));
        }
        FoldWhile::Continue(acc)
    }
}

} // verus!
