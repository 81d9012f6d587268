//! The list container family: `VecT` applied to an element type is a
//! vector of elements. Lists support the full hierarchy — functor,
//! applicative, monad, foldable in both directions, and traversal into an
//! optional result — plus duplication through an ownership witness.

use core::marker::PhantomData;

use vstd::prelude::*;

use crate::fold::{fold_while_describes, FoldWhile};
use crate::id::IdHkt;
use crate::option_t::OptionT;
use crate::traits::{
    Applicative, CloneK, CloneOwnedK, CovariantK, Foldable, Functor, HktClassification, Monad,
    OuterHkt, Pure, Rfoldable, Traversable,
};
use crate::views::{opt_collect, seq_all_some, seq_of_views, seq_unwrap_all};

verus! {

/// Marker for the list container family, wrapped around an inner family.
pub struct VecT<TInner = IdHkt>(pub PhantomData<TInner>);

impl<TInner> HktClassification for VecT<TInner> {
    type Choice = OuterHkt;
}

impl<TInner: Functor> Functor for VecT<TInner> {}

impl<TInner: Foldable> Foldable for VecT<TInner> {}

impl<TInner: Rfoldable> Rfoldable for VecT<TInner> {}

impl<TInner: Pure> Pure for VecT<TInner> {}

impl<TInner: Applicative> Applicative for VecT<TInner> {}

impl<TInner: Monad> Monad for VecT<TInner> {}

impl<TInner: Traversable> Traversable for VecT<TInner> {}

impl<TInner: CloneK> CloneK for VecT<TInner> {}

impl<TInner: CloneOwnedK> CloneOwnedK for VecT<TInner> {}

impl<TInner: CovariantK> CovariantK for VecT<TInner> {}

/// `row` lists, in order, an image of each element of `s`, where `wits`
/// records the intermediate duplicates: each element of `s` is first
/// duplicated through the witness `clone_a`, then transformed by `fc`.
pub open spec fn maps_row_with<A, B, GA, F>(
    clone_a: GA,
    fc: F,
    s: Seq<A>,
    row: Seq<B>,
    wits: Seq<A>,
) -> bool where GA: FnOnce(&A) -> A, F: FnOnce(A) -> B {
    &&& row.len() == s.len()
    &&& wits.len() == s.len()
    &&& forall|j: int|
        0 <= j < s.len() ==> call_ensures(clone_a, (&s[j],), #[trigger] wits[j]) && call_ensures(
            fc,
            (wits[j],),
            row[j],
        )
}

/// `row` lists, in order, an image of each element of `s`: the element is
/// first duplicated through the witness `clone_a`, then transformed by
/// `fc`.
pub open spec fn maps_row_through<A, B, GA, F>(clone_a: GA, fc: F, s: Seq<A>, row: Seq<B>) -> bool
    where GA: FnOnce(&A) -> A, F: FnOnce(A) -> B {
    exists|wits: Seq<A>| maps_row_with(clone_a, fc, s, row, wits)
}

/// The concatenation of any sequences of one common length `n` has length
/// `n` times their number.
proof fn lemma_flatten_len_uniform<B>(vs: Seq<Seq<B>>, n: int)
    requires
        forall|i: int| 0 <= i < vs.len() ==> (#[trigger] vs[i]).len() == n,
    ensures
        vs.flatten().len() == vs.len() * n,
    decreases vs.len(),
{
    if vs.len() == 0 {
    } else {
        lemma_flatten_len_uniform(vs.drop_first(), n);
        assert(vs.flatten() == vs.first().add(vs.drop_first().flatten()));
        assert((vs.len() - 1) * n + n == vs.len() * n) by (nonlinear_arith);
    }
}

impl VecT {
    /// Transform every element, in order.
    pub fn map<A, B, GA, GB, F>(_clone_a: GA, _clone_b: GB, f: F, fa: Vec<A>) -> (r: Vec<B>) where
        GA: Fn(&A) -> A,
        GB: Fn(&B) -> B,
        F: Fn(A) -> B,

        requires
            forall|i: int| 0 <= i < fa@.len() ==> call_requires(f, (fa@[i],)),
        ensures
            r@.len() == fa@.len(),
            forall|i: int| 0 <= i < fa@.len() ==> call_ensures(f, (fa@[i],), #[trigger] r@[i]),
    {
        let ghost orig = fa@;
        let mut rest = fa;
        let mut out: Vec<B> = Vec::new();
        while rest.len() > 0
            invariant
                out@.len() + rest@.len() == orig.len(),
                rest@ == orig.skip(out@.len() as int),
                forall|i: int| 0 <= i < orig.len() ==> call_requires(f, (orig[i],)),
                forall|i: int|
                    0 <= i < out@.len() ==> call_ensures(f, (orig[i],), #[trigger] out@[i]),
            decreases rest@.len(),
        {
            let ghost k = out@.len() as int;
            let a = rest.remove(0);
            proof {
                assert(a == orig[k]);
                assert(rest@ =~= orig.skip(k + 1));
            }
            let b = f(a);
            out.push(b);
        }
        out
    }

    /// Lift a bare value into a one-element list.
    pub fn pure<A, GA>(_clone_a: GA, a: A) -> (r: Vec<A>) where GA: Fn(&A) -> A
        ensures
            r@ =~= seq![a],
    {
        let mut out: Vec<A> = Vec::new();
        out.push(a);
        out
    }

    /// Apply every transformer to a duplicate of every value: the result
    /// concatenates, for each transformer in order, its image of the whole
    /// value list. Duplication goes through the caller's ownership
    /// witness.
    pub fn apply<A, B, GA, GB, F>(clone_a: GA, _clone_b: GB, ff: Vec<F>, fa: Vec<A>) -> (r: Vec<
        B,
    >) where
        GA: Fn(&A) -> A,
        GB: Fn(&B) -> B,
        F: Fn(A) -> B,

        requires
            forall|j: int| 0 <= j < fa@.len() ==> call_requires(clone_a, (&fa@[j],)),
            forall|i: int, j: int, a2: A|
                #![trigger ff@[i], call_ensures(clone_a, (&fa@[j],), a2)]
                0 <= i < ff@.len() && 0 <= j < fa@.len() && call_ensures(clone_a, (&fa@[j],), a2)
                    ==> call_requires(ff@[i], (a2,)),
        ensures
            r@.len() == ff@.len() * fa@.len(),
            exists|rows: Seq<Vec<B>>|
                {
                    &&& rows.len() == ff@.len()
                    &&& forall|i: int|
                        0 <= i < rows.len() ==> maps_row_through(
                            clone_a,
                            ff@[i],
                            fa@,
                            (#[trigger] rows[i])@,
                        )
                    &&& r@ == seq_of_views(rows).flatten()
                },
    {
        let ghost forig = ff@;
        let ghost n = fa@.len() as int;
        let mut frest = ff;
        let mut out: Vec<B> = Vec::new();
        let ghost mut rows: Seq<Vec<B>> = Seq::empty();
        while frest.len() > 0
            invariant
                rows.len() + frest@.len() == forig.len(),
                frest@ == forig.skip(rows.len() as int),
                n == fa@.len(),
                forall|j: int| 0 <= j < fa@.len() ==> call_requires(clone_a, (&fa@[j],)),
                forall|i2: int, j2: int, a2: A|
                    #![trigger forig[i2], call_ensures(clone_a, (&fa@[j2],), a2)]
                    0 <= i2 < forig.len() && 0 <= j2 < fa@.len() && call_ensures(
                        clone_a,
                        (&fa@[j2],),
                        a2,
                    ) ==> call_requires(forig[i2], (a2,)),
                forall|i2: int|
                    0 <= i2 < rows.len() ==> maps_row_through(
                        clone_a,
                        forig[i2],
                        fa@,
                        (#[trigger] rows[i2])@,
                    ),
                out@ == seq_of_views(rows).flatten(),
            decreases frest@.len(),
        {
            let ghost gi = rows.len() as int;
            let fc = frest.remove(0);
            proof {
                assert(fc == forig[gi]);
                assert(frest@ =~= forig.skip(gi + 1));
            }
            let mut row: Vec<B> = Vec::new();
            let ghost mut wits: Seq<A> = Seq::empty();
            let mut j: usize = 0;
            while j < fa.len()
                invariant
                    0 <= j <= fa@.len(),
                    row@.len() == j,
                    wits.len() == j,
                    fc == forig[gi],
                    0 <= gi < forig.len(),
                    forall|j2: int| 0 <= j2 < fa@.len() ==> call_requires(clone_a, (&fa@[j2],)),
                    forall|i2: int, j2: int, a2: A|
                        #![trigger forig[i2], call_ensures(clone_a, (&fa@[j2],), a2)]
                        0 <= i2 < forig.len() && 0 <= j2 < fa@.len() && call_ensures(
                            clone_a,
                            (&fa@[j2],),
                            a2,
                        ) ==> call_requires(forig[i2], (a2,)),
                    forall|j2: int|
                        0 <= j2 < j ==> call_ensures(clone_a, (&fa@[j2],), #[trigger] wits[j2]),
                    forall|j2: int|
                        0 <= j2 < j ==> call_ensures(fc, (wits[j2],), #[trigger] row@[j2]),
                decreases fa@.len() - j,
            {
                let a2 = clone_a(&fa[j]);
                let ghost ga2 = a2;
                let b = fc(a2);
                row.push(b);
                proof {
                    wits = wits.push(ga2);
                }
                j += 1;
            }
            proof {
                assert(maps_row_with(clone_a, forig[gi], fa@, row@, wits));
                assert(maps_row_through(clone_a, forig[gi], fa@, row@));
                let rows0 = rows;
                rows = rows.push(row);
                assert forall|i2: int|
                    0 <= i2 < rows.len() implies maps_row_through(
                    clone_a,
                    forig[i2],
                    fa@,
                    (#[trigger] rows[i2])@,
                ) by {
                    if i2 < rows0.len() {
                        assert(rows[i2] == rows0[i2]);
                    } else {
                        assert(rows[i2] == row);
                    }
                }
                assert(seq_of_views(rows) =~= seq_of_views(rows0).push(row@));
                seq_of_views(rows0).lemma_flatten_push(row@);
            }
            out.append(&mut row);
        }
        proof {
            lemma_flatten_len_uniform(seq_of_views(rows), n);
        }
        out
    }

    /// Sequence a list-producing continuation across every element and
    /// concatenate the produced lists, in order.
    pub fn bind<A, B, GA, GB, F>(_clone_a: GA, _clone_b: GB, fa: Vec<A>, f: F) -> (r: Vec<
        B,
    >) where
        GA: Fn(&A) -> A,
        GB: Fn(&B) -> B,
        F: Fn(A) -> Vec<B>,

        requires
            forall|i: int| 0 <= i < fa@.len() ==> call_requires(f, (fa@[i],)),
        ensures
            exists|mid: Seq<Vec<B>>|
                {
                    &&& mid.len() == fa@.len()
                    &&& forall|i: int|
                        0 <= i < mid.len() ==> call_ensures(f, (fa@[i],), #[trigger] mid[i])
                    &&& r@ == seq_of_views(mid).flatten()
                },
    {
        let ghost orig = fa@;
        let mut rest = fa;
        let mut out: Vec<B> = Vec::new();
        let ghost mut mid: Seq<Vec<B>> = Seq::empty();
        while rest.len() > 0
            invariant
                mid.len() + rest@.len() == orig.len(),
                rest@ == orig.skip(mid.len() as int),
                forall|i: int| 0 <= i < orig.len() ==> call_requires(f, (orig[i],)),
                forall|i: int| 0 <= i < mid.len() ==> call_ensures(f, (orig[i],), #[trigger] mid[i]),
                out@ == seq_of_views(mid).flatten(),
            decreases rest@.len(),
        {
            let ghost k = mid.len() as int;
            let a = rest.remove(0);
            proof {
                assert(a == orig[k]);
                assert(rest@ =~= orig.skip(k + 1));
            }
            let mut w = f(a);
            proof {
                let mid0 = mid;
                mid = mid.push(w);
                assert(seq_of_views(mid) =~= seq_of_views(mid0).push(w@));
                seq_of_views(mid0).lemma_flatten_push(w@);
            }
            out.append(&mut w);
        }
        out
    }

    /// Fold the elements left to right into the accumulator, stopping as
    /// soon as the step answers `Break`.
    #[verifier::loop_isolation(false)]
    pub fn fold_while<A, B, GA, GB, F>(
        _clone_a: GA,
        _clone_b: GB,
        f: F,
        init: B,
        fa: Vec<A>,
    ) -> (r: FoldWhile<B>) where
        GA: Fn(&A) -> A,
        GB: Fn(&B) -> B,
        F: Fn(B, A) -> FoldWhile<B>,

        requires
            forall|b: B, i: int| 0 <= i < fa@.len() ==> call_requires(f, (b, fa@[i])),
        ensures
            fold_while_describes(f, fa@, init, r),
    {
        let ghost orig = fa@;
        let mut rest = fa;
        let mut acc = init;
        let ghost mut k: int = 0;
        proof {
            assert(orig.skip(0) =~= orig);
        }
        while rest.len() > 0
            invariant
                0 <= k <= orig.len(),
                k + rest@.len() == orig.len(),
                rest@ == orig.skip(k),
                forall|b: B, i: int| 0 <= i < orig.len() ==> call_requires(f, (b, orig[i])),
                forall|r2: FoldWhile<B>|
                    #[trigger] fold_while_describes(f, orig.skip(k), acc, r2)
                        ==> fold_while_describes(f, orig, init, r2),
            decreases rest@.len(),
        {
            let a = rest.remove(0);
            let ghost acc0 = acc;
            proof {
                assert(a == orig[k]);
                assert(rest@ =~= orig.skip(k + 1));
                assert(orig.skip(k).drop_first() =~= orig.skip(k + 1));
                assert(orig.skip(k)[0] == orig[k]);
            }
            let step = f(acc, a);
            match step {
                FoldWhile::Continue(b) => {
                    proof {
                        let stepg = FoldWhile::<B>::Continue(b);
                        assert forall|r2: FoldWhile<B>|
                            #[trigger] fold_while_describes(
                                f,
                                orig.skip(k + 1),
                                b,
                                r2,
                            ) implies fold_while_describes(f, orig, init, r2) by {
                            assert(call_ensures(f, (acc0, orig.skip(k)[0]), stepg));
                            assert(fold_while_describes(f, orig.skip(k), acc0, r2));
                        }
                        k = k + 1;
                    }
                    acc = b;
                },
                FoldWhile::Break(b) => {
                    proof {
                        let stepg = FoldWhile::<B>::Break(b);
                        assert(call_ensures(f, (acc0, orig.skip(k)[0]), stepg));
                        assert(fold_while_describes(
                            f,
                            orig.skip(k),
                            acc0,
                            FoldWhile::<B>::Break(b),
                        ));
                        assert(fold_while_describes(f, orig, init, FoldWhile::<B>::Break(b)));
                    }
                    return FoldWhile::Break(b);
                },
            }
        }
        proof {
            assert(orig.skip(k).len() == 0);
            assert(fold_while_describes(f, orig.skip(k), acc, FoldWhile::<B>::Continue(acc)));
        }
        FoldWhile::Continue(acc)
    }

    /// Fold the elements right to left into the accumulator, stopping as
    /// soon as the step answers `Break`.
    #[verifier::loop_isolation(false)]
    pub fn rfold_while<A, B, GA, GB, F>(
        _clone_a: GA,
        _clone_b: GB,
        f: F,
        init: B,
        fa: Vec<A>,
    ) -> (r: FoldWhile<B>) where
        GA: Fn(&A) -> A,
        GB: Fn(&B) -> B,
        F: Fn(B, A) -> FoldWhile<B>,

        requires
            forall|b: B, i: int| 0 <= i < fa@.len() ==> call_requires(f, (b, fa@[i])),
        ensures
            fold_while_describes(f, fa@.reverse(), init, r),
    {
        let ghost orig = fa@;
        let ghost rev = fa@.reverse();
        let mut rest = fa;
        let mut acc = init;
        let ghost mut k: int = 0;
        proof {
            assert(rev.skip(0) =~= rev);
            assert(orig.take(orig.len() as int) =~= orig);
        }
        while rest.len() > 0
            invariant
                rev == orig.reverse(),
                0 <= k <= orig.len(),
                k + rest@.len() == orig.len(),
                rest@ == orig.take(orig.len() - k),
                forall|b: B, i: int| 0 <= i < orig.len() ==> call_requires(f, (b, orig[i])),
                forall|r2: FoldWhile<B>|
                    #[trigger] fold_while_describes(f, rev.skip(k), acc, r2)
                        ==> fold_while_describes(f, rev, init, r2),
            decreases rest@.len(),
        {
            let a_opt = rest.pop();
            let a = a_opt.unwrap();
            let ghost acc0 = acc;
            proof {
                assert(a == orig[orig.len() - k - 1]);
                assert(a == rev[k]);
                assert(rest@ =~= orig.take(orig.len() - (k + 1)));
                assert(rev.skip(k).drop_first() =~= rev.skip(k + 1));
                assert(rev.skip(k)[0] == rev[k]);
            }
            let step = f(acc, a);
            match step {
                FoldWhile::Continue(b) => {
                    proof {
                        let stepg = FoldWhile::<B>::Continue(b);
                        assert forall|r2: FoldWhile<B>|
                            #[trigger] fold_while_describes(
                                f,
                                rev.skip(k + 1),
                                b,
                                r2,
                            ) implies fold_while_describes(f, rev, init, r2) by {
                            assert(call_ensures(f, (acc0, rev.skip(k)[0]), stepg));
                            assert(fold_while_describes(f, rev.skip(k), acc0, r2));
                        }
                        k = k + 1;
                    }
                    acc = b;
                },
                FoldWhile::Break(b) => {
                    proof {
                        let stepg = FoldWhile::<B>::Break(b);
                        assert(call_ensures(f, (acc0, rev.skip(k)[0]), stepg));
                        assert(fold_while_describes(f, rev.skip(k), acc0, FoldWhile::<B>::Break(b)));
                        assert(fold_while_describes(f, rev, init, FoldWhile::<B>::Break(b)));
                    }
                    return FoldWhile::Break(b);
                },
            }
        }
        proof {
            assert(rev.skip(k).len() == 0);
            assert(fold_while_describes(f, rev.skip(k), acc, FoldWhile::<B>::Continue(acc)));
        }
        FoldWhile::Continue(acc)
    }

    /// Traverse every element into an optional result: the whole list is
    /// present exactly when every per-element result is, and then carries
    /// the produced values in order. The continuation runs on every
    /// element, even after an absence has been seen.
    pub fn traverse_option<A, B, GA, GB, F>(_clone_a: GA, _clone_b: GB, f: F, fa: Vec<A>) -> (r:
        Option<Vec<B>>) where
        GA: Fn(&A) -> A,
        GB: Fn(&B) -> B,
        F: Fn(A) -> Option<B>,

        requires
            forall|i: int| 0 <= i < fa@.len() ==> call_requires(f, (fa@[i],)),
        ensures
            exists|mid: Seq<Option<B>>|
                {
                    &&& mid.len() == fa@.len()
                    &&& forall|i: int|
                        0 <= i < mid.len() ==> call_ensures(f, (fa@[i],), #[trigger] mid[i])
                    &&& match opt_collect(mid) {
                        Some(s) => r matches Some(rv) && rv@ == s,
                        None => r is None,
                    }
                },
    {
        let ghost orig = fa@;
        let mut rest = fa;
        let mut acc: Option<Vec<B>> = Some(Vec::new());
        let ghost mut mid: Seq<Option<B>> = Seq::empty();
        while rest.len() > 0
            invariant
                mid.len() + rest@.len() == orig.len(),
                rest@ == orig.skip(mid.len() as int),
                forall|i: int| 0 <= i < orig.len() ==> call_requires(f, (orig[i],)),
                forall|i: int| 0 <= i < mid.len() ==> call_ensures(f, (orig[i],), #[trigger] mid[i]),
                match opt_collect(mid) {
                    Some(s) => acc matches Some(av) && av@ == s,
                    None => acc is None,
                },
            decreases rest@.len(),
        {
            let ghost k = mid.len() as int;
            let a = rest.remove(0);
            proof {
                assert(a == orig[k]);
                assert(rest@ =~= orig.skip(k + 1));
            }
            let x = f(a);
            let ghost gx = x;
            acc = match (acc, x) {
                (Some(mut av), Some(b)) => {
                    av.push(b);
                    Some(av)
                },
                _ => None,
            };
            proof {
                let mid0 = mid;
                mid = mid.push(gx);
                if gx is Some && seq_all_some(mid0) {
                    assert forall|i: int| 0 <= i < mid.len() implies mid[i] is Some by {
                        if i < mid0.len() {
                            assert(mid[i] == mid0[i]);
                        }
                    }
                    assert(seq_unwrap_all(mid) =~= seq_unwrap_all(mid0).push(gx->0));
                } else {
                    if seq_all_some(mid) {
                        assert(seq_all_some(mid0)) by {
                            assert forall|i: int| 0 <= i < mid0.len() implies mid0[i] is Some by {
                                assert(mid0[i] == mid[i]);
                            }
                        }
                        assert(mid[mid0.len() as int] == gx);
                        assert(false);
                    }
                }
            }
        }
        acc
    }

    /// Duplicate the list through the caller's ownership witness, element
    /// by element, in order.
    pub fn clone<A, GA>(clone_a: GA, a: &Vec<A>) -> (r: Vec<A>) where GA: Fn(&A) -> A
        requires
            forall|i: int| 0 <= i < a@.len() ==> call_requires(clone_a, (&a@[i],)),
        ensures
            r@.len() == a@.len(),
            forall|i: int| 0 <= i < a@.len() ==> call_ensures(clone_a, (&a@[i],), #[trigger] r@[i]),
    {
        let mut out: Vec<A> = Vec::new();
        let mut i: usize = 0;
        while i < a.len()
            invariant
                0 <= i <= a@.len(),
                out@.len() == i,
                forall|j: int| 0 <= j < a@.len() ==> call_requires(clone_a, (&a@[j],)),
                forall|j: int| 0 <= j < i ==> call_ensures(clone_a, (&a@[j],), #[trigger] out@[j]),
            decreases a@.len() - i,
        {
            let x = clone_a(&a[i]);
            out.push(x);
            i += 1;
        }
        out
    }

    /// Duplicate the list into a fresh validity region; same behaviour as
    /// `clone`, since the value itself does not change.
    pub fn clone_owned<A, GA>(clone_a: GA, a: &Vec<A>) -> (r: Vec<A>) where GA: Fn(&A) -> A
        requires
            forall|i: int| 0 <= i < a@.len() ==> call_requires(clone_a, (&a@[i],)),
        ensures
            r@.len() == a@.len(),
            forall|i: int| 0 <= i < a@.len() ==> call_ensures(clone_a, (&a@[i],), #[trigger] r@[i]),
    {
        VecT::clone(clone_a, a)
    }

    /// Rescope covariantly: the value itself is unchanged.
    pub fn covariant_convert<A>(a: Vec<A>) -> (r: Vec<A>)
        ensures
            r == a,
    {
        a
    }

    /// Append every element of the list to a destination collection.
    pub fn extend<A, GA>(_clone_a: GA, collection: &mut Vec<A>, fa: Vec<A>) where GA: Fn(&A) -> A
        ensures
            final(collection)@ == old(collection)@ + fa@,
    {
        let mut rest = fa;
        collection.append(&mut rest);
    }

    /// Lower and upper bounds on the element count; for a list both are
    /// its exact length.
    pub fn size_hint<A>(s: &Vec<A>) -> (r: (usize, Option<usize>))
        ensures
            r.0 == s@.len(),
            r.1 matches Some(u) && u == s@.len(),
    {
        (s.len(), Some(s.len()))
    }
}

impl VecT<OptionT> {
    /// Sequence a continuation across a list of optional values: an absent
    /// element stays as a single absent element, a present one is replaced
    /// by everything the continuation produces for it, in order.
    pub fn bind<A, B, GA, GB, F>(_clone_a: GA, _clone_b: GB, fa: Vec<Option<A>>, f: F) -> (r: Vec<
        Option<B>,
    >) where
        GA: Fn(&A) -> A,
        GB: Fn(&B) -> B,
        F: Fn(A) -> Vec<Option<B>>,

        requires
            forall|i: int|
                0 <= i < fa@.len() ==> (#[trigger] fa@[i] matches Some(a) ==> call_requires(
                    f,
                    (a,),
                )),
        ensures
            exists|mid: Seq<Vec<Option<B>>>|
                {
                    &&& mid.len() == fa@.len()
                    &&& forall|i: int|
                        0 <= i < mid.len() ==> match fa@[i] {
                            Some(a) => call_ensures(f, (a,), #[trigger] mid[i]),
                            None => mid[i]@ == seq![Option::<B>::None],
                        }
                    &&& r@ == seq_of_views(mid).flatten()
                },
    {
        let ghost orig = fa@;
        let mut rest = fa;
        let mut out: Vec<Option<B>> = Vec::new();
        let ghost mut mid: Seq<Vec<Option<B>>> = Seq::empty();
        while rest.len() > 0
            invariant
                mid.len() + rest@.len() == orig.len(),
                rest@ == orig.skip(mid.len() as int),
                forall|i: int|
                    0 <= i < orig.len() ==> (#[trigger] orig[i] matches Some(a) ==> call_requires(
                        f,
                        (a,),
                    )),
                forall|i: int|
                    0 <= i < mid.len() ==> match orig[i] {
                        Some(a) => call_ensures(f, (a,), #[trigger] mid[i]),
                        None => mid[i]@ == seq![Option::<B>::None],
                    },
                out@ == seq_of_views(mid).flatten(),
            decreases rest@.len(),
        {
            let ghost k = mid.len() as int;
            let e = rest.remove(0);
            proof {
                assert(e == orig[k]);
                assert(rest@ =~= orig.skip(k + 1));
            }
            let mut w: Vec<Option<B>> = match e {
                Some(a) => f(a),
                None => {
                    let mut none_chunk: Vec<Option<B>> = Vec::new();
                    none_chunk.push(None);
                    proof {
                        assert(none_chunk@ =~= seq![Option::<B>::None]);
                    }
                    none_chunk
                },
            };
            proof {
                let mid0 = mid;
                mid = mid.push(w);
                assert(seq_of_views(mid) =~= seq_of_views(mid0).push(w@));
                seq_of_views(mid0).lemma_flatten_push(w@);
            }
            out.append(&mut w);
        }
        out
    }
}

} // verus!
