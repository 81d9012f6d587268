//! The applicative laws — identity, homomorphism, interchange and
//! composition — relating `apply` and `pure`. Proved for the identity,
//! optional, list and success-or-failure families; for the
//! success-or-failure family the composition law asks that the combination
//! of two failures be associative.

use vstd::prelude::*;

use crate::model::{
    compose, compose_all, id_apply, id_pure, lemma_flatten_of_singletons, lemma_map_values_add,
    lemma_map_values_compose, opt_apply, opt_pure, res_apply, res_pure, seq_apply, seq_pure,
};

verus! {

/// Identity law for the identity container.
pub proof fn id_identity_law<A>(v: A)
    ensures
        id_apply(|a: A| a, v) == v,
{
}

/// Homomorphism law for the identity container.
pub proof fn id_homomorphism_law<A, B>(a: A, f: spec_fn(A) -> B)
    ensures
        id_apply(f, id_pure(a)) == id_pure(f(a)),
{
}

/// Interchange law for the identity container.
pub proof fn id_interchange_law<A, B>(u: spec_fn(A) -> B, a: A)
    ensures
        id_apply(u, id_pure(a)) == id_apply(|f: spec_fn(A) -> B| f(a), id_pure(u)),
{
}

/// Composition law for the identity container.
pub proof fn id_composition_law<A, B, C>(u: spec_fn(B) -> C, v: spec_fn(A) -> B, w: A)
    ensures
        id_apply(id_apply(id_apply(|g: spec_fn(B) -> C| compose_all::<A, B, C>(g), u), v), w)
            == id_apply(u, id_apply(v, w)),
{
}

/// Identity law for optional values.
pub proof fn opt_identity_law<A>(v: Option<A>)
    ensures
        opt_apply(opt_pure(|a: A| a), v) == v,
{
}

/// Homomorphism law for optional values.
pub proof fn opt_homomorphism_law<A, B>(a: A, f: spec_fn(A) -> B)
    ensures
        opt_apply(opt_pure(f), opt_pure(a)) == opt_pure(f(a)),
{
}

/// Interchange law for optional values.
pub proof fn opt_interchange_law<A, B>(u: Option<spec_fn(A) -> B>, a: A)
    ensures
        opt_apply(u, opt_pure(a)) == opt_apply(opt_pure(|f: spec_fn(A) -> B| f(a)), u),
{
}

/// Composition law for optional values.
pub proof fn opt_composition_law<A, B, C>(
    u: Option<spec_fn(B) -> C>,
    v: Option<spec_fn(A) -> B>,
    w: Option<A>,
)
    ensures
        opt_apply(
            opt_apply(
                opt_apply(opt_pure(|g: spec_fn(B) -> C| compose_all::<A, B, C>(g)), u),
                v,
            ),
            w,
        ) == opt_apply(u, opt_apply(v, w)),
{
}

/// Applying one transformer to a list is mapping it over the list.
pub proof fn lemma_seq_apply_singleton<A, B>(h: spec_fn(A) -> B, s: Seq<A>)
    ensures
        seq_apply(seq![h], s) == s.map_values(h),
{
    let vs = seq![h].map_values(|f: spec_fn(A) -> B| s.map_values(f));
    assert(vs =~= seq![s.map_values(h)]);
    vs.lemma_flatten_one_element();
}

/// The list `apply` distributes over concatenation of the transformer
/// list.
pub proof fn lemma_seq_apply_add<A, B>(
    fs1: Seq<spec_fn(A) -> B>,
    fs2: Seq<spec_fn(A) -> B>,
    s: Seq<A>,
)
    ensures
        seq_apply(fs1 + fs2, s) == seq_apply(fs1, s) + seq_apply(fs2, s),
{
    let g = |f: spec_fn(A) -> B| s.map_values(f);
    lemma_map_values_add(fs1, fs2, g);
    vstd::seq_lib::lemma_flatten_concat(fs1.map_values(g), fs2.map_values(g));
}

/// Mapping a function over an applied list is applying the composed
/// transformers.
pub proof fn lemma_seq_map_apply<A, B, C>(g: spec_fn(B) -> C, fs: Seq<spec_fn(A) -> B>, s: Seq<A>)
    ensures
        seq_apply(fs, s).map_values(g) == seq_apply(fs.map_values(compose_all(g)), s),
    decreases fs.len(),
{
    if fs.len() == 0 {
        assert(seq_apply(fs, s) =~= Seq::<B>::empty());
        assert(fs.map_values(compose_all(g)) =~= Seq::<spec_fn(A) -> C>::empty());
        assert(seq_apply(fs.map_values(compose_all(g)), s) =~= Seq::<C>::empty());
        assert(seq_apply(fs, s).map_values(g) =~= Seq::<C>::empty());
    } else {
        let f0 = fs[0];
        let rest = fs.drop_first();
        assert(fs =~= seq![f0] + rest);
        lemma_seq_apply_add(seq![f0], rest, s);
        lemma_seq_apply_singleton(f0, s);
        lemma_map_values_add(s.map_values(f0), seq_apply(rest, s), g);
        lemma_map_values_compose(s, f0, g);
        lemma_seq_map_apply(g, rest, s);
        assert(fs.map_values(compose_all(g)) =~= seq![compose(g, f0)] + rest.map_values(
            compose_all(g),
        ));
        lemma_seq_apply_add(seq![compose(g, f0)], rest.map_values(compose_all(g)), s);
        lemma_seq_apply_singleton(compose(g, f0), s);
    }
}

/// Identity law for lists.
pub proof fn seq_identity_law<A>(v: Seq<A>)
    ensures
        seq_apply(seq_pure(|a: A| a), v) == v,
{
    lemma_seq_apply_singleton(|a: A| a, v);
    assert(v.map_values(|a: A| a) =~= v);
}

/// Homomorphism law for lists.
pub proof fn seq_homomorphism_law<A, B>(a: A, f: spec_fn(A) -> B)
    ensures
        seq_apply(seq_pure(f), seq_pure(a)) == seq_pure(f(a)),
{
    lemma_seq_apply_singleton(f, seq_pure(a));
    assert(seq_pure(a).map_values(f) =~= seq_pure(f(a)));
}

/// Interchange law for lists.
pub proof fn seq_interchange_law<A, B>(u: Seq<spec_fn(A) -> B>, a: A)
    ensures
        seq_apply(u, seq_pure(a)) == seq_apply(seq_pure(|f: spec_fn(A) -> B| f(a)), u),
{
    let at = |f: spec_fn(A) -> B| f(a);
    assert(u.map_values(|f: spec_fn(A) -> B| seq_pure(a).map_values(f)) =~~= u.map_values(
        |f: spec_fn(A) -> B| seq![at(f)],
    ));
    lemma_flatten_of_singletons(u, at);
    lemma_seq_apply_singleton(at, u);
}

/// Composition law for lists.
pub proof fn seq_composition_law<A, B, C>(
    u: Seq<spec_fn(B) -> C>,
    v: Seq<spec_fn(A) -> B>,
    w: Seq<A>,
)
    ensures
        seq_apply(
            seq_apply(
                seq_apply(seq_pure(|g: spec_fn(B) -> C| compose_all::<A, B, C>(g)), u),
                v,
            ),
            w,
        ) == seq_apply(u, seq_apply(v, w)),
    decreases u.len(),
{
    let c = |g: spec_fn(B) -> C| compose_all::<A, B, C>(g);
    lemma_seq_apply_singleton(c, u);
    // the transformer list of the left-hand side is `u` mapped through the
    // composer
    if u.len() == 0 {
        assert(u.map_values(c) =~= Seq::<spec_fn(spec_fn(A) -> B) -> spec_fn(A) -> C>::empty());
        assert(seq_apply(u.map_values(c), v) =~= Seq::<spec_fn(A) -> C>::empty());
        assert(seq_apply(seq_apply(u.map_values(c), v), w) =~= Seq::<C>::empty());
        assert(seq_apply(u, seq_apply(v, w)) =~= Seq::<C>::empty());
    } else {
        let g0 = u[0];
        let rest = u.drop_first();
        assert(u =~= seq![g0] + rest);
        // split the left-hand side at the first transformer
        lemma_map_values_add(seq![g0], rest, c);
        assert(seq![g0].map_values(c) =~= seq![compose_all::<A, B, C>(g0)]);
        lemma_seq_apply_add(seq![compose_all::<A, B, C>(g0)], rest.map_values(c), v);
        lemma_seq_apply_singleton(compose_all::<A, B, C>(g0), v);
        lemma_seq_apply_add(
            v.map_values(compose_all::<A, B, C>(g0)),
            seq_apply(rest.map_values(c), v),
            w,
        );
        // the head row: mapping after applying is applying the composition
        lemma_seq_map_apply(g0, v, w);
        // split the right-hand side at the first transformer
        lemma_seq_apply_add(seq![g0], rest, seq_apply(v, w));
        lemma_seq_apply_singleton(g0, seq_apply(v, w));
        // the tails agree by induction
        seq_composition_law(rest, v, w);
        lemma_seq_apply_singleton(c, rest);
    }
}

/// Identity law for success-or-failure values.
pub proof fn res_identity_law<A, E>(v: Result<A, E>, ce: spec_fn(E, E) -> E)
    ensures
        res_apply(res_pure(|a: A| a), v, ce) == v,
{
}

/// Homomorphism law for success-or-failure values.
pub proof fn res_homomorphism_law<A, B, E>(a: A, f: spec_fn(A) -> B, ce: spec_fn(E, E) -> E)
    ensures
        res_apply(res_pure(f), res_pure(a), ce) == res_pure::<B, E>(f(a)),
{
}

/// Interchange law for success-or-failure values.
pub proof fn res_interchange_law<A, B, E>(
    u: Result<spec_fn(A) -> B, E>,
    a: A,
    ce: spec_fn(E, E) -> E,
)
    ensures
        res_apply(u, res_pure(a), ce) == res_apply(res_pure(|f: spec_fn(A) -> B| f(a)), u, ce),
{
}

/// Composition law for success-or-failure values; holds whenever the
/// failure combination is associative.
pub proof fn res_composition_law<A, B, C, E>(
    u: Result<spec_fn(B) -> C, E>,
    v: Result<spec_fn(A) -> B, E>,
    w: Result<A, E>,
    ce: spec_fn(E, E) -> E,
)
    requires
        forall|x: E, y: E, z: E| #[trigger] ce(ce(x, y), z) == ce(x, ce(y, z)),
    ensures
        res_apply(
            res_apply(
                res_apply(res_pure(|g: spec_fn(B) -> C| compose_all::<A, B, C>(g)), u, ce),
                v,
                ce,
            ),
            w,
            ce,
        ) == res_apply(u, res_apply(v, w, ce), ce),
{
}

} // verus!
