//! Mathematical models of the container algebras: the `map`, `pure`,
//! `apply` and `bind` of each family, stated over `Seq`, `Option` and spec
//! functions. The laws in the `laws` modules are proved of these models,
//! which are the same spec functions the executable contracts are written
//! with.

use vstd::prelude::*;

use crate::views::{opt_collect, opt_vec_collect, opt_vec_view, seq_all_some, seq_of_views, seq_unwrap_all};

verus! {

/// `map` of the identity family: the container is the element itself.
pub open spec fn id_map<A, B>(m: A, f: spec_fn(A) -> B) -> B {
    f(m)
}

/// `pure` of the identity family.
pub open spec fn id_pure<A>(a: A) -> A {
    a
}

/// `apply` of the identity family: the container of transformers is the
/// transformer itself.
pub open spec fn id_apply<A, B>(ff: spec_fn(A) -> B, fa: A) -> B {
    ff(fa)
}

/// `bind` of the identity family.
pub open spec fn id_bind<A, B>(m: A, f: spec_fn(A) -> B) -> B {
    f(m)
}

/// `map` of the optional-value family.
pub open spec fn opt_map<A, B>(m: Option<A>, f: spec_fn(A) -> B) -> Option<B> {
    match m {
        Some(a) => Some(f(a)),
        None => None,
    }
}

/// `pure` of the optional-value family.
pub open spec fn opt_pure<A>(a: A) -> Option<A> {
    Some(a)
}

/// `apply` of the optional-value family.
pub open spec fn opt_apply<A, B>(ff: Option<spec_fn(A) -> B>, fa: Option<A>) -> Option<B> {
    match (ff, fa) {
        (Some(f), Some(a)) => Some(f(a)),
        _ => None,
    }
}

/// `bind` of the optional-value family.
pub open spec fn opt_bind<A, B>(m: Option<A>, f: spec_fn(A) -> Option<B>) -> Option<B> {
    match m {
        Some(a) => f(a),
        None => None,
    }
}

/// `map` of the list family.
pub open spec fn seq_map<A, B>(s: Seq<A>, f: spec_fn(A) -> B) -> Seq<B> {
    s.map_values(f)
}

/// `pure` of the list family.
pub open spec fn seq_pure<A>(a: A) -> Seq<A> {
    seq![a]
}

/// `apply` of the list family: each transformer, in order, is mapped over
/// the whole value list, and the images are concatenated.
pub open spec fn seq_apply<A, B>(fs: Seq<spec_fn(A) -> B>, s: Seq<A>) -> Seq<B> {
    fs.map_values(|f: spec_fn(A) -> B| s.map_values(f)).flatten()
}

/// `bind` of the list family: the produced lists are concatenated in
/// order.
pub open spec fn seq_bind<A, B>(s: Seq<A>, f: spec_fn(A) -> Seq<B>) -> Seq<B> {
    s.map_values(f).flatten()
}

/// `map` of the optional-list stack: transform every element of the list,
/// if one is present.
pub open spec fn ov_map<A, B>(m: Option<Seq<A>>, f: spec_fn(A) -> B) -> Option<Seq<B>> {
    opt_map(m, |s: Seq<A>| seq_map(s, f))
}

/// `pure` of the optional-list stack.
pub open spec fn ov_pure<A>(a: A) -> Option<Seq<A>> {
    Some(seq![a])
}

/// `bind` of the optional-list stack: the whole result is present exactly
/// when the input and every per-element result are, and then carries the
/// concatenation of the produced lists.
pub open spec fn ov_bind<A, B>(m: Option<Seq<A>>, f: spec_fn(A) -> Option<Seq<B>>) -> Option<
    Seq<B>,
> {
    match m {
        None => None,
        Some(s) => match opt_collect(s.map_values(f)) {
            Some(ss) => Some(ss.flatten()),
            None => None,
        },
    }
}

/// `pure` of the list-of-optionals stack.
pub open spec fn vo_pure<A>(a: A) -> Seq<Option<A>> {
    seq![Some(a)]
}

/// How one element of a list of optionals is rewritten by `bind`: an
/// absent element stays as a single absent element, a present one is
/// replaced by everything the continuation produces for it.
pub open spec fn vo_step<A, B>(f: spec_fn(A) -> Seq<Option<B>>) -> spec_fn(Option<A>) -> Seq<
    Option<B>,
> {
    |e: Option<A>|
        match e {
            None => seq![Option::<B>::None],
            Some(a) => f(a),
        }
}

/// `bind` of the list-of-optionals stack.
pub open spec fn vo_bind<A, B>(s: Seq<Option<A>>, f: spec_fn(A) -> Seq<Option<B>>) -> Seq<
    Option<B>,
> {
    s.map_values(vo_step(f)).flatten()
}

/// `pure` of the doubly-optional stack.
pub open spec fn oo_pure<A>(a: A) -> Option<Option<A>> {
    Some(Some(a))
}

/// `bind` of the doubly-optional stack.
pub open spec fn oo_bind<A, B>(m: Option<Option<A>>, f: spec_fn(A) -> Option<Option<B>>) -> Option<
    Option<B>,
> {
    match m {
        None => None,
        Some(None) => Some(None),
        Some(Some(a)) => f(a),
    }
}

/// Composition of two functions.
pub open spec fn compose<A, B, C>(g: spec_fn(B) -> C, f: spec_fn(A) -> B) -> spec_fn(A) -> C {
    |a: A| g(f(a))
}

/// Composition with a fixed outer function, as a transformer of
/// functions.
pub open spec fn compose_all<A, B, C>(g: spec_fn(B) -> C) -> spec_fn(
    spec_fn(A) -> B,
) -> spec_fn(A) -> C {
    |f: spec_fn(A) -> B| compose(g, f)
}

/// Mapping distributes over concatenation.
pub proof fn lemma_map_values_add<A, B>(s1: Seq<A>, s2: Seq<A>, f: spec_fn(A) -> B)
    ensures
        (s1 + s2).map_values(f) == s1.map_values(f) + s2.map_values(f),
{
    assert((s1 + s2).map_values(f) =~= s1.map_values(f) + s2.map_values(f));
}

/// Mapping twice is mapping the composition.
pub proof fn lemma_map_values_compose<A, B, C>(s: Seq<A>, f: spec_fn(A) -> B, g: spec_fn(B) -> C)
    ensures
        s.map_values(f).map_values(g) == s.map_values(compose(g, f)),
{
    assert(s.map_values(f).map_values(g) =~= s.map_values(compose(g, f)));
}

/// Concatenating one-element lists made from each element is mapping over
/// the elements.
pub proof fn lemma_flatten_of_singletons<A, B>(s: Seq<A>, h: spec_fn(A) -> B)
    ensures
        s.map_values(|a: A| seq![h(a)]).flatten() == s.map_values(h),
    decreases s.len(),
{
    let vs = s.map_values(|a: A| seq![h(a)]);
    if s.len() == 0 {
        assert(vs.flatten() =~= s.map_values(h));
    } else {
        lemma_flatten_of_singletons(s.drop_first(), h);
        assert(vs.drop_first() =~= s.drop_first().map_values(|a: A| seq![h(a)]));
        assert(vs.flatten() == vs.first().add(vs.drop_first().flatten()));
        assert(vs.flatten() =~= s.map_values(h));
    }
}

/// The list `bind` distributes over concatenation.
pub proof fn lemma_seq_bind_add<A, B>(s1: Seq<A>, s2: Seq<A>, f: spec_fn(A) -> Seq<B>)
    ensures
        seq_bind(s1 + s2, f) == seq_bind(s1, f) + seq_bind(s2, f),
{
    lemma_map_values_add(s1, s2, f);
    vstd::seq_lib::lemma_flatten_concat(s1.map_values(f), s2.map_values(f));
    assert(seq_bind(s1 + s2, f) =~= seq_bind(s1, f) + seq_bind(s2, f));
}

/// The list `bind` of a one-element list is what the continuation
/// produces for that element.
pub proof fn lemma_seq_bind_singleton<A, B>(a: A, f: spec_fn(A) -> Seq<B>)
    ensures
        seq_bind(seq![a], f) == f(a),
{
    let vs = seq![a].map_values(f);
    assert(vs =~= seq![f(a)]);
    vs.lemma_flatten_one_element();
}

/// A run of the list `bind` assembled from per-element results mirrors
/// the model: when each produced list means `g` of its element, the
/// concatenation is the model's bind. This ties the executable bind's
/// contract to the laws proved of `seq_bind`.
pub proof fn lemma_seq_bind_agrees<A, B>(s: Seq<A>, mid: Seq<Vec<B>>, g: spec_fn(A) -> Seq<B>)
    requires
        mid.len() == s.len(),
        forall|i: int| 0 <= i < mid.len() ==> (#[trigger] mid[i])@ == g(s[i]),
    ensures
        seq_of_views(mid).flatten() == seq_bind(s, g),
{
    assert(seq_of_views(mid) =~= s.map_values(g));
}

/// A run of the list-of-optionals `bind` assembled from per-element
/// results mirrors the model: an absent element contributed its single
/// absent marker, a present one a list meaning `g` of its value. This
/// ties the executable bind's contract to the laws proved of `vo_bind`.
pub proof fn lemma_vo_bind_agrees<A, B>(
    s: Seq<Option<A>>,
    mid: Seq<Vec<Option<B>>>,
    g: spec_fn(A) -> Seq<Option<B>>,
)
    requires
        mid.len() == s.len(),
        forall|i: int| 0 <= i < mid.len() ==> (#[trigger] mid[i])@ == vo_step(g)(s[i]),
    ensures
        seq_of_views(mid).flatten() == vo_bind(s, g),
{
    assert(seq_of_views(mid) =~= s.map_values(vo_step(g)));
}

/// A run of the optional-list `bind` assembled from per-element results
/// mirrors the model: when each per-element result means `g` of its
/// element, collecting them is the model's bind. This ties the executable
/// bind's contract to the laws proved of `ov_bind`.
pub proof fn lemma_ov_bind_agrees<A, B>(
    s: Seq<A>,
    mid: Seq<Option<Vec<B>>>,
    g: spec_fn(A) -> Option<Seq<B>>,
)
    requires
        mid.len() == s.len(),
        forall|i: int| 0 <= i < mid.len() ==> opt_vec_view(#[trigger] mid[i]) == g(s[i]),
    ensures
        match opt_vec_collect(mid) {
            Some(sq) => ov_bind(Some(s), g) == Some(sq),
            None => ov_bind(Some(s), g) is None,
        },
{
    let gm = s.map_values(g);
    assert forall|i: int| 0 <= i < mid.len() implies (mid[i] is Some <==> #[trigger] gm[i]
        is Some) by {
        assert(opt_vec_view(mid[i]) == g(s[i]));
    }
    if seq_all_some(mid) {
        assert(seq_all_some(gm)) by {
            assert forall|i: int| 0 <= i < gm.len() implies gm[i] is Some by {
                assert(mid[i] is Some);
            }
        }
        assert(seq_of_views(seq_unwrap_all(mid)) =~= seq_unwrap_all(gm)) by {
            assert forall|i: int|
                0 <= i < mid.len() implies seq_of_views(seq_unwrap_all(mid))[i] == seq_unwrap_all(
                gm,
            )[i] by {
                assert(opt_vec_view(mid[i]) == g(s[i]));
            }
        }
    } else {
        let i0 = choose|i: int| 0 <= i < mid.len() && !(mid[i] is Some);
        assert(!(gm[i0] is Some));
        assert(!seq_all_some(gm));
    }
}

/// `map` of the success-or-failure family.
pub open spec fn res_map<A, B, E>(m: Result<A, E>, f: spec_fn(A) -> B) -> Result<B, E> {
    match m {
        Ok(a) => Ok(f(a)),
        Err(e) => Err(e),
    }
}

/// `pure` of the success-or-failure family.
pub open spec fn res_pure<A, E>(a: A) -> Result<A, E> {
    Ok(a)
}

/// `apply` of the success-or-failure family; `ce` combines two failures.
pub open spec fn res_apply<A, B, E>(
    ff: Result<spec_fn(A) -> B, E>,
    fa: Result<A, E>,
    ce: spec_fn(E, E) -> E,
) -> Result<B, E> {
    match (ff, fa) {
        (Ok(f), Ok(a)) => Ok(f(a)),
        (Ok(_), Err(e)) => Err(e),
        (Err(e), Ok(_)) => Err(e),
        (Err(e1), Err(e2)) => Err(ce(e1, e2)),
    }
}

/// `bind` of the success-or-failure family.
pub open spec fn res_bind<A, B, E>(m: Result<A, E>, f: spec_fn(A) -> Result<B, E>) -> Result<
    B,
    E,
> {
    match m {
        Ok(a) => f(a),
        Err(e) => Err(e),
    }
}

} // verus!
