//! The monad laws — left identity, right identity, associativity — for
//! every family and stack that carries a `bind`: the identity, optional,
//! list and success-or-failure families, the optional-list and
//! list-of-optionals stacks, and the doubly-optional stack.

use vstd::prelude::*;

use crate::model::{
    id_bind, id_pure, lemma_map_values_add, lemma_seq_bind_add, lemma_seq_bind_singleton, oo_bind,
    oo_pure, opt_bind, opt_pure, ov_bind, ov_pure, res_bind, res_pure, seq_bind, seq_pure, vo_bind,
    vo_pure, vo_step,
};
use crate::views::{opt_collect, seq_all_some, seq_unwrap_all};

verus! {

/// Left identity for the identity container.
pub proof fn id_left_identity_law<A, B>(a: A, f: spec_fn(A) -> B)
    ensures
        id_bind(id_pure(a), f) == f(a),
{
}

/// Right identity for the identity container.
pub proof fn id_right_identity_law<A>(m: A)
    ensures
        id_bind(m, |a: A| id_pure(a)) == m,
{
}

/// Associativity for the identity container.
pub proof fn id_associativity_law<A, B, C>(m: A, f: spec_fn(A) -> B, g: spec_fn(B) -> C)
    ensures
        id_bind(id_bind(m, f), g) == id_bind(m, |a: A| id_bind(f(a), g)),
{
}

/// Left identity for optional values: binding a lifted value is one call
/// of the continuation.
pub proof fn opt_left_identity_law<A, B>(a: A, f: spec_fn(A) -> Option<B>)
    ensures
        opt_bind(opt_pure(a), f) == f(a),
{
}

/// Right identity for optional values: binding the lift changes nothing.
pub proof fn opt_right_identity_law<A>(m: Option<A>)
    ensures
        opt_bind(m, |a: A| opt_pure(a)) == m,
{
}

/// Associativity for optional values.
pub proof fn opt_associativity_law<A, B, C>(
    m: Option<A>,
    f: spec_fn(A) -> Option<B>,
    g: spec_fn(B) -> Option<C>,
)
    ensures
        opt_bind(opt_bind(m, f), g) == opt_bind(m, |a: A| opt_bind(f(a), g)),
{
}

/// Left identity for lists.
pub proof fn seq_left_identity_law<A, B>(a: A, f: spec_fn(A) -> Seq<B>)
    ensures
        seq_bind(seq_pure(a), f) == f(a),
{
    lemma_seq_bind_singleton(a, f);
}

/// Right identity for lists.
pub proof fn seq_right_identity_law<A>(s: Seq<A>)
    ensures
        seq_bind(s, |a: A| seq_pure(a)) == s,
    decreases s.len(),
{
    let f = |a: A| seq_pure(a);
    if s.len() == 0 {
        assert(seq_bind(s, f) =~= s);
    } else {
        seq_right_identity_law(s.drop_first());
        assert(s =~= seq![s[0]] + s.drop_first());
        lemma_seq_bind_add(seq![s[0]], s.drop_first(), f);
        lemma_seq_bind_singleton(s[0], f);
        assert(seq_bind(s, f) =~= s);
    }
}

/// Associativity for lists.
pub proof fn seq_associativity_law<A, B, C>(
    s: Seq<A>,
    f: spec_fn(A) -> Seq<B>,
    g: spec_fn(B) -> Seq<C>,
)
    ensures
        seq_bind(seq_bind(s, f), g) == seq_bind(s, |a: A| seq_bind(f(a), g)),
    decreases s.len(),
{
    let h = |a: A| seq_bind(f(a), g);
    if s.len() == 0 {
        assert(seq_bind(s, f) =~= Seq::<B>::empty());
        assert(seq_bind(seq_bind(s, f), g) =~= Seq::<C>::empty());
        assert(seq_bind(s, h) =~= Seq::<C>::empty());
    } else {
        let a0 = s[0];
        let rest = s.drop_first();
        assert(s =~= seq![a0] + rest);
        lemma_seq_bind_add(seq![a0], rest, f);
        lemma_seq_bind_singleton(a0, f);
        lemma_seq_bind_add(f(a0), seq_bind(rest, f), g);
        seq_associativity_law(rest, f, g);
        lemma_seq_bind_add(seq![a0], rest, h);
        lemma_seq_bind_singleton(a0, h);
    }
}

/// Left identity for success-or-failure values.
pub proof fn res_left_identity_law<A, B, E>(a: A, f: spec_fn(A) -> Result<B, E>)
    ensures
        res_bind(res_pure(a), f) == f(a),
{
}

/// Right identity for success-or-failure values.
pub proof fn res_right_identity_law<A, E>(m: Result<A, E>)
    ensures
        res_bind(m, |a: A| res_pure(a)) == m,
{
}

/// Associativity for success-or-failure values.
pub proof fn res_associativity_law<A, B, C, E>(
    m: Result<A, E>,
    f: spec_fn(A) -> Result<B, E>,
    g: spec_fn(B) -> Result<C, E>,
)
    ensures
        res_bind(res_bind(m, f), g) == res_bind(m, |a: A| res_bind(f(a), g)),
{
}

/// Left identity for the doubly-optional stack.
pub proof fn oo_left_identity_law<A, B>(a: A, f: spec_fn(A) -> Option<Option<B>>)
    ensures
        oo_bind(oo_pure(a), f) == f(a),
{
}

/// Right identity for the doubly-optional stack.
pub proof fn oo_right_identity_law<A>(m: Option<Option<A>>)
    ensures
        oo_bind(m, |a: A| oo_pure(a)) == m,
{
}

/// Associativity for the doubly-optional stack.
pub proof fn oo_associativity_law<A, B, C>(
    m: Option<Option<A>>,
    f: spec_fn(A) -> Option<Option<B>>,
    g: spec_fn(B) -> Option<Option<C>>,
)
    ensures
        oo_bind(oo_bind(m, f), g) == oo_bind(m, |a: A| oo_bind(f(a), g)),
{
}

/// Joins two partial optional-list results: present exactly when both
/// are, and then their concatenation.
pub open spec fn ov_combine<B>(x: Option<Seq<B>>, y: Option<Seq<B>>) -> Option<Seq<B>> {
    match (x, y) {
        (Some(u), Some(v)) => Some(u + v),
        _ => None,
    }
}

/// Presence of every element splits over concatenation.
proof fn lemma_all_some_add<T>(m1: Seq<Option<T>>, m2: Seq<Option<T>>)
    ensures
        seq_all_some(m1 + m2) <==> (seq_all_some(m1) && seq_all_some(m2)),
{
    if seq_all_some(m1 + m2) {
        assert forall|i: int| 0 <= i < m1.len() implies m1[i] is Some by {
            assert((m1 + m2)[i] == m1[i]);
        }
        assert forall|i: int| 0 <= i < m2.len() implies m2[i] is Some by {
            assert((m1 + m2)[m1.len() + i] == m2[i]);
        }
    }
    if seq_all_some(m1) && seq_all_some(m2) {
        assert forall|i: int| 0 <= i < (m1 + m2).len() implies (m1 + m2)[i] is Some by {
            if i < m1.len() {
                assert((m1 + m2)[i] == m1[i]);
            } else {
                assert((m1 + m2)[i] == m2[i - m1.len()]);
            }
        }
    }
}

/// Unwrapping all elements splits over concatenation.
proof fn lemma_unwrap_all_add<T>(m1: Seq<Option<T>>, m2: Seq<Option<T>>)
    ensures
        seq_unwrap_all(m1 + m2) == seq_unwrap_all(m1) + seq_unwrap_all(m2),
{
    assert(seq_unwrap_all(m1 + m2) =~= seq_unwrap_all(m1) + seq_unwrap_all(m2));
}

/// The optional-list `bind` splits over concatenation of the inner list.
proof fn lemma_ov_add<A, B>(s1: Seq<A>, s2: Seq<A>, f: spec_fn(A) -> Option<Seq<B>>)
    ensures
        ov_bind(Some(s1 + s2), f) == ov_combine(ov_bind(Some(s1), f), ov_bind(Some(s2), f)),
{
    let m1 = s1.map_values(f);
    let m2 = s2.map_values(f);
    lemma_map_values_add(s1, s2, f);
    lemma_all_some_add(m1, m2);
    if seq_all_some(m1) && seq_all_some(m2) {
        lemma_unwrap_all_add(m1, m2);
        vstd::seq_lib::lemma_flatten_concat(seq_unwrap_all(m1), seq_unwrap_all(m2));
    }
}

/// The optional-list `bind` of a one-element list is what the
/// continuation produces for that element.
proof fn lemma_ov_singleton<A, B>(a: A, f: spec_fn(A) -> Option<Seq<B>>)
    ensures
        ov_bind(Some(seq![a]), f) == f(a),
{
    let mid = seq![a].map_values(f);
    assert(mid =~= seq![f(a)]);
    match f(a) {
        None => {
            assert(!(mid[0] is Some));
        },
        Some(v) => {
            assert(seq_unwrap_all(mid) =~= seq![v]);
            seq_unwrap_all(mid).lemma_flatten_one_element();
        },
    }
}

/// The optional-list `bind` distributes through joining of partial
/// results.
proof fn lemma_ov_bind_combine<B, C>(
    x: Option<Seq<B>>,
    y: Option<Seq<B>>,
    g: spec_fn(B) -> Option<Seq<C>>,
)
    ensures
        ov_bind(ov_combine(x, y), g) == ov_combine(ov_bind(x, g), ov_bind(y, g)),
{
    match (x, y) {
        (Some(u), Some(v)) => {
            lemma_ov_add(u, v, g);
        },
        _ => {},
    }
}

/// Left identity for the optional-list stack.
pub proof fn ov_left_identity_law<A, B>(a: A, f: spec_fn(A) -> Option<Seq<B>>)
    ensures
        ov_bind(ov_pure(a), f) == f(a),
{
    lemma_ov_singleton(a, f);
}

/// Right identity for the optional-list stack.
pub proof fn ov_right_identity_law<A>(m: Option<Seq<A>>)
    ensures
        ov_bind(m, |a: A| ov_pure(a)) == m,
    decreases (if m is Some {
        m->0.len()
    } else {
        0
    }),
{
    let f = |a: A| ov_pure(a);
    match m {
        None => {},
        Some(s) => {
            if s.len() == 0 {
                assert(s.map_values(f) =~= Seq::<Option<Seq<A>>>::empty());
                assert(seq_unwrap_all(s.map_values(f)).flatten() =~= s);
            } else {
                ov_right_identity_law(Some(s.drop_first()));
                assert(s =~= seq![s[0]] + s.drop_first());
                lemma_ov_add(seq![s[0]], s.drop_first(), f);
                lemma_ov_singleton(s[0], f);
                assert(seq![s[0]] + s.drop_first() =~= s);
            }
        },
    }
}

/// Associativity for the optional-list stack.
pub proof fn ov_associativity_law<A, B, C>(
    m: Option<Seq<A>>,
    f: spec_fn(A) -> Option<Seq<B>>,
    g: spec_fn(B) -> Option<Seq<C>>,
)
    ensures
        ov_bind(ov_bind(m, f), g) == ov_bind(m, |a: A| ov_bind(f(a), g)),
    decreases (if m is Some {
        m->0.len()
    } else {
        0
    }),
{
    let h = |a: A| ov_bind(f(a), g);
    match m {
        None => {},
        Some(s) => {
            if s.len() == 0 {
                assert(s.map_values(f) =~= Seq::<Option<Seq<B>>>::empty());
                assert(seq_unwrap_all(s.map_values(f)).flatten() =~= Seq::<B>::empty());
                assert(ov_bind(m, f) == Some(Seq::<B>::empty()));
                let sb = Seq::<B>::empty();
                assert(sb.map_values(g) =~= Seq::<Option<Seq<C>>>::empty());
                assert(seq_unwrap_all(sb.map_values(g)).flatten() =~= Seq::<C>::empty());
                assert(s.map_values(h) =~= Seq::<Option<Seq<C>>>::empty());
                assert(seq_unwrap_all(s.map_values(h)).flatten() =~= Seq::<C>::empty());
            } else {
                let a0 = s[0];
                let rest = s.drop_first();
                assert(s =~= seq![a0] + rest);
                // split the outer bind at the first element
                lemma_ov_add(seq![a0], rest, f);
                lemma_ov_singleton(a0, f);
                // push the second bind through the join
                lemma_ov_bind_combine(f(a0), ov_bind(Some(rest), f), g);
                // the tails agree by induction
                ov_associativity_law(Some(rest), f, g);
                // reassemble on the right-hand side
                lemma_ov_add(seq![a0], rest, h);
                lemma_ov_singleton(a0, h);
            }
        },
    }
}

/// The list-of-optionals `bind` splits over concatenation.
proof fn lemma_vo_add<A, B>(
    s1: Seq<Option<A>>,
    s2: Seq<Option<A>>,
    f: spec_fn(A) -> Seq<Option<B>>,
)
    ensures
        vo_bind(s1 + s2, f) == vo_bind(s1, f) + vo_bind(s2, f),
{
    lemma_map_values_add(s1, s2, vo_step(f));
    vstd::seq_lib::lemma_flatten_concat(s1.map_values(vo_step(f)), s2.map_values(vo_step(f)));
}

/// The list-of-optionals `bind` of a one-element list rewrites that
/// element alone.
proof fn lemma_vo_singleton<A, B>(e: Option<A>, f: spec_fn(A) -> Seq<Option<B>>)
    ensures
        vo_bind(seq![e], f) == vo_step(f)(e),
{
    let vs = seq![e].map_values(vo_step(f));
    assert(vs =~= seq![vo_step(f)(e)]);
    vs.lemma_flatten_one_element();
}

/// Left identity for the list-of-optionals stack.
pub proof fn vo_left_identity_law<A, B>(a: A, f: spec_fn(A) -> Seq<Option<B>>)
    ensures
        vo_bind(vo_pure(a), f) == f(a),
{
    lemma_vo_singleton(Some(a), f);
}

/// Right identity for the list-of-optionals stack.
pub proof fn vo_right_identity_law<A>(s: Seq<Option<A>>)
    ensures
        vo_bind(s, |a: A| vo_pure(a)) == s,
    decreases s.len(),
{
    let f = |a: A| vo_pure(a);
    if s.len() == 0 {
        assert(vo_bind(s, f) =~= s);
    } else {
        vo_right_identity_law(s.drop_first());
        assert(s =~= seq![s[0]] + s.drop_first());
        lemma_vo_add(seq![s[0]], s.drop_first(), f);
        lemma_vo_singleton(s[0], f);
        assert(vo_step(f)(s[0]) =~= seq![s[0]]);
        assert(vo_bind(s, f) =~= s);
    }
}

/// Associativity for the list-of-optionals stack.
pub proof fn vo_associativity_law<A, B, C>(
    s: Seq<Option<A>>,
    f: spec_fn(A) -> Seq<Option<B>>,
    g: spec_fn(B) -> Seq<Option<C>>,
)
    ensures
        vo_bind(vo_bind(s, f), g) == vo_bind(s, |a: A| vo_bind(f(a), g)),
    decreases s.len(),
{
    let h = |a: A| vo_bind(f(a), g);
    if s.len() == 0 {
        assert(vo_bind(s, f) =~= Seq::<Option<B>>::empty());
        assert(vo_bind(vo_bind(s, f), g) =~= Seq::<Option<C>>::empty());
        assert(vo_bind(s, h) =~= Seq::<Option<C>>::empty());
    } else {
        let e0 = s[0];
        let rest = s.drop_first();
        assert(s =~= seq![e0] + rest);
        lemma_vo_add(seq![e0], rest, f);
        lemma_vo_singleton(e0, f);
        lemma_vo_add(vo_step(f)(e0), vo_bind(rest, f), g);
        vo_associativity_law(rest, f, g);
        lemma_vo_add(seq![e0], rest, h);
        lemma_vo_singleton(e0, h);
        // one rewritten element behaves the same under both groupings
        match e0 {
            None => {
                lemma_vo_singleton(Option::<B>::None, g);
                assert(vo_step(f)(e0) =~= seq![Option::<B>::None]);
                assert(vo_step(h)(e0) =~= seq![Option::<C>::None]);
                assert(vo_bind(vo_step(f)(e0), g) =~= vo_step(h)(e0));
            },
            Some(a) => {
                assert(vo_bind(vo_step(f)(e0), g) == vo_bind(f(a), g));
                assert(vo_step(h)(e0) == h(a));
            },
        }
    }
}

} // verus!
