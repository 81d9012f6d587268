//! The functor laws: mapping the identity changes nothing, and mapping a
//! composition is the composition of the maps. Proved for the identity,
//! optional, list and success-or-failure families and for the
//! optional-list stack.

use vstd::prelude::*;

use crate::model::{compose, id_map, lemma_map_values_compose, opt_map, ov_map, res_map, seq_map};

verus! {

/// Mapping the identity over the identity container changes nothing.
pub proof fn id_identity_law<A>(m: A)
    ensures
        id_map(m, |a: A| a) == m,
{
}

/// Mapping a composition over the identity container is mapping twice.
pub proof fn id_composite_law<A, B, C>(m: A, f: spec_fn(A) -> B, g: spec_fn(B) -> C)
    ensures
        id_map(id_map(m, f), g) == id_map(m, compose(g, f)),
{
}

/// Mapping the identity over an optional value changes nothing.
pub proof fn opt_identity_law<A>(m: Option<A>)
    ensures
        opt_map(m, |a: A| a) == m,
{
}

/// Mapping a composition over an optional value is mapping twice.
pub proof fn opt_composite_law<A, B, C>(m: Option<A>, f: spec_fn(A) -> B, g: spec_fn(B) -> C)
    ensures
        opt_map(opt_map(m, f), g) == opt_map(m, compose(g, f)),
{
}

/// Mapping the identity over a list changes nothing.
pub proof fn seq_identity_law<A>(s: Seq<A>)
    ensures
        seq_map(s, |a: A| a) == s,
{
    assert(seq_map(s, |a: A| a) =~= s);
}

/// Mapping a composition over a list is mapping twice.
pub proof fn seq_composite_law<A, B, C>(s: Seq<A>, f: spec_fn(A) -> B, g: spec_fn(B) -> C)
    ensures
        seq_map(seq_map(s, f), g) == seq_map(s, compose(g, f)),
{
    lemma_map_values_compose(s, f, g);
}

/// Mapping the identity over a success-or-failure changes nothing.
pub proof fn res_identity_law<A, E>(m: Result<A, E>)
    ensures
        res_map(m, |a: A| a) == m,
{
}

/// Mapping a composition over a success-or-failure is mapping twice.
pub proof fn res_composite_law<A, B, C, E>(m: Result<A, E>, f: spec_fn(A) -> B, g: spec_fn(B) -> C)
    ensures
        res_map(res_map(m, f), g) == res_map(m, compose(g, f)),
{
}

/// Mapping the identity over an optional list changes nothing: the stack
/// inherits the law from its two layers.
pub proof fn ov_identity_law<A>(m: Option<Seq<A>>)
    ensures
        ov_map(m, |a: A| a) == m,
{
    if m is Some {
        seq_identity_law(m->0);
    }
}

/// Mapping a composition over an optional list is mapping twice: the
/// stack inherits the law from its two layers.
pub proof fn ov_composite_law<A, B, C>(m: Option<Seq<A>>, f: spec_fn(A) -> B, g: spec_fn(B) -> C)
    ensures
        ov_map(ov_map(m, f), g) == ov_map(m, compose(g, f)),
{
    if m is Some {
        seq_composite_law(m->0, f, g);
    }
}

} // verus!
