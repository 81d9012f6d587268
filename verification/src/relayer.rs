//! Relayering: converting a container stack between two shapes that
//! denote the same value. Instead of asserting that two representations
//! coincide in memory and reinterpreting in place, each pair of shapes
//! gets an explicit conversion in each direction, with a proof that going
//! there and back yields a value equal to the original — the safe
//! rebuild-based form of reinterpretation.

use vstd::prelude::*;

use crate::id::IdHkt;
use crate::wrapper::DependentWrapper;

verus! {

/// Witness that one representation may stand for another: the two denote
/// the same values and the conversion pair below carries one into the
/// other.
pub trait Transmutable {}

/// Witness that a container family preserves `Transmutable`
/// representations: relayering an element type relayers the family's
/// containers.
pub trait TransmutableHkt {}

/// The seam around a value denotes the value itself.
impl<A> Transmutable for DependentWrapper<A> {}

/// The identity family relayers trivially.
impl TransmutableHkt for IdHkt {}

/// The spec-level image of putting every element of a list behind the
/// seam.
pub open spec fn wrapped_view<A>(s: Seq<A>) -> Seq<DependentWrapper<A>> {
    s.map_values(|a: A| DependentWrapper(a))
}

/// The spec-level image of taking every element of a list back out.
pub open spec fn unwrapped_view<A>(s: Seq<DependentWrapper<A>>) -> Seq<A> {
    s.map_values(|w: DependentWrapper<A>| w.0)
}

/// Reinterpret a list as a list of wrapped elements, by rebuilding.
pub fn relayer_vec_in<A>(fa: Vec<A>) -> (r: Vec<DependentWrapper<A>>)
    ensures
        r@ == wrapped_view(fa@),
{
    let ghost orig = fa@;
    let mut rest = fa;
    let mut out: Vec<DependentWrapper<A>> = Vec::new();
    while rest.len() > 0
        invariant
            out@.len() + rest@.len() == orig.len(),
            rest@ == orig.skip(out@.len() as int),
            forall|i: int| 0 <= i < out@.len() ==> out@[i] == (DependentWrapper(orig[i])),
        decreases rest@.len(),
    {
        let ghost k = out@.len() as int;
        let a = rest.remove(0);
        proof {
            assert(a == orig[k]);
            assert(rest@ =~= orig.skip(k + 1));
        }
        out.push(DependentWrapper(a));
    }
    proof {
        assert(out@ =~= wrapped_view(orig));
    }
    out
}

/// Reinterpret a list of wrapped elements back as a plain list, by
/// rebuilding.
pub fn relayer_vec_out<A>(fa: Vec<DependentWrapper<A>>) -> (r: Vec<A>)
    ensures
        r@ == unwrapped_view(fa@),
{
    let ghost orig = fa@;
    let mut rest = fa;
    let mut out: Vec<A> = Vec::new();
    while rest.len() > 0
        invariant
            out@.len() + rest@.len() == orig.len(),
            rest@ == orig.skip(out@.len() as int),
            forall|i: int| 0 <= i < out@.len() ==> out@[i] == orig[i].0,
        decreases rest@.len(),
    {
        let ghost k = out@.len() as int;
        let w = rest.remove(0);
        proof {
            assert(w == orig[k]);
            assert(rest@ =~= orig.skip(k + 1));
        }
        out.push(w.0);
    }
    proof {
        assert(out@ =~= unwrapped_view(orig));
    }
    out
}

/// The spec-level image of putting an optional value behind the seam.
pub open spec fn opt_wrapped_view<A>(m: Option<A>) -> Option<DependentWrapper<A>> {
    match m {
        Some(a) => Some(DependentWrapper(a)),
        None => None,
    }
}

/// The spec-level image of taking an optional value back out.
pub open spec fn opt_unwrapped_view<A>(m: Option<DependentWrapper<A>>) -> Option<A> {
    match m {
        Some(w) => Some(w.0),
        None => None,
    }
}

/// Reinterpret an optional value as an optional wrapped value.
pub fn relayer_opt_in<A>(fa: Option<A>) -> (r: Option<DependentWrapper<A>>)
    ensures
        r == opt_wrapped_view(fa),
{
    match fa {
        Some(a) => Some(DependentWrapper(a)),
        None => None,
    }
}

/// Reinterpret an optional wrapped value back as a plain optional value.
pub fn relayer_opt_out<A>(fa: Option<DependentWrapper<A>>) -> (r: Option<A>)
    ensures
        r == opt_unwrapped_view(fa),
{
    match fa {
        Some(w) => Some(w.0),
        None => None,
    }
}

/// Reinterpret a sized handle to a value as the bare value: the box and
/// its contents denote the same thing.
pub fn relayer_unbox<A>(fa: Box<A>) -> (r: A)
    ensures
        r == *fa,
{
    *fa
}

/// Reinterpret a bare value as its sized handle.
pub fn relayer_rebox<A>(a: A) -> (r: Box<A>)
    ensures
        *r == a,
{
    Box::new(a)
}

/// Round trip of the list relayering: wrapping every element and
/// unwrapping again yields a list equal to the original.
pub proof fn vec_round_trip_law<A>(s: Seq<A>)
    ensures
        unwrapped_view(wrapped_view(s)) == s,
{
    assert(unwrapped_view(wrapped_view(s)) =~= s);
}

/// Round trip of the list relayering in the other direction.
pub proof fn vec_round_trip_back_law<A>(s: Seq<DependentWrapper<A>>)
    ensures
        wrapped_view(unwrapped_view(s)) == s,
{
    assert(wrapped_view(unwrapped_view(s)) =~= s);
}

/// Round trip of the optional relayering.
pub proof fn opt_round_trip_law<A>(m: Option<A>)
    ensures
        opt_unwrapped_view(opt_wrapped_view(m)) == m,
{
}

/// Round trip of the optional relayering in the other direction.
pub proof fn opt_round_trip_back_law<A>(m: Option<DependentWrapper<A>>)
    ensures
        opt_wrapped_view(opt_unwrapped_view(m)) == m,
{
}

} // verus!
