//! Early-termination folding: the two-state `FoldWhile` result and the
//! `Converge` trait for collapsing an "every variant carries the same type"
//! value into that type.

use vstd::prelude::*;

verus! {

/// Result of one step of a fold that may stop early: either keep folding
/// with the accumulator, or stop and report the accumulator as it stands.
#[derive(Debug, Clone, PartialEq, Eq)]
pub enum FoldWhile<T> {
    /// Keep folding with this accumulator.
    Continue(T),
    /// The fold is complete; this accumulator is the final one.
    Break(T),
}

impl<T> FoldWhile<T> {
    /// The accumulator carried by either state.
    pub open spec fn value(self) -> T {
        match self {
            FoldWhile::Continue(t) => t,
            FoldWhile::Break(t) => t,
        }
    }

    /// Whether the fold stopped early.
    pub open spec fn is_break(self) -> bool {
        self is Break
    }
}

/// Characterises a run of an early-terminating left fold: folding `f` over
/// the elements of `s`, starting from the accumulator `init`, can produce
/// the overall result `r`. The run keeps folding while `f` answers
/// `Continue`, and stops — reporting `Break` — as soon as `f` answers
/// `Break`. A fold that consumes every element reports `Continue` with the
/// final accumulator.
pub open spec fn fold_while_describes<A, B, F: FnOnce(B, A) -> FoldWhile<B>>(
    f: F,
    s: Seq<A>,
    init: B,
    r: FoldWhile<B>,
) -> bool
    decreases s.len(),
{
    if s.len() == 0 {
        r == FoldWhile::<B>::Continue(init)
    } else {
        exists|step: FoldWhile<B>|
            {
                &&& #[trigger] call_ensures(f, (init, s[0]), step)
                &&& match step {
                    FoldWhile::Continue(b) => fold_while_describes(f, s.drop_first(), b, r),
                    FoldWhile::Break(b) => r == FoldWhile::<B>::Break(b),
                }
            }
    }
}

/// An empty run of the fold keeps the accumulator and reports `Continue`.
/// Stated as a lemma so that callers holding a concrete step function can
/// unfold the description.
pub proof fn lemma_fold_while_describes_empty<A, B, F: FnOnce(B, A) -> FoldWhile<B>>(
    f: F,
    s: Seq<A>,
    init: B,
    r: FoldWhile<B>,
)
    requires
        s.len() == 0,
    ensures
        fold_while_describes(f, s, init, r) <==> r == FoldWhile::<B>::Continue(init),
{
}

/// A non-empty run of the fold takes one step on the first element and
/// continues or stops as the step says. Stated as a lemma so that callers
/// holding a concrete step function can unfold the description.
pub proof fn lemma_fold_while_describes_step<A, B, F: FnOnce(B, A) -> FoldWhile<B>>(
    f: F,
    s: Seq<A>,
    init: B,
    r: FoldWhile<B>,
)
    requires
        s.len() > 0,
    ensures
        fold_while_describes(f, s, init, r) <==> exists|step: FoldWhile<B>|
            {
                &&& #[trigger] call_ensures(f, (init, s[0]), step)
                &&& match step {
                    FoldWhile::Continue(b) => fold_while_describes(f, s.drop_first(), b, r),
                    FoldWhile::Break(b) => r == FoldWhile::<B>::Break(b),
                }
            },
{
}

/// Converts a value whose variants all carry the same type into that type.
pub trait Converge: Sized {
    /// The type carried by every variant.
    type T;

    /// What `converge` returns: the carried value, whichever variant holds it.
    spec fn converged(self) -> Self::T;

    /// Collapse into the carried value.
    fn converge(self) -> (r: Self::T)
        ensures
            r == self.converged(),
    ;
}

impl<T> Converge for FoldWhile<T> {
    type T = T;

    open spec fn converged(self) -> T {
        self.value()
    }

    fn converge(self) -> (r: T) {
        match self {
            FoldWhile::Continue(t) => t,
            FoldWhile::Break(t) => t,
        }
    }
}

impl<T> Converge for Result<T, T> {
    type T = T;

    open spec fn converged(self) -> T {
        match self {
            Ok(t) => t,
            Err(t) => t,
        }
    }

    fn converge(self) -> (r: T) {
        match self {
            Ok(t) => t,
            Err(t) => t,
        }
    }
}

} // verus!
