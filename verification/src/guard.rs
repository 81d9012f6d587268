//! Compile-time guards on whether a capability (such as duplication of the
//! carried element) is demanded of a container's contents, together with the
//! sealed marker machinery behind them.
//!
//! `ConstBool<true>` stands for "the capability is demanded": a guarded value
//! passes through unchanged. `ConstBool<false>` stands for "the capability is
//! absent": a guarded value is replaced by the blank output marker, and any
//! attempt to read one back fails.

use vstd::prelude::*;

verus! {

/// Sealed base marker for the guard types.
pub trait BaseSealed {}

/// Sealed marker for associated-key types.
pub trait AssociatedSealed {}

/// The only key for [`AssociatedSealed`].
pub struct AssociatedKey;

impl AssociatedSealed for AssociatedKey {}

/// Sealed helper equating a type with itself through an associated type.
pub trait TyEqSealed {
    /// The equated type.
    type T;
}

impl<T> TyEqSealed for T {
    type T = T;
}

/// Stands in for the output of an operation that is intentionally a no-op:
/// the guard was off, so there is nothing to produce.
#[must_use]
#[derive(Debug, Default, Clone, Copy, PartialEq, Eq, Structural)]
pub struct AssertBlankOutput;

/// Error returned when asking a guard that is on to conjure a guarded value
/// out of nothing.
#[derive(Debug, Default, Clone, Copy, PartialEq, Eq, Structural)]
pub struct TypeGuardWasConstBoolTrue;

/// A compile-time boolean, usable as a guard.
pub struct ConstBool<const VAL: bool>;

impl<const VAL: bool> BaseSealed for ConstBool<VAL> {}

/// A guard on an output type: on (`ConstBool<true>`) or off
/// (`ConstBool<false>`). Sealed; implemented only by [`ConstBool`].
pub trait TypeGuard: BaseSealed {}

impl TypeGuard for ConstBool<true> {}

impl TypeGuard for ConstBool<false> {}

impl ConstBool<true> {
    /// With the guard on, a guarded value is the value itself.
    pub fn into_guarded<A>(val: A) -> (r: A)
        ensures
            r == val,
    {
        val
    }

    /// With the guard on, reading a guarded value back always succeeds.
    pub fn match_guard<A>(guarded_val: A) -> (r: Result<A, TypeGuardWasConstBoolTrue>)
        ensures
            r == Result::<A, TypeGuardWasConstBoolTrue>::Ok(guarded_val),
    {
        Ok(guarded_val)
    }

    /// With the guard on, a guarded value cannot be made from nothing.
    pub fn try_create_guarded<A>() -> (r: Result<A, TypeGuardWasConstBoolTrue>)
        ensures
            r == Result::<A, TypeGuardWasConstBoolTrue>::Err(TypeGuardWasConstBoolTrue),
    {
        Err(TypeGuardWasConstBoolTrue)
    }
}

impl ConstBool<false> {
    /// With the guard off, guarding a value discards it.
    pub fn into_guarded<A>(_val: A) -> (r: AssertBlankOutput)
        ensures
            r == AssertBlankOutput,
    {
        AssertBlankOutput
    }

    /// With the guard off, no value can be read back out of a guarded one.
    pub fn match_guard<A>(guarded_val: AssertBlankOutput) -> (r: Result<A, AssertBlankOutput>)
        ensures
            r == Result::<A, AssertBlankOutput>::Err(guarded_val),
    {
        Err(guarded_val)
    }

    /// With the guard off, a guarded value is free to make.
    pub fn try_create_guarded() -> (r: Result<AssertBlankOutput, TypeGuardWasConstBoolTrue>)
        ensures
            r == Result::<AssertBlankOutput, TypeGuardWasConstBoolTrue>::Ok(AssertBlankOutput),
    {
        Ok(AssertBlankOutput)
    }
}

} // verus!
