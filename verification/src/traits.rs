//! The algebra hierarchy and the supporting marker vocabulary.
//!
//! A container family is represented by a marker type (its constructor);
//! the operations of each algebra live as associated functions on that
//! marker, specialised to the family's concrete representation. The traits
//! here record, per family, which algebras the family satisfies — a family
//! implements `Functor`, `Monad`, and so on exactly when its marker carries
//! the corresponding operations — and classify how a family may take part
//! in a nested stack.

use core::marker::PhantomData;

use vstd::prelude::*;

verus! {

/// Alias for the auto traits demanded of values that cross container
/// boundaries.
pub trait Marker: Send + Sync + Unpin {}

impl<T: Send + Sync + Unpin> Marker for T {}

/// A zero-sized stand-in carrying a type, itself satisfying [`Marker`].
pub struct PhantomMarker<T>(pub PhantomData<T>);

/// A container constructor whose representation may be of indeterminate
/// size, applied to elements of known size.
pub trait UnsizedHkt {}

/// A container constructor whose representation may be of indeterminate
/// size, applied to elements that may themselves be of indeterminate size.
pub trait UnsizedHktUnsized: UnsizedHkt {}

/// How a family takes part in a nested stack.
pub trait HktClassificationType {}

/// Classifies a container family for stacking purposes.
pub trait HktClassification {
    /// The family's classification.
    type Choice: HktClassificationType;
}

/// A family that wraps its contents in a representation of its own.
pub struct OuterHkt;

/// A family that only ever appears inside another family.
pub struct InnerHkt;

/// A family whose representation is exactly its element.
pub struct TransparentHkt;

/// A family that opts out of stacking.
pub struct OptedOutHkt;

impl HktClassificationType for OuterHkt {}

impl HktClassificationType for InnerHkt {}

impl HktClassificationType for TransparentHkt {}

impl HktClassificationType for OptedOutHkt {}

/// Families whose representation dereferences to the element.
pub trait DerefHkt: UnsizedHktUnsized {}

/// Families whose representation dereferences mutably to the element.
pub trait DerefMutHkt: UnsizedHktUnsized {}

/// Families carrying a `map` that transforms every element, obeying the
/// functor laws: mapping the identity is the identity, and mapping a
/// composition is the composition of the maps.
pub trait Functor {}

/// Families carrying a `comap` that transforms in the contravariant
/// direction.
pub trait Cofunctor {}

/// Families carrying a left-to-right `fold_while` with early termination,
/// and `extend` built atop it.
pub trait Foldable {}

/// Families with a defined reverse order, carrying a right-to-left
/// `rfold_while`.
pub trait Rfoldable {}

/// Families carrying `pure`, lifting a bare value into the family's
/// minimal shape.
pub trait Pure {}

/// Families carrying `apply`, combining a container of tagged transformers
/// with a container of values; obeys the identity, homomorphism,
/// interchange and composition laws relating `apply` and `pure`.
pub trait Applicative: Functor + Pure {}

/// Families carrying `bind`, sequencing a container-producing continuation
/// and flattening one level; obeys left identity, right identity and
/// associativity.
pub trait Monad: Applicative {}

/// Families carrying `traverse`, turning a container of
/// container-producing results inside out; demands an applicative target.
pub trait Traversable: Functor + Foldable {}

/// Families able to duplicate a borrowed container into an owned one,
/// given an ownership witness for the elements.
pub trait CloneK {}

/// Families able to duplicate a borrowed container into an owned one in a
/// fresh, possibly shorter validity region.
pub trait CloneOwnedK {}

/// Families whose containers can be rescoped covariantly: the value is
/// unchanged, only its declared validity region shrinks.
pub trait CovariantK {}

/// The family of duplication callbacks carried behind a shared handle.
pub struct DynCloneFnHkt;

/// A duplication callback: hands back a fresh value equal in meaning to
/// the borrowed one. The executable handle type for this family lives with
/// the unverified adapters, since it erases the callback's concrete type.
pub trait DynCloneFn<A> {}

impl HktClassification for DynCloneFnHkt {
    type Choice = OuterHkt;
}

} // verus!
