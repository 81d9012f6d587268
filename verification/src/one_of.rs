//! Function-capability tagging: a value known to be exactly one of five
//! callback shapes, ordered by increasing usage freedom — consumed once,
//! repeatable with exclusive access, repeatable with shared access,
//! shareable and duplicable, trivially duplicable.
//!
//! `OneOf5` is the matchable form. Each `TkOf5Hkt` marker stands for the
//! tagging that always carries the k-th shape; its associated functions
//! inject into the enum, convert references, map over the carried shape,
//! rebuild a tag with new contents, duplicate, and retarget the four shapes
//! that are statically known to be absent.

use core::marker::PhantomData;

use vstd::prelude::*;

use crate::fold::Converge;

verus! {

/// A value of exactly one of five types.
#[derive(Debug, Clone, PartialEq, Eq)]
pub enum OneOf5<T1, T2, T3, T4, T5> {
    /// The first shape.
    T1(T1),
    /// The second shape.
    T2(T2),
    /// The third shape.
    T3(T3),
    /// The fourth shape.
    T4(T4),
    /// The fifth shape.
    T5(T5),
}

impl<T> Converge for OneOf5<T, T, T, T, T> {
    type T = T;

    open spec fn converged(self) -> T {
        match self {
            OneOf5::T1(t) => t,
            OneOf5::T2(t) => t,
            OneOf5::T3(t) => t,
            OneOf5::T4(t) => t,
            OneOf5::T5(t) => t,
        }
    }

    fn converge(self) -> (r: T) {
        match self {
            OneOf5::T1(t) => t,
            OneOf5::T2(t) => t,
            OneOf5::T3(t) => t,
            OneOf5::T4(t) => t,
            OneOf5::T5(t) => t,
        }
    }
}

/// A tagging scheme: a marker whose associated functions treat a bare value
/// as a tagged one-of-five. Implemented by the five projection markers.
pub trait OneOf5Hkt {}

/// The tagging never carries the first shape.
pub trait NotT1of5: OneOf5Hkt {}

/// The tagging never carries the second shape.
pub trait NotT2of5: OneOf5Hkt {}

/// The tagging never carries the third shape.
pub trait NotT3of5: OneOf5Hkt {}

/// The tagging never carries the fourth shape.
pub trait NotT4of5: OneOf5Hkt {}

/// The tagging never carries the fifth shape.
pub trait NotT5of5: OneOf5Hkt {}

/// A tagging whose carried callback can always be duplicated: the three
/// single-use shapes are statically absent.
pub trait TCloneableOf5: NotT1of5 + NotT2of5 + NotT3of5 {}

impl<T: NotT1of5 + NotT2of5 + NotT3of5> TCloneableOf5 for T {}

/// The tagging that always carries the shape in position 1.
pub struct T1Of5Hkt;

impl OneOf5Hkt for T1Of5Hkt {}

impl T1Of5Hkt {
    /// Converts this tagged value into a matchable enum.
    pub fn into_one_of_5_enum<T1, T2, T3, T4, T5>(s: T1) -> (r: OneOf5<T1, T2, T3, T4, T5>)
        ensures
            r == OneOf5::<T1, T2, T3, T4, T5>::T1(s),
    {
        OneOf5::T1(s)
    }

    /// Converts a mutable reference to a tagged value into a tagged mutable reference.
    pub fn as_mut<T1, T2, T3, T4, T5>(s: &mut T1) -> (r: &mut T1)
        ensures
            *r == *old(s),
    {
        s
    }

    /// Converts a reference to a tagged value into a tagged reference.
    pub fn as_ref<T1, T2, T3, T4, T5>(s: &T1) -> (r: &T1)
        ensures
            r == s,
    {
        s
    }

    /// Maps each shape with its own function; exactly the one matching the
    /// actual shape runs.
    pub fn map_one_of_5<T1a, T2a, T3a, T4a, T5a, T1b, T2b, T3b, T4b, T5b, M1, M2, M3, M4, M5>(
        s: T1a,
        map_t1: M1,
        map_t2: M2,
        map_t3: M3,
        map_t4: M4,
        map_t5: M5,
    ) -> (r: T1b) where
        M1: FnOnce(T1a) -> T1b,
        M2: FnOnce(T2a) -> T2b,
        M3: FnOnce(T3a) -> T3b,
        M4: FnOnce(T4a) -> T4b,
        M5: FnOnce(T5a) -> T5b,

        requires
            call_requires(map_t1, (s,)),
        ensures
            call_ensures(map_t1, (s,), r),
    {
        map_t1(s)
    }

    /// Converts into the carried value when all five shapes share one type.
    pub fn into_one_of_5<T>(s: T) -> (r: T)
        ensures
            r == s,
    {
        s
    }

    /// Stamps a new tagged value of the same shape as an existing one,
    /// carrying different contents.
    pub fn create_from<T1, T2, T3, T4, T5, T>(_origin: &T1, value: T) -> (r: T)
        ensures
            r == value,
    {
        value
    }

    /// Duplicates a tagged value of identical shape.
    pub fn clone_one_of_5<T1: Clone, T2: Clone, T3: Clone, T4: Clone, T5: Clone>(
        source: &T1,
    ) -> (r: T1)
        ensures
            cloned(*source, r),
    {
        source.clone()
    }

    /// Retargets the statically absent shape in position 2 to an arbitrary type.
    pub fn arbitrary_t2<T1a, T2a, T3a, T4a, T5a, T2b>(
        s: T1a,
        _type_infer: PhantomData<T2b>,
    ) -> (r: T1a)
        ensures
            r == s,
    {
        s
    }

    /// Retargets the statically absent shape in position 3 to an arbitrary type.
    pub fn arbitrary_t3<T1a, T2a, T3a, T4a, T5a, T3b>(
        s: T1a,
        _type_infer: PhantomData<T3b>,
    ) -> (r: T1a)
        ensures
            r == s,
    {
        s
    }

    /// Retargets the statically absent shape in position 4 to an arbitrary type.
    pub fn arbitrary_t4<T1a, T2a, T3a, T4a, T5a, T4b>(
        s: T1a,
        _type_infer: PhantomData<T4b>,
    ) -> (r: T1a)
        ensures
            r == s,
    {
        s
    }

    /// Retargets the statically absent shape in position 5 to an arbitrary type.
    pub fn arbitrary_t5<T1a, T2a, T3a, T4a, T5a, T5b>(
        s: T1a,
        _type_infer: PhantomData<T5b>,
    ) -> (r: T1a)
        ensures
            r == s,
    {
        s
    }
}

impl NotT2of5 for T1Of5Hkt {}

impl NotT3of5 for T1Of5Hkt {}

impl NotT4of5 for T1Of5Hkt {}

impl NotT5of5 for T1Of5Hkt {}

/// The tagging that always carries the shape in position 2.
pub struct T2Of5Hkt;

impl OneOf5Hkt for T2Of5Hkt {}

impl T2Of5Hkt {
    /// Converts this tagged value into a matchable enum.
    pub fn into_one_of_5_enum<T1, T2, T3, T4, T5>(s: T2) -> (r: OneOf5<T1, T2, T3, T4, T5>)
        ensures
            r == OneOf5::<T1, T2, T3, T4, T5>::T2(s),
    {
        OneOf5::T2(s)
    }

    /// Converts a mutable reference to a tagged value into a tagged mutable reference.
    pub fn as_mut<T1, T2, T3, T4, T5>(s: &mut T2) -> (r: &mut T2)
        ensures
            *r == *old(s),
    {
        s
    }

    /// Converts a reference to a tagged value into a tagged reference.
    pub fn as_ref<T1, T2, T3, T4, T5>(s: &T2) -> (r: &T2)
        ensures
            r == s,
    {
        s
    }

    /// Maps each shape with its own function; exactly the one matching the
    /// actual shape runs.
    pub fn map_one_of_5<T1a, T2a, T3a, T4a, T5a, T1b, T2b, T3b, T4b, T5b, M1, M2, M3, M4, M5>(
        s: T2a,
        map_t1: M1,
        map_t2: M2,
        map_t3: M3,
        map_t4: M4,
        map_t5: M5,
    ) -> (r: T2b) where
        M1: FnOnce(T1a) -> T1b,
        M2: FnOnce(T2a) -> T2b,
        M3: FnOnce(T3a) -> T3b,
        M4: FnOnce(T4a) -> T4b,
        M5: FnOnce(T5a) -> T5b,

        requires
            call_requires(map_t2, (s,)),
        ensures
            call_ensures(map_t2, (s,), r),
    {
        map_t2(s)
    }

    /// Converts into the carried value when all five shapes share one type.
    pub fn into_one_of_5<T>(s: T) -> (r: T)
        ensures
            r == s,
    {
        s
    }

    /// Stamps a new tagged value of the same shape as an existing one,
    /// carrying different contents.
    pub fn create_from<T1, T2, T3, T4, T5, T>(_origin: &T2, value: T) -> (r: T)
        ensures
            r == value,
    {
        value
    }

    /// Duplicates a tagged value of identical shape.
    pub fn clone_one_of_5<T1: Clone, T2: Clone, T3: Clone, T4: Clone, T5: Clone>(
        source: &T2,
    ) -> (r: T2)
        ensures
            cloned(*source, r),
    {
        source.clone()
    }

    /// Retargets the statically absent shape in position 1 to an arbitrary type.
    pub fn arbitrary_t1<T1a, T2a, T3a, T4a, T5a, T1b>(
        s: T2a,
        _type_infer: PhantomData<T1b>,
    ) -> (r: T2a)
        ensures
            r == s,
    {
        s
    }

    /// Retargets the statically absent shape in position 3 to an arbitrary type.
    pub fn arbitrary_t3<T1a, T2a, T3a, T4a, T5a, T3b>(
        s: T2a,
        _type_infer: PhantomData<T3b>,
    ) -> (r: T2a)
        ensures
            r == s,
    {
        s
    }

    /// Retargets the statically absent shape in position 4 to an arbitrary type.
    pub fn arbitrary_t4<T1a, T2a, T3a, T4a, T5a, T4b>(
        s: T2a,
        _type_infer: PhantomData<T4b>,
    ) -> (r: T2a)
        ensures
            r == s,
    {
        s
    }

    /// Retargets the statically absent shape in position 5 to an arbitrary type.
    pub fn arbitrary_t5<T1a, T2a, T3a, T4a, T5a, T5b>(
        s: T2a,
        _type_infer: PhantomData<T5b>,
    ) -> (r: T2a)
        ensures
            r == s,
    {
        s
    }
}

impl NotT1of5 for T2Of5Hkt {}

impl NotT3of5 for T2Of5Hkt {}

impl NotT4of5 for T2Of5Hkt {}

impl NotT5of5 for T2Of5Hkt {}

/// The tagging that always carries the shape in position 3.
pub struct T3Of5Hkt;

impl OneOf5Hkt for T3Of5Hkt {}

impl T3Of5Hkt {
    /// Converts this tagged value into a matchable enum.
    pub fn into_one_of_5_enum<T1, T2, T3, T4, T5>(s: T3) -> (r: OneOf5<T1, T2, T3, T4, T5>)
        ensures
            r == OneOf5::<T1, T2, T3, T4, T5>::T3(s),
    {
        OneOf5::T3(s)
    }

    /// Converts a mutable reference to a tagged value into a tagged mutable reference.
    pub fn as_mut<T1, T2, T3, T4, T5>(s: &mut T3) -> (r: &mut T3)
        ensures
            *r == *old(s),
    {
        s
    }

    /// Converts a reference to a tagged value into a tagged reference.
    pub fn as_ref<T1, T2, T3, T4, T5>(s: &T3) -> (r: &T3)
        ensures
            r == s,
    {
        s
    }

    /// Maps each shape with its own function; exactly the one matching the
    /// actual shape runs.
    pub fn map_one_of_5<T1a, T2a, T3a, T4a, T5a, T1b, T2b, T3b, T4b, T5b, M1, M2, M3, M4, M5>(
        s: T3a,
        map_t1: M1,
        map_t2: M2,
        map_t3: M3,
        map_t4: M4,
        map_t5: M5,
    ) -> (r: T3b) where
        M1: FnOnce(T1a) -> T1b,
        M2: FnOnce(T2a) -> T2b,
        M3: FnOnce(T3a) -> T3b,
        M4: FnOnce(T4a) -> T4b,
        M5: FnOnce(T5a) -> T5b,

        requires
            call_requires(map_t3, (s,)),
        ensures
            call_ensures(map_t3, (s,), r),
    {
        map_t3(s)
    }

    /// Converts into the carried value when all five shapes share one type.
    pub fn into_one_of_5<T>(s: T) -> (r: T)
        ensures
            r == s,
    {
        s
    }

    /// Stamps a new tagged value of the same shape as an existing one,
    /// carrying different contents.
    pub fn create_from<T1, T2, T3, T4, T5, T>(_origin: &T3, value: T) -> (r: T)
        ensures
            r == value,
    {
        value
    }

    /// Duplicates a tagged value of identical shape.
    pub fn clone_one_of_5<T1: Clone, T2: Clone, T3: Clone, T4: Clone, T5: Clone>(
        source: &T3,
    ) -> (r: T3)
        ensures
            cloned(*source, r),
    {
        source.clone()
    }

    /// Retargets the statically absent shape in position 1 to an arbitrary type.
    pub fn arbitrary_t1<T1a, T2a, T3a, T4a, T5a, T1b>(
        s: T3a,
        _type_infer: PhantomData<T1b>,
    ) -> (r: T3a)
        ensures
            r == s,
    {
        s
    }

    /// Retargets the statically absent shape in position 2 to an arbitrary type.
    pub fn arbitrary_t2<T1a, T2a, T3a, T4a, T5a, T2b>(
        s: T3a,
        _type_infer: PhantomData<T2b>,
    ) -> (r: T3a)
        ensures
            r == s,
    {
        s
    }

    /// Retargets the statically absent shape in position 4 to an arbitrary type.
    pub fn arbitrary_t4<T1a, T2a, T3a, T4a, T5a, T4b>(
        s: T3a,
        _type_infer: PhantomData<T4b>,
    ) -> (r: T3a)
        ensures
            r == s,
    {
        s
    }

    /// Retargets the statically absent shape in position 5 to an arbitrary type.
    pub fn arbitrary_t5<T1a, T2a, T3a, T4a, T5a, T5b>(
        s: T3a,
        _type_infer: PhantomData<T5b>,
    ) -> (r: T3a)
        ensures
            r == s,
    {
        s
    }
}

impl NotT1of5 for T3Of5Hkt {}

impl NotT2of5 for T3Of5Hkt {}

impl NotT4of5 for T3Of5Hkt {}

impl NotT5of5 for T3Of5Hkt {}

/// The tagging that always carries the shape in position 4.
pub struct T4Of5Hkt;

impl OneOf5Hkt for T4Of5Hkt {}

impl T4Of5Hkt {
    /// Converts this tagged value into a matchable enum.
    pub fn into_one_of_5_enum<T1, T2, T3, T4, T5>(s: T4) -> (r: OneOf5<T1, T2, T3, T4, T5>)
        ensures
            r == OneOf5::<T1, T2, T3, T4, T5>::T4(s),
    {
        OneOf5::T4(s)
    }

    /// Converts a mutable reference to a tagged value into a tagged mutable reference.
    pub fn as_mut<T1, T2, T3, T4, T5>(s: &mut T4) -> (r: &mut T4)
        ensures
            *r == *old(s),
    {
        s
    }

    /// Converts a reference to a tagged value into a tagged reference.
    pub fn as_ref<T1, T2, T3, T4, T5>(s: &T4) -> (r: &T4)
        ensures
            r == s,
    {
        s
    }

    /// Maps each shape with its own function; exactly the one matching the
    /// actual shape runs.
    pub fn map_one_of_5<T1a, T2a, T3a, T4a, T5a, T1b, T2b, T3b, T4b, T5b, M1, M2, M3, M4, M5>(
        s: T4a,
        map_t1: M1,
        map_t2: M2,
        map_t3: M3,
        map_t4: M4,
        map_t5: M5,
    ) -> (r: T4b) where
        M1: FnOnce(T1a) -> T1b,
        M2: FnOnce(T2a) -> T2b,
        M3: FnOnce(T3a) -> T3b,
        M4: FnOnce(T4a) -> T4b,
        M5: FnOnce(T5a) -> T5b,

        requires
            call_requires(map_t4, (s,)),
        ensures
            call_ensures(map_t4, (s,), r),
    {
        map_t4(s)
    }

    /// Converts into the carried value when all five shapes share one type.
    pub fn into_one_of_5<T>(s: T) -> (r: T)
        ensures
            r == s,
    {
        s
    }

    /// Stamps a new tagged value of the same shape as an existing one,
    /// carrying different contents.
    pub fn create_from<T1, T2, T3, T4, T5, T>(_origin: &T4, value: T) -> (r: T)
        ensures
            r == value,
    {
        value
    }

    /// Duplicates a tagged value of identical shape.
    pub fn clone_one_of_5<T1: Clone, T2: Clone, T3: Clone, T4: Clone, T5: Clone>(
        source: &T4,
    ) -> (r: T4)
        ensures
            cloned(*source, r),
    {
        source.clone()
    }

    /// Retargets the statically absent shape in position 1 to an arbitrary type.
    pub fn arbitrary_t1<T1a, T2a, T3a, T4a, T5a, T1b>(
        s: T4a,
        _type_infer: PhantomData<T1b>,
    ) -> (r: T4a)
        ensures
            r == s,
    {
        s
    }

    /// Retargets the statically absent shape in position 2 to an arbitrary type.
    pub fn arbitrary_t2<T1a, T2a, T3a, T4a, T5a, T2b>(
        s: T4a,
        _type_infer: PhantomData<T2b>,
    ) -> (r: T4a)
        ensures
            r == s,
    {
        s
    }

    /// Retargets the statically absent shape in position 3 to an arbitrary type.
    pub fn arbitrary_t3<T1a, T2a, T3a, T4a, T5a, T3b>(
        s: T4a,
        _type_infer: PhantomData<T3b>,
    ) -> (r: T4a)
        ensures
            r == s,
    {
        s
    }

    /// Retargets the statically absent shape in position 5 to an arbitrary type.
    pub fn arbitrary_t5<T1a, T2a, T3a, T4a, T5a, T5b>(
        s: T4a,
        _type_infer: PhantomData<T5b>,
    ) -> (r: T4a)
        ensures
            r == s,
    {
        s
    }
}

impl NotT1of5 for T4Of5Hkt {}

impl NotT2of5 for T4Of5Hkt {}

impl NotT3of5 for T4Of5Hkt {}

impl NotT5of5 for T4Of5Hkt {}

/// The tagging that always carries the shape in position 5.
pub struct T5Of5Hkt;

impl OneOf5Hkt for T5Of5Hkt {}

impl T5Of5Hkt {
    /// Converts this tagged value into a matchable enum.
    pub fn into_one_of_5_enum<T1, T2, T3, T4, T5>(s: T5) -> (r: OneOf5<T1, T2, T3, T4, T5>)
        ensures
            r == OneOf5::<T1, T2, T3, T4, T5>::T5(s),
    {
        OneOf5::T5(s)
    }

    /// Converts a mutable reference to a tagged value into a tagged mutable reference.
    pub fn as_mut<T1, T2, T3, T4, T5>(s: &mut T5) -> (r: &mut T5)
        ensures
            *r == *old(s),
    {
        s
    }

    /// Converts a reference to a tagged value into a tagged reference.
    pub fn as_ref<T1, T2, T3, T4, T5>(s: &T5) -> (r: &T5)
        ensures
            r == s,
    {
        s
    }

    /// Maps each shape with its own function; exactly the one matching the
    /// actual shape runs.
    pub fn map_one_of_5<T1a, T2a, T3a, T4a, T5a, T1b, T2b, T3b, T4b, T5b, M1, M2, M3, M4, M5>(
        s: T5a,
        map_t1: M1,
        map_t2: M2,
        map_t3: M3,
        map_t4: M4,
        map_t5: M5,
    ) -> (r: T5b) where
        M1: FnOnce(T1a) -> T1b,
        M2: FnOnce(T2a) -> T2b,
        M3: FnOnce(T3a) -> T3b,
        M4: FnOnce(T4a) -> T4b,
        M5: FnOnce(T5a) -> T5b,

        requires
            call_requires(map_t5, (s,)),
        ensures
            call_ensures(map_t5, (s,), r),
    {
        map_t5(s)
    }

    /// Converts into the carried value when all five shapes share one type.
    pub fn into_one_of_5<T>(s: T) -> (r: T)
        ensures
            r == s,
    {
        s
    }

    /// Stamps a new tagged value of the same shape as an existing one,
    /// carrying different contents.
    pub fn create_from<T1, T2, T3, T4, T5, T>(_origin: &T5, value: T) -> (r: T)
        ensures
            r == value,
    {
        value
    }

    /// Duplicates a tagged value of identical shape.
    pub fn clone_one_of_5<T1: Clone, T2: Clone, T3: Clone, T4: Clone, T5: Clone>(
        source: &T5,
    ) -> (r: T5)
        ensures
            cloned(*source, r),
    {
        source.clone()
    }

    /// Retargets the statically absent shape in position 1 to an arbitrary type.
    pub fn arbitrary_t1<T1a, T2a, T3a, T4a, T5a, T1b>(
        s: T5a,
        _type_infer: PhantomData<T1b>,
    ) -> (r: T5a)
        ensures
            r == s,
    {
        s
    }

    /// Retargets the statically absent shape in position 2 to an arbitrary type.
    pub fn arbitrary_t2<T1a, T2a, T3a, T4a, T5a, T2b>(
        s: T5a,
        _type_infer: PhantomData<T2b>,
    ) -> (r: T5a)
        ensures
            r == s,
    {
        s
    }

    /// Retargets the statically absent shape in position 3 to an arbitrary type.
    pub fn arbitrary_t3<T1a, T2a, T3a, T4a, T5a, T3b>(
        s: T5a,
        _type_infer: PhantomData<T3b>,
    ) -> (r: T5a)
        ensures
            r == s,
    {
        s
    }

    /// Retargets the statically absent shape in position 4 to an arbitrary type.
    pub fn arbitrary_t4<T1a, T2a, T3a, T4a, T5a, T4b>(
        s: T5a,
        _type_infer: PhantomData<T4b>,
    ) -> (r: T5a)
        ensures
            r == s,
    {
        s
    }
}

impl NotT1of5 for T5Of5Hkt {}

impl NotT2of5 for T5Of5Hkt {}

impl NotT3of5 for T5Of5Hkt {}

impl NotT4of5 for T5Of5Hkt {}

} // verus!
