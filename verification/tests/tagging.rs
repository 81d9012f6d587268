//! The capability tagging, the type guards, early-terminating folds and
//! the function-value utilities.

use overengineered_hkt::fold::FoldWhile;
use overengineered_hkt::guard::{AssertBlankOutput, ConstBool, TypeGuardWasConstBoolTrue};
use overengineered_hkt::one_of::{OneOf5, T1Of5Hkt, T4Of5Hkt};
use overengineered_hkt::utils::{clone_fn, clone_fn_from_ref, clone_fn_once, clone_fn_once_ref, CloneWrapper, UnsafeAuto};
use overengineered_hkt::Converge;

#[test]
fn one_of_injects_into_its_position() {
    let e: OneOf5<i32, u8, u8, u8, u8> = T1Of5Hkt::into_one_of_5_enum(7);
    assert!(matches!(e, OneOf5::T1(7)));
    let e: OneOf5<u8, u8, u8, i32, u8> = T4Of5Hkt::into_one_of_5_enum(9);
    assert!(matches!(e, OneOf5::T4(9)));
}

#[test]
fn one_of_maps_only_the_carried_shape() {
    let r: i64 = T4Of5Hkt::map_one_of_5::<u8, u8, u8, i32, u8, u8, u8, u8, i64, u8, _, _, _, _, _>(
        21,
        |x: u8| x,
        |x: u8| x,
        |x: u8| x,
        |x: i32| (x as i64) * 2,
        |x: u8| x,
    );
    assert_eq!(r, 42);
}

#[test]
fn one_of_rebuild_and_duplicate() {
    let tag: i32 = 5;
    let rebuilt: &str = T4Of5Hkt::create_from::<i32, i32, i32, i32, i32, &str>(&tag, "fresh");
    assert_eq!(rebuilt, "fresh");
    let copy = T4Of5Hkt::clone_one_of_5::<String, String, String, String, String>(&String::from("dup"));
    assert_eq!(copy, "dup");
    assert_eq!(T4Of5Hkt::into_one_of_5(3), 3);
    assert_eq!(T1Of5Hkt::arbitrary_t5::<i32, u8, u8, u8, u8, String>(4, std::marker::PhantomData), 4);
}

#[test]
fn one_of_enum_converges() {
    let e: OneOf5<i32, i32, i32, i32, i32> = OneOf5::T3(8);
    assert_eq!(e.converge(), 8);
}

#[test]
fn guards_pass_and_block() {
    assert_eq!(ConstBool::<true>::into_guarded(4), 4);
    assert_eq!(ConstBool::<true>::match_guard(4), Ok(4));
    assert_eq!(
        ConstBool::<true>::try_create_guarded::<i32>(),
        Err(TypeGuardWasConstBoolTrue)
    );
    assert_eq!(ConstBool::<false>::into_guarded(4), AssertBlankOutput);
    assert_eq!(
        ConstBool::<false>::match_guard::<i32>(AssertBlankOutput),
        Err(AssertBlankOutput)
    );
    assert_eq!(ConstBool::<false>::try_create_guarded(), Ok(AssertBlankOutput));
}

#[test]
fn fold_while_converges_either_way() {
    assert_eq!(FoldWhile::Continue(3).converge(), 3);
    assert_eq!(FoldWhile::Break(4).converge(), 4);
    let done: Result<i32, i32> = Err(5);
    assert_eq!(done.converge(), 5);
    let going: Result<i32, i32> = Ok(6);
    assert_eq!(going.converge(), 6);
}

#[test]
fn clone_wrapper_duplicates_value_and_witness() {
    // a value that does not itself support duplication, carried with its
    // witness
    struct Val(i32);
    let w = CloneWrapper(Val(5), |v: &Val| Val(v.0));
    let w2 = w.clone();
    assert_eq!(w.get_ref_t().0, 5);
    assert_eq!(w2.0.0, 5);
}

#[test]
fn unsafe_auto_carries_value() {
    UnsafeAuto::assert_markers_implemented(3i32);
    assert_eq!(UnsafeAuto(17).into_inner(), 17);
}

#[test]
fn function_values_reborrow_and_duplicate() {
    let f = |i: i32| i + 1;
    let fr = clone_fn_from_ref(&f);
    assert_eq!(fr(1), 2);
    let fc = clone_fn(&f);
    assert_eq!(fc(2), 3);
    let fo = clone_fn_once_ref(&f);
    assert_eq!(fo(3), 4);
    let (b, f_back) = clone_fn_once(f, 4);
    assert_eq!(b, 5);
    assert_eq!(f_back(9), 10);
}
