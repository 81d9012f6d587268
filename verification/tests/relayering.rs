//! Relayering round trips, the dependent wrapper, arrays, the remaining
//! families, and the generated-text builders.

use overengineered_hkt::array::ArrayT;
use overengineered_hkt::fold::FoldWhile;
use overengineered_hkt::nullary::NullaryHkt;
use overengineered_hkt::reference::RefT;
use overengineered_hkt::relayer::{
    relayer_opt_in, relayer_opt_out, relayer_rebox, relayer_unbox, relayer_vec_in, relayer_vec_out,
};
use overengineered_hkt::sync::ArcT;
use overengineered_hkt::textgen::Generate;
use overengineered_hkt::wrapper::{DependentWrapper, DependentWrapperT};

#[test]
fn vec_relayering_round_trip() {
    let original = vec![1, 2, 3];
    let wrapped = relayer_vec_in(original.clone());
    assert_eq!(wrapped.len(), 3);
    assert_eq!(wrapped[1].0, 2);
    let back = relayer_vec_out(wrapped);
    assert_eq!(back, original);
}

#[test]
fn opt_relayering_round_trip() {
    let back = relayer_opt_out(relayer_opt_in(Some(7)));
    assert_eq!(back, Some(7));
    let back = relayer_opt_out(relayer_opt_in(None::<i32>));
    assert_eq!(back, None);
}

#[test]
fn box_relayering_round_trip() {
    let back = relayer_rebox(relayer_unbox(Box::new(5)));
    assert_eq!(*back, 5);
}

#[test]
fn dependent_wrapper_round_trip() {
    let w = DependentWrapperT::wrap(11);
    assert_eq!(w.0, 11);
    assert_eq!(w.into_inner(), 11);
    let w = DependentWrapperT::map(|i: i32| i * 2, DependentWrapperT::pure(21));
    assert_eq!(w.0, 42);
    let w = DependentWrapperT::apply(
        DependentWrapperT::wrap(|i: i32| i + 1),
        DependentWrapperT::wrap(1),
    );
    assert_eq!(w.0, 2);
    let w = DependentWrapperT::clone(|i: &i32| *i, &DependentWrapper(3));
    assert_eq!(w.0, 3);
    assert_eq!(DependentWrapperT::covariant_convert(DependentWrapper(4)).0, 4);
}

#[test]
fn array_ops() {
    let arr = [1, 2, 3];
    assert_eq!(ArrayT::map(|i: &i32| *i, |i: &i32| *i, |a: i32| a * 10, &arr), vec![10, 20, 30]);
    assert_eq!(
        ArrayT::fold_while(
            |i: &i32| *i,
            |i: &i32| *i,
            |b: i32, a: i32| FoldWhile::Continue(b + a),
            0,
            &arr
        ),
        FoldWhile::Continue(6)
    );
    assert_eq!(ArrayT::clone(&arr), [1, 2, 3]);
    assert_eq!(ArrayT::pure(|i: &i32| *i, 5), [5]);
}

#[test]
fn nullary_and_reference_and_arc() {
    assert_eq!(
        NullaryHkt::<i32>::map::<u8, u8, _, _, _>(|i: &u8| *i, |i: &u8| *i, |x: u8| x, 9),
        9
    );
    assert_eq!(NullaryHkt::<i32>::clone::<u8, _>(|i: &u8| *i, &4), 4);
    assert_eq!(NullaryHkt::<i32>::covariant_convert(8), 8);
    assert_eq!(*RefT::covariant_convert(&6), 6);
    assert_eq!(*ArcT::deref(&std::sync::Arc::new(12)), 12);
}

#[test]
fn generate_string_concatenates_in_order() {
    let g = Generate { count: 3 };
    let text = g.generate_string(|i| format!("T{i}, "));
    assert_eq!(text, "T1, T2, T3, ");
    let one = Generate { count: 1 };
    assert_eq!(one.generate_string(|i| format!("{i}")), "1");
}

#[test]
fn generate_string_with_head_starts_from_the_head() {
    let g = Generate { count: 4 };
    let text = g.generate_string_with_head("E::T1(t)".to_string(), |i| format!("\n| E::T{i}(t)"));
    assert_eq!(text, "E::T1(t)\n| E::T2(t)\n| E::T3(t)\n| E::T4(t)");
    let one = Generate { count: 1 };
    assert_eq!(one.generate_string_with_head("head".to_string(), |i| format!("{i}")), "head");
}
