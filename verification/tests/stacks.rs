//! Binding across nested container stacks: an optional list, a list of
//! optionals, a doubly-optional value, and a plain list.

use overengineered_hkt::id::IdHkt;
use overengineered_hkt::option_t::OptionT;
use overengineered_hkt::vec_t::VecT;

fn i32_to_option_vec(i: i32) -> Option<Vec<i32>> {
    if i < 0 {
        None
    } else if i == 0 {
        Some(Vec::new())
    } else {
        Some(vec![i; i as usize])
    }
}

fn i32_to_vec_option_2(i: i32) -> Vec<Option<i32>> {
    if i < 0 {
        vec![]
    } else if i == 0 {
        vec![Some(0)]
    } else {
        let mut out = vec![None; i as usize];
        out.push(Some(i));
        out
    }
}

#[test]
fn test_optiont_and_vect_bind() {
    let input = Some(vec![1, 2]);
    let expected = Some(vec![1, 2, 2]);

    assert_eq!(
        OptionT::<VecT>::bind(|i: &i32| *i, |i: &i32| *i, input, i32_to_option_vec),
        expected
    );
}

#[test]
fn test_vect_and_optiont_bind() {
    let input = vec![None, Some(0), Some(1), Some(2)];
    let expected = vec![None, Some(0), None, Some(1), None, None, Some(2)];

    assert_eq!(
        VecT::<OptionT>::bind(|i: &i32| *i, |i: &i32| *i, input, i32_to_vec_option_2),
        expected
    );
}

#[test]
fn test_vect_id_bind() {
    let input = vec![-1, 0, 1, 2];
    let expected = vec![1, 2, 2];

    assert_eq!(
        VecT::<IdHkt>::bind(|i: &i32| *i, |i: &i32| *i, input, |i| {
            i32_to_option_vec(i).unwrap_or_default()
        }),
        expected
    );
}

#[test]
fn test_optiont_id_bind() {
    let input = Some(Some(1));
    let expected = Some(Some(3));

    assert_eq!(
        OptionT::<OptionT>::bind(|i: &i32| *i, |i: &i32| *i, input, |i| Some(Some(i + 2))),
        expected
    );

    let expected = Some(None);

    assert_eq!(
        OptionT::<OptionT>::bind(|i: &i32| *i, |i: &i32| *i, input, |_| Some(None)),
        expected
    );
}

#[test]
fn optiont_vect_bind_all_present() {
    // every element maps to a present list, so the whole stack stays
    // present and concatenates the pieces
    let input = Some(vec![0, 1, 2]);
    let expected = Some(vec![1, 2, 2]);

    assert_eq!(
        OptionT::<VecT>::bind(|i: &i32| *i, |i: &i32| *i, input, i32_to_option_vec),
        expected
    );
}

#[test]
fn optiont_vect_bind_absence_propagates() {
    // one absent per-element result makes the whole stack absent, which
    // is what left identity forces: binding a lifted element is one call
    // of the continuation
    let input = Some(vec![-1]);
    assert_eq!(
        OptionT::<VecT>::bind(|i: &i32| *i, |i: &i32| *i, input, i32_to_option_vec),
        i32_to_option_vec(-1)
    );
    assert_eq!(
        OptionT::<VecT>::bind(|i: &i32| *i, |i: &i32| *i, Some(vec![-1, 0, 1, 2]), i32_to_option_vec),
        None
    );
    assert_eq!(
        OptionT::<VecT>::bind(|i: &i32| *i, |i: &i32| *i, None, i32_to_option_vec),
        None
    );
}

#[test]
fn vect_optiont_bind_empty_and_edge() {
    let empty: Vec<Option<i32>> = vec![];
    assert_eq!(
        VecT::<OptionT>::bind(|i: &i32| *i, |i: &i32| *i, empty, i32_to_vec_option_2),
        vec![]
    );
    assert_eq!(
        VecT::<OptionT>::bind(|i: &i32| *i, |i: &i32| *i, vec![None], i32_to_vec_option_2),
        vec![None::<i32>]
    );
    // an element mapped to the empty list disappears entirely
    assert_eq!(
        VecT::<OptionT>::bind(|i: &i32| *i, |i: &i32| *i, vec![Some(-5)], i32_to_vec_option_2),
        vec![]
    );
}

#[test]
fn vect_id_bind_monad_identities() {
    // left identity: binding a lifted value is one call of the
    // continuation
    let f = |i: i32| i32_to_option_vec(i).unwrap_or_default();
    assert_eq!(
        VecT::<IdHkt>::bind(|i: &i32| *i, |i: &i32| *i, VecT::pure(|i: &i32| *i, 2), f),
        f(2)
    );
    // right identity: binding the lift changes nothing
    assert_eq!(
        VecT::<IdHkt>::bind(|i: &i32| *i, |i: &i32| *i, vec![3, 1, 2], |i| VecT::pure(|i: &i32| *i, i)),
        vec![3, 1, 2]
    );
}
