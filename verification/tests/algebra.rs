//! The per-family algebra operations on concrete values: map, pure,
//! apply, bind, folding in both directions, traversal, duplication, and
//! the law-shaped scenarios on concrete integers.

use overengineered_hkt::boxed::BoxT;
use overengineered_hkt::fold::FoldWhile;
use overengineered_hkt::id::IdHkt;
use overengineered_hkt::bind_t::BindT;
use overengineered_hkt::option_t::OptionT;
use overengineered_hkt::result_t::ResultT;
use overengineered_hkt::vec_t::VecT;

fn mul23(i: i32) -> i32 {
    i.wrapping_mul(23)
}

fn mul37(i: i32) -> i32 {
    i.wrapping_mul(37)
}

#[test]
fn foldable_laws() {}

#[test]
fn traversable_laws() {}

#[test]
fn mod_traversable_laws() {}

#[test]
fn id_ops() {
    assert_eq!(IdHkt::map(|i: &i32| *i, |i: &i32| *i, mul23, 2), 46);
    assert_eq!(IdHkt::pure(|i: &i32| *i, 7), 7);
    assert_eq!(IdHkt::apply(|i: &i32| *i, |i: &i32| *i, mul37, 2), 74);
    assert_eq!(IdHkt::bind(|i: &i32| *i, |i: &i32| *i, 2, mul23), 46);
    assert_eq!(
        IdHkt::fold_while(|i: &i32| *i, |i: &i32| *i, |b: i32, a: i32| FoldWhile::Continue(b + a), 1, 2),
        FoldWhile::Continue(3)
    );
    assert_eq!(IdHkt::clone(|i: &i32| *i, &5), 5);
    assert_eq!(IdHkt::covariant_convert(9), 9);
}

#[test]
fn option_ops() {
    assert_eq!(OptionT::map(|i: &i32| *i, |i: &i32| *i, mul23, Some(2)), Some(46));
    assert_eq!(OptionT::map(|i: &i32| *i, |i: &i32| *i, mul23, None), None);
    assert_eq!(OptionT::pure(|i: &i32| *i, 7), Some(7));
    assert_eq!(
        OptionT::apply(|i: &i32| *i, |i: &i32| *i, Some(mul37 as fn(i32) -> i32), Some(2)),
        Some(74)
    );
    assert_eq!(
        OptionT::apply(|i: &i32| *i, |i: &i32| *i, None::<fn(i32) -> i32>, Some(2)),
        None
    );
    assert_eq!(OptionT::<IdHkt>::bind(|i: &i32| *i, |i: &i32| *i, Some(4), |i| Some(i + 1)), Some(5));
    assert_eq!(
        OptionT::fold_while(|i: &i32| *i, |i: &i32| *i, |b: i32, a: i32| FoldWhile::Continue(b + a), 1, Some(2)),
        FoldWhile::Continue(3)
    );
    assert_eq!(
        OptionT::fold_while(|i: &i32| *i, |i: &i32| *i, |b: i32, a: i32| FoldWhile::Continue(b + a), 1, None),
        FoldWhile::Break(1)
    );
    assert_eq!(OptionT::clone(|i: &i32| *i, &Some(3)), Some(3));
    assert_eq!(OptionT::traverse_vec(|i: &i32| *i, |i: &i32| *i, |i: i32| vec![i, i + 1], Some(4)), vec![Some(4), Some(5)]);
    assert_eq!(
        OptionT::traverse_vec(|i: &i32| *i, |i: &i32| *i, |i: i32| vec![i], None),
        vec![None::<i32>]
    );
    assert_eq!(OptionT::size_hint(&Some(1)), (1, Some(1)));
    assert_eq!(OptionT::size_hint(&None::<i32>), (0, Some(0)));
}

#[test]
fn vec_ops() {
    assert_eq!(
        VecT::map(|i: &i32| *i, |i: &i32| *i, mul23, vec![1, 2, 3]),
        vec![23, 46, 69]
    );
    let empty: Vec<i32> = vec![];
    assert_eq!(VecT::map(|i: &i32| *i, |i: &i32| *i, mul23, empty), vec![]);
    assert_eq!(VecT::pure(|i: &i32| *i, 7), vec![7]);
    assert_eq!(
        VecT::<IdHkt>::bind(|i: &i32| *i, |i: &i32| *i, vec![1, 2], |i| vec![i, 10 * i]),
        vec![1, 10, 2, 20]
    );
    assert_eq!(
        VecT::traverse_option(|i: &i32| *i, |i: &i32| *i, |i: i32| if i > 0 { Some(i) } else { None }, vec![1, 2]),
        Some(vec![1, 2])
    );
    assert_eq!(
        VecT::traverse_option(|i: &i32| *i, |i: &i32| *i, |i: i32| if i > 0 { Some(i) } else { None }, vec![1, -2]),
        None
    );
    assert_eq!(VecT::clone(|i: &i32| *i, &vec![4, 5]), vec![4, 5]);
    assert_eq!(VecT::covariant_convert(vec![1]), vec![1]);
    let mut dest = vec![1];
    VecT::extend(|i: &i32| *i, &mut dest, vec![2, 3]);
    assert_eq!(dest, vec![1, 2, 3]);
    assert_eq!(VecT::size_hint(&vec![1, 2]), (2, Some(2)));
}

#[test]
fn vec_apply_orders_rows() {
    // each transformer, in order, is applied to a duplicate of every
    // value in order
    let fs: Vec<fn(i32) -> i32> = vec![mul23, mul37];
    let r = VecT::apply(|i: &i32| *i, |i: &i32| *i, fs, vec![1, 2]);
    assert_eq!(r, vec![23, 46, 37, 74]);
}

#[test]
fn vec_fold_while_stops_early() {
    // consuming 1 then 2 reaches the bound three and stops without
    // looking at the rest
    let r = VecT::fold_while(
        |i: &i32| *i,
        |i: &i32| *i,
        |b: i32, a: i32| {
            let s = b + a;
            if s >= 3 {
                FoldWhile::Break(s)
            } else {
                FoldWhile::Continue(s)
            }
        },
        0,
        vec![1, 2, 3],
    );
    assert_eq!(r, FoldWhile::Break(3));
}

#[test]
fn vec_fold_while_completes() {
    let r = VecT::fold_while(
        |i: &i32| *i,
        |i: &i32| *i,
        |b: i32, a: i32| FoldWhile::Continue(b + a),
        0,
        vec![1, 2, 3],
    );
    assert_eq!(r, FoldWhile::Continue(6));
}

#[test]
fn vec_rfold_while_runs_right_to_left() {
    // folding with subtraction tells the order apart:
    // right-to-left over [1,2,3] gives ((0-3)-2)-1
    let r = VecT::rfold_while(
        |i: &i32| *i,
        |i: &i32| *i,
        |b: i32, a: i32| FoldWhile::Continue(b - a),
        0,
        vec![1, 2, 3],
    );
    assert_eq!(r, FoldWhile::Continue(-6));
}

#[test]
fn result_ops() {
    let ok: Result<i32, i32> = Ok(2);
    let err: Result<i32, i32> = Err(5);
    assert_eq!(ResultT::map(|i: &i32| *i, |i: &i32| *i, mul23, ok), Ok(46));
    assert_eq!(ResultT::map(|i: &i32| *i, |i: &i32| *i, mul23, err), Err(5));
    assert_eq!(ResultT::<i32>::pure(|i: &i32| *i, 7), Ok::<i32, i32>(7));
    assert_eq!(
        ResultT::apply(|i: &i32| *i, |i: &i32| *i, Ok::<fn(i32) -> i32, i32>(mul37), Ok(2)),
        Ok(74)
    );
    // two failures are added together
    assert_eq!(
        ResultT::apply(|i: &i32| *i, |i: &i32| *i, Err::<fn(i32) -> i32, i32>(5), Err(7)),
        Err::<i32, i32>(12)
    );
    assert_eq!(ResultT::bind(|i: &i32| *i, |i: &i32| *i, Ok::<i32, i32>(2), |i| Ok(i + 1)), Ok(3));
    assert_eq!(ResultT::bind(|i: &i32| *i, |i: &i32| *i, Err::<i32, i32>(5), |i| Ok(i + 1)), Err(5));
    assert_eq!(
        ResultT::fold_while(|i: &i32| *i, |i: &i32| *i, |b: i32, a: i32| FoldWhile::Continue(b + a), 1, Err::<i32, i32>(5)),
        FoldWhile::Break(1)
    );
    assert_eq!(
        ResultT::traverse_vec(|i: &i32| *i, |i: &i32| *i, |i: i32| vec![i, i], Ok::<i32, i32>(3)),
        vec![Ok(3), Ok(3)]
    );
    assert_eq!(
        ResultT::traverse_vec(|i: &i32| *i, |i: &i32| *i, |i: i32| vec![i], Err::<i32, i32>(9)),
        vec![Err(9)]
    );
    assert_eq!(
        ResultT::clone(|i: &i32| *i, |e: &i32| *e, &Ok::<i32, i32>(3)),
        Ok(3)
    );
}

#[test]
fn box_ops() {
    assert_eq!(*BoxT::map(|i: &i32| *i, |i: &i32| *i, mul23, Box::new(2)), 46);
    assert_eq!(*BoxT::pure(|i: &i32| *i, 7), 7);
    assert_eq!(*BoxT::apply(|i: &i32| *i, |i: &i32| *i, Box::new(mul37 as fn(i32) -> i32), Box::new(2)), 74);
    assert_eq!(*BoxT::bind(|i: &i32| *i, |i: &i32| *i, Box::new(2), |i| Box::new(i + 1)), 3);
    assert_eq!(
        BoxT::fold_while(|i: &i32| *i, |i: &i32| *i, |b: i32, a: i32| FoldWhile::Continue(b + a), 1, Box::new(2)),
        FoldWhile::Continue(3)
    );
    assert_eq!(BoxT::traverse_option(|i: &i32| *i, |i: &i32| *i, |i: i32| Some(i + 1), Box::new(2)), Some(Box::new(3)));
    assert_eq!(*BoxT::clone(|i: &i32| *i, &Box::new(4)), 4);
}

#[test]
fn bind_t_composed_map_and_fold() {
    assert_eq!(
        BindT::<OptionT, VecT>::map(|i: &i32| *i, |i: &i32| *i, mul23, Some(vec![1, 2])),
        Some(vec![23, 46])
    );
    assert_eq!(
        BindT::<OptionT, VecT>::map(|i: &i32| *i, |i: &i32| *i, mul23, None),
        None
    );
    assert_eq!(
        BindT::<VecT, OptionT>::map(|i: &i32| *i, |i: &i32| *i, mul23, vec![Some(1), None, Some(2)]),
        vec![Some(23), None, Some(46)]
    );
    assert_eq!(
        BindT::<OptionT, VecT>::fold_while(
            |i: &i32| *i,
            |i: &i32| *i,
            |b: i32, a: i32| FoldWhile::Continue(b + a),
            0,
            Some(vec![1, 2, 3])
        ),
        FoldWhile::Continue(6)
    );
    // an absent element stops the stacked fold with the accumulator as
    // it stands
    assert_eq!(
        BindT::<VecT, OptionT>::fold_while(
            |i: &i32| *i,
            |i: &i32| *i,
            |b: i32, a: i32| FoldWhile::Continue(b + a),
            0,
            vec![Some(1), Some(2), None, Some(4)]
        ),
        FoldWhile::Break(3)
    );
}

#[test]
fn functor_scenarios() {
    // identity: mapping the identity changes nothing
    let base = vec![3, -7, 23];
    assert_eq!(VecT::map(|i: &i32| *i, |i: &i32| *i, |a: i32| a, base.clone()), base);
    assert_eq!(OptionT::map(|i: &i32| *i, |i: &i32| *i, |a: i32| a, Some(9)), Some(9));
    // composition: mapping twice is mapping the composition
    assert_eq!(
        VecT::map(|i: &i32| *i, |i: &i32| *i, mul37, VecT::map(|i: &i32| *i, |i: &i32| *i, mul23, base.clone())),
        VecT::map(|i: &i32| *i, |i: &i32| *i, |a: i32| mul37(mul23(a)), base.clone())
    );
}

#[test]
fn applicative_scenarios() {
    // homomorphism: applying a lifted transformer to a lifted value is
    // lifting the transformed value
    let a = 11;
    assert_eq!(
        OptionT::apply(
            |i: &i32| *i,
            |i: &i32| *i,
            OptionT::pure(|f: &fn(i32) -> i32| *f, mul23 as fn(i32) -> i32),
            OptionT::pure(|i: &i32| *i, a)
        ),
        OptionT::pure(|i: &i32| *i, mul23(a))
    );
    assert_eq!(
        VecT::apply(
            |i: &i32| *i,
            |i: &i32| *i,
            VecT::pure(|f: &fn(i32) -> i32| *f, mul23 as fn(i32) -> i32),
            VecT::pure(|i: &i32| *i, a)
        ),
        VecT::pure(|i: &i32| *i, mul23(a))
    );
}

#[test]
fn monad_scenarios() {
    // left identity, right identity and associativity on concrete values
    let f = |i: i32| vec![i, i + 1];
    let g = |i: i32| vec![mul37(i)];
    assert_eq!(VecT::<IdHkt>::bind(|i: &i32| *i, |i: &i32| *i, vec![4], f), f(4));
    assert_eq!(
        VecT::<IdHkt>::bind(|i: &i32| *i, |i: &i32| *i, vec![4, 5], |i| vec![i]),
        vec![4, 5]
    );
    let lhs = VecT::<IdHkt>::bind(
        |i: &i32| *i,
        |i: &i32| *i,
        VecT::<IdHkt>::bind(|i: &i32| *i, |i: &i32| *i, vec![1, 2], f),
        g,
    );
    let rhs = VecT::<IdHkt>::bind(|i: &i32| *i, |i: &i32| *i, vec![1, 2], |i| {
        VecT::<IdHkt>::bind(|i: &i32| *i, |i: &i32| *i, f(i), g)
    });
    assert_eq!(lhs, rhs);
}
