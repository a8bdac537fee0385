use drawmetry::{number_eq, Coord, IntersectionResult, Pick};

fn c(x: f64, y: f64) -> Coord {
    Coord::new(x.to_bits(), y.to_bits())
}

#[test]
fn test_intersect() {
    assert_eq!(IntersectionResult::Empty, IntersectionResult::Empty);
    assert_eq!(
        IntersectionResult::One(c(3., 5.)),
        IntersectionResult::One(c(3., 5.))
    );
    assert_ne!(
        IntersectionResult::One(c(1., 2.)),
        IntersectionResult::One(c(2., 1.))
    );
    assert_eq!(
        IntersectionResult::Two(c(1., 2.), c(3., 4.)),
        IntersectionResult::Two(c(1., 2.), c(3., 4.))
    );
    assert_eq!(
        IntersectionResult::Two(c(3., 2.), c(1., 4.)),
        IntersectionResult::Two(c(1., 4.), c(3., 2.))
    );
}

#[test]
fn pair_equals_its_reverse() {
    let a = c(0.5, 0.75);
    let b = c(-2.0, 1e9);
    assert_eq!(IntersectionResult::Two(a, b), IntersectionResult::Two(b, a));
}

#[test]
fn pair_with_nan_equals_nothing() {
    let a = c(f64::NAN, 0.0);
    let b = c(1.0, 1.0);
    assert_ne!(IntersectionResult::Two(a, b), IntersectionResult::Two(b, a));
    assert_ne!(IntersectionResult::One(a), IntersectionResult::One(a));
}

#[test]
fn different_pairs_differ() {
    assert_ne!(
        IntersectionResult::Two(c(1., 2.), c(3., 4.)),
        IntersectionResult::Two(c(1., 2.), c(3., 5.))
    );
    assert_ne!(
        IntersectionResult::One(c(1., 2.)),
        IntersectionResult::Two(c(1., 2.), c(1., 2.))
    );
    assert_ne!(IntersectionResult::Empty, IntersectionResult::One(c(0., 0.)));
}

#[test]
fn zeros_of_either_sign_are_equal() {
    assert_eq!(
        IntersectionResult::One(c(0.0, -0.0)),
        IntersectionResult::One(c(-0.0, 0.0))
    );
    assert!(number_eq(0.0f64.to_bits(), (-0.0f64).to_bits()));
    assert!(!number_eq(f64::NAN.to_bits(), f64::NAN.to_bits()));
    assert!(number_eq(2.5f64.to_bits(), 2.5f64.to_bits()));
    assert!(!number_eq(2.5f64.to_bits(), 2.25f64.to_bits()));
    assert!(number_eq(f64::INFINITY.to_bits(), f64::INFINITY.to_bits()));
}

#[test]
fn same_as_compares_numerically() {
    assert!(c(-0.0, 1.0).same_as(&c(0.0, 1.0)));
    assert!(!c(1.0, 1.0).same_as(&c(1.0, 2.0)));
}

#[test]
fn single_solution_serves_both_picks() {
    let r = IntersectionResult::One(c(1., 5.));
    assert_eq!(r.pick(Pick::Primary), Some(c(1., 5.)));
    assert_eq!(r.pick(Pick::Secondary), Some(c(1., 5.)));
}

#[test]
fn pair_of_solutions_split_by_pick() {
    let r = IntersectionResult::Two(c(3., 3.), c(7., 1.));
    assert_eq!(r.pick(Pick::Primary), Some(c(3., 3.)));
    assert_eq!(r.pick(Pick::Secondary), Some(c(7., 1.)));
}

#[test]
fn no_solution_serves_no_pick() {
    assert_eq!(IntersectionResult::Empty.pick(Pick::Primary), None);
    assert_eq!(IntersectionResult::Empty.pick(Pick::Secondary), None);
}

#[test]
fn points_lists_solutions_in_order() {
    assert!(IntersectionResult::Empty.points().is_empty());
    assert_eq!(IntersectionResult::One(c(0., 5.)).points(), vec![c(0., 5.)]);
    assert_eq!(
        IntersectionResult::Two(c(3., 3.), c(7., 1.)).points(),
        vec![c(3., 3.), c(7., 1.)]
    );
}
