use hydration::trinity::{Solver, Trinity};

fn t(a: u8, b: u8, c: u8) -> Trinity<u8> {
    Trinity { a, b, c }
}

#[test]
fn rotate_moves_each_value_one_place() {
    let mut triple = t(1, 2, 3);
    triple.rotate();
    assert_eq!(triple, t(2, 3, 1));
    triple.rotate();
    assert_eq!(triple, t(3, 1, 2));
}

#[test]
fn three_rotations_give_the_triple_back() {
    let mut triple = t(1, 2, 3);
    triple.rotate();
    triple.rotate();
    triple.rotate();
    assert_eq!(triple, t(1, 2, 3));
}

#[test]
fn rotate_works_on_values_that_cannot_be_copied() {
    let mut triple =
        Trinity { a: "x".to_string(), b: "y".to_string(), c: "z".to_string() };
    triple.rotate();
    assert_eq!(triple, Trinity { a: "y".to_string(), b: "z".to_string(), c: "x".to_string() });
}

#[test]
fn triples_are_compared_place_by_place() {
    assert!(t(1, 2, 3).is_same_as(&t(1, 2, 3)));
    assert!(!t(1, 2, 3).is_same_as(&t(2, 3, 1)));
    assert!(!t(1, 2, 3).is_same_as(&t(1, 2, 4)));
    assert!(!t(1, 2, 3).is_same_as(&t(0, 2, 3)));
    assert!(!t(1, 2, 3).is_same_as(&t(1, 0, 3)));
}

#[test]
fn resolve_drops_what_a_rotation_solves() {
    let mut solver = Solver {
        expected: t(1, 2, 3),
        unsolved: vec![t(1, 2, 3), t(2, 1, 3), t(2, 3, 1), t(3, 1, 2)],
    };
    solver.resolve();
    assert_eq!(solver.unsolved, vec![t(2, 1, 3)]);
    assert_eq!(solver.expected, t(1, 2, 3));
}

#[test]
fn resolve_keeps_order_and_orientation() {
    let mut solver = Solver {
        expected: t(1, 2, 3),
        unsolved: vec![t(3, 2, 1), t(3, 1, 2), t(1, 3, 2), t(9, 9, 9), t(2, 1, 3), t(1, 3, 2)],
    };
    solver.resolve();
    assert_eq!(solver.unsolved, vec![t(3, 2, 1), t(1, 3, 2), t(9, 9, 9), t(2, 1, 3), t(1, 3, 2)]);
}

#[test]
fn resolve_of_nothing_leaves_nothing() {
    let mut solver = Solver { expected: t(1, 2, 3), unsolved: Vec::new() };
    solver.resolve();
    assert_eq!(solver.unsolved, Vec::new());
}

#[test]
fn resolve_can_drop_everything() {
    let mut solver = Solver { expected: t(5, 5, 5), unsolved: vec![t(5, 5, 5), t(5, 5, 5)] };
    solver.resolve();
    assert!(solver.unsolved.is_empty());
}
