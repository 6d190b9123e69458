//! Tests of the decision core on plain order codes: pivot strategies, the
//! solve driver's state machine, and the Gershgorin containment oracle.

use eigenvalues_problem::{
    ChooseMax, Circles, CyclicChoice, JacobiSolver, MaxModule, OptimalElement, SolverError,
    StepOutcome,
};

fn square(rows: &[&[u64]]) -> Vec<Vec<u64>> {
    rows.iter().map(|r| r.to_vec()).collect()
}

#[test]
fn max_module_picks_largest_off_diagonal() {
    let m = square(&[&[0, 1, 4], &[2, 0, 3], &[7, 4, 0]]);
    let mut sel = MaxModule;
    assert_eq!(sel.choose_pivot(&m), (2, 0));
}

#[test]
fn max_module_breaks_ties_by_first_occurrence() {
    let m = square(&[&[0, 1, 9], &[2, 0, 3], &[9, 4, 0]]);
    let mut sel = MaxModule;
    assert_eq!(sel.choose_pivot(&m), (0, 2));
}

#[test]
fn max_module_ignores_the_diagonal() {
    let m = square(&[&[100, 1], &[2, 100]]);
    let mut sel = MaxModule;
    assert_eq!(sel.choose_pivot(&m), (1, 0));
}

#[test]
fn cyclic_choice_walks_pairs_row_major_and_wraps() {
    let n = 4;
    let m = vec![vec![0u64; n]; n];
    let mut sel = CyclicChoice::new(n);
    let expected = [
        (0, 1),
        (0, 2),
        (0, 3),
        (1, 2),
        (1, 3),
        (2, 3),
        (0, 1),
        (0, 2),
        (0, 3),
        (1, 2),
        (1, 3),
        (2, 3),
        (0, 1),
    ];
    for &want in expected.iter() {
        assert_eq!(sel.choose_pivot(&m), want);
    }
}

#[test]
fn cyclic_choice_two_rows_repeats_the_only_pair() {
    let m = vec![vec![0u64; 2]; 2];
    let mut sel = CyclicChoice::new(2);
    for _ in 0..5 {
        assert_eq!(sel.choose_pivot(&m), (0, 1));
    }
}

#[test]
fn optimal_element_takes_heaviest_row_then_largest_entry() {
    let m = square(&[&[0, 2, 8], &[2, 0, 5], &[8, 5, 0]]);
    let mut sel = OptimalElement::new(vec![9, 3, 3]);
    assert_eq!(sel.choose_pivot(&m), (0, 2));
}

#[test]
fn optimal_element_ties_go_to_the_last_candidate() {
    // Rows 1 and 2 share the top weight: the later row wins.  Within row 2,
    // columns 0 and 1 share the top magnitude: the later column wins.
    let m = square(&[&[0, 1, 2], &[1, 0, 3], &[6, 6, 0]]);
    let mut sel = OptimalElement::new(vec![5, 7, 7]);
    assert_eq!(sel.choose_pivot(&m), (2, 1));
}

#[test]
fn optimal_element_update_rewrites_the_two_touched_rows() {
    let m = square(&[&[0, 1, 2], &[1, 0, 3], &[6, 6, 0]]);
    let mut sel = OptimalElement::new(vec![5, 7, 7]);
    sel.update(3, (2, 1), 10, 20);
    assert_eq!(sel.sums, vec![5, 20, 10]);
    assert_eq!(sel.choose_pivot(&m), (1, 2));
}

#[test]
fn solver_rejects_too_small_and_non_square_input() {
    assert_eq!(
        JacobiSolver::new(MaxModule, 1, 1, 10, 100).err(),
        Some(SolverError::InvalidInput)
    );
    assert_eq!(
        JacobiSolver::new(MaxModule, 0, 0, 10, 100).err(),
        Some(SolverError::InvalidInput)
    );
    assert_eq!(
        JacobiSolver::new(MaxModule, 2, 3, 10, 100).err(),
        Some(SolverError::InvalidInput)
    );
    assert!(JacobiSolver::new(MaxModule, 2, 2, 10, 100).is_ok());
}

#[test]
fn solver_converges_when_every_row_sum_is_below_tolerance() {
    let mags = square(&[&[0, 5], &[5, 0]]);
    let mut solver = JacobiSolver::new(MaxModule, 2, 2, 10, 100).unwrap();
    let o = solver.step(&mags, &vec![5, 5], true);
    assert_eq!(o, StepOutcome::Converged);
    let r = solver.finish(vec![40, 41]);
    assert_eq!(r.steps, 0);
    assert_eq!(r.eigenvalues, vec![40, 41]);
}

#[test]
fn solver_requests_a_rotation_and_counts_it() {
    let mags = square(&[&[0, 5], &[5, 0]]);
    let mut solver = JacobiSolver::new(MaxModule, 2, 2, 5, 100).unwrap();
    let o = solver.step(&mags, &vec![5, 5], true);
    assert_eq!(o, StepOutcome::Rotate(0, 1));
    solver.update((0, 1), 0, 0);
    let o = solver.step(&mags, &vec![0, 0], true);
    assert_eq!(o, StepOutcome::Converged);
    assert_eq!(solver.finish(vec![1, 2]).steps, 1);
}

#[test]
fn solver_diverges_once_the_cap_is_exhausted() {
    let mags = square(&[&[0, 5], &[5, 0]]);
    let mut solver = JacobiSolver::new(MaxModule, 2, 2, 5, 0).unwrap();
    assert_eq!(solver.step(&mags, &vec![5, 5], true), StepOutcome::Diverged);
}

#[test]
fn solver_diverges_on_unordered_values() {
    let mags = square(&[&[0, 5], &[5, 0]]);
    let mut solver = JacobiSolver::new(MaxModule, 2, 2, 10, 100).unwrap();
    assert_eq!(
        solver.step(&mags, &vec![5, 5], false),
        StepOutcome::Diverged
    );
}

#[test]
fn circles_contain_exactly_the_coded_intervals() {
    let c = Circles::new(vec![(10, 20), (30, 40)]);
    assert!(c.contains(10));
    assert!(c.contains(15));
    assert!(c.contains(20));
    assert!(c.contains(30));
    assert!(!c.contains(25));
    assert!(!c.contains(41));
    assert!(c.contains_all(&vec![11, 35, 40]));
    assert!(!c.contains_all(&vec![11, 25]));
    assert!(c.contains_all(&vec![]));
}
