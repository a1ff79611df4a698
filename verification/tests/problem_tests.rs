use highs::problem::{VAR_TYPE_CONTINUOUS, VAR_TYPE_INTEGER, VAR_TYPE_SEMI_CONTINUOUS, VAR_TYPE_SEMI_INTEGER};
use highs::{ColProblem, Integrality, RowProblem};

#[test]
fn row_problem_doc_example_layout() {
    // max: x + 2y + z under c1: 3x + y <= 6, c2: y + 2z <= 7
    let mut pb: RowProblem<f64> = RowProblem::default();
    let x = pb.add_column(1., Some(0.), None);
    let y = pb.add_column(2., Some(0.), None);
    let z = pb.add_column(1., Some(0.), None);
    assert_eq!((x.index(), y.index(), z.index()), (0, 1, 2));
    let c1 = pb.add_row(None, Some(6.), &[(x, 3.), (y, 1.)]);
    let c2 = pb.add_row(None, Some(7.), &[(y, 1.), (z, 2.)]);
    assert_eq!((c1.index(), c2.index()), (0, 1));
    assert_eq!(pb.num_cols(), 3);
    assert_eq!(pb.num_rows(), 2);
    assert_eq!(pb.col_costs(), &[1., 2., 1.]);
    assert_eq!(pb.col_lower_bounds(), &[Some(0.), Some(0.), Some(0.)]);
    assert_eq!(pb.col_upper_bounds(), &[None, None, None]);
    assert_eq!(pb.row_lower_bounds(), &[None, None]);
    assert_eq!(pb.row_upper_bounds(), &[Some(6.), Some(7.)]);
    assert!(pb.integrality().is_none());

    assert!(ColProblem::starts_fit(&pb));
    let cp = ColProblem::from_row_problem(pb);
    assert_eq!(cp.col_starts(), &[0, 1, 3]);
    assert_eq!(cp.row_indices(), &[0, 0, 1, 1]);
    assert_eq!(cp.coefficients(), &[3., 1., 1., 2.]);
    assert_eq!(cp.num_nonzeros(), 4);
    assert_eq!(cp.col_costs(), &[1., 2., 1.]);
    assert_eq!(cp.row_upper_bounds(), &[Some(6.), Some(7.)]);
}

#[test]
fn col_problem_doc_example_layout() {
    // the same problem, built variable by variable
    let mut pb: ColProblem<f64> = ColProblem::default();
    let c1 = pb.add_row(None, Some(6.));
    let c2 = pb.add_row(None, Some(7.));
    pb.add_column(1., Some(0.), None, &[(c1, 3.)]);
    pb.add_column(2., Some(0.), None, &[(c1, 1.), (c2, 1.)]);
    pb.add_column(1., Some(0.), None, &[(c2, 2.)]);
    assert_eq!(pb.num_cols(), 3);
    assert_eq!(pb.num_rows(), 2);
    assert_eq!(pb.col_starts(), &[0, 1, 3]);
    assert_eq!(pb.row_indices(), &[0, 0, 1, 1]);
    assert_eq!(pb.coefficients(), &[3., 1., 1., 2.]);
    assert!(pb.integrality().is_none());
}

#[test]
fn both_builders_give_the_same_columns() {
    let mut rp: RowProblem<f64> = RowProblem::new();
    let x = rp.add_column(1., Some(0.), None);
    let y = rp.add_integer_column(2., Some(0.), None);
    rp.add_row(Some(1.), Some(3.5), &[(x, 1.), (y, 1.)]);
    rp.add_row(Some(1.), None, &[(x, 1.), (y, -1.)]);
    let from_rows = ColProblem::from_row_problem(rp);

    let mut cp: ColProblem<f64> = ColProblem::new();
    let c1 = cp.add_row(Some(1.), Some(3.5));
    let c2 = cp.add_row(Some(1.), None);
    cp.add_column(1., Some(0.), None, &[(c1, 1.), (c2, 1.)]);
    cp.add_integer_column(2., Some(0.), None, &[(c1, 1.), (c2, -1.)]);

    assert_eq!(from_rows, cp);
    assert_eq!(cp.integrality(), Some(&[VAR_TYPE_CONTINUOUS, VAR_TYPE_INTEGER][..]));
}

#[test]
fn integrality_is_allocated_lazily() {
    let mut pb: RowProblem<f64> = RowProblem::new();
    pb.add_column(1., Some(0.), Some(50.));
    pb.add_column(1., None, None);
    assert_eq!(pb.integrality(), None);
    pb.add_semi_continuous_column(1., Some(5.), Some(10.));
    assert_eq!(
        pb.integrality(),
        Some(&[VAR_TYPE_CONTINUOUS, VAR_TYPE_CONTINUOUS, VAR_TYPE_SEMI_CONTINUOUS][..])
    );
    pb.add_column(1., None, None);
    pb.add_semi_integer_column(1., Some(5.), Some(10.));
    pb.add_column_with_integrality(1., None, None, true);
    pb.add_column_with_integrality(1., None, None, false);
    assert_eq!(
        pb.integrality(),
        Some(
            &[
                VAR_TYPE_CONTINUOUS,
                VAR_TYPE_CONTINUOUS,
                VAR_TYPE_SEMI_CONTINUOUS,
                VAR_TYPE_CONTINUOUS,
                VAR_TYPE_SEMI_INTEGER,
                VAR_TYPE_INTEGER,
                VAR_TYPE_CONTINUOUS
            ][..]
        )
    );
}

#[test]
fn integrality_codes_and_conversion() {
    assert_eq!(Integrality::Continuous.as_raw(), 0);
    assert_eq!(Integrality::Integer.as_raw(), 1);
    assert_eq!(Integrality::SemiContinuous.as_raw(), 2);
    assert_eq!(Integrality::SemiInteger.as_raw(), 3);
    assert_eq!(Integrality::from(true), Integrality::Integer);
    assert_eq!(Integrality::from(false), Integrality::Continuous);
    assert_eq!(Integrality::default(), Integrality::Continuous);
}

#[test]
fn test_problem_change_column_cost() {
    // the problem handed to HiGHS before and after the cost of x changes
    let mut problem: RowProblem<f64> = RowProblem::new();
    let x = problem.add_column(1., Some(1.), None);
    assert_eq!(problem.clone().col_costs(), &[1.]);
    problem.change_column_cost(x, 2.);
    assert_eq!(problem.col_costs(), &[2.]);
    assert_eq!(problem.col_lower_bounds(), &[Some(1.)]);
}

#[test]
fn test_problem_change_column_bounds() {
    // the problem handed to HiGHS before and after the bounds of x change
    let mut problem: RowProblem<f64> = RowProblem::new();
    let x = problem.add_column(1., Some(0.), None);
    assert_eq!(problem.clone().col_lower_bounds(), &[Some(0.)]);
    problem.change_column_bounds(x, Some(1.), None);
    assert_eq!(problem.col_lower_bounds(), &[Some(1.)]);
    assert_eq!(problem.col_upper_bounds(), &[None]);
    assert_eq!(problem.col_costs(), &[1.]);
}

#[test]
fn change_column_bounds_leaves_other_columns() {
    let mut pb: RowProblem<f64> = RowProblem::new();
    let _x = pb.add_column(1., Some(1.), None);
    let y = pb.add_column(3., Some(0.), None);
    pb.change_column_bounds(y, Some(1.), Some(4.));
    assert_eq!(pb.col_lower_bounds(), &[Some(1.), Some(1.)]);
    assert_eq!(pb.col_upper_bounds(), &[None, Some(4.)]);
    assert_eq!(pb.col_costs(), &[1., 3.]);
}

#[test]
fn row_with_empty_factors_and_repeated_columns() {
    let mut pb: RowProblem<f64> = RowProblem::new();
    let x = pb.add_column(1., None, None);
    let r0 = pb.add_row(Some(2.), Some(3.), &[]);
    let r1 = pb.add_row(None, Some(1.), &[(x, 1.), (x, 2.)]);
    assert_eq!((r0.index(), r1.index()), (0, 1));
    let cp = ColProblem::from_row_problem(pb);
    assert_eq!(cp.col_starts(), &[0]);
    assert_eq!(cp.row_indices(), &[1, 1]);
    assert_eq!(cp.coefficients(), &[1., 2.]);
}

#[test]
fn empty_problems_convert_to_empty_problems() {
    let pb: RowProblem<f64> = RowProblem::new();
    let cp = ColProblem::from_row_problem(pb);
    assert_eq!(cp.num_cols(), 0);
    assert_eq!(cp.num_rows(), 0);
    assert!(cp.col_starts().is_empty());
    assert_eq!(cp, ColProblem::<f64>::new());
}
