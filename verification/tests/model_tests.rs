use highs::hessian::{hessian_csc, hessian_result, HessianBuilder, HessianCsc};
use highs::model::{
    check_solution_lengths, col_code, column_arrays, decimal_string, highs_count, integrality_change, last_col,
    last_row, option_name_valid, option_result, problem_sizes, row_arrays, threads_option_value,
};
use highs::{
    ColProblem, HessianError, HessianFormat, HighsStatus, Integrality, RowProblem, Sense,
    TrySetOptionError,
};

#[test]
fn test_pass_hessian_index_overflow_is_error() {
    // The second column holds a row index that does not fit in HiGHS' integer type.
    let columns: Vec<Vec<(Option<i32>, f64)>> = [vec![(0usize, 2.0)], vec![(usize::MAX, 2.0)]]
        .into_iter()
        .map(|c| c.into_iter().map(|(i, v)| (i32::try_from(i).ok(), v)).collect())
        .collect();
    let err = hessian_csc(&columns);
    assert!(matches!(err, Err(HessianError::IndexTooLarge { entry: 1 })));
}

#[test]
fn hessian_diagonal_layout() {
    // Q = diag(2, 2): one column per variable, each with its diagonal entry.
    let columns = vec![vec![(Some(0), 2.0)], vec![(Some(1), 2.0)]];
    let csc = hessian_csc(&columns).unwrap().unwrap();
    assert_eq!(
        csc,
        HessianCsc { dim: 2, nnz: 2, start: vec![0, 1], index: vec![0, 1], value: vec![2.0, 2.0] }
    );
}

#[test]
fn hessian_layout_with_empty_columns() {
    let columns = vec![
        vec![],
        vec![(Some(1), 1.0), (Some(2), 0.5)],
        vec![],
        vec![(Some(3), 4.0)],
    ];
    let csc = hessian_csc(&columns).unwrap().unwrap();
    assert_eq!(csc.dim, 4);
    assert_eq!(csc.nnz, 3);
    assert_eq!(csc.start, vec![0, 0, 2, 2]);
    assert_eq!(csc.index, vec![1, 2, 3]);
    assert_eq!(csc.value, vec![1.0, 0.5, 4.0]);
}

#[test]
fn empty_hessian_is_a_noop() {
    let none: Vec<Vec<(Option<i32>, f64)>> = vec![];
    assert_eq!(hessian_csc(&none), Ok(None));
    let empty_columns: Vec<Vec<(Option<i32>, f64)>> = vec![vec![], vec![], vec![]];
    assert_eq!(hessian_csc(&empty_columns), Ok(None));
}

#[test]
fn hessian_first_bad_index_wins() {
    let columns = vec![
        vec![(Some(0), 1.0), (Some(1), 1.0)],
        vec![(Some(1), 1.0), (None, 1.0), (None, 1.0)],
        vec![(None, 1.0)],
    ];
    assert_eq!(hessian_csc(&columns), Err(HessianError::IndexTooLarge { entry: 3 }));
}

#[test]
fn hessian_status_is_read() {
    assert_eq!(hessian_result(0), Ok(()));
    assert_eq!(hessian_result(1), Ok(()));
    assert_eq!(hessian_result(-1), Err(HessianError::Highs(HighsStatus::Error)));
    assert_eq!(HessianError::from(HighsStatus::Error), HessianError::Highs(HighsStatus::Error));
}

#[test]
fn codes_of_sense_and_hessian_format() {
    assert_eq!(Sense::Maximise.code(), -1);
    assert_eq!(Sense::Minimise.code(), 1);
    assert_eq!(HessianFormat::Triangular.as_raw(), 1);
    assert_eq!(HessianFormat::Square.as_raw(), 2);
}

#[test]
fn initial_solution_lengths() {
    // one column, no row: the starting point of a one-variable problem
    assert_eq!(
        check_solution_lengths(1, 0, Some(&[50.0][..]), Some(&[][..]), Some(&[1.0][..]), Some(&[][..])),
        Ok(())
    );
    assert_eq!(check_solution_lengths::<f64>(1, 0, None, None, None, None), Ok(()));
    assert_eq!(
        check_solution_lengths(1, 0, Some(&[50.0, 1.0][..]), None, None, None),
        Err(HighsStatus::Error)
    );
    assert_eq!(
        check_solution_lengths(2, 1, None, Some(&[1.0, 2.0][..]), None, None),
        Err(HighsStatus::Error)
    );
    assert_eq!(
        check_solution_lengths(2, 1, None, None, Some(&[1.0][..]), None),
        Err(HighsStatus::Error)
    );
    assert_eq!(
        check_solution_lengths::<f64>(2, 1, None, None, None, Some(&[][..])),
        Err(HighsStatus::Error)
    );
    assert_eq!(check_solution_lengths::<f64>(-1, 0, None, None, None, None), Err(HighsStatus::Error));
}

#[test]
fn counts_and_last_indices() {
    assert_eq!(highs_count(3), Ok(3));
    assert_eq!(highs_count(0), Ok(0));
    assert_eq!(highs_count(-2), Err(HighsStatus::Error));
    assert_eq!(last_row(2).unwrap().index(), 1);
    assert_eq!(last_row(-1), Err(HighsStatus::Error));
    assert_eq!(last_col(5).unwrap().index(), 4);
    assert_eq!(last_col(-1), Err(HighsStatus::Error));
}

#[test]
fn integrality_change_only_for_non_continuous() {
    assert_eq!(integrality_change(Integrality::Continuous), None);
    assert_eq!(integrality_change(Integrality::Integer), Some(1));
    assert_eq!(integrality_change(Integrality::SemiContinuous), Some(2));
    assert_eq!(integrality_change(Integrality::SemiInteger), Some(3));
}

#[test]
fn option_and_thread_values() {
    assert_eq!(option_result(0), Ok(()));
    assert_eq!(option_result(1), Ok(()));
    assert_eq!(option_result(-1), Err(TrySetOptionError {}));
    assert_eq!(threads_option_value(2), 2);
    assert_eq!(threads_option_value(u32::MAX), -1);
}

#[test]
fn arrays_for_new_rows_and_columns() {
    let mut pb: RowProblem<f64> = RowProblem::new();
    let x = pb.add_column(1., None, None);
    let y = pb.add_column(1., None, None);
    let (n, cols, factors) = row_arrays(&[(x, 3.0), (y, 1.0)]).unwrap();
    assert_eq!(n, 2);
    assert_eq!(cols, vec![0, 1]);
    assert_eq!(factors, vec![3.0, 1.0]);
    assert_eq!(col_code(y), 1);

    let mut cp: ColProblem<f64> = ColProblem::new();
    let c1 = cp.add_row(None, Some(1.));
    let c2 = cp.add_row(None, Some(2.));
    let (n, rows, factors) = column_arrays(&[(c2, 1.5), (c1, -1.0)]).unwrap();
    assert_eq!(n, 2);
    assert_eq!(rows, vec![1, 0]);
    assert_eq!(factors, vec![1.5, -1.0]);
    assert_eq!(column_arrays::<f64>(&[]), Some((0, vec![], vec![])));
}

#[test]
fn sizes_handed_to_highs() {
    let mut problem: RowProblem<f64> = RowProblem::new();
    let x = problem.add_column(1., Some(-1.), None);
    let y = problem.add_column(1., Some(0.), None);
    problem.add_row(None, Some(1.), &[(x, 1.), (y, 1.)]);
    let cp = ColProblem::from_row_problem(problem);
    let (num_cols, num_rows, nnz) = problem_sizes(&cp).unwrap();
    assert_eq!(num_cols, 2);
    assert_eq!(num_rows, 1);
    assert_eq!(nnz, 2);
}

#[test]
fn hessian_builder_stops_at_first_bad_index() {
    let mut b: HessianBuilder<f64> = HessianBuilder::new();
    assert_eq!(b.start_column(), Ok(()));
    assert_eq!(b.push(Some(0), 2.0), Ok(()));
    assert_eq!(b.start_column(), Ok(()));
    assert_eq!(b.push(None, 2.0), Err(HessianError::IndexTooLarge { entry: 1 }));
    // the refused coefficient was not stored
    assert_eq!(b.push(Some(1), 2.0), Ok(()));
    assert_eq!(
        b.finish(),
        Ok(Some(HessianCsc {
            dim: 2,
            nnz: 2,
            start: vec![0, 1],
            index: vec![0, 1],
            value: vec![2.0, 2.0]
        }))
    );
}

#[test]
fn hessian_builder_reads_lazy_iterators() {
    // the columns of test_pass_hessian_accepts_lazy_iterators, read lazily
    let mut b: HessianBuilder<f64> = HessianBuilder::new();
    for column in (0..2).map(|j| std::iter::once((j, 2.0))) {
        b.start_column().unwrap();
        for (i, v) in column {
            b.push(i32::try_from(i).ok(), v).unwrap();
        }
    }
    let from_builder = b.finish().unwrap();
    let eager = hessian_csc(&vec![vec![(Some(0), 2.0)], vec![(Some(1), 2.0)]]).unwrap();
    assert_eq!(from_builder, eager);
}

#[test]
fn empty_hessian_builder_gives_nothing() {
    let mut b: HessianBuilder<f64> = HessianBuilder::new();
    b.start_column().unwrap();
    b.start_column().unwrap();
    assert_eq!(b.finish(), Ok(None));
}

#[test]
fn option_names_with_zero_bytes_are_refused() {
    assert!(option_name_valid(b"presolve"));
    assert!(option_name_valid(b""));
    assert!(!option_name_valid(b"pre\0solve"));
    assert!(!option_name_valid(&[0u8]));
}

#[test]
fn hessian_error_messages() {
    assert_eq!(
        HessianError::IndexTooLarge { entry: 1 }.message(),
        "the row index of Hessian coefficient 1 is too large for HiGHS' integer type (at most 2147483647)"
    );
    assert_eq!(
        HessianError::DimensionTooLarge { dim: 3000000000 }.message(),
        "the dimension of the quadratic objective matrix (Hessian Q) is too large: got 3000000000 but HiGHS supports at most 2147483647"
    );
    assert_eq!(
        HessianError::TooManyNonZeros { nnz: 2147483648 }.message(),
        "the Hessian Q has too many nonzero coefficients: got 2147483648 but HiGHS supports at most 2147483647"
    );
    assert_eq!(
        HessianError::Highs(HighsStatus::Error).message(),
        "HiGHS rejected the Hessian: Error"
    );
}

#[test]
fn decimal_writing() {
    assert_eq!(decimal_string(0), "0");
    assert_eq!(decimal_string(7), "7");
    assert_eq!(decimal_string(10), "10");
    assert_eq!(decimal_string(1234567890), "1234567890");
    assert_eq!(decimal_string(usize::MAX), usize::MAX.to_string());
}
