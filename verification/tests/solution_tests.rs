use highs::{RowProblem, Solution};

#[test]
fn solution_accessors() {
    let mut pb: RowProblem<f64> = RowProblem::new();
    let _x = pb.add_column(1., None, None);
    let y = pb.add_column(2., None, None);
    let s = Solution::new(vec![0., 6.], vec![1., 0.], vec![6.], vec![-1.]);
    assert_eq!(s.columns(), vec![0., 6.]);
    assert_eq!(s.dual_columns(), &[1., 0.]);
    assert_eq!(s.rows(), &[6.]);
    assert_eq!(s.dual_rows(), &[-1.]);
    assert_eq!(s[y], 6.);
}
