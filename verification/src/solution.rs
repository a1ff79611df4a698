//! The values of a solution found by HiGHS.
use vstd::prelude::*;

use crate::problem::Col;

verus! {

/// Concrete values of the solution
#[derive(Clone, Debug)]
pub struct Solution<V> {
    colvalue: Vec<V>,
    coldual: Vec<V>,
    rowvalue: Vec<V>,
    rowdual: Vec<V>,
}

impl<V> Solution<V> {
    /// The value of each variable.
    pub closed spec fn col_values(&self) -> Seq<V> {
        self.colvalue@
    }

    /// The dual value of each variable.
    pub closed spec fn col_duals(&self) -> Seq<V> {
        self.coldual@
    }

    /// The value of each constraint function.
    pub closed spec fn row_values(&self) -> Seq<V> {
        self.rowvalue@
    }

    /// The dual value of each constraint.
    pub closed spec fn row_duals(&self) -> Seq<V> {
        self.rowdual@
    }

    /// A solution made of the primal and dual values of the columns and rows
    /// that HiGHS reported.
    pub fn new(colvalue: Vec<V>, coldual: Vec<V>, rowvalue: Vec<V>, rowdual: Vec<V>) -> (r: Self)
        ensures
            r.col_values() == colvalue@,
            r.col_duals() == coldual@,
            r.row_values() == rowvalue@,
            r.row_duals() == rowdual@,
    {
        Solution { colvalue, coldual, rowvalue, rowdual }
    }

    /// The optimal values for each variables (in the order they were added)
    pub fn columns(&self) -> (r: &[V])
        ensures
            r@ == self.col_values(),
    {
        self.colvalue.as_slice()
    }

    /// The optimal values for each variables in the dual problem (in the order they were added)
    pub fn dual_columns(&self) -> (r: &[V])
        ensures
            r@ == self.col_duals(),
    {
        self.coldual.as_slice()
    }

    /// The value of the constraint functions
    pub fn rows(&self) -> (r: &[V])
        ensures
            r@ == self.row_values(),
    {
        self.rowvalue.as_slice()
    }

    /// The value of the constraint functions in the dual problem
    pub fn dual_rows(&self) -> (r: &[V])
        ensures
            r@ == self.row_duals(),
    {
        self.rowdual.as_slice()
    }
}

impl<V> std::ops::Index<Col> for Solution<V> {
    type Output = V;

    /// The value of a variable.
    fn index(&self, col: Col) -> (r: &V)
        ensures
            *r == self.col_values()[col.spec_index() as int],
    {
        &self.colvalue[col.index()]
    }
}

impl<V> vstd::std_specs::core::IndexSpecImpl<Col> for Solution<V> {
    /// The variable must be one of the solution's.
    open spec fn index_req(&self, col: &Col) -> bool {
        col.spec_index() < self.col_values().len()
    }
}

} // verus!
