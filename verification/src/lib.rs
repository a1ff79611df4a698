//! A verified core of a binding to the HiGHS linear programming solver.
//!
//! The crate holds what the binding decides by itself: how a problem is
//! built column by column or constraint by constraint, how a problem built
//! row-wise becomes a column-wise sparse matrix, how status codes of the C API
//! are read, how a quadratic objective is laid out in compressed sparse
//! columns, and which inputs are refused before they reach the solver.
//! The numeric type of coefficients and bounds is a type parameter.
pub mod hessian;
pub mod model;
pub mod problem;
pub mod solution;
pub mod status;

pub use model::{HessianError, HessianFormat, Sense, TrySetOptionError};
pub use problem::{Col, ColMatrix, ColProblem, Integrality, Problem, Row, RowMatrix, RowProblem};
pub use solution::Solution;
pub use status::{HighsModelStatus, HighsSolutionStatus, HighsStatus, InvalidStatus};
