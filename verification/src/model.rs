//! What the binding decides around its calls into a HiGHS model: the codes
//! it passes, the arrays it builds, the inputs it refuses, and how it reads
//! what HiGHS answers.
use vstd::prelude::*;

use crate::problem::{Col, ColMatrix, Integrality, Problem, Row, VAR_TYPE_CONTINUOUS};
use crate::status::{try_handle_status, HighsStatus};

verus! {

/// Whether to maximize or minimize the objective function
#[derive(Clone, Copy, Eq, PartialEq, Structural, Debug)]
pub enum Sense {
    /// max
    Maximise,
    /// min
    Minimise,
}

impl Sense {
    /// The code of this sense in the C API.
    pub open spec fn spec_code(self) -> i32 {
        match self {
            Sense::Maximise => -1i32,
            Sense::Minimise => 1,
        }
    }

    /// The code of this sense in the C API.
    pub fn code(self) -> (c: i32)
        ensures
            c == self.spec_code(),
    {
        match self {
            Sense::Maximise => -1,
            Sense::Minimise => 1,
        }
    }
}

/// Storage layout of a quadratic objective Hessian.
#[derive(Clone, Copy, Eq, PartialEq, Structural, Debug)]
pub enum HessianFormat {
    /// Only the lower triangle of the symmetric Hessian is stored, in
    /// compressed sparse column form. This is the usual way to give the
    /// Hessian of `0.5 x' Q x`.
    Triangular,
    /// The full square Hessian is stored in compressed sparse column form.
    Square,
}

impl HessianFormat {
    /// The code of this layout in the C API.
    pub open spec fn spec_raw(self) -> i32 {
        match self {
            HessianFormat::Triangular => 1,
            HessianFormat::Square => 2,
        }
    }

    /// The code of this layout in the C API.
    pub fn as_raw(self) -> (r: i32)
        ensures
            r == self.spec_raw(),
    {
        match self {
            HessianFormat::Triangular => 1,
            HessianFormat::Square => 2,
        }
    }
}

/// Reason a Hessian could not be uploaded.
#[derive(Clone, Copy, PartialEq, Eq, Structural, Debug)]
pub enum HessianError {
    /// The dimension of `Q` (its number of columns) does not fit in HiGHS'
    /// integer type.
    DimensionTooLarge {
        /// The dimension that was requested.
        dim: usize,
    },
    /// The number of stored nonzero coefficients does not fit in HiGHS'
    /// integer type.
    TooManyNonZeros {
        /// The number of nonzeros that was requested.
        nnz: usize,
    },
    /// A row index does not fit in HiGHS' integer type.
    IndexTooLarge {
        /// Position, among the stored coefficients, of the offending entry.
        entry: usize,
    },
    /// HiGHS rejected the Hessian and returned this status.
    Highs(HighsStatus),
}

impl From<HighsStatus> for HessianError {
    fn from(status: HighsStatus) -> (r: HessianError) {
        HessianError::Highs(status)
    }
}

impl vstd::std_specs::convert::FromSpecImpl<HighsStatus> for HessianError {
    open spec fn obeys_from_spec() -> bool {
        true
    }

    open spec fn from_spec(status: HighsStatus) -> HessianError {
        HessianError::Highs(status)
    }
}

/// The decimal digit `d`.
pub open spec fn spec_digit(d: nat) -> char {
    if d == 0 {
        '0'
    } else if d == 1 {
        '1'
    } else if d == 2 {
        '2'
    } else if d == 3 {
        '3'
    } else if d == 4 {
        '4'
    } else if d == 5 {
        '5'
    } else if d == 6 {
        '6'
    } else if d == 7 {
        '7'
    } else if d == 8 {
        '8'
    } else {
        '9'
    }
}

/// The decimal writing of `n`, without leading zeros.
pub open spec fn spec_decimal(n: nat) -> Seq<char>
    decreases n,
{
    if n < 10 {
        seq![spec_digit(n)]
    } else {
        spec_decimal(n / 10).push(spec_digit(n % 10))
    }
}

fn digit_str(d: usize) -> (s: &'static str)
    requires
        d < 10,
    ensures
        s@ == seq![spec_digit(d as nat)],
{
    if d == 0 {
        proof {
            reveal_strlit("0");
        }
        "0"
    } else if d == 1 {
        proof {
            reveal_strlit("1");
        }
        "1"
    } else if d == 2 {
        proof {
            reveal_strlit("2");
        }
        "2"
    } else if d == 3 {
        proof {
            reveal_strlit("3");
        }
        "3"
    } else if d == 4 {
        proof {
            reveal_strlit("4");
        }
        "4"
    } else if d == 5 {
        proof {
            reveal_strlit("5");
        }
        "5"
    } else if d == 6 {
        proof {
            reveal_strlit("6");
        }
        "6"
    } else if d == 7 {
        proof {
            reveal_strlit("7");
        }
        "7"
    } else if d == 8 {
        proof {
            reveal_strlit("8");
        }
        "8"
    } else {
        proof {
            reveal_strlit("9");
        }
        "9"
    }
}

/// The decimal writing of `n`, without leading zeros.
pub fn decimal_string(n: usize) -> (s: String)
    ensures
        s@ == spec_decimal(n as nat),
    decreases n,
{
    if n < 10 {
        String::from_str(digit_str(n))
    } else {
        let mut s = decimal_string(n / 10);
        s.append(digit_str(n % 10));
        s
    }
}

/// The name of a status, as it is printed for debugging.
pub open spec fn spec_status_name(status: HighsStatus) -> Seq<char> {
    match status {
        HighsStatus::OK => "OK"@,
        HighsStatus::Warning => "Warning"@,
        HighsStatus::Error => "Error"@,
    }
}

/// The largest value of HiGHS' integer type.
pub open spec fn spec_highs_int_max() -> nat {
    i32::MAX as nat
}

impl HessianError {
    /// The message that describes this error.
    pub open spec fn spec_message(self) -> Seq<char> {
        match self {
            HessianError::DimensionTooLarge { dim } =>
                "the dimension of the quadratic objective matrix (Hessian Q) is too large: got "@
                    + spec_decimal(dim as nat) + " but HiGHS supports at most "@ + spec_decimal(
                    spec_highs_int_max(),
                ),
            HessianError::TooManyNonZeros { nnz } =>
                "the Hessian Q has too many nonzero coefficients: got "@ + spec_decimal(nnz as nat)
                    + " but HiGHS supports at most "@ + spec_decimal(spec_highs_int_max()),
            HessianError::IndexTooLarge { entry } => "the row index of Hessian coefficient "@
                + spec_decimal(entry as nat) + " is too large for HiGHS' integer type (at most "@
                + spec_decimal(spec_highs_int_max()) + ")"@,
            HessianError::Highs(status) => "HiGHS rejected the Hessian: "@ + spec_status_name(
                status,
            ),
        }
    }

    /// The message that describes this error.
    pub fn message(&self) -> (s: String)
        ensures
            s@ == self.spec_message(),
    {
        let max = decimal_string(i32::MAX as usize);
        match *self {
            HessianError::DimensionTooLarge { dim } => {
                let mut s = String::from_str(
                    "the dimension of the quadratic objective matrix (Hessian Q) is too large: got ",
                );
                s.append(decimal_string(dim).as_str());
                s.append(" but HiGHS supports at most ");
                s.append(max.as_str());
                s
            },
            HessianError::TooManyNonZeros { nnz } => {
                let mut s = String::from_str(
                    "the Hessian Q has too many nonzero coefficients: got ",
                );
                s.append(decimal_string(nnz).as_str());
                s.append(" but HiGHS supports at most ");
                s.append(max.as_str());
                s
            },
            HessianError::IndexTooLarge { entry } => {
                let mut s = String::from_str("the row index of Hessian coefficient ");
                s.append(decimal_string(entry).as_str());
                s.append(" is too large for HiGHS' integer type (at most ");
                s.append(max.as_str());
                s.append(")");
                s
            },
            HessianError::Highs(status) => {
                let mut s = String::from_str("HiGHS rejected the Hessian: ");
                match status {
                    HighsStatus::OK => s.append("OK"),
                    HighsStatus::Warning => s.append("Warning"),
                    HighsStatus::Error => s.append("Error"),
                }
                s
            },
        }
    }
}

/// Error returned when a HiGHS option could not be set.
#[derive(Clone, Copy, PartialEq, Eq, Structural, Debug)]
pub struct TrySetOptionError {}

/// Whether an option name can be handed to HiGHS as a C string: it holds no
/// zero byte.
pub fn option_name_valid(name: &[u8]) -> (b: bool)
    ensures
        b == !name@.contains(0u8),
{
    let mut k: usize = 0;
    while k < name.len()
        invariant
            0 <= k <= name@.len(),
            forall|i: int| 0 <= i < k ==> name@[i] != 0u8,
        decreases name@.len() - k,
    {
        if name[k] == 0u8 {
            return false;
        }
        k = k + 1;
    }
    true
}

/// Reads the status HiGHS returned when an option was set: the option is set
/// unless HiGHS reports an error.
pub fn option_result(status: i32) -> (r: Result<(), TrySetOptionError>)
    requires
        HighsStatus::spec_from_code(status) is Some,
    ensures
        r is Ok <==> status != HighsStatus::Error.spec_code(),
{
    match try_handle_status(status) {
        Ok(_) => Ok(()),
        Err(_) => Err(TrySetOptionError {  }),
    }
}

/// The value given to HiGHS' `threads` option for a number of threads: the
/// number taken as a 32-bit signed integer, bit for bit.
pub fn threads_option_value(threads: u32) -> (r: i32)
    ensures
        r == threads as i32,
{
    threads as i32
}

/// Reads a count of columns or rows returned by HiGHS: a negative count is an error.
pub fn highs_count(n: i32) -> (r: Result<usize, HighsStatus>)
    ensures
        n >= 0 ==> r == Ok::<usize, HighsStatus>(n as usize),
        n < 0 ==> r == Err::<usize, HighsStatus>(HighsStatus::Error),
{
    if n >= 0 {
        Ok(n as usize)
    } else {
        Err(HighsStatus::Error)
    }
}

/// The row that HiGHS added last, from its number of rows after the addition.
pub fn last_row(num_rows: i32) -> (r: Result<Row, HighsStatus>)
    requires
        num_rows != 0,
    ensures
        num_rows > 0 ==> (r matches Ok(row) && row.spec_index() == num_rows - 1),
        num_rows < 0 ==> r == Err::<Row, HighsStatus>(HighsStatus::Error),
{
    if num_rows > 0 {
        Ok(Row::from_index(num_rows - 1))
    } else {
        Err(HighsStatus::Error)
    }
}

/// The column that HiGHS added last, from its number of columns after the addition.
pub fn last_col(num_cols: i32) -> (r: Result<Col, HighsStatus>)
    requires
        num_cols != 0,
    ensures
        num_cols > 0 ==> (r matches Ok(col) && col.spec_index() == num_cols - 1),
        num_cols < 0 ==> r == Err::<Col, HighsStatus>(HighsStatus::Error),
{
    if num_cols > 0 {
        Ok(Col::from_index((num_cols - 1) as usize))
    } else {
        Err(HighsStatus::Error)
    }
}

/// The kind code to give HiGHS for a column just added, if any: a continuous
/// column is continuous already, any other kind must be set.
pub fn integrality_change(integrality: Integrality) -> (r: Option<i32>)
    ensures
        integrality == Integrality::Continuous ==> r is None,
        integrality != Integrality::Continuous ==> r == Some(integrality.spec_raw()),
{
    let raw = integrality.as_raw();
    if raw != VAR_TYPE_CONTINUOUS {
        Some(raw)
    } else {
        None
    }
}

/// The index HiGHS is given for a column: its position taken as a 32-bit
/// signed integer, bit for bit.
pub fn col_code(col: Col) -> (r: i32)
    ensures
        r == col.spec_index() as i32,
{
    col.index() as i32
}

/// The arrays handed to HiGHS for a new constraint: the number of
/// coefficients, the column of each and the coefficients. `None` when a
/// count or a column index does not fit in HiGHS' integer type.
pub fn row_arrays<V: Copy>(row_factors: &[(Col, V)]) -> (r: Option<(i32, Vec<i32>, Vec<V>)>)
    ensures
        r is Some <==> (row_factors@.len() <= i32::MAX && forall|k: int|
            0 <= k < row_factors@.len() ==> (#[trigger] row_factors@[k]).0.spec_index()
                <= i32::MAX),
        r matches Some(t) ==> {
            &&& t.0 == row_factors@.len()
            &&& t.1@ == row_factors@.map_values(|p: (Col, V)| p.0.spec_index() as i32)
            &&& t.2@ == row_factors@.map_values(|p: (Col, V)| p.1)
        },
{
    if row_factors.len() > i32::MAX as usize {
        return None;
    }
    let mut cols: Vec<i32> = Vec::new();
    let mut factors: Vec<V> = Vec::new();
    let mut k: usize = 0;
    while k < row_factors.len()
        invariant
            0 <= k <= row_factors@.len(),
            forall|i: int| 0 <= i < k ==> (#[trigger] row_factors@[i]).0.spec_index() <= i32::MAX,
            cols@ == row_factors@.take(k as int).map_values(
                |p: (Col, V)| p.0.spec_index() as i32,
            ),
            factors@ == row_factors@.take(k as int).map_values(|p: (Col, V)| p.1),
        decreases row_factors@.len() - k,
    {
        let (col, factor) = row_factors[k];
        let c = col.index();
        if c > i32::MAX as usize {
            return None;
        }
        cols.push(c as i32);
        factors.push(factor);
        proof {
            assert(row_factors@.take(k + 1).map_values(|p: (Col, V)| p.0.spec_index() as i32)
                =~= cols@);
            assert(row_factors@.take(k + 1).map_values(|p: (Col, V)| p.1) =~= factors@);
        }
        k = k + 1;
    }
    proof {
        assert(row_factors@.take(k as int) =~= row_factors@);
    }
    Some((row_factors.len() as i32, cols, factors))
}

/// The arrays handed to HiGHS for a new variable: the number of
/// coefficients, the row of each and the coefficients. `None` when the
/// count does not fit in HiGHS' integer type.
pub fn column_arrays<V: Copy>(row_factors: &[(Row, V)]) -> (r: Option<(i32, Vec<i32>, Vec<V>)>)
    ensures
        r is Some <==> row_factors@.len() <= i32::MAX,
        r matches Some(t) ==> {
            &&& t.0 == row_factors@.len()
            &&& t.1@ == row_factors@.map_values(|p: (Row, V)| p.0.spec_index())
            &&& t.2@ == row_factors@.map_values(|p: (Row, V)| p.1)
        },
{
    if row_factors.len() > i32::MAX as usize {
        return None;
    }
    let mut rows: Vec<i32> = Vec::new();
    let mut factors: Vec<V> = Vec::new();
    let mut k: usize = 0;
    while k < row_factors.len()
        invariant
            0 <= k <= row_factors@.len(),
            rows@ == row_factors@.take(k as int).map_values(|p: (Row, V)| p.0.spec_index()),
            factors@ == row_factors@.take(k as int).map_values(|p: (Row, V)| p.1),
        decreases row_factors@.len() - k,
    {
        let (row, factor) = row_factors[k];
        rows.push(row.index());
        factors.push(factor);
        proof {
            assert(row_factors@.take(k + 1).map_values(|p: (Row, V)| p.0.spec_index()) =~= rows@);
            assert(row_factors@.take(k + 1).map_values(|p: (Row, V)| p.1) =~= factors@);
        }
        k = k + 1;
    }
    proof {
        assert(row_factors@.take(k as int) =~= row_factors@);
    }
    Some((row_factors.len() as i32, rows, factors))
}

/// The sizes handed to HiGHS with a problem: its numbers of columns, rows and
/// coefficients. `None` when one of them does not fit in HiGHS' integer type.
pub fn problem_sizes<V: Copy>(pb: &Problem<V, ColMatrix<V>>) -> (r: Option<(i32, i32, i32)>)
    ensures
        r is Some <==> (pb.spec_num_cols() <= i32::MAX && pb.spec_num_rows() <= i32::MAX
            && pb.spec_num_nonzeros() <= i32::MAX),
        r matches Some(t) ==> t.0 == pb.spec_num_cols() && t.1 == pb.spec_num_rows() && t.2
            == pb.spec_num_nonzeros(),
{
    let cols = pb.num_cols();
    let rows = pb.num_rows();
    let nnz = pb.num_nonzeros();
    if cols > i32::MAX as usize || rows > i32::MAX as usize || nnz > i32::MAX as usize {
        None
    } else {
        Some((cols as i32, rows as i32, nnz as i32))
    }
}

/// Whether a slice given for a starting point, if any, has the expected length.
pub open spec fn fits_length<V>(values: Option<&[V]>, expected: int) -> bool {
    match values {
        Some(v) => v@.len() == expected,
        None => true,
    }
}

/// Checks a starting point before it is handed to HiGHS: the primal and dual
/// values of the columns must have one value per column, those of the rows one
/// per row. The counts are those HiGHS reports; a negative count is an error.
pub fn check_solution_lengths<V>(
    num_cols: i32,
    num_rows: i32,
    cols: Option<&[V]>,
    rows: Option<&[V]>,
    col_duals: Option<&[V]>,
    row_duals: Option<&[V]>,
) -> (r: Result<(), HighsStatus>)
    ensures
        r is Ok <==> (num_cols >= 0 && num_rows >= 0 && fits_length(cols, num_cols as int)
            && fits_length(rows, num_rows as int) && fits_length(col_duals, num_cols as int)
            && fits_length(row_duals, num_rows as int)),
        r is Err ==> r == Err::<(), HighsStatus>(HighsStatus::Error),
{
    let num_cols = highs_count(num_cols)?;
    let num_rows = highs_count(num_rows)?;
    if let Some(cols) = cols {
        if cols.len() != num_cols {
            return Err(HighsStatus::Error);
        }
    }
    if let Some(rows) = rows {
        if rows.len() != num_rows {
            return Err(HighsStatus::Error);
        }
    }
    if let Some(col_duals) = col_duals {
        if col_duals.len() != num_cols {
            return Err(HighsStatus::Error);
        }
    }
    if let Some(row_duals) = row_duals {
        if row_duals.len() != num_rows {
            return Err(HighsStatus::Error);
        }
    }
    Ok(())
}

} // verus!
