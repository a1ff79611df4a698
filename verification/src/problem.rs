//! Optimization problems built in memory before they are handed to HiGHS.
//!
//! A [`RowProblem`] declares its variables (columns) first and then adds
//! constraints (rows) one by one. A [`ColProblem`] declares its constraints
//! first and then adds variables, each with its coefficients in the
//! constraints. A row-wise problem becomes a column-wise one with
//! [`Problem::from_row_problem`], which is how it is handed to the solver.
//!
//! Bounds are `Option`s: `None` stands for an infinite bound (minus infinity
//! for a lower bound, plus infinity for an upper bound).
use vstd::prelude::*;

verus! {

/// The kind of values a variable (column) may take.
///
/// For [`SemiContinuous`](Integrality::SemiContinuous) and
/// [`SemiInteger`](Integrality::SemiInteger) variables, the value is either `0`
/// or lies within the column's `[lower, upper]` bounds.
#[derive(Clone, Copy, Eq, PartialEq, Structural, Hash, Debug)]
pub enum Integrality {
    /// Any real value within the column bounds.
    Continuous,
    /// Any integer value within the column bounds.
    Integer,
    /// Either `0` or any real value within the column bounds.
    SemiContinuous,
    /// Either `0` or any integer value within the column bounds.
    SemiInteger,
}

/// The code of a continuous column in the integrality array of the C API.
pub const VAR_TYPE_CONTINUOUS: i32 = 0;

/// The code of an integer column in the integrality array of the C API.
pub const VAR_TYPE_INTEGER: i32 = 1;

/// The code of a semi-continuous column in the integrality array of the C API.
pub const VAR_TYPE_SEMI_CONTINUOUS: i32 = 2;

/// The code of a semi-integer column in the integrality array of the C API.
pub const VAR_TYPE_SEMI_INTEGER: i32 = 3;

impl Integrality {
    /// The code of this kind of column in the C API.
    pub open spec fn spec_raw(self) -> i32 {
        match self {
            Integrality::Continuous => VAR_TYPE_CONTINUOUS,
            Integrality::Integer => VAR_TYPE_INTEGER,
            Integrality::SemiContinuous => VAR_TYPE_SEMI_CONTINUOUS,
            Integrality::SemiInteger => VAR_TYPE_SEMI_INTEGER,
        }
    }

    /// The code of this kind of column in the C API.
    pub fn as_raw(self) -> (r: i32)
        ensures
            r == self.spec_raw(),
    {
        match self {
            Integrality::Continuous => VAR_TYPE_CONTINUOUS,
            Integrality::Integer => VAR_TYPE_INTEGER,
            Integrality::SemiContinuous => VAR_TYPE_SEMI_CONTINUOUS,
            Integrality::SemiInteger => VAR_TYPE_SEMI_INTEGER,
        }
    }
}

/// Whether a code is that of a kind of column.
pub open spec fn is_column_kind_code(raw: i32) -> bool {
    VAR_TYPE_CONTINUOUS <= raw <= VAR_TYPE_SEMI_INTEGER
}

impl Default for Integrality {
    /// A column is continuous unless said otherwise.
    fn default() -> (r: Integrality)
        ensures
            r == Integrality::Continuous,
    {
        Integrality::Continuous
    }
}

impl From<bool> for Integrality {
    /// `true` maps to [`Integrality::Integer`] and `false` to
    /// [`Integrality::Continuous`].
    fn from(is_integer: bool) -> (r: Integrality) {
        if is_integer {
            Integrality::Integer
        } else {
            Integrality::Continuous
        }
    }
}

impl vstd::std_specs::convert::FromSpecImpl<bool> for Integrality {
    open spec fn obeys_from_spec() -> bool {
        true
    }

    open spec fn from_spec(is_integer: bool) -> Integrality {
        if is_integer {
            Integrality::Integer
        } else {
            Integrality::Continuous
        }
    }
}

/// A constraint (row) of a problem, by its position.
#[derive(Clone, Copy, Debug, PartialEq, Eq, Structural, Hash)]
pub struct Row(pub(crate) i32);

impl Row {
    /// The position of the constraint among the rows of its problem.
    pub closed spec fn spec_index(self) -> i32 {
        self.0
    }

    /// The position of the constraint among the rows of its problem.
    pub fn index(&self) -> (r: i32)
        ensures
            r == self.spec_index(),
    {
        self.0
    }

    pub(crate) fn from_index(i: i32) -> (r: Row)
        ensures
            r.spec_index() == i,
    {
        Row(i)
    }
}

/// A variable (column) of a problem, by its position.
#[derive(Clone, Copy, Debug, PartialEq, Eq, Structural, Hash)]
pub struct Col(pub(crate) usize);

impl Col {
    /// The position of the variable among the columns of its problem.
    pub closed spec fn spec_index(self) -> usize {
        self.0
    }

    /// The position of the variable among the columns of its problem.
    pub fn index(&self) -> (r: usize)
        ensures
            r == self.spec_index(),
    {
        self.0
    }

    pub(crate) fn from_index(i: usize) -> (r: Col)
        ensures
            r.spec_index() == i,
    {
        Col(i)
    }
}

/// A complete optimization problem.
///
/// The `MATRIX` parameter says how the constraint matrix is stored: by
/// [`ColMatrix`] for a problem built variable by variable, by [`RowMatrix`]
/// for a problem built constraint by constraint. `V` is the numeric type of
/// costs, bounds and coefficients.
#[derive(Debug, Clone, PartialEq)]
pub struct Problem<V, MATRIX> {
    // columns
    colcost: Vec<V>,
    collower: Vec<Option<V>>,
    colupper: Vec<Option<V>>,
    // rows
    rowlower: Vec<Option<V>>,
    rowupper: Vec<Option<V>>,
    integrality: Option<Vec<i32>>,
    matrix: MATRIX,
}

/// A problem where variables are declared first, and constraints are then added dynamically.
pub type RowProblem<V> = Problem<V, RowMatrix<V>>;

/// A problem where constraints are declared first, and variables are then added dynamically.
pub type ColProblem<V> = Problem<V, ColMatrix<V>>;

impl<V, MATRIX> Problem<V, MATRIX> {
    /// The cost of each column in the objective function.
    pub closed spec fn costs(&self) -> Seq<V> {
        self.colcost@
    }

    /// The lower bound of each column (`None` is minus infinity).
    pub closed spec fn col_lower(&self) -> Seq<Option<V>> {
        self.collower@
    }

    /// The upper bound of each column (`None` is plus infinity).
    pub closed spec fn col_upper(&self) -> Seq<Option<V>> {
        self.colupper@
    }

    /// The lower bound of each row (`None` is minus infinity).
    pub closed spec fn row_lower(&self) -> Seq<Option<V>> {
        self.rowlower@
    }

    /// The upper bound of each row (`None` is plus infinity).
    pub closed spec fn row_upper(&self) -> Seq<Option<V>> {
        self.rowupper@
    }

    /// The number of columns.
    pub open spec fn spec_num_cols(&self) -> nat {
        self.costs().len()
    }

    /// The number of rows.
    pub open spec fn spec_num_rows(&self) -> nat {
        self.row_lower().len()
    }

    /// The code of the kind of each column.
    pub closed spec fn kinds(&self) -> Seq<i32> {
        match self.integrality {
            Some(v) => v@,
            None => Seq::new(self.colcost@.len(), |i: int| VAR_TYPE_CONTINUOUS),
        }
    }

    /// Whether the problem holds an integrality array, which makes it a mixed
    /// integer problem for HiGHS.
    pub closed spec fn has_integrality(&self) -> bool {
        self.integrality is Some
    }

    /// The constraint matrix.
    pub closed spec fn matrix(&self) -> MATRIX {
        self.matrix
    }

    /// The costs, bounds and kinds of the problem are coherent: one of each
    /// per column, one pair of bounds per row, and an integrality array only
    /// when some column is not continuous.
    pub open spec fn base_wf(&self) -> bool {
        &&& self.col_lower().len() == self.costs().len()
        &&& self.col_upper().len() == self.costs().len()
        &&& self.row_upper().len() == self.row_lower().len()
        &&& self.kinds().len() == self.costs().len()
        &&& forall|i: int| 0 <= i < self.kinds().len() ==> is_column_kind_code(#[trigger] self.kinds()[i])
        &&& self.has_integrality() ==> exists|i: int|
            0 <= i < self.kinds().len() && #[trigger] self.kinds()[i] != VAR_TYPE_CONTINUOUS
    }

    /// The problem has no column and no row.
    pub open spec fn is_empty(&self) -> bool {
        &&& self.costs() == Seq::<V>::empty()
        &&& self.col_lower() == Seq::<Option<V>>::empty()
        &&& self.col_upper() == Seq::<Option<V>>::empty()
        &&& self.row_lower() == Seq::<Option<V>>::empty()
        &&& self.row_upper() == Seq::<Option<V>>::empty()
        &&& self.kinds() == Seq::<i32>::empty()
        &&& !self.has_integrality()
    }

    /// Number of variables in the problem
    pub fn num_cols(&self) -> (n: usize)
        ensures
            n == self.spec_num_cols(),
    {
        self.colcost.len()
    }

    /// Number of constraints in the problem
    pub fn num_rows(&self) -> (n: usize)
        ensures
            n == self.spec_num_rows(),
    {
        self.rowlower.len()
    }

    /// The costs of the columns, in the order they were added.
    pub fn col_costs(&self) -> (r: &[V])
        ensures
            r@ == self.costs(),
    {
        self.colcost.as_slice()
    }

    /// The lower bounds of the columns (`None` is minus infinity).
    pub fn col_lower_bounds(&self) -> (r: &[Option<V>])
        ensures
            r@ == self.col_lower(),
    {
        self.collower.as_slice()
    }

    /// The upper bounds of the columns (`None` is plus infinity).
    pub fn col_upper_bounds(&self) -> (r: &[Option<V>])
        ensures
            r@ == self.col_upper(),
    {
        self.colupper.as_slice()
    }

    /// The lower bounds of the rows (`None` is minus infinity).
    pub fn row_lower_bounds(&self) -> (r: &[Option<V>])
        ensures
            r@ == self.row_lower(),
    {
        self.rowlower.as_slice()
    }

    /// The upper bounds of the rows (`None` is plus infinity).
    pub fn row_upper_bounds(&self) -> (r: &[Option<V>])
        ensures
            r@ == self.row_upper(),
    {
        self.rowupper.as_slice()
    }

    /// The integrality array handed to HiGHS, if the problem has one.
    /// It is present exactly when some column is not continuous.
    pub fn integrality(&self) -> (r: Option<&[i32]>)
        ensures
            r is Some == self.has_integrality(),
            r matches Some(s) ==> s@ == self.kinds(),
    {
        match &self.integrality {
            Some(v) => Some(v.as_slice()),
            None => None,
        }
    }

    fn add_row_inner(&mut self, low: Option<V>, high: Option<V>) -> (r: Row)
        requires
            old(self).base_wf(),
            old(self).spec_num_rows() <= i32::MAX,
        ensures
            final(self).base_wf(),
            r.spec_index() == old(self).spec_num_rows(),
            final(self).row_lower() == old(self).row_lower().push(low),
            final(self).row_upper() == old(self).row_upper().push(high),
            final(self).costs() == old(self).costs(),
            final(self).col_lower() == old(self).col_lower(),
            final(self).col_upper() == old(self).col_upper(),
            final(self).kinds() == old(self).kinds(),
            final(self).has_integrality() == old(self).has_integrality(),
            final(self).matrix() == old(self).matrix(),
    {
        let r = Row(self.rowlower.len() as i32);
        self.rowlower.push(low);
        self.rowupper.push(high);
        r
    }

    fn add_column_inner(
        &mut self,
        col_factor: V,
        low: Option<V>,
        high: Option<V>,
        integrality: Integrality,
    )
        requires
            old(self).base_wf(),
        ensures
            final(self).base_wf(),
            final(self).costs() == old(self).costs().push(col_factor),
            final(self).col_lower() == old(self).col_lower().push(low),
            final(self).col_upper() == old(self).col_upper().push(high),
            final(self).kinds() == old(self).kinds().push(integrality.spec_raw()),
            final(self).has_integrality() == (old(self).has_integrality()
                || integrality != Integrality::Continuous),
            final(self).row_lower() == old(self).row_lower(),
            final(self).row_upper() == old(self).row_upper(),
            final(self).matrix() == old(self).matrix(),
    {
        let raw = integrality.as_raw();
        let ghost old_kinds = self.kinds();
        // Only allocate the integrality vector once a non-continuous column
        // appears. A pure-LP problem keeps it `None`.
        if raw != VAR_TYPE_CONTINUOUS || self.integrality.is_some() {
            let n = self.colcost.len();
            let mut kinds = match self.integrality.take() {
                Some(v) => v,
                None => vec![VAR_TYPE_CONTINUOUS; n],
            };
            assert(kinds@ =~= old_kinds);
            kinds.push(raw);
            self.integrality = Some(kinds);
            proof {
                if raw != VAR_TYPE_CONTINUOUS {
                    assert(self.kinds()[old_kinds.len() as int] != VAR_TYPE_CONTINUOUS);
                } else {
                    let i = choose|i: int|
                        0 <= i < old_kinds.len() && #[trigger] old_kinds[i] != VAR_TYPE_CONTINUOUS;
                    assert(self.kinds()[i] != VAR_TYPE_CONTINUOUS);
                }
            }
        }
        self.colcost.push(col_factor);
        self.collower.push(low);
        self.colupper.push(high);
        assert(self.kinds() =~= old_kinds.push(raw));
    }

    /// Updates the cost of a column
    pub fn change_column_cost(&mut self, col: Col, cost: V)
        requires
            col.spec_index() < old(self).spec_num_cols(),
        ensures
            final(self).costs() == old(self).costs().update(col.spec_index() as int, cost),
            final(self).col_lower() == old(self).col_lower(),
            final(self).col_upper() == old(self).col_upper(),
            final(self).row_lower() == old(self).row_lower(),
            final(self).row_upper() == old(self).row_upper(),
            final(self).kinds() == old(self).kinds(),
            final(self).has_integrality() == old(self).has_integrality(),
            final(self).matrix() == old(self).matrix(),
            old(self).base_wf() ==> final(self).base_wf(),
    {
        self.colcost[col.index()] = cost;
    }

    /// Updates the bounds of a column
    pub fn change_column_bounds(&mut self, col: Col, low: Option<V>, high: Option<V>)
        requires
            old(self).base_wf(),
            col.spec_index() < old(self).spec_num_cols(),
        ensures
            final(self).col_lower() == old(self).col_lower().update(col.spec_index() as int, low),
            final(self).col_upper() == old(self).col_upper().update(col.spec_index() as int, high),
            final(self).costs() == old(self).costs(),
            final(self).row_lower() == old(self).row_lower(),
            final(self).row_upper() == old(self).row_upper(),
            final(self).kinds() == old(self).kinds(),
            final(self).has_integrality() == old(self).has_integrality(),
            final(self).matrix() == old(self).matrix(),
            final(self).base_wf(),
    {
        self.collower[col.index()] = low;
        self.colupper[col.index()] = high;
    }
}

/// The constraint matrix of a problem built constraint by constraint: for
/// each column, the rows in which it appears and its coefficient in each.
#[derive(Debug, Clone, PartialEq)]
pub struct RowMatrix<V> {
    columns: Vec<(Vec<i32>, Vec<V>)>,
}

impl<V> RowMatrix<V> {
    /// The number of columns of the matrix.
    pub closed spec fn num_columns(&self) -> nat {
        self.columns@.len()
    }

    /// The rows in which column `j` has a coefficient, in the order they were given.
    pub closed spec fn column_rows(&self, j: int) -> Seq<i32> {
        self.columns@[j].0@
    }

    /// The coefficients of column `j`, in the same order as its rows.
    pub closed spec fn column_values(&self, j: int) -> Seq<V> {
        self.columns@[j].1@
    }

    /// Each column has as many coefficients as rows, and each of its rows is
    /// one of the `num_rows` rows of the problem.
    pub open spec fn wf(&self, num_rows: nat) -> bool {
        forall|j: int|
            #![trigger self.column_rows(j)]
            0 <= j < self.num_columns() ==> {
                &&& self.column_rows(j).len() == self.column_values(j).len()
                &&& forall|k: int|
                    0 <= k < self.column_rows(j).len() ==> 0 <= #[trigger] self.column_rows(j)[k]
                        < num_rows
            }
    }
}

/// The constraint matrix of a problem built variable by variable, in
/// compressed sparse column form: column `j` has its rows in
/// `aindex[astart[j]..end]` and its coefficients in `avalue[astart[j]..end]`,
/// where `end` is the start of the next column or, for the last column, the
/// number of coefficients.
#[derive(Debug, Clone, PartialEq)]
pub struct ColMatrix<V> {
    astart: Vec<i32>,
    aindex: Vec<i32>,
    avalue: Vec<V>,
}

impl<V> ColMatrix<V> {
    /// Where each column starts among the coefficients.
    pub closed spec fn starts(&self) -> Seq<i32> {
        self.astart@
    }

    /// The row of each coefficient, column after column.
    pub closed spec fn indices(&self) -> Seq<i32> {
        self.aindex@
    }

    /// The coefficients, column after column.
    pub closed spec fn values(&self) -> Seq<V> {
        self.avalue@
    }

    /// The number of columns of the matrix.
    pub open spec fn num_columns(&self) -> nat {
        self.starts().len()
    }

    /// Where column `j` ends among the coefficients.
    pub open spec fn column_end(&self, j: int) -> int {
        if j + 1 < self.starts().len() {
            self.starts()[j + 1] as int
        } else {
            self.indices().len() as int
        }
    }

    /// The rows in which column `j` has a coefficient, in the order they were given.
    pub open spec fn column_rows(&self, j: int) -> Seq<i32> {
        self.indices().subrange(self.starts()[j] as int, self.column_end(j))
    }

    /// The coefficients of column `j`, in the same order as its rows.
    pub open spec fn column_values(&self, j: int) -> Seq<V> {
        self.values().subrange(self.starts()[j] as int, self.column_end(j))
    }

    /// The starts are in order, the first one is zero, and there is one row
    /// per coefficient.
    pub open spec fn wf(&self) -> bool {
        &&& self.indices().len() == self.values().len()
        &&& self.starts().len() > 0 ==> self.starts()[0] == 0
        &&& self.starts().len() == 0 ==> self.indices().len() == 0
        &&& forall|i: int, j: int|
            0 <= i <= j < self.starts().len() ==> 0 <= #[trigger] self.starts()[i]
                <= #[trigger] self.starts()[j] <= self.indices().len()
    }
}

/// The coefficients given for column `j` among `factors`, in order.
pub open spec fn factors_of_col<V>(factors: Seq<(Col, V)>, j: int) -> Seq<V>
    decreases factors.len(),
{
    if factors.len() == 0 {
        Seq::empty()
    } else {
        let rest = factors_of_col(factors.drop_last(), j);
        if factors.last().0.spec_index() == j {
            rest.push(factors.last().1)
        } else {
            rest
        }
    }
}

impl<V> Default for Problem<V, RowMatrix<V>> {
    /// An empty problem.
    fn default() -> (r: Self)
        ensures
            r.wf(),
            r.is_empty(),
            r.matrix().num_columns() == 0,
    {
        let r = Problem {
            colcost: Vec::new(),
            collower: Vec::new(),
            colupper: Vec::new(),
            rowlower: Vec::new(),
            rowupper: Vec::new(),
            integrality: None,
            matrix: RowMatrix { columns: Vec::new() },
        };
        assert(r.kinds() =~= Seq::<i32>::empty());
        r
    }
}

impl<V> Problem<V, RowMatrix<V>> {
    /// The problem is coherent: costs, bounds and kinds agree with each other,
    /// the matrix has one column per variable, and every coefficient is in an
    /// existing row.
    pub open spec fn wf(&self) -> bool {
        &&& self.base_wf()
        &&& self.matrix().num_columns() == self.spec_num_cols()
        &&& self.matrix().wf(self.spec_num_rows())
    }

    /// `self` is `old` with one more column, `col`, of the given cost, bounds
    /// and kind and without any coefficient yet; nothing else changed.
    pub open spec fn is_column_added(
        &self,
        old: &Self,
        col: Col,
        col_factor: V,
        low: Option<V>,
        high: Option<V>,
        kind: Integrality,
    ) -> bool {
        &&& self.wf()
        &&& col.spec_index() == old.spec_num_cols()
        &&& self.costs() == old.costs().push(col_factor)
        &&& self.col_lower() == old.col_lower().push(low)
        &&& self.col_upper() == old.col_upper().push(high)
        &&& self.kinds() == old.kinds().push(kind.spec_raw())
        &&& self.has_integrality() == (old.has_integrality() || kind != Integrality::Continuous)
        &&& self.row_lower() == old.row_lower()
        &&& self.row_upper() == old.row_upper()
        &&& self.spec_num_nonzeros() == old.spec_num_nonzeros()
        &&& self.matrix().num_columns() == old.matrix().num_columns() + 1
        &&& forall|j: int|
            0 <= j < old.spec_num_cols() ==> #[trigger] self.matrix().column_rows(j)
                == old.matrix().column_rows(j) && self.matrix().column_values(j)
                == old.matrix().column_values(j)
        &&& self.matrix().column_rows(col.spec_index() as int) == Seq::<i32>::empty()
        &&& self.matrix().column_values(col.spec_index() as int) == Seq::<V>::empty()
    }
}

impl<V: Copy> Problem<V, RowMatrix<V>> {
    /// Create a new problem instance
    pub fn new() -> (r: Self)
        ensures
            r.wf(),
            r.is_empty(),
            r.matrix().num_columns() == 0,
    {
        Self::default()
    }

    /// Adds a variable with the given cost in the objective function, bounds
    /// and kind, and no coefficient in any constraint yet. Returns the new column.
    pub fn add_column_with_integrality_kind(
        &mut self,
        col_factor: V,
        low: Option<V>,
        high: Option<V>,
        integrality: Integrality,
    ) -> (col: Col)
        requires
            old(self).wf(),
        ensures
            final(self).is_column_added(
                &*old(self),
                col,
                col_factor,
                low,
                high,
                integrality,
            ),
    {
        let col = Col(self.num_cols());
        let ghost old_matrix = self.matrix;
        self.add_column_inner(col_factor, low, high, integrality);
        self.matrix.columns.push((Vec::new(), Vec::new()));
        proof {
            let n = old_matrix.columns@.len() as int;
            RowMatrix::lemma_flat_prefix(&self.matrix, &old_matrix, n);
            assert(self.matrix.flat_rows(n + 1) =~= self.matrix.flat_rows(n));
            assert forall|j: int|
                0 <= j < self.matrix.num_columns() implies #[trigger] self.matrix.column_rows(j).len()
                == self.matrix.column_values(j).len() && forall|k: int|
                0 <= k < self.matrix.column_rows(j).len() ==> 0 <= #[trigger] self.matrix.column_rows(
                j,
            )[k] < self.spec_num_rows() by {
                if j < n {
                    assert(self.matrix.column_rows(j) == old_matrix.column_rows(j));
                }
            }
            assert(self.wf());
        }
        col
    }

    /// Adds a continuous variable. Returns the new column.
    pub fn add_column(&mut self, col_factor: V, low: Option<V>, high: Option<V>) -> (col: Col)
        requires
            old(self).wf(),
        ensures
            final(self).is_column_added(
                &*old(self),
                col,
                col_factor,
                low,
                high,
                Integrality::Continuous,
            ),
    {
        self.add_column_with_integrality_kind(col_factor, low, high, Integrality::Continuous)
    }

    /// Adds an integer variable. Returns the new column.
    pub fn add_integer_column(&mut self, col_factor: V, low: Option<V>, high: Option<V>) -> (col:
        Col)
        requires
            old(self).wf(),
        ensures
            final(self).is_column_added(
                &*old(self),
                col,
                col_factor,
                low,
                high,
                Integrality::Integer,
            ),
    {
        self.add_column_with_integrality_kind(col_factor, low, high, Integrality::Integer)
    }

    /// Adds a variable that is integral when `is_integer` holds and
    /// continuous otherwise. Returns the new column.
    pub fn add_column_with_integrality(
        &mut self,
        col_factor: V,
        low: Option<V>,
        high: Option<V>,
        is_integer: bool,
    ) -> (col: Col)
        requires
            old(self).wf(),
        ensures
            final(self).is_column_added(
                &*old(self),
                col,
                col_factor,
                low,
                high,
                if is_integer {
                    Integrality::Integer
                } else {
                    Integrality::Continuous
                },
            ),
    {
        let kind = Integrality::from(is_integer);
        self.add_column_with_integrality_kind(col_factor, low, high, kind)
    }

    /// Adds a semicontinuous variable: its value is `0` or within its bounds.
    /// Returns the new column.
    pub fn add_semi_continuous_column(
        &mut self,
        col_factor: V,
        low: Option<V>,
        high: Option<V>,
    ) -> (col: Col)
        requires
            old(self).wf(),
        ensures
            final(self).is_column_added(
                &*old(self),
                col,
                col_factor,
                low,
                high,
                Integrality::SemiContinuous,
            ),
    {
        self.add_column_with_integrality_kind(col_factor, low, high, Integrality::SemiContinuous)
    }

    /// Adds a semi-integer variable: its value is `0` or an integer within its
    /// bounds. Returns the new column.
    pub fn add_semi_integer_column(
        &mut self,
        col_factor: V,
        low: Option<V>,
        high: Option<V>,
    ) -> (col: Col)
        requires
            old(self).wf(),
        ensures
            final(self).is_column_added(
                &*old(self),
                col,
                col_factor,
                low,
                high,
                Integrality::SemiInteger,
            ),
    {
        self.add_column_with_integrality_kind(col_factor, low, high, Integrality::SemiInteger)
    }

    /// Adds a constraint with the given bounds on the sum of the coefficients
    /// times the variables in `row_factors`. Returns the new row.
    ///
    /// Each column of `row_factors` must belong to this problem.
    pub fn add_row(&mut self, low: Option<V>, high: Option<V>, row_factors: &[(Col, V)]) -> (row:
        Row)
        requires
            old(self).wf(),
            old(self).spec_num_rows() <= i32::MAX,
            forall|k: int|
                0 <= k < row_factors@.len() ==> (#[trigger] row_factors@[k]).0.spec_index()
                    < old(self).spec_num_cols(),
        ensures
            final(self).wf(),
            row.spec_index() == old(self).spec_num_rows(),
            final(self).row_lower() == old(self).row_lower().push(low),
            final(self).row_upper() == old(self).row_upper().push(high),
            final(self).costs() == old(self).costs(),
            final(self).col_lower() == old(self).col_lower(),
            final(self).col_upper() == old(self).col_upper(),
            final(self).kinds() == old(self).kinds(),
            final(self).has_integrality() == old(self).has_integrality(),
            final(self).matrix().num_columns() == old(self).matrix().num_columns(),
            forall|j: int|
                0 <= j < old(self).spec_num_cols() ==> {
                    let added = factors_of_col(row_factors@, j);
                    &&& #[trigger] final(self).matrix().column_values(j)
                        == old(self).matrix().column_values(j) + added
                    &&& final(self).matrix().column_rows(j) == old(self).matrix().column_rows(j)
                        + Seq::new(added.len(), |k: int| row.spec_index())
                },
    {
        let num_rows = self.rowlower.len() as i32;
        let ghost old_matrix = self.matrix;
        let ghost ncols = self.colcost@.len();
        let mut i: usize = 0;
        while i < row_factors.len()
            invariant
                0 <= i <= row_factors@.len(),
                num_rows == old(self).spec_num_rows(),
                self.base_wf(),
                self.colcost@ == old(self).colcost@,
                self.collower@ == old(self).collower@,
                self.colupper@ == old(self).colupper@,
                self.rowlower@ == old(self).rowlower@,
                self.rowupper@ == old(self).rowupper@,
                self.integrality == old(self).integrality,
                ncols == self.colcost@.len(),
                self.matrix.columns@.len() == ncols,
                old_matrix.columns@.len() == ncols,
                old_matrix.wf(num_rows as nat),
                forall|k: int|
                    0 <= k < row_factors@.len() ==> (#[trigger] row_factors@[k]).0.spec_index()
                        < ncols,
                forall|j: int|
                    #![trigger self.matrix.columns@[j]]
                    0 <= j < ncols ==> {
                        let added = factors_of_col(row_factors@.take(i as int), j);
                        &&& self.matrix.columns@[j].1@ == old_matrix.columns@[j].1@ + added
                        &&& self.matrix.columns@[j].0@ == old_matrix.columns@[j].0@ + Seq::new(
                            added.len(),
                            |k: int| num_rows,
                        )
                    },
            decreases row_factors@.len() - i,
        {
            let (col, factor) = row_factors[i];
            let c = col.0;
            let ghost before = self.matrix.columns@;
            self.matrix.columns[c].0.push(num_rows);
            self.matrix.columns[c].1.push(factor);
            proof {
                assert(row_factors@.take(i + 1).drop_last() =~= row_factors@.take(i as int));
                assert forall|j: int|
                    #![trigger self.matrix.columns@[j]]
                    0 <= j < ncols implies {
                        let added = factors_of_col(row_factors@.take(i + 1), j);
                        &&& self.matrix.columns@[j].1@ == old_matrix.columns@[j].1@ + added
                        &&& self.matrix.columns@[j].0@ == old_matrix.columns@[j].0@ + Seq::new(
                            added.len(),
                            |k: int| num_rows,
                        )
                    } by {
                    let prev = factors_of_col(row_factors@.take(i as int), j);
                    let added = factors_of_col(row_factors@.take(i + 1), j);
                    if j == c {
                        assert(added == prev.push(factor));
                        assert(self.matrix.columns@[j].1@ =~= old_matrix.columns@[j].1@ + added);
                        assert(self.matrix.columns@[j].0@ =~= old_matrix.columns@[j].0@
                            + Seq::new(added.len(), |k: int| num_rows));
                    } else {
                        assert(added == prev);
                        assert(self.matrix.columns@[j] == before[j]);
                    }
                }
            }
            i += 1;
        }
        proof {
            assert(row_factors@.take(row_factors@.len() as int) =~= row_factors@);
        }
        let row = self.add_row_inner(low, high);
        proof {
            assert forall|j: int|
                #![trigger self.matrix.column_rows(j)]
                0 <= j < self.matrix.num_columns() implies {
                &&& self.matrix.column_rows(j).len() == self.matrix.column_values(j).len()
                &&& forall|k: int|
                    0 <= k < self.matrix.column_rows(j).len() ==> 0
                        <= #[trigger] self.matrix.column_rows(j)[k] < self.rowlower@.len()
            } by {
                let oc = old_matrix.column_rows(j);
                assert(old_matrix.column_rows(j).len() == old_matrix.column_values(j).len());
                assert forall|k: int|
                    0 <= k < self.matrix.column_rows(j).len() implies 0
                        <= #[trigger] self.matrix.column_rows(j)[k] < self.rowlower@.len() by {
                    if k < oc.len() {
                        assert(self.matrix.column_rows(j)[k] == oc[k]);
                    }
                }
            }
        }
        row
    }
}

impl<V> Default for Problem<V, ColMatrix<V>> {
    /// An empty problem.
    fn default() -> (r: Self)
        ensures
            r.wf(),
            r.is_empty(),
            r.matrix().starts() == Seq::<i32>::empty(),
            r.matrix().indices() == Seq::<i32>::empty(),
            r.matrix().values() == Seq::<V>::empty(),
    {
        let r = Problem {
            colcost: Vec::new(),
            collower: Vec::new(),
            colupper: Vec::new(),
            rowlower: Vec::new(),
            rowupper: Vec::new(),
            integrality: None,
            matrix: ColMatrix { astart: Vec::new(), aindex: Vec::new(), avalue: Vec::new() },
        };
        assert(r.kinds() =~= Seq::<i32>::empty());
        r
    }
}

/// The rows named in a list of `(row, coefficient)` pairs, in order.
pub open spec fn rows_of<V>(factors: Seq<(Row, V)>) -> Seq<i32> {
    factors.map_values(|p: (Row, V)| p.0.spec_index())
}

/// The coefficients of a list of `(row, coefficient)` pairs, in order.
pub open spec fn values_of<V>(factors: Seq<(Row, V)>) -> Seq<V> {
    factors.map_values(|p: (Row, V)| p.1)
}

impl<V> Problem<V, ColMatrix<V>> {
    /// The problem is coherent: costs, bounds and kinds agree with each other,
    /// and the matrix has one column per variable in compressed sparse
    /// column form.
    pub open spec fn wf(&self) -> bool {
        &&& self.base_wf()
        &&& self.matrix().num_columns() == self.spec_num_cols()
        &&& self.matrix().wf()
    }

    /// The number of coefficients stored in the matrix.
    pub open spec fn spec_num_nonzeros(&self) -> nat {
        self.matrix().indices().len()
    }

    /// `self` is `old` with one more column, of the given cost, bounds and
    /// kind, whose coefficients are `row_factors`; nothing else changed.
    pub open spec fn is_column_added(
        &self,
        old: &Self,
        col_factor: V,
        low: Option<V>,
        high: Option<V>,
        kind: Integrality,
        row_factors: Seq<(Row, V)>,
    ) -> bool {
        &&& self.wf()
        &&& self.costs() == old.costs().push(col_factor)
        &&& self.col_lower() == old.col_lower().push(low)
        &&& self.col_upper() == old.col_upper().push(high)
        &&& self.kinds() == old.kinds().push(kind.spec_raw())
        &&& self.has_integrality() == (old.has_integrality() || kind != Integrality::Continuous)
        &&& self.row_lower() == old.row_lower()
        &&& self.row_upper() == old.row_upper()
        &&& self.spec_num_nonzeros() == old.spec_num_nonzeros() + row_factors.len()
        &&& self.matrix().num_columns() == old.matrix().num_columns() + 1
        &&& forall|j: int|
            0 <= j < old.spec_num_cols() ==> #[trigger] self.matrix().column_rows(j)
                == old.matrix().column_rows(j) && self.matrix().column_values(j)
                == old.matrix().column_values(j)
        &&& self.matrix().column_rows(old.spec_num_cols() as int) == rows_of(row_factors)
        &&& self.matrix().column_values(old.spec_num_cols() as int) == values_of(row_factors)
    }
}

impl<V: Copy> Problem<V, ColMatrix<V>> {
    /// Create a new problem instance
    pub fn new() -> (r: Self)
        ensures
            r.wf(),
            r.is_empty(),
            r.matrix().starts() == Seq::<i32>::empty(),
            r.matrix().indices() == Seq::<i32>::empty(),
            r.matrix().values() == Seq::<V>::empty(),
    {
        Self::default()
    }

    /// The number of coefficients stored in the matrix.
    pub fn num_nonzeros(&self) -> (n: usize)
        ensures
            n == self.spec_num_nonzeros(),
    {
        self.matrix.aindex.len()
    }

    /// Where each column starts among the coefficients of the matrix.
    pub fn col_starts(&self) -> (r: &[i32])
        ensures
            r@ == self.matrix().starts(),
    {
        self.matrix.astart.as_slice()
    }

    /// The row of each coefficient of the matrix, column after column.
    pub fn row_indices(&self) -> (r: &[i32])
        ensures
            r@ == self.matrix().indices(),
    {
        self.matrix.aindex.as_slice()
    }

    /// The coefficients of the matrix, column after column.
    pub fn coefficients(&self) -> (r: &[V])
        ensures
            r@ == self.matrix().values(),
    {
        self.matrix.avalue.as_slice()
    }

    /// Adds a constraint with the given bounds. Variables added later give
    /// their coefficient in it. Returns the new row.
    pub fn add_row(&mut self, low: Option<V>, high: Option<V>) -> (row: Row)
        requires
            old(self).wf(),
            old(self).spec_num_rows() <= i32::MAX,
        ensures
            final(self).wf(),
            row.spec_index() == old(self).spec_num_rows(),
            final(self).row_lower() == old(self).row_lower().push(low),
            final(self).row_upper() == old(self).row_upper().push(high),
            final(self).costs() == old(self).costs(),
            final(self).col_lower() == old(self).col_lower(),
            final(self).col_upper() == old(self).col_upper(),
            final(self).kinds() == old(self).kinds(),
            final(self).has_integrality() == old(self).has_integrality(),
            final(self).matrix() == old(self).matrix(),
    {
        self.add_row_inner(low, high)
    }

    /// Adds a variable with the given cost in the objective function, bounds,
    /// coefficients in existing constraints, and kind.
    pub fn add_column_with_integrality_kind(
        &mut self,
        col_factor: V,
        low: Option<V>,
        high: Option<V>,
        row_factors: &[(Row, V)],
        integrality: Integrality,
    )
        requires
            old(self).wf(),
            old(self).spec_num_nonzeros() <= i32::MAX,
        ensures
            final(self).is_column_added(
                &*old(self),
                col_factor,
                low,
                high,
                integrality,
                row_factors@,
            ),
    {
        let ghost old_matrix = self.matrix;
        let start = self.matrix.aindex.len() as i32;
        self.matrix.astart.push(start);
        let mut i: usize = 0;
        while i < row_factors.len()
            invariant
                0 <= i <= row_factors@.len(),
                self.base_wf(),
                self.colcost@ == old(self).colcost@,
                self.collower@ == old(self).collower@,
                self.colupper@ == old(self).colupper@,
                self.rowlower@ == old(self).rowlower@,
                self.rowupper@ == old(self).rowupper@,
                self.integrality == old(self).integrality,
                old_matrix == old(self).matrix,
                self.matrix.astart@ == old_matrix.astart@.push(start),
                start == old_matrix.aindex@.len(),
                self.matrix.aindex@ == old_matrix.aindex@ + rows_of(row_factors@.take(i as int)),
                self.matrix.avalue@ == old_matrix.avalue@ + values_of(row_factors@.take(i as int)),
                old_matrix.aindex@.len() == old_matrix.avalue@.len(),
            decreases row_factors@.len() - i,
        {
            let (row, factor) = row_factors[i];
            self.matrix.aindex.push(row.0);
            self.matrix.avalue.push(factor);
            proof {
                assert(rows_of(row_factors@.take(i + 1)) =~= rows_of(row_factors@.take(i as int)).push(row.spec_index()));
                assert(values_of(row_factors@.take(i + 1)) =~= values_of(row_factors@.take(i as int)).push(factor));
            }
            i += 1;
        }
        proof {
            assert(row_factors@.take(row_factors@.len() as int) =~= row_factors@);
        }
        self.add_column_inner(col_factor, low, high, integrality);
        proof {
            let n = old_matrix.astart@.len() as int;
            let m = self.matrix;
            assert forall|j: int| 0 <= j < n implies #[trigger] m.column_rows(j)
                == old_matrix.column_rows(j) && m.column_values(j) == old_matrix.column_values(j) by {
                assert(m.column_end(j) == old_matrix.column_end(j));
                assert(m.column_rows(j) =~= old_matrix.column_rows(j));
                assert(m.column_values(j) =~= old_matrix.column_values(j));
            }
            assert(m.column_rows(n) =~= rows_of(row_factors@));
            assert(m.column_values(n) =~= values_of(row_factors@));
            assert forall|a: int, b: int|
                0 <= a <= b < m.astart@.len() implies 0 <= #[trigger] m.astart@[a]
                <= #[trigger] m.astart@[b] <= m.aindex@.len() by {
                if b < n {
                    assert(old_matrix.astart@[a] <= old_matrix.astart@[b]);
                }
                if a < n {
                    assert(0 <= old_matrix.astart@[a]);
                }
            }
        }
    }

    /// Adds a continuous variable with its coefficients in existing constraints.
    pub fn add_column(&mut self, col_factor: V, low: Option<V>, high: Option<V>, row_factors: &[(
        Row,
        V,
    )])
        requires
            old(self).wf(),
            old(self).spec_num_nonzeros() <= i32::MAX,
        ensures
            final(self).is_column_added(
                &*old(self),
                col_factor,
                low,
                high,
                Integrality::Continuous,
                row_factors@,
            ),
    {
        self.add_column_with_integrality_kind(
            col_factor,
            low,
            high,
            row_factors,
            Integrality::Continuous,
        )
    }

    /// Adds an integer variable with its coefficients in existing constraints.
    pub fn add_integer_column(
        &mut self,
        col_factor: V,
        low: Option<V>,
        high: Option<V>,
        row_factors: &[(Row, V)],
    )
        requires
            old(self).wf(),
            old(self).spec_num_nonzeros() <= i32::MAX,
        ensures
            final(self).is_column_added(
                &*old(self),
                col_factor,
                low,
                high,
                Integrality::Integer,
                row_factors@,
            ),
    {
        self.add_column_with_integrality_kind(
            col_factor,
            low,
            high,
            row_factors,
            Integrality::Integer,
        )
    }

    /// Adds a variable that is integral when `is_integer` holds and
    /// continuous otherwise, with its coefficients in existing constraints.
    pub fn add_column_with_integrality(
        &mut self,
        col_factor: V,
        low: Option<V>,
        high: Option<V>,
        row_factors: &[(Row, V)],
        is_integer: bool,
    )
        requires
            old(self).wf(),
            old(self).spec_num_nonzeros() <= i32::MAX,
        ensures
            final(self).is_column_added(
                &*old(self),
                col_factor,
                low,
                high,
                if is_integer {
                    Integrality::Integer
                } else {
                    Integrality::Continuous
                },
                row_factors@,
            ),
    {
        let kind = Integrality::from(is_integer);
        self.add_column_with_integrality_kind(col_factor, low, high, row_factors, kind)
    }

    /// Adds a semicontinuous variable, whose value is `0` or within its
    /// bounds, with its coefficients in existing constraints.
    pub fn add_semi_continuous_column(
        &mut self,
        col_factor: V,
        low: Option<V>,
        high: Option<V>,
        row_factors: &[(Row, V)],
    )
        requires
            old(self).wf(),
            old(self).spec_num_nonzeros() <= i32::MAX,
        ensures
            final(self).is_column_added(
                &*old(self),
                col_factor,
                low,
                high,
                Integrality::SemiContinuous,
                row_factors@,
            ),
    {
        self.add_column_with_integrality_kind(
            col_factor,
            low,
            high,
            row_factors,
            Integrality::SemiContinuous,
        )
    }

    /// Adds a semi-integer variable, whose value is `0` or an integer within
    /// its bounds, with its coefficients in existing constraints.
    pub fn add_semi_integer_column(
        &mut self,
        col_factor: V,
        low: Option<V>,
        high: Option<V>,
        row_factors: &[(Row, V)],
    )
        requires
            old(self).wf(),
            old(self).spec_num_nonzeros() <= i32::MAX,
        ensures
            final(self).is_column_added(
                &*old(self),
                col_factor,
                low,
                high,
                Integrality::SemiInteger,
                row_factors@,
            ),
    {
        self.add_column_with_integrality_kind(
            col_factor,
            low,
            high,
            row_factors,
            Integrality::SemiInteger,
        )
    }
}

impl<V> RowMatrix<V> {
    /// The rows of the first `k` columns, one column after the other.
    pub open spec fn flat_rows(&self, k: int) -> Seq<i32>
        decreases k,
    {
        if k <= 0 {
            Seq::empty()
        } else {
            self.flat_rows(k - 1) + self.column_rows(k - 1)
        }
    }

    /// The coefficients of the first `k` columns, one column after the other.
    pub open spec fn flat_values(&self, k: int) -> Seq<V>
        decreases k,
    {
        if k <= 0 {
            Seq::empty()
        } else {
            self.flat_values(k - 1) + self.column_values(k - 1)
        }
    }

    proof fn lemma_flat_prefix(a: &Self, b: &Self, k: int)
        requires
            0 <= k <= a.columns@.len(),
            k <= b.columns@.len(),
            forall|i: int| 0 <= i < k ==> a.columns@[i] == b.columns@[i],
        ensures
            a.flat_rows(k) == b.flat_rows(k),
            a.flat_values(k) == b.flat_values(k),
        decreases k,
    {
        if k > 0 {
            Self::lemma_flat_prefix(a, b, k - 1);
        }
    }

    proof fn lemma_flat_lens(&self, num_rows: nat, k: int)
        requires
            self.wf(num_rows),
            0 <= k <= self.columns@.len(),
        ensures
            self.flat_values(k).len() == self.flat_rows(k).len(),
        decreases k,
    {
        if k > 0 {
            self.lemma_flat_lens(num_rows, k - 1);
            assert(self.column_rows(k - 1).len() == self.column_values(k - 1).len());
        }
    }

    proof fn lemma_flat_monotonic(&self, i: int, k: int)
        requires
            0 <= i <= k,
        ensures
            self.flat_rows(i).len() <= self.flat_rows(k).len(),
            self.flat_rows(k).subrange(0, self.flat_rows(i).len() as int) == self.flat_rows(i),
            self.flat_values(i).len() <= self.flat_values(k).len(),
            self.flat_values(k).subrange(0, self.flat_values(i).len() as int) == self.flat_values(i),
        decreases k - i,
    {
        if i < k {
            self.lemma_flat_monotonic(i, k - 1);
            assert(self.flat_rows(k).subrange(0, self.flat_rows(i).len() as int)
                =~= self.flat_rows(k - 1).subrange(0, self.flat_rows(i).len() as int));
            assert(self.flat_values(k).subrange(0, self.flat_values(i).len() as int)
                =~= self.flat_values(k - 1).subrange(0, self.flat_values(i).len() as int));
        } else {
            assert(self.flat_rows(k).subrange(0, self.flat_rows(i).len() as int) =~= self.flat_rows(i));
            assert(self.flat_values(k).subrange(0, self.flat_values(i).len() as int) =~= self.flat_values(i));
        }
    }

    proof fn lemma_flat_column(&self, j: int, k: int)
        requires
            0 <= j < k,
        ensures
            self.flat_rows(k).subrange(
                self.flat_rows(j).len() as int,
                self.flat_rows(j + 1).len() as int,
            ) == self.columns@[j].0@,
            self.flat_values(k).subrange(
                self.flat_values(j).len() as int,
                self.flat_values(j + 1).len() as int,
            ) == self.columns@[j].1@,
    {
        self.lemma_flat_monotonic(j + 1, k);
        let a = self.flat_rows(j).len() as int;
        let b = self.flat_rows(j + 1).len() as int;
        assert(self.flat_rows(k).subrange(a, b) =~= self.flat_rows(j + 1).subrange(a, b));
        assert(self.flat_rows(j + 1).subrange(a, b) =~= self.columns@[j].0@);
        let c = self.flat_values(j).len() as int;
        let d = self.flat_values(j + 1).len() as int;
        assert(self.flat_values(k).subrange(c, d) =~= self.flat_values(j + 1).subrange(c, d));
        assert(self.flat_values(j + 1).subrange(c, d) =~= self.columns@[j].1@);
    }
}

impl<V> Problem<V, RowMatrix<V>> {
    /// The number of coefficients stored in the matrix.
    pub open spec fn spec_num_nonzeros(&self) -> nat {
        self.matrix().flat_rows(self.matrix().num_columns() as int).len()
    }

    /// Where each column will start among the coefficients of the column-wise
    /// form fits in HiGHS' integer type.
    pub open spec fn starts_fit(&self) -> bool {
        forall|j: int|
            0 <= j < self.matrix().num_columns() ==> #[trigger] self.matrix().flat_rows(j).len()
                <= i32::MAX
    }
}

impl<V: Copy> Problem<V, ColMatrix<V>> {
    /// Whether the start of each column of `pb` in column-wise form fits in
    /// HiGHS' integer type, which its conversion to a column-wise problem needs.
    pub fn starts_fit(pb: &Problem<V, RowMatrix<V>>) -> (b: bool)
        requires
            pb.wf(),
        ensures
            b == pb.starts_fit(),
    {
        let n = pb.matrix.columns.len();
        let mut total: usize = 0;
        let mut j: usize = 0;
        while j < n
            invariant
                n == pb.matrix.columns@.len(),
                0 <= j <= n,
                total == pb.matrix.flat_rows(j as int).len(),
                total <= i32::MAX,
                forall|i: int| 0 <= i <= j ==> #[trigger] pb.matrix.flat_rows(i).len() <= i32::MAX,
            decreases n - j,
        {
            if j + 1 == n {
                return true;
            }
            let len = pb.matrix.columns[j].0.len();
            if len > (i32::MAX as usize) - total {
                assert(pb.matrix().flat_rows(j + 1).len() > i32::MAX);
                return false;
            }
            total = total + len;
            j = j + 1;
        }
        true
    }

    /// Converts a problem built constraint by constraint into one built
    /// variable by variable: the costs, bounds and kinds are kept, and each
    /// column keeps its rows and coefficients, in the same order. This takes
    /// time proportional to the size of the problem.
    pub fn from_row_problem(pb: Problem<V, RowMatrix<V>>) -> (r: Self)
        requires
            pb.wf(),
            pb.starts_fit(),
        ensures
            r.wf(),
            r.costs() == pb.costs(),
            r.col_lower() == pb.col_lower(),
            r.col_upper() == pb.col_upper(),
            r.row_lower() == pb.row_lower(),
            r.row_upper() == pb.row_upper(),
            r.kinds() == pb.kinds(),
            r.has_integrality() == pb.has_integrality(),
            r.spec_num_nonzeros() == pb.spec_num_nonzeros(),
            r.matrix().num_columns() == pb.matrix().num_columns(),
            r.matrix().starts() == Seq::new(
                pb.matrix().num_columns(),
                |j: int| pb.matrix().flat_rows(j).len() as i32,
            ),
            r.matrix().indices() == pb.matrix().flat_rows(pb.matrix().num_columns() as int),
            r.matrix().values() == pb.matrix().flat_values(pb.matrix().num_columns() as int),
            forall|j: int|
                0 <= j < pb.spec_num_cols() ==> #[trigger] r.matrix().column_rows(j)
                    == pb.matrix().column_rows(j) && r.matrix().column_values(j)
                    == pb.matrix().column_values(j),
    {
        let n = pb.matrix.columns.len();
        let ghost m = pb.matrix;
        let ghost nrows = pb.rowlower@.len();
        let mut astart: Vec<i32> = Vec::new();
        let mut aindex: Vec<i32> = Vec::new();
        let mut avalue: Vec<V> = Vec::new();
        let mut j: usize = 0;
        while j < n
            invariant
                n == m.columns@.len(),
                m == pb.matrix,
                m.wf(nrows),
                forall|i: int| 0 <= i < n ==> #[trigger] m.flat_rows(i).len() <= i32::MAX,
                0 <= j <= n,
                astart@.len() == j,
                aindex@ == m.flat_rows(j as int),
                avalue@ == m.flat_values(j as int),
                forall|i: int| 0 <= i < j ==> #[trigger] astart@[i] == m.flat_rows(i).len(),
            decreases n - j,
        {
            proof {
                m.lemma_flat_monotonic(j as int, n as int);
            }
            astart.push(aindex.len() as i32);
            let col = &pb.matrix.columns[j];
            assert(m.column_rows(j as int).len() == m.column_values(j as int).len());
            let mut k: usize = 0;
            while k < col.0.len()
                invariant
                    col == m.columns@[j as int],
                    col.0@.len() == col.1@.len(),
                    0 <= k <= col.0@.len(),
                    aindex@ == m.flat_rows(j as int) + col.0@.take(k as int),
                    avalue@ == m.flat_values(j as int) + col.1@.take(k as int),
                decreases col.0@.len() - k,
            {
                aindex.push(col.0[k]);
                avalue.push(col.1[k]);
                proof {
                    assert(col.0@.take(k + 1) =~= col.0@.take(k as int).push(col.0@[k as int]));
                    assert(col.1@.take(k + 1) =~= col.1@.take(k as int).push(col.1@[k as int]));
                }
                k = k + 1;
            }
            proof {
                assert(col.0@.take(k as int) =~= col.0@);
                assert(col.1@.take(k as int) =~= col.1@);
            }
            j = j + 1;
        }
        let r = Problem {
            colcost: pb.colcost,
            collower: pb.collower,
            colupper: pb.colupper,
            rowlower: pb.rowlower,
            rowupper: pb.rowupper,
            integrality: pb.integrality,
            matrix: ColMatrix { astart, aindex, avalue },
        };
        proof {
            m.lemma_flat_lens(nrows, n as int);
            let cm = r.matrix;
            assert forall|a: int, b: int|
                0 <= a <= b < cm.astart@.len() implies 0 <= #[trigger] cm.astart@[a]
                <= #[trigger] cm.astart@[b] <= cm.aindex@.len() by {
                m.lemma_flat_monotonic(a, b);
                m.lemma_flat_monotonic(b, n as int);
            }
            assert forall|jj: int| 0 <= jj < n implies #[trigger] cm.column_rows(jj)
                == m.column_rows(jj) && cm.column_values(jj) == m.column_values(jj) by {
                m.lemma_flat_column(jj, n as int);
                m.lemma_flat_lens(nrows, jj);
                m.lemma_flat_lens(nrows, jj + 1);
                assert(cm.column_end(jj) == m.flat_rows(jj + 1).len());
            }
        }
        r
    }
}

proof fn lemma_col_matrix_prefixes<V>(a: ColMatrix<V>, b: ColMatrix<V>, j: int)
    requires
        a.wf(),
        b.wf(),
        a.num_columns() == b.num_columns(),
        0 <= j < a.num_columns(),
        forall|i: int|
            0 <= i < a.num_columns() ==> #[trigger] a.column_rows(i) == b.column_rows(i)
                && a.column_values(i) == b.column_values(i),
    ensures
        a.starts()[j] == b.starts()[j],
        a.column_end(j) == b.column_end(j),
        a.indices().subrange(0, a.column_end(j)) == b.indices().subrange(0, b.column_end(j)),
        a.values().subrange(0, a.column_end(j)) == b.values().subrange(0, b.column_end(j)),
    decreases j,
{
    let n = a.num_columns() as int;
    assert(a.column_rows(j) == b.column_rows(j));
    if j + 1 < n {
        assert(a.starts()[j] <= a.starts()[j + 1]);
        assert(b.starts()[j] <= b.starts()[j + 1]);
    }
    assert(0 <= a.starts()[j] <= a.column_end(j) <= a.indices().len());
    assert(0 <= b.starts()[j] <= b.column_end(j) <= b.indices().len());
    if j > 0 {
        lemma_col_matrix_prefixes(a, b, j - 1);
        let sa = a.starts()[j] as int;
        let ea = a.column_end(j);
        assert(a.indices().subrange(0, ea) =~= a.indices().subrange(0, sa) + a.column_rows(j));
        assert(b.indices().subrange(0, ea) =~= b.indices().subrange(0, sa) + b.column_rows(j));
        assert(a.values().subrange(0, ea) =~= a.values().subrange(0, sa) + a.column_values(j));
        assert(b.values().subrange(0, ea) =~= b.values().subrange(0, sa) + b.column_values(j));
    } else {
        assert(a.indices().subrange(0, a.column_end(0)) =~= a.column_rows(0));
        assert(b.indices().subrange(0, b.column_end(0)) =~= b.column_rows(0));
        assert(a.values().subrange(0, a.column_end(0)) =~= a.column_values(0));
        assert(b.values().subrange(0, b.column_end(0)) =~= b.column_values(0));
    }
}

/// A matrix in compressed sparse column form is determined by its columns:
/// two such matrices with the same rows and coefficients in each column have
/// the same starts, row indices and coefficients. In particular a problem
/// built constraint by constraint and then converted, and the same problem
/// built variable by variable, hand the same arrays to HiGHS.
pub proof fn lemma_col_matrix_determined_by_columns<V>(a: ColMatrix<V>, b: ColMatrix<V>)
    requires
        a.wf(),
        b.wf(),
        a.num_columns() == b.num_columns(),
        forall|i: int|
            0 <= i < a.num_columns() ==> #[trigger] a.column_rows(i) == b.column_rows(i)
                && a.column_values(i) == b.column_values(i),
    ensures
        a.starts() == b.starts(),
        a.indices() == b.indices(),
        a.values() == b.values(),
{
    let n = a.num_columns() as int;
    if n > 0 {
        assert forall|j: int| 0 <= j < n implies a.starts()[j] == b.starts()[j] by {
            lemma_col_matrix_prefixes(a, b, j);
        }
        lemma_col_matrix_prefixes(a, b, n - 1);
        assert(a.indices().subrange(0, a.column_end(n - 1)) =~= a.indices());
        assert(b.indices().subrange(0, b.column_end(n - 1)) =~= b.indices());
        assert(a.values().subrange(0, a.column_end(n - 1)) =~= a.values());
        assert(b.values().subrange(0, b.column_end(n - 1)) =~= b.values());
        assert(a.starts() =~= b.starts());
    } else {
        assert(a.starts() =~= b.starts());
        assert(a.indices() =~= b.indices());
        assert(a.values() =~= b.values());
    }
}

/// A problem holds an integrality array exactly when one of its columns is not
/// continuous, and the array then has one code per column: a pure linear
/// problem is handed to HiGHS as such.
pub proof fn lemma_integrality_iff_not_all_continuous<V, MATRIX>(p: Problem<V, MATRIX>)
    requires
        p.base_wf(),
    ensures
        p.has_integrality() <==> exists|i: int|
            0 <= i < p.spec_num_cols() && #[trigger] p.kinds()[i] != VAR_TYPE_CONTINUOUS,
        p.kinds().len() == p.spec_num_cols(),
{
}

} // verus!
