//! The compressed sparse column form of a quadratic objective Hessian `Q`,
//! built from its columns, each given as `(row index, coefficient)` pairs.
//!
//! A row index is given as `Some(i)` when it fits in HiGHS' integer type and
//! as `None` when it does not.
use vstd::prelude::*;

use crate::model::HessianError;
use crate::status::{try_handle_status, HighsStatus};

verus! {

/// The number of coefficients in the first `j` columns.
pub open spec fn entries_before<V>(columns: Seq<Vec<(Option<i32>, V)>>, j: int) -> nat
    decreases j,
{
    if j <= 0 {
        0
    } else {
        entries_before(columns, j - 1) + columns[j - 1]@.len()
    }
}

/// The position of the first coefficient of `column`, from position `k` on,
/// whose row index does not fit in HiGHS' integer type; the length of the
/// column if there is none.
pub open spec fn first_bad_index_from<V>(column: Seq<(Option<i32>, V)>, k: int) -> int
    decreases column.len() - k,
{
    if k < 0 || k >= column.len() {
        column.len() as int
    } else if column[k].0 is None {
        k
    } else {
        first_bad_index_from(column, k + 1)
    }
}

/// The first error met when the columns are read in order from column `j`
/// on: a column that starts past the largest count HiGHS accepts, or a row
/// index that does not fit, whichever comes first.
pub open spec fn first_error_from<V>(columns: Seq<Vec<(Option<i32>, V)>>, j: int) -> Option<
    HessianError,
>
    decreases columns.len() - j,
{
    if j < 0 || j >= columns.len() {
        None
    } else if entries_before(columns, j) > i32::MAX {
        Some(HessianError::TooManyNonZeros { nnz: entries_before(columns, j) as usize })
    } else if first_bad_index_from(columns[j]@, 0) < columns[j]@.len() {
        Some(
            HessianError::IndexTooLarge {
                entry: (entries_before(columns, j) + first_bad_index_from(columns[j]@, 0)) as usize,
            },
        )
    } else {
        first_error_from(columns, j + 1)
    }
}

/// The row index of a pair, when it fits.
pub open spec fn row_of<V>(p: (Option<i32>, V)) -> i32 {
    match p.0 {
        Some(i) => i,
        None => 0,
    }
}

/// The row indices of the first `j` columns, one column after the other.
pub open spec fn rows_before<V>(columns: Seq<Vec<(Option<i32>, V)>>, j: int) -> Seq<i32>
    decreases j,
{
    if j <= 0 {
        Seq::empty()
    } else {
        rows_before(columns, j - 1) + columns[j - 1]@.map_values(|p: (Option<i32>, V)| row_of(p))
    }
}

/// The coefficients of the first `j` columns, one column after the other.
pub open spec fn values_before<V>(columns: Seq<Vec<(Option<i32>, V)>>, j: int) -> Seq<V>
    decreases j,
{
    if j <= 0 {
        Seq::empty()
    } else {
        values_before(columns, j - 1) + columns[j - 1]@.map_values(|p: (Option<i32>, V)| p.1)
    }
}

/// A Hessian in compressed sparse column form, as HiGHS takes it.
#[derive(Clone, Debug, PartialEq)]
pub struct HessianCsc<V> {
    /// The number of columns of `Q`.
    pub dim: i32,
    /// The number of stored coefficients.
    pub nnz: i32,
    /// Where each column starts among the coefficients.
    pub start: Vec<i32>,
    /// The row of each coefficient, column after column.
    pub index: Vec<i32>,
    /// The coefficients, column after column.
    pub value: Vec<V>,
}

proof fn lemma_entries_before_monotonic<V>(columns: Seq<Vec<(Option<i32>, V)>>, i: int, j: int)
    requires
        i <= j,
    ensures
        entries_before(columns, i) <= entries_before(columns, j),
    decreases j - i,
{
    if i < j {
        lemma_entries_before_monotonic(columns, i, j - 1);
    }
}

proof fn lemma_before_lens<V>(columns: Seq<Vec<(Option<i32>, V)>>, j: int)
    ensures
        rows_before(columns, j).len() == entries_before(columns, j),
        values_before(columns, j).len() == entries_before(columns, j),
    decreases j,
{
    if j > 0 {
        lemma_before_lens(columns, j - 1);
    }
}

/// A Hessian being laid out in compressed sparse column form, one column
/// and one coefficient at a time, in the order they are read.
pub struct HessianBuilder<V> {
    start: Vec<i32>,
    index: Vec<i32>,
    value: Vec<V>,
}

impl<V: Copy> HessianBuilder<V> {
    /// Where each column read so far starts among the coefficients.
    pub closed spec fn starts(&self) -> Seq<i32> {
        self.start@
    }

    /// The row index of each coefficient read so far.
    pub closed spec fn indices(&self) -> Seq<i32> {
        self.index@
    }

    /// The coefficients read so far.
    pub closed spec fn values(&self) -> Seq<V> {
        self.value@
    }

    /// A builder that has read nothing yet.
    pub fn new() -> (r: Self)
        ensures
            r.starts() == Seq::<i32>::empty(),
            r.indices() == Seq::<i32>::empty(),
            r.values() == Seq::<V>::empty(),
    {
        HessianBuilder { start: Vec::new(), index: Vec::new(), value: Vec::new() }
    }

    /// Starts a new column after the coefficients read so far. Fails, and
    /// changes nothing, when their number does not fit in HiGHS' integer type.
    pub fn start_column(&mut self) -> (r: Result<(), HessianError>)
        ensures
            old(self).indices().len() > i32::MAX ==> {
                &&& r == Err::<(), HessianError>(
                    HessianError::TooManyNonZeros { nnz: old(self).indices().len() as usize },
                )
                &&& *final(self) == *old(self)
            },
            old(self).indices().len() <= i32::MAX ==> {
                &&& r == Ok::<(), HessianError>(())
                &&& final(self).starts() == old(self).starts().push(
                    old(self).indices().len() as i32,
                )
                &&& final(self).indices() == old(self).indices()
                &&& final(self).values() == old(self).values()
            },
    {
        let offset = self.index.len();
        if offset > i32::MAX as usize {
            return Err(HessianError::TooManyNonZeros { nnz: offset });
        }
        self.start.push(offset as i32);
        Ok(())
    }

    /// Adds a coefficient to the current column. Fails, and changes nothing,
    /// when its row index does not fit in HiGHS' integer type (`None`); the
    /// error gives the position the coefficient would have had.
    pub fn push(&mut self, row: Option<i32>, value: V) -> (r: Result<(), HessianError>)
        ensures
            row is None ==> {
                &&& r == Err::<(), HessianError>(
                    HessianError::IndexTooLarge { entry: old(self).indices().len() as usize },
                )
                &&& *final(self) == *old(self)
            },
            row matches Some(i) ==> {
                &&& r == Ok::<(), HessianError>(())
                &&& final(self).starts() == old(self).starts()
                &&& final(self).indices() == old(self).indices().push(i)
                &&& final(self).values() == old(self).values().push(value)
            },
    {
        match row {
            Some(i) => {
                self.index.push(i);
                self.value.push(value);
                Ok(())
            },
            None => Err(HessianError::IndexTooLarge { entry: self.index.len() }),
        }
    }

    /// The Hessian read: `None` when it has no coefficient, as there is
    /// nothing to hand to HiGHS. Otherwise its dimension (the number of columns
    /// read) and its number of coefficients must fit in HiGHS' integer type.
    pub fn finish(self) -> (r: Result<Option<HessianCsc<V>>, HessianError>)
        ensures
            self.values().len() == 0 ==> r == Ok::<Option<HessianCsc<V>>, HessianError>(None),
            self.values().len() > 0 && self.starts().len() > i32::MAX ==> r == Err::<
                Option<HessianCsc<V>>,
                HessianError,
            >(HessianError::DimensionTooLarge { dim: self.starts().len() as usize }),
            self.values().len() > 0 && self.starts().len() <= i32::MAX && self.values().len()
                > i32::MAX ==> r == Err::<Option<HessianCsc<V>>, HessianError>(
                HessianError::TooManyNonZeros { nnz: self.values().len() as usize },
            ),
            self.values().len() > 0 && self.starts().len() <= i32::MAX && self.values().len()
                <= i32::MAX ==> (r matches Ok(Some(csc)) && {
                &&& csc.dim == self.starts().len()
                &&& csc.nnz == self.values().len()
                &&& csc.start@ == self.starts()
                &&& csc.index@ == self.indices()
                &&& csc.value@ == self.values()
            }),
    {
        if self.value.len() == 0 {
            return Ok(None);
        }
        if self.start.len() > i32::MAX as usize {
            return Err(HessianError::DimensionTooLarge { dim: self.start.len() });
        }
        if self.value.len() > i32::MAX as usize {
            return Err(HessianError::TooManyNonZeros { nnz: self.value.len() });
        }
        let dim = self.start.len() as i32;
        let nnz = self.value.len() as i32;
        Ok(Some(HessianCsc { dim, nnz, start: self.start, index: self.index, value: self.value }))
    }
}

/// Lays out a Hessian given column by column in compressed sparse column
/// form. The columns are read in order and the first problem found is
/// returned: a column that starts after more coefficients than HiGHS' integer
/// type can count, or a row index that does not fit in it. A Hessian without
/// any coefficient gives `Ok(None)`: there is nothing to hand to HiGHS. The
/// dimension and the number of coefficients must then fit in HiGHS' integer
/// type.
pub fn hessian_csc<V: Copy>(columns: &[Vec<(Option<i32>, V)>]) -> (r: Result<
    Option<HessianCsc<V>>,
    HessianError,
>)
    ensures
        ({
            let cols = columns@;
            let n = cols.len();
            let total = entries_before(cols, n as int);
            match first_error_from(cols, 0) {
                Some(e) => r == Err::<Option<HessianCsc<V>>, HessianError>(e),
                None => if total == 0 {
                    r == Ok::<Option<HessianCsc<V>>, HessianError>(None)
                } else if n > i32::MAX {
                    r == Err::<Option<HessianCsc<V>>, HessianError>(
                        HessianError::DimensionTooLarge { dim: n as usize },
                    )
                } else if total > i32::MAX {
                    r == Err::<Option<HessianCsc<V>>, HessianError>(
                        HessianError::TooManyNonZeros { nnz: total as usize },
                    )
                } else {
                    r matches Ok(Some(csc)) && {
                        &&& csc.dim == n
                        &&& csc.nnz == total
                        &&& csc.start@ == Seq::new(n, |j: int| entries_before(cols, j) as i32)
                        &&& csc.index@ == rows_before(cols, n as int)
                        &&& csc.value@ == values_before(cols, n as int)
                    }
                },
            }
        }),
{
    let ghost cols = columns@;
    let mut b: HessianBuilder<V> = HessianBuilder::new();
    let mut j: usize = 0;
    while j < columns.len()
        invariant
            cols == columns@,
            0 <= j <= cols.len(),
            first_error_from(cols, 0) == first_error_from(cols, j as int),
            b.starts() == Seq::new(j as nat, |i: int| entries_before(cols, i) as i32),
            b.indices() == rows_before(cols, j as int),
            b.values() == values_before(cols, j as int),
            b.indices().len() == entries_before(cols, j as int),
        decreases cols.len() - j,
    {
        let ghost offset = b.indices().len();
        if let Err(e) = b.start_column() {
            return Err(e);
        }
        let column = &columns[j];
        let mut k: usize = 0;
        while k < column.len()
            invariant
                cols == columns@,
                0 <= j < cols.len(),
                *column == cols[j as int],
                0 <= k <= column@.len(),
                first_bad_index_from(column@, 0) == first_bad_index_from(column@, k as int),
                first_error_from(cols, 0) == first_error_from(cols, j as int),
                offset == entries_before(cols, j as int),
                offset <= i32::MAX,
                b.starts() == Seq::new(j as nat, |i: int| entries_before(cols, i) as i32).push(
                    offset as i32,
                ),
                b.indices() == rows_before(cols, j as int) + column@.take(k as int).map_values(
                    |p: (Option<i32>, V)| row_of(p),
                ),
                b.values() == values_before(cols, j as int) + column@.take(k as int).map_values(
                    |p: (Option<i32>, V)| p.1,
                ),
                b.indices().len() == offset + k,
            decreases column@.len() - k,
        {
            let (i, v) = column[k];
            if let Err(e) = b.push(i, v) {
                return Err(e);
            }
            proof {
                let i = i->Some_0;
                assert(column@.take(k + 1).map_values(|p: (Option<i32>, V)| row_of(p))
                    =~= column@.take(k as int).map_values(|p: (Option<i32>, V)| row_of(p)).push(
                    i,
                ));
                assert(column@.take(k + 1).map_values(|p: (Option<i32>, V)| p.1)
                    =~= column@.take(k as int).map_values(|p: (Option<i32>, V)| p.1).push(v));
                assert(rows_before(cols, j as int) + column@.take(k + 1).map_values(
                    |p: (Option<i32>, V)| row_of(p),
                ) =~= (rows_before(cols, j as int) + column@.take(k as int).map_values(
                    |p: (Option<i32>, V)| row_of(p),
                )).push(i));
                assert(values_before(cols, j as int) + column@.take(k + 1).map_values(
                    |p: (Option<i32>, V)| p.1,
                ) =~= (values_before(cols, j as int) + column@.take(k as int).map_values(
                    |p: (Option<i32>, V)| p.1,
                )).push(v));
            }
            k = k + 1;
        }
        proof {
            assert(column@.take(k as int) =~= column@);
            assert(b.starts() =~= Seq::new(
                (j + 1) as nat,
                |i: int| entries_before(cols, i) as i32,
            ));
        }
        j = j + 1;
    }
    proof {
        lemma_before_lens(cols, cols.len() as int);
    }
    b.finish()
}

/// Reads the status HiGHS returned when the Hessian was handed to it.
pub fn hessian_result(status: i32) -> (r: Result<(), HessianError>)
    requires
        HighsStatus::spec_from_code(status) is Some,
    ensures
        status == HighsStatus::Error.spec_code() ==> r == Err::<(), HessianError>(
            HessianError::Highs(HighsStatus::Error),
        ),
        status != HighsStatus::Error.spec_code() ==> r == Ok::<(), HessianError>(()),
{
    match try_handle_status(status) {
        Ok(_) => Ok(()),
        Err(e) => Err(HessianError::from(e)),
    }
}

/// A Hessian without any coefficient is never an error and leaves the model
/// as it is: whatever its number of columns, nothing is handed to HiGHS.
pub proof fn lemma_empty_hessian_is_noop<V>(columns: Seq<Vec<(Option<i32>, V)>>)
    requires
        entries_before(columns, columns.len() as int) == 0,
    ensures
        first_error_from(columns, 0) is None,
{
    lemma_empty_scan(columns, 0);
}

proof fn lemma_empty_scan<V>(columns: Seq<Vec<(Option<i32>, V)>>, j: int)
    requires
        0 <= j,
        entries_before(columns, columns.len() as int) == 0,
    ensures
        first_error_from(columns, j) is None,
    decreases columns.len() - j,
{
    if j < columns.len() {
        lemma_entries_before_monotonic(columns, j, columns.len() as int);
        lemma_entries_before_monotonic(columns, j + 1, columns.len() as int);
        assert(columns[j]@.len() == 0);
        lemma_empty_scan(columns, j + 1);
    }
}

} // verus!
