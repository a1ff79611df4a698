//! Status codes returned by the HiGHS C API, and how the binding reads them.
use vstd::prelude::*;
use std::num::TryFromIntError;

verus! {

/// A status code that the C API is not documented to return.
#[derive(Clone, Copy, Debug, PartialEq, Eq, Structural)]
pub struct InvalidStatus(pub i32);

/// The status of a call into HiGHS.
#[derive(Clone, Copy, Debug, PartialEq, Eq, Structural, PartialOrd, Ord, Hash)]
pub enum HighsStatus {
    /// The call succeeded.
    OK,
    /// The call succeeded with a warning.
    Warning,
    /// The call failed.
    Error,
}

impl HighsStatus {
    /// The code of this status in the C API.
    pub open spec fn spec_code(self) -> i32 {
        match self {
            HighsStatus::OK => 0,
            HighsStatus::Warning => 1,
            HighsStatus::Error => -1i32,
        }
    }

    /// The status a code stands for, if any.
    pub open spec fn spec_from_code(code: i32) -> Option<HighsStatus> {
        if code == 0 {
            Some(HighsStatus::OK)
        } else if code == 1 {
            Some(HighsStatus::Warning)
        } else if code == -1i32 {
            Some(HighsStatus::Error)
        } else {
            None
        }
    }

    /// The code of this status in the C API.
    pub fn code(self) -> (c: i32)
        ensures
            c == self.spec_code(),
            self == HighsStatus::Error ==> c == -1i32,
            self == HighsStatus::OK ==> c == 0,
            self == HighsStatus::Warning ==> c == 1,
    {
        match self {
            HighsStatus::OK => 0,
            HighsStatus::Warning => 1,
            HighsStatus::Error => -1i32,
        }
    }
}

impl TryFrom<i32> for HighsStatus {
    type Error = InvalidStatus;

    fn try_from(code: i32) -> (r: Result<HighsStatus, InvalidStatus>)
        ensures
            code == -1i32 ==> r == Ok::<HighsStatus, InvalidStatus>(HighsStatus::Error),
            code == 0 ==> r == Ok::<HighsStatus, InvalidStatus>(HighsStatus::OK),
            code == 1 ==> r == Ok::<HighsStatus, InvalidStatus>(HighsStatus::Warning),
            (code < -1i32 || code > 1) ==> r == Err::<HighsStatus, InvalidStatus>(InvalidStatus(code)),
    {
        if code == 0 {
            Ok(HighsStatus::OK)
        } else if code == 1 {
            Ok(HighsStatus::Warning)
        } else if code == -1i32 {
            Ok(HighsStatus::Error)
        } else {
            Err(InvalidStatus(code))
        }
    }
}

impl vstd::std_specs::convert::TryFromSpecImpl<i32> for HighsStatus {
    open spec fn obeys_try_from_spec() -> bool {
        true
    }

    open spec fn try_from_spec(code: i32) -> Result<HighsStatus, InvalidStatus> {
        match HighsStatus::spec_from_code(code) {
            Some(s) => Ok(s),
            None => Err(InvalidStatus(code)),
        }
    }
}

impl From<TryFromIntError> for HighsStatus {
    /// A count that does not fit the target integer type is an error.
    fn from(_e: TryFromIntError) -> (r: HighsStatus) {
        HighsStatus::Error
    }
}

impl vstd::std_specs::convert::FromSpecImpl<TryFromIntError> for HighsStatus {
    open spec fn obeys_from_spec() -> bool {
        true
    }

    open spec fn from_spec(_e: TryFromIntError) -> HighsStatus {
        HighsStatus::Error
    }
}

/// Reads the status code returned by a call into HiGHS: `OK` and `Warning`
/// are successes, `Error` is a failure. The C API returns no other code.
pub fn try_handle_status(status: i32) -> (r: Result<HighsStatus, HighsStatus>)
    requires
        HighsStatus::spec_from_code(status) is Some,
    ensures
        status == 0 ==> r == Ok::<HighsStatus, HighsStatus>(HighsStatus::OK),
        status == 1 ==> r == Ok::<HighsStatus, HighsStatus>(HighsStatus::Warning),
        status == -1 ==> r == Err::<HighsStatus, HighsStatus>(HighsStatus::Error),
{
    if status == 0 {
        Ok(HighsStatus::OK)
    } else if status == 1 {
        Ok(HighsStatus::Warning)
    } else {
        Err(HighsStatus::Error)
    }
}

/// The status of the solution found by the solver.
#[derive(Clone, Copy, Debug, PartialEq, Eq, Structural, PartialOrd, Ord, Hash)]
pub enum HighsSolutionStatus {
    /// There is no solution.
    NoSolution,
    /// The solution is infeasible.
    Infeasible,
    /// The solution is feasible.
    Feasible,
}

impl HighsSolutionStatus {
    /// The code of this solution status in the C API.
    pub open spec fn spec_code(self) -> i32 {
        match self {
            HighsSolutionStatus::NoSolution => 0,
            HighsSolutionStatus::Infeasible => 1,
            HighsSolutionStatus::Feasible => 2,
        }
    }

    /// The solution status a code stands for, if any.
    pub open spec fn spec_from_code(code: i32) -> Option<HighsSolutionStatus> {
        if code == 0 {
            Some(HighsSolutionStatus::NoSolution)
        } else if code == 1 {
            Some(HighsSolutionStatus::Infeasible)
        } else if code == 2 {
            Some(HighsSolutionStatus::Feasible)
        } else {
            None
        }
    }

    /// The code of this solution status in the C API.
    pub fn code(self) -> (c: i32)
        ensures
            c == self.spec_code(),
            self == HighsSolutionStatus::NoSolution ==> c == 0,
            self == HighsSolutionStatus::Infeasible ==> c == 1,
            self == HighsSolutionStatus::Feasible ==> c == 2,
    {
        match self {
            HighsSolutionStatus::NoSolution => 0,
            HighsSolutionStatus::Infeasible => 1,
            HighsSolutionStatus::Feasible => 2,
        }
    }
}

impl TryFrom<i32> for HighsSolutionStatus {
    type Error = InvalidStatus;

    fn try_from(code: i32) -> (r: Result<HighsSolutionStatus, InvalidStatus>)
        ensures
            code == 0 ==> r == Ok::<HighsSolutionStatus, InvalidStatus>(HighsSolutionStatus::NoSolution),
            code == 1 ==> r == Ok::<HighsSolutionStatus, InvalidStatus>(HighsSolutionStatus::Infeasible),
            code == 2 ==> r == Ok::<HighsSolutionStatus, InvalidStatus>(HighsSolutionStatus::Feasible),
            (code < 0 || code > 2) ==> r == Err::<HighsSolutionStatus, InvalidStatus>(InvalidStatus(code)),
    {
        if code == 0 {
            Ok(HighsSolutionStatus::NoSolution)
        } else if code == 1 {
            Ok(HighsSolutionStatus::Infeasible)
        } else if code == 2 {
            Ok(HighsSolutionStatus::Feasible)
        } else {
            Err(InvalidStatus(code))
        }
    }
}

impl vstd::std_specs::convert::TryFromSpecImpl<i32> for HighsSolutionStatus {
    open spec fn obeys_try_from_spec() -> bool {
        true
    }

    open spec fn try_from_spec(code: i32) -> Result<HighsSolutionStatus, InvalidStatus> {
        match HighsSolutionStatus::spec_from_code(code) {
            Some(s) => Ok(s),
            None => Err(InvalidStatus(code)),
        }
    }
}

/// The status of a model, typically after it was solved.
#[derive(Clone, Copy, Debug, PartialEq, Eq, Structural, PartialOrd, Ord, Hash)]
pub enum HighsModelStatus {
    /// No status has been set yet.
    NotSet,
    /// The model could not be loaded.
    LoadError,
    /// The model is invalid.
    ModelError,
    /// Presolve failed.
    PresolveError,
    /// The solver failed.
    SolveError,
    /// Postsolve failed.
    PostsolveError,
    /// The model is empty.
    ModelEmpty,
    /// An optimal solution was found.
    Optimal,
    /// The model is infeasible.
    Infeasible,
    /// The model is unbounded or infeasible.
    UnboundedOrInfeasible,
    /// The model is unbounded.
    Unbounded,
    /// The objective bound was reached.
    ObjectiveBound,
    /// The objective target was reached.
    ObjectiveTarget,
    /// The time limit was reached.
    ReachedTimeLimit,
    /// The iteration limit was reached.
    ReachedIterationLimit,
    /// The solver ended in an unknown state.
    Unknown,
    /// The solution limit was reached.
    ReachedSolutionLimit,
    /// The solver was interrupted.
    ReachedInterrupt,
    /// The memory limit was reached.
    ReachedMemoryLimit,
}

impl HighsModelStatus {
    /// The code of this model status in the C API.
    pub open spec fn spec_code(self) -> i32 {
        match self {
            HighsModelStatus::NotSet => 0,
            HighsModelStatus::LoadError => 1,
            HighsModelStatus::ModelError => 2,
            HighsModelStatus::PresolveError => 3,
            HighsModelStatus::SolveError => 4,
            HighsModelStatus::PostsolveError => 5,
            HighsModelStatus::ModelEmpty => 6,
            HighsModelStatus::Optimal => 7,
            HighsModelStatus::Infeasible => 8,
            HighsModelStatus::UnboundedOrInfeasible => 9,
            HighsModelStatus::Unbounded => 10,
            HighsModelStatus::ObjectiveBound => 11,
            HighsModelStatus::ObjectiveTarget => 12,
            HighsModelStatus::ReachedTimeLimit => 13,
            HighsModelStatus::ReachedIterationLimit => 14,
            HighsModelStatus::Unknown => 15,
            HighsModelStatus::ReachedSolutionLimit => 16,
            HighsModelStatus::ReachedInterrupt => 17,
            HighsModelStatus::ReachedMemoryLimit => 18,
        }
    }

    /// The model status a code stands for, if any.
    pub open spec fn spec_from_code(code: i32) -> Option<HighsModelStatus> {
        if code == 0 {
            Some(HighsModelStatus::NotSet)
        } else if code == 1 {
            Some(HighsModelStatus::LoadError)
        } else if code == 2 {
            Some(HighsModelStatus::ModelError)
        } else if code == 3 {
            Some(HighsModelStatus::PresolveError)
        } else if code == 4 {
            Some(HighsModelStatus::SolveError)
        } else if code == 5 {
            Some(HighsModelStatus::PostsolveError)
        } else if code == 6 {
            Some(HighsModelStatus::ModelEmpty)
        } else if code == 7 {
            Some(HighsModelStatus::Optimal)
        } else if code == 8 {
            Some(HighsModelStatus::Infeasible)
        } else if code == 9 {
            Some(HighsModelStatus::UnboundedOrInfeasible)
        } else if code == 10 {
            Some(HighsModelStatus::Unbounded)
        } else if code == 11 {
            Some(HighsModelStatus::ObjectiveBound)
        } else if code == 12 {
            Some(HighsModelStatus::ObjectiveTarget)
        } else if code == 13 {
            Some(HighsModelStatus::ReachedTimeLimit)
        } else if code == 14 {
            Some(HighsModelStatus::ReachedIterationLimit)
        } else if code == 15 {
            Some(HighsModelStatus::Unknown)
        } else if code == 16 {
            Some(HighsModelStatus::ReachedSolutionLimit)
        } else if code == 17 {
            Some(HighsModelStatus::ReachedInterrupt)
        } else if code == 18 {
            Some(HighsModelStatus::ReachedMemoryLimit)
        } else {
            None
        }
    }

    /// The code of this model status in the C API.
    pub fn code(self) -> (c: i32)
        ensures
            c == self.spec_code(),
            self == HighsModelStatus::NotSet ==> c == 0,
            self == HighsModelStatus::LoadError ==> c == 1,
            self == HighsModelStatus::ModelError ==> c == 2,
            self == HighsModelStatus::PresolveError ==> c == 3,
            self == HighsModelStatus::SolveError ==> c == 4,
            self == HighsModelStatus::PostsolveError ==> c == 5,
            self == HighsModelStatus::ModelEmpty ==> c == 6,
            self == HighsModelStatus::Optimal ==> c == 7,
            self == HighsModelStatus::Infeasible ==> c == 8,
            self == HighsModelStatus::UnboundedOrInfeasible ==> c == 9,
            self == HighsModelStatus::Unbounded ==> c == 10,
            self == HighsModelStatus::ObjectiveBound ==> c == 11,
            self == HighsModelStatus::ObjectiveTarget ==> c == 12,
            self == HighsModelStatus::ReachedTimeLimit ==> c == 13,
            self == HighsModelStatus::ReachedIterationLimit ==> c == 14,
            self == HighsModelStatus::Unknown ==> c == 15,
            self == HighsModelStatus::ReachedSolutionLimit ==> c == 16,
            self == HighsModelStatus::ReachedInterrupt ==> c == 17,
            self == HighsModelStatus::ReachedMemoryLimit ==> c == 18,
    {
        match self {
            HighsModelStatus::NotSet => 0,
            HighsModelStatus::LoadError => 1,
            HighsModelStatus::ModelError => 2,
            HighsModelStatus::PresolveError => 3,
            HighsModelStatus::SolveError => 4,
            HighsModelStatus::PostsolveError => 5,
            HighsModelStatus::ModelEmpty => 6,
            HighsModelStatus::Optimal => 7,
            HighsModelStatus::Infeasible => 8,
            HighsModelStatus::UnboundedOrInfeasible => 9,
            HighsModelStatus::Unbounded => 10,
            HighsModelStatus::ObjectiveBound => 11,
            HighsModelStatus::ObjectiveTarget => 12,
            HighsModelStatus::ReachedTimeLimit => 13,
            HighsModelStatus::ReachedIterationLimit => 14,
            HighsModelStatus::Unknown => 15,
            HighsModelStatus::ReachedSolutionLimit => 16,
            HighsModelStatus::ReachedInterrupt => 17,
            HighsModelStatus::ReachedMemoryLimit => 18,
        }
    }
}

impl TryFrom<i32> for HighsModelStatus {
    type Error = InvalidStatus;

    fn try_from(code: i32) -> (r: Result<HighsModelStatus, InvalidStatus>)
        ensures
            code == 0 ==> r == Ok::<HighsModelStatus, InvalidStatus>(HighsModelStatus::NotSet),
            code == 1 ==> r == Ok::<HighsModelStatus, InvalidStatus>(HighsModelStatus::LoadError),
            code == 2 ==> r == Ok::<HighsModelStatus, InvalidStatus>(HighsModelStatus::ModelError),
            code == 3 ==> r == Ok::<HighsModelStatus, InvalidStatus>(HighsModelStatus::PresolveError),
            code == 4 ==> r == Ok::<HighsModelStatus, InvalidStatus>(HighsModelStatus::SolveError),
            code == 5 ==> r == Ok::<HighsModelStatus, InvalidStatus>(HighsModelStatus::PostsolveError),
            code == 6 ==> r == Ok::<HighsModelStatus, InvalidStatus>(HighsModelStatus::ModelEmpty),
            code == 7 ==> r == Ok::<HighsModelStatus, InvalidStatus>(HighsModelStatus::Optimal),
            code == 8 ==> r == Ok::<HighsModelStatus, InvalidStatus>(HighsModelStatus::Infeasible),
            code == 9 ==> r == Ok::<HighsModelStatus, InvalidStatus>(HighsModelStatus::UnboundedOrInfeasible),
            code == 10 ==> r == Ok::<HighsModelStatus, InvalidStatus>(HighsModelStatus::Unbounded),
            code == 11 ==> r == Ok::<HighsModelStatus, InvalidStatus>(HighsModelStatus::ObjectiveBound),
            code == 12 ==> r == Ok::<HighsModelStatus, InvalidStatus>(HighsModelStatus::ObjectiveTarget),
            code == 13 ==> r == Ok::<HighsModelStatus, InvalidStatus>(HighsModelStatus::ReachedTimeLimit),
            code == 14 ==> r == Ok::<HighsModelStatus, InvalidStatus>(HighsModelStatus::ReachedIterationLimit),
            code == 15 ==> r == Ok::<HighsModelStatus, InvalidStatus>(HighsModelStatus::Unknown),
            code == 16 ==> r == Ok::<HighsModelStatus, InvalidStatus>(HighsModelStatus::ReachedSolutionLimit),
            code == 17 ==> r == Ok::<HighsModelStatus, InvalidStatus>(HighsModelStatus::ReachedInterrupt),
            code == 18 ==> r == Ok::<HighsModelStatus, InvalidStatus>(HighsModelStatus::ReachedMemoryLimit),
            (code < 0 || code > 18) ==> r == Err::<HighsModelStatus, InvalidStatus>(InvalidStatus(code)),
    {
        if code == 0 {
            Ok(HighsModelStatus::NotSet)
        } else if code == 1 {
            Ok(HighsModelStatus::LoadError)
        } else if code == 2 {
            Ok(HighsModelStatus::ModelError)
        } else if code == 3 {
            Ok(HighsModelStatus::PresolveError)
        } else if code == 4 {
            Ok(HighsModelStatus::SolveError)
        } else if code == 5 {
            Ok(HighsModelStatus::PostsolveError)
        } else if code == 6 {
            Ok(HighsModelStatus::ModelEmpty)
        } else if code == 7 {
            Ok(HighsModelStatus::Optimal)
        } else if code == 8 {
            Ok(HighsModelStatus::Infeasible)
        } else if code == 9 {
            Ok(HighsModelStatus::UnboundedOrInfeasible)
        } else if code == 10 {
            Ok(HighsModelStatus::Unbounded)
        } else if code == 11 {
            Ok(HighsModelStatus::ObjectiveBound)
        } else if code == 12 {
            Ok(HighsModelStatus::ObjectiveTarget)
        } else if code == 13 {
            Ok(HighsModelStatus::ReachedTimeLimit)
        } else if code == 14 {
            Ok(HighsModelStatus::ReachedIterationLimit)
        } else if code == 15 {
            Ok(HighsModelStatus::Unknown)
        } else if code == 16 {
            Ok(HighsModelStatus::ReachedSolutionLimit)
        } else if code == 17 {
            Ok(HighsModelStatus::ReachedInterrupt)
        } else if code == 18 {
            Ok(HighsModelStatus::ReachedMemoryLimit)
        } else {
            Err(InvalidStatus(code))
        }
    }
}

impl vstd::std_specs::convert::TryFromSpecImpl<i32> for HighsModelStatus {
    open spec fn obeys_try_from_spec() -> bool {
        true
    }

    open spec fn try_from_spec(code: i32) -> Result<HighsModelStatus, InvalidStatus> {
        match HighsModelStatus::spec_from_code(code) {
            Some(s) => Ok(s),
            None => Err(InvalidStatus(code)),
        }
    }
}

/// Each status is read back from its own code, and a code is read as a status
/// only if it is that status's code.
pub proof fn lemma_status_codes_round_trip(s: HighsStatus, code: i32)
    ensures
        HighsStatus::spec_from_code(s.spec_code()) == Some(s),
        HighsStatus::spec_from_code(code) matches Some(t) ==> t.spec_code() == code,
{
}

/// Each model status is read back from its own code, and a code is read as a
/// model status only if it is that status's code.
pub proof fn lemma_model_status_codes_round_trip(s: HighsModelStatus, code: i32)
    ensures
        HighsModelStatus::spec_from_code(s.spec_code()) == Some(s),
        HighsModelStatus::spec_from_code(code) matches Some(t) ==> t.spec_code() == code,
{
}

/// Each solution status is read back from its own code, and a code is read as
/// a solution status only if it is that status's code.
pub proof fn lemma_solution_status_codes_round_trip(s: HighsSolutionStatus, code: i32)
    ensures
        HighsSolutionStatus::spec_from_code(s.spec_code()) == Some(s),
        HighsSolutionStatus::spec_from_code(code) matches Some(t) ==> t.spec_code() == code,
{
}

/// The codes of the C API name each status as HiGHS documents them
/// (`highs_c_api.h`): reading a code gives the status HiGHS names for it,
/// writing a status gives its code, and no other code names a status.
pub proof fn lemma_status_codes_are_the_c_api_codes()
    ensures
        HighsStatus::spec_from_code(-1i32) == Some(HighsStatus::Error),
        HighsStatus::spec_from_code(0) == Some(HighsStatus::OK),
        HighsStatus::spec_from_code(1) == Some(HighsStatus::Warning),
        HighsStatus::Error.spec_code() == -1i32,
        HighsStatus::OK.spec_code() == 0,
        HighsStatus::Warning.spec_code() == 1,
        forall|code: i32| (code < -1i32 || code > 1) ==> #[trigger] HighsStatus::spec_from_code(code) is None,
{
}

/// The codes of the C API name each solution status as HiGHS documents them
/// (`highs_c_api.h`): reading a code gives the solution status HiGHS names for it,
/// writing a solution status gives its code, and no other code names a solution status.
pub proof fn lemma_solution_status_codes_are_the_c_api_codes()
    ensures
        HighsSolutionStatus::spec_from_code(0) == Some(HighsSolutionStatus::NoSolution),
        HighsSolutionStatus::spec_from_code(1) == Some(HighsSolutionStatus::Infeasible),
        HighsSolutionStatus::spec_from_code(2) == Some(HighsSolutionStatus::Feasible),
        HighsSolutionStatus::NoSolution.spec_code() == 0,
        HighsSolutionStatus::Infeasible.spec_code() == 1,
        HighsSolutionStatus::Feasible.spec_code() == 2,
        forall|code: i32| (code < 0 || code > 2) ==> #[trigger] HighsSolutionStatus::spec_from_code(code) is None,
{
}

/// The codes of the C API name each model status as HiGHS documents them
/// (`highs_c_api.h`): reading a code gives the model status HiGHS names for it,
/// writing a model status gives its code, and no other code names a model status.
pub proof fn lemma_model_status_codes_are_the_c_api_codes()
    ensures
        HighsModelStatus::spec_from_code(0) == Some(HighsModelStatus::NotSet),
        HighsModelStatus::spec_from_code(1) == Some(HighsModelStatus::LoadError),
        HighsModelStatus::spec_from_code(2) == Some(HighsModelStatus::ModelError),
        HighsModelStatus::spec_from_code(3) == Some(HighsModelStatus::PresolveError),
        HighsModelStatus::spec_from_code(4) == Some(HighsModelStatus::SolveError),
        HighsModelStatus::spec_from_code(5) == Some(HighsModelStatus::PostsolveError),
        HighsModelStatus::spec_from_code(6) == Some(HighsModelStatus::ModelEmpty),
        HighsModelStatus::spec_from_code(7) == Some(HighsModelStatus::Optimal),
        HighsModelStatus::spec_from_code(8) == Some(HighsModelStatus::Infeasible),
        HighsModelStatus::spec_from_code(9) == Some(HighsModelStatus::UnboundedOrInfeasible),
        HighsModelStatus::spec_from_code(10) == Some(HighsModelStatus::Unbounded),
        HighsModelStatus::spec_from_code(11) == Some(HighsModelStatus::ObjectiveBound),
        HighsModelStatus::spec_from_code(12) == Some(HighsModelStatus::ObjectiveTarget),
        HighsModelStatus::spec_from_code(13) == Some(HighsModelStatus::ReachedTimeLimit),
        HighsModelStatus::spec_from_code(14) == Some(HighsModelStatus::ReachedIterationLimit),
        HighsModelStatus::spec_from_code(15) == Some(HighsModelStatus::Unknown),
        HighsModelStatus::spec_from_code(16) == Some(HighsModelStatus::ReachedSolutionLimit),
        HighsModelStatus::spec_from_code(17) == Some(HighsModelStatus::ReachedInterrupt),
        HighsModelStatus::spec_from_code(18) == Some(HighsModelStatus::ReachedMemoryLimit),
        HighsModelStatus::NotSet.spec_code() == 0,
        HighsModelStatus::LoadError.spec_code() == 1,
        HighsModelStatus::ModelError.spec_code() == 2,
        HighsModelStatus::PresolveError.spec_code() == 3,
        HighsModelStatus::SolveError.spec_code() == 4,
        HighsModelStatus::PostsolveError.spec_code() == 5,
        HighsModelStatus::ModelEmpty.spec_code() == 6,
        HighsModelStatus::Optimal.spec_code() == 7,
        HighsModelStatus::Infeasible.spec_code() == 8,
        HighsModelStatus::UnboundedOrInfeasible.spec_code() == 9,
        HighsModelStatus::Unbounded.spec_code() == 10,
        HighsModelStatus::ObjectiveBound.spec_code() == 11,
        HighsModelStatus::ObjectiveTarget.spec_code() == 12,
        HighsModelStatus::ReachedTimeLimit.spec_code() == 13,
        HighsModelStatus::ReachedIterationLimit.spec_code() == 14,
        HighsModelStatus::Unknown.spec_code() == 15,
        HighsModelStatus::ReachedSolutionLimit.spec_code() == 16,
        HighsModelStatus::ReachedInterrupt.spec_code() == 17,
        HighsModelStatus::ReachedMemoryLimit.spec_code() == 18,
        forall|code: i32| (code < 0 || code > 18) ==> #[trigger] HighsModelStatus::spec_from_code(code) is None,
{
}

} // verus!
