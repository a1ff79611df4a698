use highs::status::try_handle_status;
use highs::{HighsModelStatus, HighsSolutionStatus, HighsStatus, InvalidStatus};
use std::convert::TryFrom;

#[test]
fn status_codes_round_trip() {
    for s in [HighsStatus::OK, HighsStatus::Warning, HighsStatus::Error] {
        assert_eq!(HighsStatus::try_from(s.code()), Ok(s));
    }
    assert_eq!(HighsStatus::OK.code(), 0);
    assert_eq!(HighsStatus::Warning.code(), 1);
    assert_eq!(HighsStatus::Error.code(), -1);
    assert_eq!(HighsStatus::try_from(2), Err(InvalidStatus(2)));
}

#[test]
fn handle_status_ok_warning_error() {
    assert_eq!(try_handle_status(0), Ok(HighsStatus::OK));
    assert_eq!(try_handle_status(1), Ok(HighsStatus::Warning));
    assert_eq!(try_handle_status(-1), Err(HighsStatus::Error));
}

#[test]
fn model_status_codes() {
    assert_eq!(HighsModelStatus::try_from(7), Ok(HighsModelStatus::Optimal));
    assert_eq!(HighsModelStatus::try_from(8), Ok(HighsModelStatus::Infeasible));
    assert_eq!(HighsModelStatus::try_from(0), Ok(HighsModelStatus::NotSet));
    assert_eq!(HighsModelStatus::try_from(18), Ok(HighsModelStatus::ReachedMemoryLimit));
    assert_eq!(HighsModelStatus::try_from(19), Err(InvalidStatus(19)));
    assert_eq!(HighsModelStatus::try_from(-1), Err(InvalidStatus(-1)));
    for code in 0..=18 {
        assert_eq!(HighsModelStatus::try_from(code).unwrap().code(), code);
    }
}

#[test]
fn solution_status_codes() {
    assert_eq!(HighsSolutionStatus::try_from(0), Ok(HighsSolutionStatus::NoSolution));
    assert_eq!(HighsSolutionStatus::try_from(1), Ok(HighsSolutionStatus::Infeasible));
    assert_eq!(HighsSolutionStatus::try_from(2), Ok(HighsSolutionStatus::Feasible));
    assert_eq!(HighsSolutionStatus::try_from(3), Err(InvalidStatus(3)));
    assert_eq!(HighsSolutionStatus::Feasible.code(), 2);
}

#[test]
fn integer_conversion_errors_are_errors() {
    let e = u8::try_from(300i32).unwrap_err();
    assert_eq!(HighsStatus::from(e), HighsStatus::Error);
}
