# highs

A binding to the HiGHS linear programming solver whose own logic is verified
with Verus.

- `src/` is the verified library, generic in the numeric type of costs,
  bounds and coefficients (`f64` in practice):
  - `problem.rs`: problems built constraint by constraint (`RowProblem`) or
    variable by variable (`ColProblem`), and the conversion of the former into
    the compressed sparse column form that HiGHS takes;
  - `hessian.rs`: the compressed sparse column form of a quadratic objective;
  - `model.rs`: the codes, arrays and checks around each call into a model;
  - `status.rs`: the status codes of the C API;
  - `solution.rs`: the values of a solution.
- `app/` owns the HiGHS model object and makes the calls into the C API
  through `highs-sys`, converting ranges to bounds and infinite bounds to the
  IEEE infinities.
- `tests/` runs the library on concrete problems.
