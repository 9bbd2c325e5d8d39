# p3_miden_prover

Constraint handling for Miden AIRs over the Goldilocks field, verified with Verus.

An AIR (`air::MidenAir`) states its constraints as symbolic expressions to a
builder (`air::MidenAirBuilder`); which ones it states for a given layout of
variables is its `constraints_spec`, which the contracts speak of. Four builders give the constraints a meaning:

- `symbolic_builder::SymbolicAirBuilder` records them, from which the maximal
  constraint degree and the log of the quotient degree are derived;
- `check_constraints::DebugConstraintBuilder` checks them on the window of one
  row of a concrete trace and keeps the first that fails, and
  `check_constraints::check_constraints` (through `check_trace`, which takes
  the AIR's preprocessed trace and periodic table as arguments) runs the AIR
  on every row (with wraparound to the first row) and reports the first
  failure;
- `folder::ProverConstraintFolder` and `folder::VerifierConstraintFolder` fold
  their values into one random linear combination, with a list of challenge
  powers and with Horner's rule.

Layout of `src/`:

- `field.rs`: Goldilocks arithmetic and its quadratic extension, with the ring laws;
- `symbolic.rs`: variables, expressions, degrees, and evaluation on a row window;
- `layout.rs`: the variables a builder hands to an AIR;
- `air.rs`: the AIR and builder traits;
- `symbolic_builder.rs`, `check_constraints.rs`, `folder.rs`: the builders;
- `util.rs`: row conversions between base-field coefficients and extension elements;
- `matrix.rs`: the `p3_matrix` row-major matrices as the library reads them.
