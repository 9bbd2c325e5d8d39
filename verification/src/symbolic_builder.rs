//! The variable layout handed to AIRs, the builder that records constraints
//! symbolically, and the constraint degrees derived from the records.
use p3_matrix::dense::RowMajorMatrix;
use vstd::prelude::*;

use crate::air::{MidenAir, MidenAirBuilder};
use crate::layout::{indexed_variables, indexed_vars, layout_of, LayoutView, VariableLayout};
use crate::symbolic::{
    expression_degree, max_usize, saturating_sum, Entry, SymbolicExpression, SymbolicVariable,
};
use crate::util::{is_log2_ceil, log2_ceil};

verus! {

// ---------------------------------------------------------------------------
// The symbolic builder
// ---------------------------------------------------------------------------

/// An `AirBuilder` for evaluating constraints symbolically, and recording them for later use.
pub struct SymbolicAirBuilder {
    layout: VariableLayout,
    constraints: Vec<SymbolicExpression>,
}

impl SymbolicAirBuilder {
    /// A builder with no periodic columns and nothing recorded.
    pub fn new(
        preprocessed_width: usize,
        width: usize,
        aux_width: usize,
        num_randomness: usize,
        num_public_values: usize,
    ) -> (r: SymbolicAirBuilder)
        ensures
            r.layout() == layout_of(
                preprocessed_width as nat,
                width as nat,
                aux_width as nat,
                num_randomness as nat,
                num_public_values as nat,
                0,
            ),
            r.recorded() == Seq::<SymbolicExpression>::empty(),
    {
        Self::new_with_periodic(
            preprocessed_width,
            width,
            aux_width,
            num_randomness,
            num_public_values,
            0,
        )
    }

    /// A builder of the given dimensions with nothing recorded.
    pub fn new_with_periodic(
        preprocessed_width: usize,
        width: usize,
        aux_width: usize,
        num_randomness: usize,
        num_public_values: usize,
        num_periodic_values: usize,
    ) -> (r: SymbolicAirBuilder)
        ensures
            r.layout() == layout_of(
                preprocessed_width as nat,
                width as nat,
                aux_width as nat,
                num_randomness as nat,
                num_public_values as nat,
                num_periodic_values as nat,
            ),
            r.recorded() == Seq::<SymbolicExpression>::empty(),
    {
        let layout = VariableLayout::new(
            preprocessed_width,
            width,
            aux_width,
            num_randomness,
            num_public_values,
            num_periodic_values,
        );
        SymbolicAirBuilder { layout, constraints: Vec::new() }
    }

    /// The recorded constraints, in the order they were stated.
    pub fn constraints(self) -> (r: Vec<SymbolicExpression>)
        ensures
            r@ == self.recorded(),
    {
        self.constraints
    }

    /// The challenge variables, one per challenge.
    pub(crate) fn sample_randomness(num_randomness: usize) -> (r: Vec<SymbolicVariable>)
        ensures
            r@ == indexed_vars(Entry::Challenge, num_randomness as nat),
    {
        indexed_variables(Entry::Challenge, num_randomness)
    }
}

impl MidenAirBuilder for SymbolicAirBuilder {
    type Frame = ();

    closed spec fn recorded(&self) -> Seq<SymbolicExpression> {
        self.constraints@
    }

    /// A symbolic builder holds nothing but its layout and record.
    open spec fn frame(&self) -> () {
        ()
    }

    open spec fn builder_wf(&self) -> bool {
        true
    }

    closed spec fn layout(&self) -> LayoutView {
        self.layout@
    }

    fn main(&self) -> (r: RowMajorMatrix<SymbolicVariable>) {
        self.layout.main_matrix()
    }

    fn preprocessed(&self) -> (r: RowMajorMatrix<SymbolicVariable>) {
        self.layout.preprocessed_matrix()
    }

    fn permutation(&self) -> (r: RowMajorMatrix<SymbolicVariable>) {
        self.layout.aux_matrix()
    }

    fn permutation_randomness(&self) -> (r: &[SymbolicVariable]) {
        self.layout.randomness()
    }

    fn aux_bus_boundary_values(&self) -> (r: &[SymbolicVariable]) {
        self.layout.bus_boundary_values()
    }

    fn public_values(&self) -> (r: &[SymbolicVariable]) {
        self.layout.public_values()
    }

    fn periodic_evals(&self) -> (r: &[SymbolicVariable]) {
        self.layout.periodic_values()
    }

    fn is_first_row(&self) -> (r: SymbolicExpression) {
        SymbolicExpression::IsFirstRow
    }

    fn is_last_row(&self) -> (r: SymbolicExpression) {
        SymbolicExpression::IsLastRow
    }

    fn is_transition_window(&self, size: usize) -> (r: SymbolicExpression) {
        SymbolicExpression::IsTransition
    }

    fn assert_zero(&mut self, x: SymbolicExpression) {
        self.constraints.push(x);
    }

    fn assert_zero_ext(&mut self, x: SymbolicExpression) {
        self.constraints.push(x);
    }
}

// ---------------------------------------------------------------------------
// Constraint degrees
// ---------------------------------------------------------------------------

/// The largest degree multiple among `cs`, zero for none.
pub open spec fn max_degree(cs: Seq<SymbolicExpression>) -> usize
    decreases cs.len(),
{
    if cs.len() == 0 {
        0
    } else {
        max_usize(max_degree(cs.drop_last()), expression_degree(cs.last()))
    }
}

/// The constraint degree a quotient is built for: the maximal constraint
/// degree plus one for zero knowledge (saturated), and at least two.
pub open spec fn padded_constraint_degree(max_degree: usize, is_zk: usize) -> usize {
    let d = saturating_sum(max_degree, is_zk);
    if d < 2 {
        2
    } else {
        d
    }
}

/// The largest degree multiple among the given constraints (zero for none).
pub fn max_constraint_degree(constraints: &Vec<SymbolicExpression>) -> (r: usize)
    ensures
        r == max_degree(constraints@),
{
    let mut m: usize = 0;
    let mut i: usize = 0;
    while i < constraints.len()
        invariant
            i <= constraints@.len(),
            m == max_degree(constraints@.take(i as int)),
        decreases constraints.len() - i,
    {
        let d = constraints[i].degree_multiple();
        assert(constraints@.take(i + 1).drop_last() =~= constraints@.take(i as int));
        if d > m {
            m = d;
        }
        i = i + 1;
    }
    assert(constraints@.take(constraints@.len() as int) =~= constraints@);
    m
}

/// The log2 of the number of quotient chunks for constraints of the given
/// maximal degree: `ceil(log2(d - 1))` where `d` is the maximal degree plus
/// `is_zk`, raised to at least two.
pub fn log_quotient_degree(max_degree: usize, is_zk: usize) -> (r: usize)
    requires
        is_zk <= 1,
    ensures
        is_log2_ceil((padded_constraint_degree(max_degree, is_zk) - 1) as nat, r as nat),
{
    let d = max_degree.saturating_add(is_zk);
    let constraint_degree = if d < 2 {
        2
    } else {
        d
    };
    log2_ceil(constraint_degree - 1)
}

/// The constraints `air` states to a builder that hands out the variables of
/// the given dimensions, with the AIR's own main width and `num_periodic`
/// periodic columns.
pub open spec fn air_constraints<A: MidenAir>(
    air: &A,
    preprocessed_width: nat,
    aux_width: nat,
    num_randomness: nat,
    num_public_values: nat,
    num_periodic: nat,
) -> Seq<SymbolicExpression> {
    air.constraints_spec(
        layout_of(
            preprocessed_width,
            air.width_spec() as nat,
            aux_width,
            num_randomness,
            num_public_values,
            num_periodic,
        ),
    )
}

/// Runs `air.eval` on a fresh [`SymbolicAirBuilder`] of the given dimensions
/// (the main width and the number of periodic columns come from the AIR) and
/// returns the constraints it stated, in order.
///
/// The number of periodic columns is the length of a table the AIR's
/// `periodic_table` can return.
pub fn get_symbolic_constraints<A: MidenAir>(
    air: &A,
    preprocessed_width: usize,
    num_public_values: usize,
    aux_width: usize,
    num_randomness: usize,
) -> (r: Vec<SymbolicExpression>)
    ensures
        exists|periodic: Vec<Vec<u64>>|
            {
                &&& call_ensures(A::periodic_table, (air,), periodic)
                &&& r@ == #[trigger] air_constraints(
                    air,
                    preprocessed_width as nat,
                    aux_width as nat,
                    num_randomness as nat,
                    num_public_values as nat,
                    periodic@.len(),
                )
            },
{
    let periodic_table = air.periodic_table();
    let num_periodic_values = periodic_table.len();
    let mut builder = SymbolicAirBuilder::new_with_periodic(
        preprocessed_width,
        air.width(),
        aux_width,
        num_randomness,
        num_public_values,
        num_periodic_values,
    );
    air.eval(&mut builder);
    let constraints = builder.constraints();
    assert(constraints@ =~= air_constraints(
        air,
        preprocessed_width as nat,
        aux_width as nat,
        num_randomness as nat,
        num_public_values as nat,
        num_periodic_values as nat,
    ));
    constraints
}

/// The largest degree multiple among the constraints that `air` states
/// ([`max_constraint_degree`] of [`get_symbolic_constraints`]).
pub fn get_max_constraint_degree<A: MidenAir>(
    air: &A,
    preprocessed_width: usize,
    num_public_values: usize,
    aux_width: usize,
    num_randomness: usize,
) -> (r: usize)
    ensures
        exists|periodic: Vec<Vec<u64>>|
            {
                &&& call_ensures(A::periodic_table, (air,), periodic)
                &&& r == max_degree(
                    #[trigger] air_constraints(
                        air,
                        preprocessed_width as nat,
                        aux_width as nat,
                        num_randomness as nat,
                        num_public_values as nat,
                        periodic@.len(),
                    ),
                )
            },
{
    let constraints = get_symbolic_constraints(
        air,
        preprocessed_width,
        num_public_values,
        aux_width,
        num_randomness,
    );
    max_constraint_degree(&constraints)
}

/// The log2 of the number of quotient chunks for `air`
/// ([`log_quotient_degree`] of [`get_max_constraint_degree`]). `is_zk` is 0 or 1.
pub fn get_log_quotient_degree<A: MidenAir>(
    air: &A,
    preprocessed_width: usize,
    num_public_values: usize,
    is_zk: usize,
    aux_width: usize,
    num_randomness: usize,
) -> (r: usize)
    requires
        is_zk <= 1,
    ensures
        exists|periodic: Vec<Vec<u64>>|
            {
                &&& call_ensures(A::periodic_table, (air,), periodic)
                &&& is_log2_ceil(
                    (padded_constraint_degree(
                        max_degree(
                            #[trigger] air_constraints(
                                air,
                                preprocessed_width as nat,
                                aux_width as nat,
                                num_randomness as nat,
                                num_public_values as nat,
                                periodic@.len(),
                            ),
                        ),
                        is_zk,
                    ) - 1) as nat,
                    r as nat,
                )
            },
{
    let max_degree = get_max_constraint_degree(
        air,
        preprocessed_width,
        num_public_values,
        aux_width,
        num_randomness,
    );
    log_quotient_degree(max_degree, is_zk)
}

// ---------------------------------------------------------------------------
// Laws of degrees
// ---------------------------------------------------------------------------

/// The maximal degree bounds every constraint's degree multiple, and is the
/// degree multiple of one of them when there is any.
pub proof fn lemma_max_degree_is_maximum(cs: Seq<SymbolicExpression>)
    ensures
        forall|i: int| 0 <= i < cs.len() ==> expression_degree(#[trigger] cs[i]) <= max_degree(cs),
        cs.len() == 0 ==> max_degree(cs) == 0,
        cs.len() > 0 ==> exists|i: int| 0 <= i < cs.len() && expression_degree(cs[i]) == max_degree(cs),
    decreases cs.len(),
{
    if cs.len() > 0 {
        lemma_max_degree_is_maximum(cs.drop_last());
        assert forall|i: int| 0 <= i < cs.len() implies expression_degree(#[trigger] cs[i]) <= max_degree(cs) by {
            if i < cs.len() - 1 {
                assert(cs[i] == cs.drop_last()[i]);
            }
        }
        if max_degree(cs) == expression_degree(cs.last()) {
            assert(expression_degree(cs[cs.len() - 1]) == max_degree(cs));
        } else {
            let j = choose|j: int| 0 <= j < cs.drop_last().len() && expression_degree(cs.drop_last()[j]) == max_degree(cs.drop_last());
            assert(cs[j] == cs.drop_last()[j]);
        }
    }
}

/// A quotient degree is never smaller for a larger maximal constraint degree.
pub proof fn lemma_log_quotient_degree_monotone(d1: usize, d2: usize, is_zk: usize, r1: nat, r2: nat)
    requires
        d1 <= d2,
        is_zk <= 1,
        is_log2_ceil((padded_constraint_degree(d1, is_zk) - 1) as nat, r1),
        is_log2_ceil((padded_constraint_degree(d2, is_zk) - 1) as nat, r2),
    ensures
        r1 <= r2,
{
    if r1 > r2 && r2 < (r1 - 1) as nat {
        vstd::arithmetic::power2::lemma_pow2_strictly_increases(r2, (r1 - 1) as nat);
    }
}

/// The degree a quotient is built for is at least two and at least the
/// maximal degree plus `is_zk`, and it is one of the two.
pub proof fn lemma_padded_constraint_degree(d: usize, is_zk: usize)
    requires
        d + is_zk <= usize::MAX,
    ensures
        padded_constraint_degree(d, is_zk) >= 2,
        padded_constraint_degree(d, is_zk) >= d + is_zk,
        padded_constraint_degree(d, is_zk) == 2 || padded_constraint_degree(d, is_zk) == d + is_zk,
{
}

/// Quotients built for zero knowledge are never of lower log degree than
/// those built without it, for the same maximal constraint degree.
pub proof fn lemma_log_quotient_degree_monotone_in_zk(d: usize, r0: nat, r1: nat)
    requires
        is_log2_ceil((padded_constraint_degree(d, 0) - 1) as nat, r0),
        is_log2_ceil((padded_constraint_degree(d, 1) - 1) as nat, r1),
    ensures
        r0 <= r1,
{
    assert(padded_constraint_degree(d, 0) <= padded_constraint_degree(d, 1));
    if r0 > r1 && r1 < (r0 - 1) as nat {
        vstd::arithmetic::power2::lemma_pow2_strictly_increases(r1, (r0 - 1) as nat);
    }
}

} // verus!
