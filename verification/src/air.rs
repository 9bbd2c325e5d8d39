//! The AIR interface: the trait that an AIR implements, and the trait of the
//! builders that an AIR states its constraints to.
//!
//! An AIR states each constraint as a [`SymbolicExpression`] over the
//! variables that a builder hands out (current and next rows of the traces,
//! public values, challenges, bus boundary values, periodic values). Every
//! builder gives the expression its own meaning: the symbolic builder records
//! it, the debug builder evaluates it on a trace row, and the constraint
//! folders add its value into a random linear combination.
use p3_matrix::dense::RowMajorMatrix;
use vstd::pervasive::arbitrary;
use vstd::prelude::*;

use crate::field::Ext2;
use crate::layout::LayoutView;
use crate::matrix::{variable_values, variable_width};
use crate::symbolic::{mul_node, sub_node, SymbolicExpression, SymbolicVariable};

verus! {

/// The kind of a bus of the auxiliary trace.
#[derive(Clone, Copy, Debug, PartialEq, Eq, Structural)]
pub enum BusType {
    /// A multiset bus
    MultiSet,
    /// A logup bus
    Logup,
}

/// The builder an AIR states its constraints to.
///
/// Whatever meaning a builder gives to the constraints, it keeps the sequence
/// of constraints stated to it so far ([`recorded`](MidenAirBuilder::recorded))
/// and hands out the variables of a fixed layout
/// ([`layout`](MidenAirBuilder::layout)).
pub trait MidenAirBuilder {
    /// What a builder holds fixed while constraints are stated to it (the
    /// values it evaluates them on, the challenges it folds them with).
    type Frame;

    /// The constraints stated to this builder so far, in order.
    spec fn recorded(&self) -> Seq<SymbolicExpression>;

    /// The part of this builder that stating constraints leaves unchanged.
    spec fn frame(&self) -> Self::Frame;

    /// What this builder keeps true of its state, whatever is stated to it.
    spec fn builder_wf(&self) -> bool;

    /// The variables this builder hands out.
    spec fn layout(&self) -> LayoutView;

    /// The main-trace variables of the current (row 0) and next (row 1) rows.
    fn main(&self) -> (r: RowMajorMatrix<SymbolicVariable>)
        ensures
            variable_values(r) == self.layout().main,
            variable_width(r) == self.layout().width,
    ;

    /// The preprocessed-trace variables of the current and next rows.
    fn preprocessed(&self) -> (r: RowMajorMatrix<SymbolicVariable>)
        ensures
            variable_values(r) == self.layout().preprocessed,
            variable_width(r) == self.layout().preprocessed_width,
    ;

    /// The auxiliary-trace variables of the current and next rows.
    fn permutation(&self) -> (r: RowMajorMatrix<SymbolicVariable>)
        ensures
            variable_values(r) == self.layout().aux,
            variable_width(r) == self.layout().aux_width,
    ;

    /// The challenges the auxiliary trace was built with.
    fn permutation_randomness(&self) -> (r: &[SymbolicVariable])
        ensures
            r@ == self.layout().aux_randomness,
    ;

    /// The bus boundary values of the auxiliary trace.
    fn aux_bus_boundary_values(&self) -> (r: &[SymbolicVariable])
        ensures
            r@ == self.layout().aux_bus_boundary_values,
    ;

    /// The public values.
    fn public_values(&self) -> (r: &[SymbolicVariable])
        ensures
            r@ == self.layout().public_values,
    ;

    /// The values of the periodic columns on the current row.
    fn periodic_evals(&self) -> (r: &[SymbolicVariable])
        ensures
            r@ == self.layout().periodic_values,
    ;

    /// The selector that is one on the first row and zero elsewhere.
    fn is_first_row(&self) -> (r: SymbolicExpression)
        ensures
            r == SymbolicExpression::IsFirstRow,
    ;

    /// The selector that is one on the last row and zero elsewhere.
    fn is_last_row(&self) -> (r: SymbolicExpression)
        ensures
            r == SymbolicExpression::IsLastRow,
    ;

    /// The selector of transition rows (all rows but the last). Only windows of
    /// two rows exist.
    fn is_transition_window(&self, size: usize) -> (r: SymbolicExpression)
        requires
            size == 2,
        ensures
            r == SymbolicExpression::IsTransition,
    ;

    /// States that `x` is zero.
    fn assert_zero(&mut self, x: SymbolicExpression)
        ensures
            final(self).recorded() == old(self).recorded().push(x),
            final(self).layout() == old(self).layout(),
            final(self).frame() == old(self).frame(),
            old(self).builder_wf() ==> final(self).builder_wf(),
    ;

    /// States that the extension-field expression `x` is zero.
    fn assert_zero_ext(&mut self, x: SymbolicExpression)
        ensures
            final(self).recorded() == old(self).recorded().push(x),
            final(self).layout() == old(self).layout(),
            final(self).frame() == old(self).frame(),
            old(self).builder_wf() ==> final(self).builder_wf(),
    ;

    /// The transition selector of the two-row window.
    fn is_transition(&self) -> (r: SymbolicExpression)
        ensures
            r == SymbolicExpression::IsTransition,
    {
        self.is_transition_window(2)
    }

    /// States that `x == y`, as the constraint `x - y`.
    fn assert_eq(&mut self, x: SymbolicExpression, y: SymbolicExpression)
        ensures
            final(self).recorded() == old(self).recorded().push(sub_node(x, y)),
            final(self).layout() == old(self).layout(),
            final(self).frame() == old(self).frame(),
            old(self).builder_wf() ==> final(self).builder_wf(),
    {
        self.assert_zero(SymbolicExpression::sub_expr(x, y))
    }

    /// States that the extension-field expressions `x` and `y` are equal.
    fn assert_eq_ext(&mut self, x: SymbolicExpression, y: SymbolicExpression)
        ensures
            final(self).recorded() == old(self).recorded().push(sub_node(x, y)),
            final(self).layout() == old(self).layout(),
            final(self).frame() == old(self).frame(),
            old(self).builder_wf() ==> final(self).builder_wf(),
    {
        self.assert_zero_ext(SymbolicExpression::sub_expr(x, y))
    }

    /// States that the extension-field expression `x` is one.
    fn assert_one_ext(&mut self, x: SymbolicExpression)
        ensures
            final(self).recorded() == old(self).recorded().push(
                sub_node(x, SymbolicExpression::Constant(1)),
            ),
            final(self).layout() == old(self).layout(),
            final(self).frame() == old(self).frame(),
            old(self).builder_wf() ==> final(self).builder_wf(),
    {
        self.assert_zero_ext(SymbolicExpression::sub_expr(x, SymbolicExpression::constant(1)))
    }

    /// States that `x` is zero where `condition` is nonzero, as the
    /// constraint `condition * x`.
    fn assert_zero_when(&mut self, condition: SymbolicExpression, x: SymbolicExpression)
        ensures
            final(self).recorded() == old(self).recorded().push(mul_node(condition, x)),
            final(self).layout() == old(self).layout(),
            final(self).frame() == old(self).frame(),
            old(self).builder_wf() ==> final(self).builder_wf(),
    {
        self.assert_zero(SymbolicExpression::mul_expr(condition, x))
    }

    /// States that `x == y` where `condition` is nonzero, as the constraint
    /// `condition * (x - y)`.
    fn assert_eq_when(
        &mut self,
        condition: SymbolicExpression,
        x: SymbolicExpression,
        y: SymbolicExpression,
    )
        ensures
            final(self).recorded() == old(self).recorded().push(
                mul_node(condition, sub_node(x, y)),
            ),
            final(self).layout() == old(self).layout(),
            final(self).frame() == old(self).frame(),
            old(self).builder_wf() ==> final(self).builder_wf(),
    {
        self.assert_zero(
            SymbolicExpression::mul_expr(condition, SymbolicExpression::sub_expr(x, y)),
        )
    }

    /// States that the extension-field expression `x` is zero where
    /// `condition` is nonzero.
    fn assert_zero_ext_when(&mut self, condition: SymbolicExpression, x: SymbolicExpression)
        ensures
            final(self).recorded() == old(self).recorded().push(mul_node(condition, x)),
            final(self).layout() == old(self).layout(),
            final(self).frame() == old(self).frame(),
            old(self).builder_wf() ==> final(self).builder_wf(),
    {
        self.assert_zero_ext(SymbolicExpression::mul_expr(condition, x))
    }

    /// States that the extension-field expressions `x` and `y` are equal where
    /// `condition` is nonzero.
    fn assert_eq_ext_when(
        &mut self,
        condition: SymbolicExpression,
        x: SymbolicExpression,
        y: SymbolicExpression,
    )
        ensures
            final(self).recorded() == old(self).recorded().push(
                mul_node(condition, sub_node(x, y)),
            ),
            final(self).layout() == old(self).layout(),
            final(self).frame() == old(self).frame(),
            old(self).builder_wf() ==> final(self).builder_wf(),
    {
        self.assert_zero_ext(
            SymbolicExpression::mul_expr(condition, SymbolicExpression::sub_expr(x, y)),
        )
    }
}

/// An AIR whose constraints may also read an auxiliary trace.
///
/// It carries no supertrait: the number of main columns of an AIR is given by
/// [`MidenAir::width`].
pub trait BaseAirWithAuxTrace {
    /// Number of challenges (extension fields) that is required to compute the aux trace
    fn num_randomness(&self) -> (r: usize)
        default_ensures
            r == 0,
    {
        0
    }

    /// Number of columns (in extension field) that is required for aux trace
    fn aux_width(&self) -> (r: usize)
        default_ensures
            r == 0,
    {
        0
    }

    /// Types of buses
    fn bus_types(&self) -> (r: Vec<BusType>)
        default_ensures
            r@.len() == 0,
    {
        Vec::new()
    }

    /// Build an aux trace (EF-based) given the main trace and EF challenges.
    /// Return None to indicate no aux or to fall back to legacy behavior.
    fn build_aux_trace(&self, _main: &RowMajorMatrix<u64>, _challenges: &[Ext2]) -> (r: Option<
        RowMajorMatrix<u64>,
    >)
        default_ensures
            r.is_none(),
    {
        None
    }

    /// Load an aux builder.
    ///
    /// An aux builder takes in a main matrix and a randomness, and generate a aux matrix.
    fn with_aux_builder<Builder>(&mut self, _builder: Builder) where
        Builder: Fn(&RowMajorMatrix<u64>, &[Ext2]) -> RowMajorMatrix<u64> + Send + Sync + 'static,
        Self: Sized,
        default_ensures
            *final(self) == *old(self),
     {
    }
}

/// Super trait for all AIR definitions in the Miden VM ecosystem.
///
/// Implementers provide [`width`](MidenAir::width) and [`eval`](MidenAir::eval);
/// every other method has a default.
pub trait MidenAir: Sync {
    /// The number of columns of this AIR, as [`width`](MidenAir::width)
    /// returns it.
    ///
    /// Each AIR has its own. The body here only lets AIRs written outside
    /// Verus, which cannot define a spec function, compile: for an AIR that
    /// is a type parameter Verus never unfolds it.
    open spec fn width_spec(&self) -> usize {
        arbitrary()
    }

    /// The constraints this AIR states, in order, to a builder that hands
    /// out the variables of `layout`: what [`eval`](MidenAir::eval) appends
    /// to the builder's record.
    ///
    /// Each AIR has its own. The body here only lets AIRs written outside
    /// Verus, which cannot define a spec function, compile: for an AIR that
    /// is a type parameter Verus never unfolds it.
    open spec fn constraints_spec(&self, layout: LayoutView) -> Seq<SymbolicExpression> {
        arbitrary()
    }

    /// The number of columns (a.k.a. registers) in this AIR.
    fn width(&self) -> (r: usize)
        ensures
            r == self.width_spec(),
    ;

    /// Return an optional preprocessed trace matrix to be included in the prover's trace.
    fn preprocessed_trace(&self) -> (r: Option<RowMajorMatrix<u64>>)
        default_ensures
            r.is_none(),
    {
        None
    }

    /// Return the number of expected public values.
    fn num_public_values(&self) -> (r: usize)
        default_ensures
            r == 0,
    {
        0
    }

    /// Return the periodic table data.
    fn periodic_table(&self) -> (r: Vec<Vec<u64>>)
        default_ensures
            r@.len() == 0,
    {
        Vec::new()
    }

    /// Number of challenges (extension fields) that is required to compute the aux trace
    fn num_randomness(&self) -> (r: usize)
        default_ensures
            r == 0,
    {
        0
    }

    /// Number of columns (in based field) that is required for aux trace
    fn aux_width(&self) -> (r: usize)
        default_ensures
            r == 0,
    {
        0
    }

    /// Types of buses
    fn bus_types(&self) -> (r: Vec<BusType>)
        default_ensures
            r@.len() == 0,
    {
        Vec::new()
    }

    /// Build an aux trace (EF-based) given the main trace and EF challenges.
    /// Return None to indicate no aux or to fall back to legacy behavior.
    /// The output is a matrix of EF elements, flattened to a matrix of F elements.
    fn build_aux_trace(&self, _main: &RowMajorMatrix<u64>, _challenges: &[Ext2]) -> (r: Option<
        RowMajorMatrix<u64>,
    >)
        default_ensures
            r.is_none(),
    {
        None
    }

    /// Load an aux builder.
    ///
    /// An aux builder takes in a main matrix and a randomness, and generate a aux matrix.
    fn with_aux_builder<Builder>(&mut self, _builder: Builder) where
        Builder: Fn(&RowMajorMatrix<u64>, &[Ext2]) -> RowMajorMatrix<u64> + Send + Sync + 'static,
        Self: Sized,
        default_ensures
            *final(self) == *old(self),
     {
    }

    /// Evaluate all AIR constraints using the provided builder.
    ///
    /// The builder provides the variables that the constraints are stated
    /// over, and gives the stated constraints their meaning.
    ///
    /// An AIR states its constraints through the builder's methods only, and
    /// which ones it states depends on the variables the builder hands out:
    /// the builder keeps its layout, its frame and its well-formedness, and
    /// gains [`constraints_spec`](MidenAir::constraints_spec) of that layout.
    fn eval<AB: MidenAirBuilder>(&self, builder: &mut AB)
        ensures
            final(builder).layout() == old(builder).layout(),
            final(builder).frame() == old(builder).frame(),
            old(builder).builder_wf() ==> final(builder).builder_wf(),
            final(builder).recorded() == old(builder).recorded() + self.constraints_spec(
                old(builder).layout(),
            ),
    ;
}

} // verus!
