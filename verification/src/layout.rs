//! The symbolic variables that builders hand to an AIR: two-row windows of
//! the preprocessed, main and auxiliary traces, and lists of challenges, bus
//! boundary values, public values and periodic values.
use p3_matrix::dense::RowMajorMatrix;
use vstd::prelude::*;

use crate::matrix::{variable_matrix, variable_values, variable_width};
use crate::field::{canon, embed};
use crate::symbolic::{evaluate, Entry, SymbolicExpression, SymbolicVariable, WindowView};
use crate::symbolic_builder::SymbolicAirBuilder;

verus! {

/// The variables of a two-row window of a trace `width` columns wide: the
/// current row (`local`) followed by the next row (`next`), column by column.
pub open spec fn window_vars(local: Entry, next: Entry, width: nat) -> Seq<SymbolicVariable> {
    Seq::new(
        2 * width,
        |k: int|
            if k < width {
                SymbolicVariable { entry: local, index: k as usize }
            } else {
                SymbolicVariable { entry: next, index: (k - width) as usize }
            },
    )
}

/// The variables `entry[0], ..., entry[n - 1]`.
pub open spec fn indexed_vars(entry: Entry, n: nat) -> Seq<SymbolicVariable> {
    Seq::new(n, |i: int| SymbolicVariable { entry, index: i as usize })
}

/// The mathematical content of a [`VariableLayout`].
pub struct LayoutView {
    pub preprocessed: Seq<SymbolicVariable>,
    pub preprocessed_width: nat,
    pub main: Seq<SymbolicVariable>,
    pub width: nat,
    pub aux: Seq<SymbolicVariable>,
    pub aux_width: nat,
    pub aux_randomness: Seq<SymbolicVariable>,
    pub aux_bus_boundary_values: Seq<SymbolicVariable>,
    pub public_values: Seq<SymbolicVariable>,
    pub periodic_values: Seq<SymbolicVariable>,
}

/// The layout of the given dimensions: two-row windows for the preprocessed,
/// main and auxiliary traces, one bus boundary value per auxiliary column, and
/// one variable per challenge, public value and periodic column.
pub open spec fn layout_of(
    preprocessed_width: nat,
    width: nat,
    aux_width: nat,
    num_randomness: nat,
    num_public_values: nat,
    num_periodic_values: nat,
) -> LayoutView {
    LayoutView {
        preprocessed: window_vars(
            Entry::Preprocessed { offset: 0 },
            Entry::Preprocessed { offset: 1 },
            preprocessed_width,
        ),
        preprocessed_width,
        main: window_vars(Entry::Main { offset: 0 }, Entry::Main { offset: 1 }, width),
        width,
        aux: window_vars(Entry::Aux { offset: 0 }, Entry::Aux { offset: 1 }, aux_width),
        aux_width,
        aux_randomness: indexed_vars(Entry::Challenge, num_randomness),
        aux_bus_boundary_values: indexed_vars(Entry::AuxBusBoundary, aux_width),
        public_values: indexed_vars(Entry::Public, num_public_values),
        periodic_values: indexed_vars(Entry::Periodic, num_periodic_values),
    }
}

/// The symbolic variables that a builder hands to an AIR.
pub struct VariableLayout {
    preprocessed: Vec<SymbolicVariable>,
    preprocessed_width: usize,
    main: Vec<SymbolicVariable>,
    width: usize,
    aux: Vec<SymbolicVariable>,
    aux_width: usize,
    aux_randomness: Vec<SymbolicVariable>,
    aux_bus_boundary_values: Vec<SymbolicVariable>,
    public_values: Vec<SymbolicVariable>,
    periodic_values: Vec<SymbolicVariable>,
}

impl View for VariableLayout {
    type V = LayoutView;

    closed spec fn view(&self) -> LayoutView {
        LayoutView {
            preprocessed: self.preprocessed@,
            preprocessed_width: self.preprocessed_width as nat,
            main: self.main@,
            width: self.width as nat,
            aux: self.aux@,
            aux_width: self.aux_width as nat,
            aux_randomness: self.aux_randomness@,
            aux_bus_boundary_values: self.aux_bus_boundary_values@,
            public_values: self.public_values@,
            periodic_values: self.periodic_values@,
        }
    }
}

/// Builds `entry_local[0..width]` followed by `entry_next[0..width]`.
fn window_variables(local: Entry, next: Entry, width: usize) -> (r: Vec<SymbolicVariable>)
    ensures
        r@ == window_vars(local, next, width as nat),
{
    let mut out: Vec<SymbolicVariable> = Vec::new();
    let mut i: usize = 0;
    while i < width
        invariant
            i <= width,
            out@ == window_vars(local, next, width as nat).take(i as int),
        decreases width - i,
    {
        out.push(SymbolicVariable::new(local, i));
        i = i + 1;
        assert(out@ =~= window_vars(local, next, width as nat).take(i as int));
    }
    let mut i: usize = 0;
    while i < width
        invariant
            i <= width,
            out@ == window_vars(local, next, width as nat).take(width + i),
        decreases width - i,
    {
        out.push(SymbolicVariable::new(next, i));
        i = i + 1;
        assert(out@ =~= window_vars(local, next, width as nat).take(width + i));
    }
    assert(out@ =~= window_vars(local, next, width as nat));
    out
}

/// Builds `entry[0], ..., entry[n - 1]`.
pub(crate) fn indexed_variables(entry: Entry, n: usize) -> (r: Vec<SymbolicVariable>)
    ensures
        r@ == indexed_vars(entry, n as nat),
{
    let mut out: Vec<SymbolicVariable> = Vec::new();
    let mut i: usize = 0;
    while i < n
        invariant
            i <= n,
            out@ == indexed_vars(entry, n as nat).take(i as int),
        decreases n - i,
    {
        out.push(SymbolicVariable::new(entry, i));
        i = i + 1;
        assert(out@ =~= indexed_vars(entry, n as nat).take(i as int));
    }
    assert(out@ =~= indexed_vars(entry, n as nat));
    out
}

/// A copy of a list of variables.
fn copy_variables(v: &Vec<SymbolicVariable>) -> (r: Vec<SymbolicVariable>)
    ensures
        r@ == v@,
{
    let mut out: Vec<SymbolicVariable> = Vec::new();
    let mut i: usize = 0;
    while i < v.len()
        invariant
            i <= v.len(),
            out@ == v@.take(i as int),
        decreases v.len() - i,
    {
        out.push(v[i]);
        i = i + 1;
        assert(out@ =~= v@.take(i as int));
    }
    assert(out@ =~= v@);
    out
}

/// A matrix of two rows holding `vars`.
fn two_row_matrix(vars: &Vec<SymbolicVariable>, width: usize) -> (r: RowMajorMatrix<SymbolicVariable>)
    requires
        vars@.len() == 2 * width,
    ensures
        variable_values(r) == vars@,
        variable_width(r) == width,
{
    let values = copy_variables(vars);
    proof {
        if width > 0 {
            vstd::arithmetic::div_mod::lemma_mod_multiples_basic(2, width as int);
        }
    }
    variable_matrix(values, width)
}

impl VariableLayout {
    #[verifier::type_invariant]
    closed spec fn wf(self) -> bool {
        &&& self.preprocessed@.len() == 2 * self.preprocessed_width
        &&& self.main@.len() == 2 * self.width
        &&& self.aux@.len() == 2 * self.aux_width
    }

    /// The layout of the given dimensions.
    pub fn new(
        preprocessed_width: usize,
        width: usize,
        aux_width: usize,
        num_randomness: usize,
        num_public_values: usize,
        num_periodic_values: usize,
    ) -> (r: VariableLayout)
        ensures
            r@ == layout_of(
                preprocessed_width as nat,
                width as nat,
                aux_width as nat,
                num_randomness as nat,
                num_public_values as nat,
                num_periodic_values as nat,
            ),
    {
        let preprocessed = window_variables(
            Entry::Preprocessed { offset: 0 },
            Entry::Preprocessed { offset: 1 },
            preprocessed_width,
        );
        let main = window_variables(Entry::Main { offset: 0 }, Entry::Main { offset: 1 }, width);
        let aux = window_variables(Entry::Aux { offset: 0 }, Entry::Aux { offset: 1 }, aux_width);
        let aux_randomness = SymbolicAirBuilder::sample_randomness(num_randomness);
        let aux_bus_boundary_values = indexed_variables(Entry::AuxBusBoundary, aux_width);
        let public_values = indexed_variables(Entry::Public, num_public_values);
        let periodic_values = indexed_variables(Entry::Periodic, num_periodic_values);
        VariableLayout {
            preprocessed,
            preprocessed_width,
            main,
            width,
            aux,
            aux_width,
            aux_randomness,
            aux_bus_boundary_values,
            public_values,
            periodic_values,
        }
    }

    /// The main-trace window as a two-row matrix.
    pub fn main_matrix(&self) -> (r: RowMajorMatrix<SymbolicVariable>)
        ensures
            variable_values(r) == self@.main,
            variable_width(r) == self@.width,
    {
        proof {
            use_type_invariant(self);
        }
        two_row_matrix(&self.main, self.width)
    }

    /// The preprocessed-trace window as a two-row matrix.
    pub fn preprocessed_matrix(&self) -> (r: RowMajorMatrix<SymbolicVariable>)
        ensures
            variable_values(r) == self@.preprocessed,
            variable_width(r) == self@.preprocessed_width,
    {
        proof {
            use_type_invariant(self);
        }
        two_row_matrix(&self.preprocessed, self.preprocessed_width)
    }

    /// The auxiliary-trace window as a two-row matrix.
    pub fn aux_matrix(&self) -> (r: RowMajorMatrix<SymbolicVariable>)
        ensures
            variable_values(r) == self@.aux,
            variable_width(r) == self@.aux_width,
    {
        proof {
            use_type_invariant(self);
        }
        two_row_matrix(&self.aux, self.aux_width)
    }

    /// The challenge variables.
    pub fn randomness(&self) -> (r: &[SymbolicVariable])
        ensures
            r@ == self@.aux_randomness,
    {
        self.aux_randomness.as_slice()
    }

    /// The bus boundary variables.
    pub fn bus_boundary_values(&self) -> (r: &[SymbolicVariable])
        ensures
            r@ == self@.aux_bus_boundary_values,
    {
        self.aux_bus_boundary_values.as_slice()
    }

    /// The public-value variables.
    pub fn public_values(&self) -> (r: &[SymbolicVariable])
        ensures
            r@ == self@.public_values,
    {
        self.public_values.as_slice()
    }

    /// The periodic-column variables.
    pub fn periodic_values(&self) -> (r: &[SymbolicVariable])
        ensures
            r@ == self@.periodic_values,
    {
        self.periodic_values.as_slice()
    }
}

/// The variables of a layout read the matching parts of a window: in each
/// two-row trace window, column `j` of the first row reads the window's
/// current row and column `j` of the second row its next row; the `j`-th
/// challenge, bus boundary value, public value and periodic value read the
/// window's `j`-th of each.
pub proof fn lemma_layout_reads_window(
    preprocessed_width: nat,
    width: nat,
    aux_width: nat,
    num_randomness: nat,
    num_public_values: nat,
    num_periodic_values: nat,
    w: WindowView,
    j: usize,
)
    ensures
        ({
            let l = layout_of(
                preprocessed_width,
                width,
                aux_width,
                num_randomness,
                num_public_values,
                num_periodic_values,
            );
            &&& j < width && j < w.main_local.len() ==> evaluate(SymbolicExpression::Variable(l.main[j as int]), w) == Some(
                canon(w.main_local[j as int]),
            )
            &&& j < width && j < w.main_next.len() ==> evaluate(SymbolicExpression::Variable(l.main[width + j]), w)
                == Some(canon(w.main_next[j as int]))
            &&& j < preprocessed_width && j < w.preprocessed_local.len() ==> evaluate(SymbolicExpression::Variable(l.preprocessed[j as int]),
                w,
            ) == Some(canon(w.preprocessed_local[j as int]))
            &&& j < preprocessed_width && j < w.preprocessed_next.len() ==> evaluate(SymbolicExpression::Variable(l.preprocessed[preprocessed_width + j]),
                w,
            ) == Some(canon(w.preprocessed_next[j as int]))
            &&& j < aux_width && j < w.aux_local.len() ==> evaluate(SymbolicExpression::Variable(l.aux[j as int]), w) == Some(
                canon(w.aux_local[j as int]),
            )
            &&& j < aux_width && j < w.aux_next.len() ==> evaluate(SymbolicExpression::Variable(l.aux[aux_width + j]), w)
                == Some(canon(w.aux_next[j as int]))
            &&& j < aux_width && j < w.aux_bus_boundary_values.len() ==> evaluate(SymbolicExpression::Variable(l.aux_bus_boundary_values[j as int]),
                w,
            ) == Some(canon(w.aux_bus_boundary_values[j as int]))
            &&& j < num_randomness && j < w.randomness.len() ==> evaluate(SymbolicExpression::Variable(l.aux_randomness[j as int]),
                w,
            ) == Some(canon(w.randomness[j as int]))
            &&& j < num_public_values && j < w.public_values.len() ==> evaluate(SymbolicExpression::Variable(l.public_values[j as int]),
                w,
            ) == Some(embed(w.public_values[j as int]))
            &&& j < num_periodic_values && j < w.periodic_values.len() ==> evaluate(SymbolicExpression::Variable(l.periodic_values[j as int]),
                w,
            ) == Some(canon(w.periodic_values[j as int]))
        }),
{
    let l = layout_of(
        preprocessed_width,
        width,
        aux_width,
        num_randomness,
        num_public_values,
        num_periodic_values,
    );
    if j < width {
        assert(l.main[j as int] == SymbolicVariable { entry: Entry::Main { offset: 0 }, index: j });
        assert(l.main[width + j] == SymbolicVariable { entry: Entry::Main { offset: 1 }, index: j });
    }
    if j < preprocessed_width {
        assert(l.preprocessed[j as int] == SymbolicVariable {
            entry: Entry::Preprocessed { offset: 0 },
            index: j,
        });
        assert(l.preprocessed[preprocessed_width + j] == SymbolicVariable {
            entry: Entry::Preprocessed { offset: 1 },
            index: j,
        });
    }
    if j < aux_width {
        assert(l.aux[j as int] == SymbolicVariable { entry: Entry::Aux { offset: 0 }, index: j });
        assert(l.aux[aux_width + j] == SymbolicVariable { entry: Entry::Aux { offset: 1 }, index: j });
        assert(l.aux_bus_boundary_values[j as int] == SymbolicVariable { entry: Entry::AuxBusBoundary, index: j });
    }
    if j < num_randomness {
        assert(l.aux_randomness[j as int] == SymbolicVariable { entry: Entry::Challenge, index: j });
    }
    if j < num_public_values {
        assert(l.public_values[j as int] == SymbolicVariable { entry: Entry::Public, index: j });
    }
    if j < num_periodic_values {
        assert(l.periodic_values[j as int] == SymbolicVariable { entry: Entry::Periodic, index: j });
    }
}

} // verus!
