//! Symbolic variables and constraint expressions, their degrees, and their
//! evaluation on a window of two consecutive trace rows.
use vstd::prelude::*;

use crate::field::{
    canon, embed, ext_add, ext_mul, ext_neg, ext_sub, ext_zero, is_canonical, lemma_canon_of_canonical,
    lemma_ext_add_comm, lemma_ext_mul_comm, lemma_ext_mul_one, lemma_ext_results_canonical,
    lemma_ext_sub_add_inverse, lemma_modp_small, Ext2,
};

verus! {

/// Where a symbolic variable takes its value from.
#[derive(Clone, Copy, Debug, PartialEq, Eq, Structural)]
pub enum Entry {
    /// A preprocessed column, on the current (`offset == 0`) or next (`offset == 1`) row.
    Preprocessed { offset: usize },
    /// A main-trace column, on the current or next row.
    Main { offset: usize },
    /// An auxiliary-trace column (an extension element), on the current or next row.
    Aux { offset: usize },
    /// A bus boundary value of the auxiliary trace (its last row).
    AuxBusBoundary,
    /// A public value.
    Public,
    /// A random challenge used to build the auxiliary trace.
    Challenge,
    /// The value of a periodic column on the current row.
    Periodic,
}

/// A variable: an entry kind and a column (or list) index.
#[derive(Clone, Copy, Debug, PartialEq, Eq, Structural)]
pub struct SymbolicVariable {
    pub entry: Entry,
    pub index: usize,
}

/// A constraint expression over symbolic variables.
///
/// The compound nodes carry the degree multiple of the expression they form,
/// as computed by the constructors below.
#[derive(Debug, PartialEq, Eq)]
pub enum SymbolicExpression {
    Variable(SymbolicVariable),
    IsFirstRow,
    IsLastRow,
    IsTransition,
    Constant(u64),
    Add { x: Box<SymbolicExpression>, y: Box<SymbolicExpression>, degree_multiple: usize },
    Sub { x: Box<SymbolicExpression>, y: Box<SymbolicExpression>, degree_multiple: usize },
    Neg { x: Box<SymbolicExpression>, degree_multiple: usize },
    Mul { x: Box<SymbolicExpression>, y: Box<SymbolicExpression>, degree_multiple: usize },
}

/// Degree multiple of a variable: trace columns (preprocessed, main, auxiliary)
/// and periodic columns vary with the row and count 1; public values, challenges
/// and bus boundary values are constant over the trace and count 0.
pub open spec fn variable_degree(v: SymbolicVariable) -> usize {
    match v.entry {
        Entry::Preprocessed { .. } => 1,
        Entry::Main { .. } => 1,
        Entry::Aux { .. } => 1,
        Entry::Periodic => 1,
        Entry::AuxBusBoundary => 0,
        Entry::Public => 0,
        Entry::Challenge => 0,
    }
}

/// Degree multiple of an expression: the row selectors `IsFirstRow` and
/// `IsLastRow` count 1, `IsTransition` and constants 0, and compound nodes
/// report the degree they carry.
pub open spec fn expression_degree(e: SymbolicExpression) -> usize {
    match e {
        SymbolicExpression::Variable(v) => variable_degree(v),
        SymbolicExpression::IsFirstRow => 1,
        SymbolicExpression::IsLastRow => 1,
        SymbolicExpression::IsTransition => 0,
        SymbolicExpression::Constant(_) => 0,
        SymbolicExpression::Add { degree_multiple, .. } => degree_multiple,
        SymbolicExpression::Sub { degree_multiple, .. } => degree_multiple,
        SymbolicExpression::Neg { degree_multiple, .. } => degree_multiple,
        SymbolicExpression::Mul { degree_multiple, .. } => degree_multiple,
    }
}

pub open spec fn max_usize(a: usize, b: usize) -> usize {
    if a >= b {
        a
    } else {
        b
    }
}

/// `a + b`, saturated at `usize::MAX`.
pub open spec fn saturating_sum(a: usize, b: usize) -> usize {
    if a + b > usize::MAX {
        usize::MAX
    } else {
        (a + b) as usize
    }
}

/// The node `x + y`, of degree multiple the larger of the two.
pub open spec fn add_node(x: SymbolicExpression, y: SymbolicExpression) -> SymbolicExpression {
    SymbolicExpression::Add {
        x: Box::new(x),
        y: Box::new(y),
        degree_multiple: max_usize(expression_degree(x), expression_degree(y)),
    }
}

/// The node `x - y`, of degree multiple the larger of the two.
pub open spec fn sub_node(x: SymbolicExpression, y: SymbolicExpression) -> SymbolicExpression {
    SymbolicExpression::Sub {
        x: Box::new(x),
        y: Box::new(y),
        degree_multiple: max_usize(expression_degree(x), expression_degree(y)),
    }
}

/// The node `-x`, of the degree multiple of `x`.
pub open spec fn neg_node(x: SymbolicExpression) -> SymbolicExpression {
    SymbolicExpression::Neg { x: Box::new(x), degree_multiple: expression_degree(x) }
}

/// The node `x * y`, of degree multiple the (saturated) sum of the two.
pub open spec fn mul_node(x: SymbolicExpression, y: SymbolicExpression) -> SymbolicExpression {
    SymbolicExpression::Mul {
        x: Box::new(x),
        y: Box::new(y),
        degree_multiple: saturating_sum(expression_degree(x), expression_degree(y)),
    }
}

impl SymbolicVariable {
    /// A variable of the given entry kind and index.
    pub fn new(entry: Entry, index: usize) -> (r: SymbolicVariable)
        ensures
            r == (SymbolicVariable { entry, index }),
    {
        SymbolicVariable { entry, index }
    }

    /// The degree multiple of this variable.
    pub fn degree_multiple(&self) -> (r: usize)
        ensures
            r == variable_degree(*self),
    {
        match self.entry {
            Entry::Preprocessed { .. } => 1,
            Entry::Main { .. } => 1,
            Entry::Aux { .. } => 1,
            Entry::Periodic => 1,
            Entry::AuxBusBoundary => 0,
            Entry::Public => 0,
            Entry::Challenge => 0,
        }
    }
}

impl SymbolicExpression {
    /// The degree multiple of this expression.
    pub fn degree_multiple(&self) -> (r: usize)
        ensures
            r == expression_degree(*self),
    {
        match self {
            SymbolicExpression::Variable(v) => v.degree_multiple(),
            SymbolicExpression::IsFirstRow => 1,
            SymbolicExpression::IsLastRow => 1,
            SymbolicExpression::IsTransition => 0,
            SymbolicExpression::Constant(_) => 0,
            SymbolicExpression::Add { degree_multiple, .. } => *degree_multiple,
            SymbolicExpression::Sub { degree_multiple, .. } => *degree_multiple,
            SymbolicExpression::Neg { degree_multiple, .. } => *degree_multiple,
            SymbolicExpression::Mul { degree_multiple, .. } => *degree_multiple,
        }
    }

    /// A copy of this expression.
    pub fn duplicate(&self) -> (r: SymbolicExpression)
        ensures
            r == *self,
        decreases self,
    {
        match self {
            SymbolicExpression::Variable(v) => SymbolicExpression::Variable(*v),
            SymbolicExpression::IsFirstRow => SymbolicExpression::IsFirstRow,
            SymbolicExpression::IsLastRow => SymbolicExpression::IsLastRow,
            SymbolicExpression::IsTransition => SymbolicExpression::IsTransition,
            SymbolicExpression::Constant(c) => SymbolicExpression::Constant(*c),
            SymbolicExpression::Add { x, y, degree_multiple } => SymbolicExpression::Add {
                x: Box::new((&**x).duplicate()),
                y: Box::new((&**y).duplicate()),
                degree_multiple: *degree_multiple,
            },
            SymbolicExpression::Sub { x, y, degree_multiple } => SymbolicExpression::Sub {
                x: Box::new((&**x).duplicate()),
                y: Box::new((&**y).duplicate()),
                degree_multiple: *degree_multiple,
            },
            SymbolicExpression::Neg { x, degree_multiple } => SymbolicExpression::Neg {
                x: Box::new((&**x).duplicate()),
                degree_multiple: *degree_multiple,
            },
            SymbolicExpression::Mul { x, y, degree_multiple } => SymbolicExpression::Mul {
                x: Box::new((&**x).duplicate()),
                y: Box::new((&**y).duplicate()),
                degree_multiple: *degree_multiple,
            },
        }
    }

    /// The expression made of a single variable.
    pub fn from_variable(v: SymbolicVariable) -> (r: SymbolicExpression)
        ensures
            r == SymbolicExpression::Variable(v),
    {
        SymbolicExpression::Variable(v)
    }

    /// A constant (a base-field element).
    pub fn constant(c: u64) -> (r: SymbolicExpression)
        ensures
            r == SymbolicExpression::Constant(c),
    {
        SymbolicExpression::Constant(c)
    }

    /// `x + y`; its degree multiple is the larger of the two.
    pub fn add_expr(x: SymbolicExpression, y: SymbolicExpression) -> (r: SymbolicExpression)
        ensures
            r == add_node(x, y),
    {
        let dx = x.degree_multiple();
        let dy = y.degree_multiple();
        let d = if dx >= dy { dx } else { dy };
        SymbolicExpression::Add { x: Box::new(x), y: Box::new(y), degree_multiple: d }
    }

    /// `x - y`; its degree multiple is the larger of the two.
    pub fn sub_expr(x: SymbolicExpression, y: SymbolicExpression) -> (r: SymbolicExpression)
        ensures
            r == sub_node(x, y),
    {
        let dx = x.degree_multiple();
        let dy = y.degree_multiple();
        let d = if dx >= dy { dx } else { dy };
        SymbolicExpression::Sub { x: Box::new(x), y: Box::new(y), degree_multiple: d }
    }

    /// `-x`; its degree multiple is that of `x`.
    pub fn neg_expr(x: SymbolicExpression) -> (r: SymbolicExpression)
        ensures
            r == neg_node(x),
    {
        let d = x.degree_multiple();
        SymbolicExpression::Neg { x: Box::new(x), degree_multiple: d }
    }

    /// `x * y`; its degree multiple is the sum of the two (saturated at `usize::MAX`).
    pub fn mul_expr(x: SymbolicExpression, y: SymbolicExpression) -> (r: SymbolicExpression)
        ensures
            r == mul_node(x, y),
    {
        let dx = x.degree_multiple();
        let dy = y.degree_multiple();
        let d = dx.saturating_add(dy);
        SymbolicExpression::Mul { x: Box::new(x), y: Box::new(y), degree_multiple: d }
    }
}

// ---------------------------------------------------------------------------
// Evaluation on a window of rows
// ---------------------------------------------------------------------------

/// The values a constraint can read when it is evaluated on one row: the
/// current and next rows of each trace, the public inputs, the challenges, the
/// bus boundary values, the periodic values of the row, and the row selectors.
/// Base-field values are lifted into the extension (`c1 == 0`).
pub struct EvaluationWindow {
    pub main_local: Vec<Ext2>,
    pub main_next: Vec<Ext2>,
    pub preprocessed_local: Vec<Ext2>,
    pub preprocessed_next: Vec<Ext2>,
    pub aux_local: Vec<Ext2>,
    pub aux_next: Vec<Ext2>,
    pub randomness: Vec<Ext2>,
    pub aux_bus_boundary_values: Vec<Ext2>,
    pub public_values: Vec<u64>,
    pub periodic_values: Vec<Ext2>,
    pub is_first_row: Ext2,
    pub is_last_row: Ext2,
    pub is_transition: Ext2,
}

/// The mathematical content of an [`EvaluationWindow`].
pub struct WindowView {
    pub main_local: Seq<Ext2>,
    pub main_next: Seq<Ext2>,
    pub preprocessed_local: Seq<Ext2>,
    pub preprocessed_next: Seq<Ext2>,
    pub aux_local: Seq<Ext2>,
    pub aux_next: Seq<Ext2>,
    pub randomness: Seq<Ext2>,
    pub aux_bus_boundary_values: Seq<Ext2>,
    pub public_values: Seq<u64>,
    pub periodic_values: Seq<Ext2>,
    pub is_first_row: Ext2,
    pub is_last_row: Ext2,
    pub is_transition: Ext2,
}

impl View for EvaluationWindow {
    type V = WindowView;

    open spec fn view(&self) -> WindowView {
        WindowView {
            main_local: self.main_local@,
            main_next: self.main_next@,
            preprocessed_local: self.preprocessed_local@,
            preprocessed_next: self.preprocessed_next@,
            aux_local: self.aux_local@,
            aux_next: self.aux_next@,
            randomness: self.randomness@,
            aux_bus_boundary_values: self.aux_bus_boundary_values@,
            public_values: self.public_values@,
            periodic_values: self.periodic_values@,
            is_first_row: self.is_first_row,
            is_last_row: self.is_last_row,
            is_transition: self.is_transition,
        }
    }
}

/// The `i`-th element of `s`, reduced, if there is one.
pub open spec fn lookup(s: Seq<Ext2>, i: int) -> Option<Ext2> {
    if 0 <= i < s.len() {
        Some(canon(s[i]))
    } else {
        None
    }
}

/// The row `offset` of a two-row window: `local` for 0, `next` for 1.
pub open spec fn lookup_row(local: Seq<Ext2>, next: Seq<Ext2>, offset: usize, i: int) -> Option<Ext2> {
    if offset == 0 {
        lookup(local, i)
    } else if offset == 1 {
        lookup(next, i)
    } else {
        None
    }
}

/// The value of a variable in a window, or `None` when the window has no such
/// column or index.
pub open spec fn variable_value(v: SymbolicVariable, w: WindowView) -> Option<Ext2> {
    let i = v.index as int;
    match v.entry {
        Entry::Preprocessed { offset } => lookup_row(w.preprocessed_local, w.preprocessed_next, offset, i),
        Entry::Main { offset } => lookup_row(w.main_local, w.main_next, offset, i),
        Entry::Aux { offset } => lookup_row(w.aux_local, w.aux_next, offset, i),
        Entry::AuxBusBoundary => lookup(w.aux_bus_boundary_values, i),
        Entry::Public => if 0 <= i < w.public_values.len() {
            Some(embed(w.public_values[i]))
        } else {
            None
        },
        Entry::Challenge => lookup(w.randomness, i),
        Entry::Periodic => lookup(w.periodic_values, i),
    }
}

/// The value of an expression in a window, or `None` when it reads a variable
/// that the window does not have. Results are canonical.
pub open spec fn evaluate(e: SymbolicExpression, w: WindowView) -> Option<Ext2>
    decreases e,
{
    match e {
        SymbolicExpression::Variable(v) => variable_value(v, w),
        SymbolicExpression::IsFirstRow => Some(canon(w.is_first_row)),
        SymbolicExpression::IsLastRow => Some(canon(w.is_last_row)),
        SymbolicExpression::IsTransition => Some(canon(w.is_transition)),
        SymbolicExpression::Constant(c) => Some(embed(c)),
        SymbolicExpression::Add { x, y, .. } => match (evaluate(*x, w), evaluate(*y, w)) {
            (Some(a), Some(b)) => Some(ext_add(a, b)),
            _ => None,
        },
        SymbolicExpression::Sub { x, y, .. } => match (evaluate(*x, w), evaluate(*y, w)) {
            (Some(a), Some(b)) => Some(ext_sub(a, b)),
            _ => None,
        },
        SymbolicExpression::Neg { x, .. } => match evaluate(*x, w) {
            Some(a) => Some(ext_neg(a)),
            None => None,
        },
        SymbolicExpression::Mul { x, y, .. } => match (evaluate(*x, w), evaluate(*y, w)) {
            (Some(a), Some(b)) => Some(ext_mul(a, b)),
            _ => None,
        },
    }
}

/// Values of expressions are canonical.
pub proof fn lemma_evaluate_canonical(e: SymbolicExpression, w: WindowView)
    ensures
        evaluate(e, w) matches Some(v) ==> is_canonical(v),
    decreases e,
{
    let z = Ext2 { c0: 0, c1: 0 };
    match e {
        SymbolicExpression::Variable(v) => {
            let i = v.index as int;
            if 0 <= i < w.main_local.len() { lemma_ext_results_canonical(w.main_local[i], z); }
            if 0 <= i < w.main_next.len() { lemma_ext_results_canonical(w.main_next[i], z); }
            if 0 <= i < w.preprocessed_local.len() { lemma_ext_results_canonical(w.preprocessed_local[i], z); }
            if 0 <= i < w.preprocessed_next.len() { lemma_ext_results_canonical(w.preprocessed_next[i], z); }
            if 0 <= i < w.aux_local.len() { lemma_ext_results_canonical(w.aux_local[i], z); }
            if 0 <= i < w.aux_next.len() { lemma_ext_results_canonical(w.aux_next[i], z); }
            if 0 <= i < w.aux_bus_boundary_values.len() { lemma_ext_results_canonical(w.aux_bus_boundary_values[i], z); }
            if 0 <= i < w.randomness.len() { lemma_ext_results_canonical(w.randomness[i], z); }
            if 0 <= i < w.periodic_values.len() { lemma_ext_results_canonical(w.periodic_values[i], z); }
            if 0 <= i < w.public_values.len() {
                lemma_ext_results_canonical(Ext2 { c0: w.public_values[i], c1: 0 }, z);
            }
        },
        SymbolicExpression::IsFirstRow => lemma_ext_results_canonical(w.is_first_row, z),
        SymbolicExpression::IsLastRow => lemma_ext_results_canonical(w.is_last_row, z),
        SymbolicExpression::IsTransition => lemma_ext_results_canonical(w.is_transition, z),
        SymbolicExpression::Constant(c) => lemma_ext_results_canonical(Ext2 { c0: c, c1: 0 }, z),
        SymbolicExpression::Add { x, y, .. } => {
            if let (Some(a), Some(b)) = (evaluate(*x, w), evaluate(*y, w)) {
                lemma_ext_results_canonical(a, b);
            }
        },
        SymbolicExpression::Sub { x, y, .. } => {
            if let (Some(a), Some(b)) = (evaluate(*x, w), evaluate(*y, w)) {
                lemma_ext_results_canonical(a, b);
            }
        },
        SymbolicExpression::Neg { x, .. } => {
            if let Some(a) = evaluate(*x, w) {
                lemma_ext_results_canonical(a, a);
            }
        },
        SymbolicExpression::Mul { x, y, .. } => {
            if let (Some(a), Some(b)) = (evaluate(*x, w), evaluate(*y, w)) {
                lemma_ext_results_canonical(a, b);
            }
        },
    }
}

fn lookup_exec(s: &Vec<Ext2>, i: usize) -> (r: Option<Ext2>)
    ensures
        r == lookup(s@, i as int),
{
    if i < s.len() {
        Some(s[i].reduce())
    } else {
        None
    }
}

fn lookup_row_exec(local: &Vec<Ext2>, next: &Vec<Ext2>, offset: usize, i: usize) -> (r: Option<Ext2>)
    ensures
        r == lookup_row(local@, next@, offset, i as int),
{
    if offset == 0 {
        lookup_exec(local, i)
    } else if offset == 1 {
        lookup_exec(next, i)
    } else {
        None
    }
}

/// The value of a variable in a window.
pub fn variable_value_exec(v: &SymbolicVariable, w: &EvaluationWindow) -> (r: Option<Ext2>)
    ensures
        r == variable_value(*v, w@),
{
    let i = v.index;
    match v.entry {
        Entry::Preprocessed { offset } => lookup_row_exec(&w.preprocessed_local, &w.preprocessed_next, offset, i),
        Entry::Main { offset } => lookup_row_exec(&w.main_local, &w.main_next, offset, i),
        Entry::Aux { offset } => lookup_row_exec(&w.aux_local, &w.aux_next, offset, i),
        Entry::AuxBusBoundary => lookup_exec(&w.aux_bus_boundary_values, i),
        Entry::Public => if i < w.public_values.len() {
            Some(Ext2::from_base(w.public_values[i]))
        } else {
            None
        },
        Entry::Challenge => lookup_exec(&w.randomness, i),
        Entry::Periodic => lookup_exec(&w.periodic_values, i),
    }
}

/// Evaluates an expression in a window.
pub fn evaluate_exec(e: &SymbolicExpression, w: &EvaluationWindow) -> (r: Option<Ext2>)
    ensures
        r == evaluate(*e, w@),
    decreases e,
{
    match e {
        SymbolicExpression::Variable(v) => variable_value_exec(v, w),
        SymbolicExpression::IsFirstRow => Some(w.is_first_row.reduce()),
        SymbolicExpression::IsLastRow => Some(w.is_last_row.reduce()),
        SymbolicExpression::IsTransition => Some(w.is_transition.reduce()),
        SymbolicExpression::Constant(c) => Some(Ext2::from_base(*c)),
        SymbolicExpression::Add { x, y, .. } => {
            let a = evaluate_exec(&**x, w);
            let b = evaluate_exec(&**y, w);
            match (a, b) {
                (Some(a), Some(b)) => Some(a.add(&b)),
                _ => None,
            }
        },
        SymbolicExpression::Sub { x, y, .. } => {
            let a = evaluate_exec(&**x, w);
            let b = evaluate_exec(&**y, w);
            match (a, b) {
                (Some(a), Some(b)) => Some(a.sub(&b)),
                _ => None,
            }
        },
        SymbolicExpression::Neg { x, .. } => {
            match evaluate_exec(&**x, w) {
                Some(a) => Some(a.neg()),
                None => None,
            }
        },
        SymbolicExpression::Mul { x, y, .. } => {
            let a = evaluate_exec(&**x, w);
            let b = evaluate_exec(&**y, w);
            match (a, b) {
                (Some(a), Some(b)) => Some(a.mul(&b)),
                _ => None,
            }
        },
    }
}

// ---------------------------------------------------------------------------
// Laws of degrees and of evaluation
// ---------------------------------------------------------------------------

/// The degree multiple of a sum or a difference is the larger of its
/// operands' (it bounds both and is one of them); of a negation, its
/// operand's; of a product, the sum of its operands' (saturated at
/// `usize::MAX`).
pub proof fn lemma_node_degrees(x: SymbolicExpression, y: SymbolicExpression)
    ensures
        expression_degree(add_node(x, y)) >= expression_degree(x),
        expression_degree(add_node(x, y)) >= expression_degree(y),
        expression_degree(add_node(x, y)) == expression_degree(x) || expression_degree(
            add_node(x, y),
        ) == expression_degree(y),
        expression_degree(sub_node(x, y)) >= expression_degree(x),
        expression_degree(sub_node(x, y)) >= expression_degree(y),
        expression_degree(sub_node(x, y)) == expression_degree(x) || expression_degree(
            sub_node(x, y),
        ) == expression_degree(y),
        expression_degree(neg_node(x)) == expression_degree(x),
        expression_degree(x) + expression_degree(y) <= usize::MAX ==> expression_degree(
            mul_node(x, y),
        ) == expression_degree(x) + expression_degree(y),
        expression_degree(x) + expression_degree(y) > usize::MAX ==> expression_degree(
            mul_node(x, y),
        ) == usize::MAX,
{
}

/// A variable whose value changes from row to row (a preprocessed, main or
/// auxiliary column, or a periodic column) has degree multiple 1; one whose
/// value is fixed over the trace (a bus boundary value, a public value, a
/// challenge) has degree multiple 0. So the product of two row-varying
/// variables has degree multiple 2.
pub proof fn lemma_variable_degrees(v: SymbolicVariable, u: SymbolicVariable)
    ensures
        (v.entry is Preprocessed || v.entry is Main || v.entry is Aux || v.entry is Periodic)
            <==> expression_degree(SymbolicExpression::Variable(v)) == 1,
        (v.entry is AuxBusBoundary || v.entry is Public || v.entry is Challenge)
            <==> expression_degree(SymbolicExpression::Variable(v)) == 0,
        (v.entry is Preprocessed || v.entry is Main || v.entry is Aux || v.entry is Periodic)
            && (u.entry is Preprocessed || u.entry is Main || u.entry is Aux || u.entry is Periodic)
            ==> expression_degree(
            mul_node(SymbolicExpression::Variable(v), SymbolicExpression::Variable(u)),
        ) == 2,
{
}

/// The row selectors read the window's selectors, reduced; a constant is its
/// value reduced.
pub proof fn lemma_evaluate_leaves(w: WindowView, c: u64)
    ensures
        evaluate(SymbolicExpression::IsFirstRow, w) == Some(canon(w.is_first_row)),
        evaluate(SymbolicExpression::IsLastRow, w) == Some(canon(w.is_last_row)),
        evaluate(SymbolicExpression::IsTransition, w) == Some(canon(w.is_transition)),
        evaluate(SymbolicExpression::Constant(c), w) == Some(embed(c)),
{
}

/// A node with an operand that has no value on a window has none either.
pub proof fn lemma_evaluate_undefined(x: SymbolicExpression, y: SymbolicExpression, w: WindowView)
    requires
        evaluate(x, w) is None || evaluate(y, w) is None,
    ensures
        evaluate(add_node(x, y), w) is None,
        evaluate(sub_node(x, y), w) is None,
        evaluate(mul_node(x, y), w) is None,
        evaluate(x, w) is None ==> evaluate(neg_node(x), w) is None,
{
}

/// Evaluation is the field's arithmetic: on a window where `x` and `y` have
/// values `a` and `b`, `x - y` plus `b` is `a`, `x + y` minus `b` is `a`,
/// `-x` plus `a` is zero, `x * 1` is `a`, and sums and products do not depend
/// on the order of their operands.
pub proof fn lemma_evaluate_arithmetic(
    x: SymbolicExpression,
    y: SymbolicExpression,
    w: WindowView,
    a: Ext2,
    b: Ext2,
)
    requires
        evaluate(x, w) == Some(a),
        evaluate(y, w) == Some(b),
    ensures
        evaluate(sub_node(x, y), w) matches Some(d) && ext_add(d, b) == a,
        evaluate(add_node(x, y), w) matches Some(t) && ext_sub(t, b) == a,
        evaluate(neg_node(x), w) matches Some(n) && ext_add(n, a) == ext_zero(),
        evaluate(mul_node(x, SymbolicExpression::Constant(1)), w) == Some(a),
        evaluate(add_node(x, y), w) == evaluate(add_node(y, x), w),
        evaluate(mul_node(x, y), w) == evaluate(mul_node(y, x), w),
{
    lemma_evaluate_canonical(x, w);
    lemma_canon_of_canonical(a);
    lemma_ext_sub_add_inverse(a, b);
    lemma_ext_add_comm(a, b);
    lemma_ext_mul_comm(a, b);
    lemma_modp_small(1);
    lemma_ext_mul_one(a);
    assert(embed(1) == crate::field::ext_one());
    let one = SymbolicExpression::Constant(1);
    assert(evaluate(one, w) == Some(embed(1)));
    assert(evaluate(mul_node(x, one), w) == Some(ext_mul(a, embed(1))));
    assert(evaluate(sub_node(x, y), w) == Some(ext_sub(a, b)));
    assert(evaluate(add_node(x, y), w) == Some(ext_add(a, b)));
    assert(evaluate(neg_node(x), w) == Some(ext_neg(a)));
}

/// A variable of degree multiple 0 takes the same value on any two windows
/// that agree on the values fixed over a trace (public values, challenges,
/// bus boundary values), whatever their rows hold.
pub proof fn lemma_degree_zero_variables_ignore_rows(v: SymbolicVariable, w1: WindowView, w2: WindowView)
    requires
        expression_degree(SymbolicExpression::Variable(v)) == 0,
        w1.public_values == w2.public_values,
        w1.randomness == w2.randomness,
        w1.aux_bus_boundary_values == w2.aux_bus_boundary_values,
    ensures
        evaluate(SymbolicExpression::Variable(v), w1) == evaluate(SymbolicExpression::Variable(v), w2),
{
}

/// Each variable reads its own part of the window, reduced: a trace column on
/// the current row for offset 0 and on the next row for offset 1 (no other
/// offset exists), a bus boundary value, challenge or periodic value from its
/// own list, a public value from the public values.
pub proof fn lemma_variable_reads_its_column(w: WindowView, i: usize, offset: usize)
    ensures
        i < w.preprocessed_local.len() ==> evaluate(
            SymbolicExpression::Variable(SymbolicVariable { entry: Entry::Preprocessed { offset: 0 }, index: i }),
            w,
        ) == Some(canon(w.preprocessed_local[i as int])),
        i < w.preprocessed_next.len() ==> evaluate(
            SymbolicExpression::Variable(SymbolicVariable { entry: Entry::Preprocessed { offset: 1 }, index: i }),
            w,
        ) == Some(canon(w.preprocessed_next[i as int])),
        i < w.main_local.len() ==> evaluate(
            SymbolicExpression::Variable(SymbolicVariable { entry: Entry::Main { offset: 0 }, index: i }),
            w,
        ) == Some(canon(w.main_local[i as int])),
        i < w.main_next.len() ==> evaluate(
            SymbolicExpression::Variable(SymbolicVariable { entry: Entry::Main { offset: 1 }, index: i }),
            w,
        ) == Some(canon(w.main_next[i as int])),
        i < w.aux_local.len() ==> evaluate(
            SymbolicExpression::Variable(SymbolicVariable { entry: Entry::Aux { offset: 0 }, index: i }),
            w,
        ) == Some(canon(w.aux_local[i as int])),
        i < w.aux_next.len() ==> evaluate(
            SymbolicExpression::Variable(SymbolicVariable { entry: Entry::Aux { offset: 1 }, index: i }),
            w,
        ) == Some(canon(w.aux_next[i as int])),
        i < w.aux_bus_boundary_values.len() ==> evaluate(
            SymbolicExpression::Variable(SymbolicVariable { entry: Entry::AuxBusBoundary, index: i }),
            w,
        ) == Some(canon(w.aux_bus_boundary_values[i as int])),
        i < w.randomness.len() ==> evaluate(
            SymbolicExpression::Variable(SymbolicVariable { entry: Entry::Challenge, index: i }),
            w,
        ) == Some(canon(w.randomness[i as int])),
        i < w.periodic_values.len() ==> evaluate(
            SymbolicExpression::Variable(SymbolicVariable { entry: Entry::Periodic, index: i }),
            w,
        ) == Some(canon(w.periodic_values[i as int])),
        i < w.public_values.len() ==> evaluate(
            SymbolicExpression::Variable(SymbolicVariable { entry: Entry::Public, index: i }),
            w,
        ) == Some(embed(w.public_values[i as int])),
        offset >= 2 ==> evaluate(
            SymbolicExpression::Variable(SymbolicVariable { entry: Entry::Preprocessed { offset }, index: i }),
            w,
        ) is None && evaluate(
            SymbolicExpression::Variable(SymbolicVariable { entry: Entry::Main { offset }, index: i }),
            w,
        ) is None && evaluate(
            SymbolicExpression::Variable(SymbolicVariable { entry: Entry::Aux { offset }, index: i }),
            w,
        ) is None,
{
}

} // verus!
