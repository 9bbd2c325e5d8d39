//! Checking an AIR's constraints on every row of a concrete trace.
//!
//! For each row the check builds the window the constraints read (the
//! current row and the next one, with wraparound; the auxiliary rows read as
//! extension elements; the bus boundary values taken from the last auxiliary
//! row; the preprocessed rows; the periodic values of the row; the row
//! selectors) and lets the AIR state its constraints to a
//! [`DebugConstraintBuilder`], which checks each one on the window. The first
//! constraint that is not zero is reported.
use p3_matrix::dense::RowMajorMatrix;
use vstd::arithmetic::div_mod::lemma_fundamental_div_mod;
use vstd::arithmetic::mul::lemma_mul_inequality;
use vstd::prelude::*;

use crate::air::{MidenAir, MidenAirBuilder};
use crate::field::{canon, lemma_canon_of_canonical, ext_add, ext_is_zero_spec, ext_one, ext_zero, Ext2};
use crate::matrix::{height_of, trace_matrix_values, trace_matrix_width, trace_values, trace_width};
use crate::symbolic::{
    evaluate, evaluate_exec, expression_degree, lemma_degree_zero_variables_ignore_rows,
    lemma_evaluate_canonical, Entry,
    EvaluationWindow, SymbolicExpression, SymbolicVariable, WindowView,
};
use crate::layout::{layout_of, LayoutView, VariableLayout};
use crate::util::{coefficients_to_ext, lift, lift_seq, prover_row_to_ext};

verus! {

/// Why a trace does not satisfy an AIR's constraints.
#[derive(Clone, Copy, Debug, PartialEq, Eq, Structural)]
pub enum ConstraintFailure {
    /// A constraint evaluated to the nonzero `value` on row `row`.
    NonZero { row: usize, value: Ext2 },
    /// A constraint on row `row` read a variable that the row's window does
    /// not have (a column, index or row offset out of range).
    Unresolved { row: usize },
    /// The AIR's preprocessed trace has no row for `row` or for the row after it.
    MissingPreprocessedRow { row: usize },
}

/// The row a failure was found on.
pub open spec fn failure_row(f: ConstraintFailure) -> usize {
    match f {
        ConstraintFailure::NonZero { row, .. } => row,
        ConstraintFailure::Unresolved { row } => row,
        ConstraintFailure::MissingPreprocessedRow { row } => row,
    }
}

/// What a single constraint yields on a row: nothing when it is zero there.
pub open spec fn constraint_outcome(c: SymbolicExpression, w: WindowView, row: usize) -> Option<
    ConstraintFailure,
> {
    match evaluate(c, w) {
        None => Some(ConstraintFailure::Unresolved { row }),
        Some(v) => if ext_is_zero_spec(v) {
            None
        } else {
            Some(ConstraintFailure::NonZero { row, value: v })
        },
    }
}

/// The outcome of the first constraint of `cs` that is not zero on the row.
pub open spec fn first_failure(cs: Seq<SymbolicExpression>, w: WindowView, row: usize) -> Option<
    ConstraintFailure,
>
    decreases cs.len(),
{
    if cs.len() == 0 {
        None
    } else {
        match first_failure(cs.drop_last(), w, row) {
            Some(f) => Some(f),
            None => constraint_outcome(cs.last(), w, row),
        }
    }
}

// ---------------------------------------------------------------------------
// The window of a row
// ---------------------------------------------------------------------------

/// Row `r` of a row-major matrix of the given width.
pub open spec fn row_of(values: Seq<u64>, width: nat, r: nat) -> Seq<u64> {
    values.subrange((r * width) as int, (r * width + width) as int)
}

/// The row after `r` in a trace of `height` rows: the last row wraps to the first.
pub open spec fn next_row(r: nat, height: nat) -> nat {
    (r + 1) % height
}

/// Row `r` of the values cut into chunks of `width` (the last chunk may be
/// shorter) exists.
pub open spec fn has_chunk(values: Seq<u64>, width: nat, r: nat) -> bool {
    width > 0 && r * width < values.len()
}

/// Row `r` of the values cut into chunks of `width`.
pub open spec fn chunk_of(values: Seq<u64>, width: nat, r: nat) -> Seq<u64> {
    let end: int = if r * width + width <= values.len() {
        (r * width + width) as int
    } else {
        values.len() as int
    };
    values.subrange((r * width) as int, end)
}

/// One when `b` holds, zero otherwise.
pub open spec fn selector(b: bool) -> Ext2 {
    if b {
        ext_one()
    } else {
        ext_zero()
    }
}

/// The value of a periodic column on row `r`: the column repeats with its own
/// length as period; an empty column is zero.
pub open spec fn periodic_value(col: Seq<u64>, r: nat) -> Ext2 {
    if col.len() == 0 {
        ext_zero()
    } else {
        lift(col[(r % col.len()) as int])
    }
}

/// The values and width of an optional matrix.
pub open spec fn matrix_view(m: Option<RowMajorMatrix<u64>>) -> Option<(Seq<u64>, nat)> {
    match m {
        Some(m) => Some((trace_values(m), trace_width(m))),
        None => None,
    }
}

/// The periodic table as sequences.
pub open spec fn table_view(t: Vec<Vec<u64>>) -> Seq<Seq<u64>> {
    t@.map_values(|c: Vec<u64>| c@)
}

/// The inputs of a constraint check, as mathematical values.
pub struct CheckInputs {
    /// The main trace's values and width.
    pub main: Seq<u64>,
    pub width: nat,
    /// The auxiliary trace's values and width (in base-field columns), if any.
    pub aux: Option<(Seq<u64>, nat)>,
    /// The challenges the auxiliary trace was built with.
    pub randomness: Seq<Ext2>,
    /// The public values.
    pub public_values: Seq<u64>,
    /// The AIR's preprocessed trace's values and width, if any.
    pub preprocessed: Option<(Seq<u64>, nat)>,
    /// The AIR's periodic columns.
    pub periodic: Seq<Seq<u64>>,
}

/// The inputs of a check of the given traces, challenges and public values,
/// with the AIR's preprocessed trace and periodic columns.
pub open spec fn check_inputs(
    main: RowMajorMatrix<u64>,
    aux_trace: Option<RowMajorMatrix<u64>>,
    randomness: Seq<Ext2>,
    public_values: Seq<u64>,
    preprocessed: Option<(Seq<u64>, nat)>,
    periodic: Seq<Seq<u64>>,
) -> CheckInputs {
    CheckInputs {
        main: trace_values(main),
        width: trace_width(main),
        aux: matrix_view(aux_trace),
        randomness,
        public_values,
        preprocessed,
        periodic,
    }
}

/// The variables handed to the AIR on every row of a check: the widths of the
/// preprocessed and main traces, the auxiliary trace's width in extension
/// columns, and one variable per challenge, public value and periodic column.
pub open spec fn inputs_layout(inp: CheckInputs) -> LayoutView {
    layout_of(
        match inp.preprocessed {
            Some((_, w)) => w,
            None => 0,
        },
        inp.width,
        match inp.aux {
            Some((_, w)) => w / 2,
            None => 0,
        },
        inp.randomness.len(),
        inp.public_values.len(),
        inp.periodic.len(),
    )
}

/// The number of rows of the main trace.
pub open spec fn trace_height(inp: CheckInputs) -> nat {
    height_of(inp.main.len(), inp.width)
}

/// The preprocessed trace has the rows that row `r` reads.
pub open spec fn preprocessed_rows_exist(inp: CheckInputs, r: nat) -> bool {
    match inp.preprocessed {
        None => true,
        Some((v, w)) => has_chunk(v, w, r) && has_chunk(v, w, next_row(r, trace_height(inp))),
    }
}

/// The window that the constraints of row `r` are evaluated on.
pub open spec fn window_at(inp: CheckInputs, r: nat) -> WindowView {
    let h = trace_height(inp);
    let n = next_row(r, h);
    WindowView {
        main_local: lift_seq(row_of(inp.main, inp.width, r)),
        main_next: lift_seq(row_of(inp.main, inp.width, n)),
        preprocessed_local: match inp.preprocessed {
            Some((v, w)) => lift_seq(chunk_of(v, w, r)),
            None => Seq::empty(),
        },
        preprocessed_next: match inp.preprocessed {
            Some((v, w)) => lift_seq(chunk_of(v, w, n)),
            None => Seq::empty(),
        },
        aux_local: match inp.aux {
            Some((v, w)) => coefficients_to_ext(row_of(v, w, r)),
            None => Seq::empty(),
        },
        aux_next: match inp.aux {
            Some((v, w)) => coefficients_to_ext(row_of(v, w, n)),
            None => Seq::empty(),
        },
        randomness: inp.randomness,
        aux_bus_boundary_values: match inp.aux {
            Some((v, w)) => coefficients_to_ext(row_of(v, w, (h - 1) as nat)),
            None => Seq::empty(),
        },
        public_values: inp.public_values,
        periodic_values: Seq::new(
            inp.periodic.len(),
            |j: int| periodic_value(inp.periodic[j], r),
        ),
        is_first_row: selector(r == 0),
        is_last_row: selector(r == h - 1),
        is_transition: selector(r != h - 1),
    }
}

/// Row `r` passes: its preprocessed rows exist and every constraint stated
/// for it (`cs`) is zero on its window.
pub open spec fn row_passes(inp: CheckInputs, cs: Seq<SymbolicExpression>, r: nat) -> bool {
    &&& preprocessed_rows_exist(inp, r)
    &&& first_failure(cs, window_at(inp, r), r as usize) is None
}

/// The result of a check, given the constraints stated on each row (`log`):
/// success when every row passes; otherwise the failure of the first row that
/// does not pass, checking stopping there.
pub open spec fn check_outcome(
    inp: CheckInputs,
    log: Seq<Seq<SymbolicExpression>>,
    result: Result<(), ConstraintFailure>,
) -> bool {
    let h = trace_height(inp);
    match result {
        Ok(()) => {
            &&& log.len() == h
            &&& forall|r: int| 0 <= r < h ==> row_passes(inp, #[trigger] log[r], r as nat)
        },
        Err(f) => {
            let k = failure_row(f) as nat;
            &&& k < h
            &&& forall|r: int| 0 <= r < k ==> row_passes(inp, #[trigger] log[r], r as nat)
            &&& if preprocessed_rows_exist(inp, k) {
                &&& log.len() == k + 1
                &&& first_failure(log[k as int], window_at(inp, k), k as usize) == Some(f)
            } else {
                &&& log.len() == k
                &&& f == ConstraintFailure::MissingPreprocessedRow { row: k as usize }
            }
        },
    }
}

/// The result of checking `air` on the inputs: [`check_outcome`] of the
/// constraints stated on each row checked (`log`), each of which is what the
/// AIR states to a builder of the inputs' layout.
pub open spec fn air_check_outcome<A: MidenAir>(
    air: &A,
    inp: CheckInputs,
    log: Seq<Seq<SymbolicExpression>>,
    result: Result<(), ConstraintFailure>,
) -> bool {
    &&& check_outcome(inp, log, result)
    &&& forall|k: int|
        0 <= k < log.len() ==> #[trigger] log[k] == air.constraints_spec(inputs_layout(inp))
}

/// A check of an AIR succeeds exactly when every row of the trace passes with
/// the constraints the AIR states to a builder of the inputs' layout.
pub proof fn lemma_check_succeeds_iff_rows_pass<A: MidenAir>(
    air: &A,
    inp: CheckInputs,
    log: Seq<Seq<SymbolicExpression>>,
    result: Result<(), ConstraintFailure>,
)
    requires
        air_check_outcome(air, inp, log, result),
    ensures
        result is Ok <==> forall|r: nat|
            r < trace_height(inp) ==> #[trigger] row_passes(
                inp,
                air.constraints_spec(inputs_layout(inp)),
                r,
            ),
{
    let cs = air.constraints_spec(inputs_layout(inp));
    match result {
        Ok(()) => {
            assert forall|r: nat| r < trace_height(inp) implies #[trigger] row_passes(inp, cs, r) by {
                assert(log[r as int] == cs);
            }
        },
        Err(f) => {
            let k = failure_row(f) as nat;
            if preprocessed_rows_exist(inp, k) {
                assert(log[k as int] == cs);
            }
            assert(!row_passes(inp, cs, k));
        },
    }
}

/// The row after the last row is the first row: the last row's window reads
/// the first row of every trace as its next row.
pub proof fn lemma_last_row_wraps_to_first(inp: CheckInputs)
    requires
        trace_height(inp) > 0,
    ensures
        window_at(inp, (trace_height(inp) - 1) as nat).main_next == window_at(inp, 0).main_local,
        window_at(inp, (trace_height(inp) - 1) as nat).aux_next == window_at(inp, 0).aux_local,
        window_at(inp, (trace_height(inp) - 1) as nat).preprocessed_next == window_at(
            inp,
            0,
        ).preprocessed_local,
{
    let h = trace_height(inp);
    assert(next_row((h - 1) as nat, h) == 0) by {
        vstd::arithmetic::div_mod::lemma_mod_self_0(h as int);
    }
}

/// On every row exactly one of the last-row and transition selectors is one:
/// they add up to one. The first-row selector is one on row 0 only.
pub proof fn lemma_row_selectors(inp: CheckInputs, r: nat)
    requires
        r < trace_height(inp),
    ensures
        ext_add(window_at(inp, r).is_transition, window_at(inp, r).is_last_row) == ext_one(),
        (window_at(inp, r).is_first_row == ext_one()) <==> (r == 0),
        (window_at(inp, r).is_transition == ext_zero()) <==> (r == trace_height(inp) - 1),
{
    vstd::arithmetic::div_mod::lemma_small_mod(1nat, crate::field::P as nat);
    vstd::arithmetic::div_mod::lemma_small_mod(0nat, crate::field::P as nat);
}

/// A periodic column repeats with its length as period.
pub proof fn lemma_periodic_values_repeat(inp: CheckInputs, r: nat, j: int)
    requires
        0 <= j < inp.periodic.len(),
        inp.periodic[j].len() > 0,
    ensures
        window_at(inp, r).periodic_values[j] == window_at(
            inp,
            r + inp.periodic[j].len(),
        ).periodic_values[j],
{
    let n = inp.periodic[j].len();
    vstd::arithmetic::div_mod::lemma_mod_add_multiples_vanish(r as int, n as int);
}

/// A next-row variable read on the window of row `r` gives what the same
/// current-row variable gives on the window of the row after `r` (the first
/// row after the last), for the preprocessed, main and auxiliary traces.
pub proof fn lemma_next_row_reads_following_row(inp: CheckInputs, r: nat, i: usize)
    requires
        r < trace_height(inp),
    ensures
        ({
            let n = next_row(r, trace_height(inp));
            &&& evaluate(
                SymbolicExpression::Variable(SymbolicVariable { entry: Entry::Main { offset: 1 }, index: i }),
                window_at(inp, r),
            ) == evaluate(
                SymbolicExpression::Variable(SymbolicVariable { entry: Entry::Main { offset: 0 }, index: i }),
                window_at(inp, n),
            )
            &&& evaluate(
                SymbolicExpression::Variable(
                    SymbolicVariable { entry: Entry::Preprocessed { offset: 1 }, index: i },
                ),
                window_at(inp, r),
            ) == evaluate(
                SymbolicExpression::Variable(
                    SymbolicVariable { entry: Entry::Preprocessed { offset: 0 }, index: i },
                ),
                window_at(inp, n),
            )
            &&& evaluate(
                SymbolicExpression::Variable(SymbolicVariable { entry: Entry::Aux { offset: 1 }, index: i }),
                window_at(inp, r),
            ) == evaluate(
                SymbolicExpression::Variable(SymbolicVariable { entry: Entry::Aux { offset: 0 }, index: i }),
                window_at(inp, n),
            )
        }),
{
}

/// On every row, the bus boundary values are the last auxiliary row read as
/// extension elements: a bus boundary variable read on the window of any row
/// gives what the same current-row auxiliary variable gives on the last row's
/// window, and bus boundary value `j` is the reduced element with
/// coefficients `aux[(h - 1) * w + 2 j]` and `aux[(h - 1) * w + 2 j + 1]`.
pub proof fn lemma_bus_boundary_values_are_last_aux_row(inp: CheckInputs, r: nat, i: usize)
    requires
        r < trace_height(inp),
        inp.aux matches Some((v, w)) && trace_height(inp) * w <= v.len(),
    ensures
        ({
            let h = trace_height(inp);
            let (v, w) = inp.aux.unwrap();
            let bus = window_at(inp, r).aux_bus_boundary_values;
            &&& evaluate(
                SymbolicExpression::Variable(SymbolicVariable { entry: Entry::AuxBusBoundary, index: i }),
                window_at(inp, r),
            ) == evaluate(
                SymbolicExpression::Variable(SymbolicVariable { entry: Entry::Aux { offset: 0 }, index: i }),
                window_at(inp, (h - 1) as nat),
            )
            &&& bus.len() == w / 2
            &&& forall|j: int|
                0 <= j < w / 2 ==> #[trigger] bus[j] == canon(
                    Ext2 { c0: v[(h - 1) * w + 2 * j], c1: v[(h - 1) * w + 2 * j + 1] },
                )
        }),
{
    let h = trace_height(inp);
    let (v, w) = inp.aux.unwrap();
    let last = (h - 1) as nat;
    assert(last * w + w == h * w) by (nonlinear_arith)
        requires
            last + 1 == h,
    ;
    let row = row_of(v, w, last);
    assert forall|j: int| 0 <= j < w / 2 implies #[trigger] window_at(inp, r).aux_bus_boundary_values[j]
        == canon(Ext2 { c0: v[(h - 1) * w + 2 * j], c1: v[(h - 1) * w + 2 * j + 1] }) by {
        assert(2 * j + 1 < w) by {
            vstd::arithmetic::div_mod::lemma_fundamental_div_mod(w as int, 2);
        }
        assert(row[2 * j] == v[last * w + 2 * j]);
        assert(row[2 * j + 1] == v[last * w + 2 * j + 1]);
    }
}

/// A variable of degree multiple 0 (a public value, a challenge, a bus
/// boundary value) takes the same value on the windows of all rows.
pub proof fn lemma_degree_zero_variables_same_on_every_row(
    inp: CheckInputs,
    v: SymbolicVariable,
    r1: nat,
    r2: nat,
)
    requires
        r1 < trace_height(inp),
        r2 < trace_height(inp),
        expression_degree(SymbolicExpression::Variable(v)) == 0,
    ensures
        evaluate(SymbolicExpression::Variable(v), window_at(inp, r1)) == evaluate(
            SymbolicExpression::Variable(v),
            window_at(inp, r2),
        ),
{
    lemma_degree_zero_variables_ignore_rows(v, window_at(inp, r1), window_at(inp, r2));
}

/// The window of row `r` reads the trace values themselves: main column `j`
/// of the current and next rows is the value at `r * width + j` and at
/// `next * width + j`; auxiliary element `k` of the current row is the reduced
/// element with coefficients at `r * w + 2 k` and `r * w + 2 k + 1`; a periodic
/// column on a row below its length is its entry at that row, and an empty one
/// is zero.
pub proof fn lemma_window_reads_trace(inp: CheckInputs, r: nat, j: int)
    requires
        r < trace_height(inp),
    ensures
        ({
            let h = trace_height(inp);
            let n = next_row(r, h);
            let win = window_at(inp, r);
            &&& 0 <= j < inp.width ==> win.main_local[j] == lift(inp.main[r * inp.width + j])
            &&& 0 <= j < inp.width ==> win.main_next[j] == lift(inp.main[n * inp.width + j])
            &&& (inp.aux matches Some((v, w)) && h * w <= v.len() && 0 <= j < w / 2) ==> {
                let (v, w) = inp.aux.unwrap();
                win.aux_local[j] == canon(Ext2 { c0: v[r * w + 2 * j], c1: v[r * w + 2 * j + 1] })
            }
            &&& (0 <= j < inp.periodic.len() && r < inp.periodic[j].len()) ==> win.periodic_values[j]
                == lift(inp.periodic[j][r as int])
            &&& (0 <= j < inp.periodic.len() && inp.periodic[j].len() == 0) ==> win.periodic_values[j]
                == ext_zero()
        }),
{
    let h = trace_height(inp);
    let n = next_row(r, h);
    lemma_row_in_bounds(r, inp.width, inp.main.len());
    assert(n < h) by {
        vstd::arithmetic::div_mod::lemma_mod_bound((r + 1) as int, h as int);
    }
    lemma_row_in_bounds(n, inp.width, inp.main.len());
    if 0 <= j < inp.periodic.len() && r < inp.periodic[j].len() {
        vstd::arithmetic::div_mod::lemma_small_mod(r, inp.periodic[j].len());
    }
    if let Some((v, w)) = inp.aux {
        if h * w <= v.len() && 0 <= j < w / 2 {
            lemma_row_below_height(r, h, w, v.len());
            assert(2 * j + 1 < w) by {
                lemma_fundamental_div_mod(w as int, 2);
            }
            let row = row_of(v, w, r);
            assert(row[2 * j] == v[r * w + 2 * j]);
            assert(row[2 * j + 1] == v[r * w + 2 * j + 1]);
        }
    }
}

/// Row `r < len / width` of a matrix lies within its values.
proof fn lemma_row_in_bounds(r: nat, width: nat, len: nat)
    requires
        width > 0,
        r < len / width,
    ensures
        r * width + width <= len,
{
    lemma_fundamental_div_mod(len as int, width as int);
    lemma_mul_inequality((r + 1) as int, (len / width) as int, width as int);
    assert((r + 1) * width == r * width + width) by (nonlinear_arith);
    assert((len / width) * width == width * (len / width)) by (nonlinear_arith);
}

/// Row `r < height` of a matrix with at least `height` rows lies within its values.
proof fn lemma_row_below_height(r: nat, height: nat, width: nat, len: nat)
    requires
        r < height,
        height * width <= len,
    ensures
        r * width + width <= len,
{
    lemma_mul_inequality((r + 1) as int, height as int, width as int);
    assert((r + 1) * width == r * width + width) by (nonlinear_arith);
}

/// The values `values[start..start + len]`, each lifted into the extension.
fn lift_row(values: &Vec<u64>, start: usize, len: usize) -> (r: Vec<Ext2>)
    requires
        start + len <= values.len(),
    ensures
        r@ == lift_seq(values@.subrange(start as int, start + len)),
{
    let mut out: Vec<Ext2> = Vec::new();
    let mut i: usize = 0;
    while i < len
        invariant
            i <= len,
            start + len <= values.len(),
            out@ == lift_seq(values@.subrange(start as int, start + len)).take(i as int),
        decreases len - i,
    {
        out.push(Ext2 { c0: values[start + i], c1: 0 });
        i = i + 1;
        assert(out@ =~= lift_seq(values@.subrange(start as int, start + len)).take(i as int));
    }
    assert(out@ =~= lift_seq(values@.subrange(start as int, start + len)));
    out
}

/// The values `values[start..start + len]` read as extension elements.
fn ext_row(values: &Vec<u64>, start: usize, len: usize) -> (r: Vec<Ext2>)
    requires
        start + len <= values.len(),
        len % 2 == 0,
    ensures
        r@ == coefficients_to_ext(values@.subrange(start as int, start + len)),
{
    let row = vstd::slice::slice_subrange(values.as_slice(), start, start + len);
    prover_row_to_ext(row)
}

/// The periodic values of row `r`.
fn periodic_row(table: &Vec<Vec<u64>>, r: usize) -> (out: Vec<Ext2>)
    ensures
        out@ == Seq::new(table_view(*table).len(), |j: int| periodic_value(table_view(*table)[j], r as nat)),
{
    let ghost tv = table_view(*table);
    let mut out: Vec<Ext2> = Vec::new();
    let mut j: usize = 0;
    while j < table.len()
        invariant
            j <= table@.len(),
            tv == table_view(*table),
            out@ == Seq::new(tv.len(), |k: int| periodic_value(tv[k], r as nat)).take(j as int),
        decreases table.len() - j,
    {
        let col = &table[j];
        let v = if col.len() == 0 {
            Ext2::zero()
        } else {
            Ext2 { c0: col[r % col.len()], c1: 0 }
        };
        out.push(v);
        j = j + 1;
        assert(out@ =~= Seq::new(tv.len(), |k: int| periodic_value(tv[k], r as nat)).take(j as int));
    }
    assert(out@ =~= Seq::new(tv.len(), |k: int| periodic_value(tv[k], r as nat)));
    out
}

/// One when `b` holds, zero otherwise.
fn selector_exec(b: bool) -> (r: Ext2)
    ensures
        r == selector(b),
{
    if b {
        Ext2::one()
    } else {
        Ext2::zero()
    }
}

/// Row `r` of the values cut into chunks of `width`, if it exists.
fn chunk_exec(values: &Vec<u64>, width: usize, r: usize) -> (out: Option<Vec<Ext2>>)
    ensures
        out.is_some() == has_chunk(values@, width as nat, r as nat),
        out.is_some() ==> out.unwrap()@ == lift_seq(chunk_of(values@, width as nat, r as nat)),
{
    if width == 0 {
        return None;
    }
    match r.checked_mul(width) {
        None => {
            proof {
                assert(r * width >= values.len());
            }
            None
        },
        Some(start) => {
            if start >= values.len() {
                None
            } else {
                let end = if width <= values.len() - start {
                    start + width
                } else {
                    values.len()
                };
                Some(lift_row(values, start, end - start))
            }
        },
    }
}

/// Builds the window of row `r`.
fn build_window(
    main_values: &Vec<u64>,
    width: usize,
    height: usize,
    aux: Option<(&Vec<u64>, usize)>,
    preprocessed: Option<(&Vec<u64>, usize)>,
    randomness: &[Ext2],
    public_values: &Vec<u64>,
    periodic_table: &Vec<Vec<u64>>,
    r: usize,
    Ghost(inp): Ghost<CheckInputs>,
) -> (w: EvaluationWindow)
    requires
        width > 0,
        height == main_values.len() / width,
        r < height,
        inp.main == main_values@,
        inp.width == width,
        trace_height(inp) == height,
        inp.randomness == randomness@,
        inp.public_values == public_values@,
        inp.periodic == table_view(*periodic_table),
        match aux {
            Some((v, aw)) => inp.aux == Some((v@, aw as nat)) && aw % 2 == 0 && height * aw
                <= v.len(),
            None => inp.aux is None,
        },
        match preprocessed {
            Some((v, pw)) => inp.preprocessed == Some((v@, pw as nat)),
            None => inp.preprocessed is None,
        },
        preprocessed_rows_exist(inp, r as nat),
    ensures
        w@ == window_at(inp, r as nat),
{
    let n = (r + 1) % height;
    proof {
        lemma_row_in_bounds(r as nat, width as nat, main_values.len() as nat);
        lemma_row_in_bounds(n as nat, width as nat, main_values.len() as nat);
    }
    let main_local = lift_row(main_values, r * width, width);
    let main_next = lift_row(main_values, n * width, width);
    let (aux_local, aux_next, boundary) = match aux {
        Some((v, aw)) => {
            proof {
                lemma_row_below_height(r as nat, height as nat, aw as nat, v.len() as nat);
                lemma_row_below_height(n as nat, height as nat, aw as nat, v.len() as nat);
                lemma_row_below_height((height - 1) as nat, height as nat, aw as nat, v.len() as nat);
            }
            (ext_row(v, r * aw, aw), ext_row(v, n * aw, aw), ext_row(v, (height - 1) * aw, aw))
        },
        None => (Vec::new(), Vec::new(), Vec::new()),
    };
    let (pre_local, pre_next) = match preprocessed {
        Some((v, pw)) => {
            let a = chunk_exec(v, pw, r);
            let b = chunk_exec(v, pw, n);
            match (a, b) {
                (Some(a), Some(b)) => (a, b),
                _ => (Vec::new(), Vec::new()),
            }
        },
        None => (Vec::new(), Vec::new()),
    };
    let mut rand_vec: Vec<Ext2> = Vec::new();
    let mut i: usize = 0;
    while i < randomness.len()
        invariant
            i <= randomness@.len(),
            rand_vec@ == randomness@.take(i as int),
        decreases randomness.len() - i,
    {
        rand_vec.push(randomness[i]);
        i = i + 1;
        assert(rand_vec@ =~= randomness@.take(i as int));
    }
    assert(rand_vec@ =~= randomness@);
    let mut pubs: Vec<u64> = Vec::new();
    let mut i: usize = 0;
    while i < public_values.len()
        invariant
            i <= public_values@.len(),
            pubs@ == public_values@.take(i as int),
        decreases public_values.len() - i,
    {
        pubs.push(public_values[i]);
        i = i + 1;
        assert(pubs@ =~= public_values@.take(i as int));
    }
    assert(pubs@ =~= public_values@);
    let periodic_values = periodic_row(periodic_table, r);
    let w = EvaluationWindow {
        main_local,
        main_next,
        preprocessed_local: pre_local,
        preprocessed_next: pre_next,
        aux_local,
        aux_next,
        randomness: rand_vec,
        aux_bus_boundary_values: boundary,
        public_values: pubs,
        periodic_values,
        is_first_row: selector_exec(r == 0),
        is_last_row: selector_exec(r == height - 1),
        is_transition: selector_exec(r != height - 1),
    };
    assert(w@.main_local =~= window_at(inp, r as nat).main_local);
    assert(w@.main_next =~= window_at(inp, r as nat).main_next);
    assert(w@.periodic_values =~= window_at(inp, r as nat).periodic_values);
    w
}

/// The failures found on a row name that row.
proof fn lemma_first_failure_row(cs: Seq<SymbolicExpression>, w: WindowView, row: usize)
    ensures
        first_failure(cs, w, row) matches Some(f) ==> failure_row(f) == row,
        first_failure(cs, w, row) matches Some(f) ==> !(f is MissingPreprocessedRow),
    decreases cs.len(),
{
    if cs.len() > 0 {
        lemma_first_failure_row(cs.drop_last(), w, row);
    }
}

/// A constraint passes a row exactly when it evaluates to zero there; when it
/// evaluates to anything else the failure carries that value and the row; when
/// it cannot be evaluated the failure says so.
pub proof fn lemma_constraint_outcome(c: SymbolicExpression, w: WindowView, row: usize)
    ensures
        constraint_outcome(c, w, row) is None <==> evaluate(c, w) == Some(ext_zero()),
        evaluate(c, w) matches Some(v) ==> (v != ext_zero() ==> constraint_outcome(c, w, row) == Some(
            ConstraintFailure::NonZero { row, value: v },
        )),
        evaluate(c, w) is None ==> constraint_outcome(c, w, row) == Some(
            ConstraintFailure::Unresolved { row },
        ),
{
    lemma_evaluate_canonical(c, w);
    if let Some(v) = evaluate(c, w) {
        lemma_canon_of_canonical(v);
        crate::field::lemma_modp_small(0);
    }
}

/// The failure of a row is that of the first of its constraints that does
/// not pass: every constraint before it passes. There is no failure exactly
/// when every constraint passes.
pub proof fn lemma_first_failure_is_first(cs: Seq<SymbolicExpression>, w: WindowView, row: usize)
    ensures
        first_failure(cs, w, row) is None <==> forall|k: int|
            0 <= k < cs.len() ==> #[trigger] constraint_outcome(cs[k], w, row) is None,
        first_failure(cs, w, row) matches Some(f) ==> exists|k: int|
            0 <= k < cs.len() && #[trigger] constraint_outcome(cs[k], w, row) == Some(f) && forall|i: int|
                0 <= i < k ==> #[trigger] constraint_outcome(cs[i], w, row) is None,
    decreases cs.len(),
{
    if cs.len() > 0 {
        let init = cs.drop_last();
        lemma_first_failure_is_first(init, w, row);
        assert forall|k: int| 0 <= k < init.len() implies init[k] == cs[k] by {}
        match first_failure(init, w, row) {
            Some(f) => {
                let k = choose|k: int|
                    0 <= k < init.len() && #[trigger] constraint_outcome(init[k], w, row) == Some(f)
                        && forall|i: int| 0 <= i < k ==> #[trigger] constraint_outcome(init[i], w, row) is None;
                assert(constraint_outcome(cs[k], w, row) == Some(f));
                assert forall|i: int| 0 <= i < k implies #[trigger] constraint_outcome(cs[i], w, row) is None by {
                    assert(init[i] == cs[i]);
                }
                assert(!(constraint_outcome(cs[k], w, row) is None));
            },
            None => {
                let last = cs.len() - 1;
                assert forall|i: int| 0 <= i < last implies #[trigger] constraint_outcome(cs[i], w, row) is None by {
                    assert(init[i] == cs[i]);
                    assert(constraint_outcome(init[i], w, row) is None);
                }
                if let Some(f) = constraint_outcome(cs[last], w, row) {
                    assert(constraint_outcome(cs[last], w, row) == Some(f));
                } else {
                    assert forall|k: int| 0 <= k < cs.len() implies #[trigger] constraint_outcome(cs[k], w, row) is None by {
                        if k < last {
                            assert(init[k] == cs[k]);
                            assert(constraint_outcome(init[k], w, row) is None);
                        }
                    }
                }
            },
        }
    }
}

// ---------------------------------------------------------------------------
// The debug builder
// ---------------------------------------------------------------------------

/// A builder that checks the constraints an AIR states for one row of a
/// trace on that row's window, keeping the first one that is not zero there
/// (or that cannot be evaluated), and the constraints themselves in order.
pub struct DebugConstraintBuilder<'a> {
    /// The index of the row currently being evaluated.
    row_index: usize,
    /// The variables handed to the AIR.
    layout: &'a VariableLayout,
    /// The values of the row's variables.
    window: &'a EvaluationWindow,
    /// The constraints stated so far.
    constraints: Vec<SymbolicExpression>,
    /// The first stated constraint that does not hold on the row.
    failure: Option<ConstraintFailure>,
}

/// What checking one constraint on the window of row `row` yields: nothing
/// when it is zero there.
pub fn check_constraint(x: &SymbolicExpression, window: &EvaluationWindow, row: usize) -> (r: Option<
    ConstraintFailure,
>)
    ensures
        r == constraint_outcome(*x, window@, row),
{
    match evaluate_exec(x, window) {
        None => Some(ConstraintFailure::Unresolved { row }),
        Some(v) => if v.is_zero() {
            None
        } else {
            Some(ConstraintFailure::NonZero { row, value: v })
        },
    }
}

impl<'a> DebugConstraintBuilder<'a> {
    /// The row this builder checks constraints for.
    pub closed spec fn row(&self) -> usize {
        self.row_index
    }

    /// The values the constraints are checked on.
    pub closed spec fn window(&self) -> WindowView {
        self.window@
    }

    /// The first stated constraint that does not hold, if any.
    pub closed spec fn failure(&self) -> Option<ConstraintFailure> {
        self.failure
    }

    /// A builder for row `row_index` checking on `window`, with nothing stated.
    pub fn new(row_index: usize, layout: &'a VariableLayout, window: &'a EvaluationWindow) -> (r:
        DebugConstraintBuilder<'a>)
        ensures
            r.recorded() == Seq::<SymbolicExpression>::empty(),
            r.layout() == layout@,
            r.row() == row_index,
            r.window() == window@,
            r.failure() is None,
            r.builder_wf(),
    {
        DebugConstraintBuilder { row_index, layout, window, constraints: Vec::new(), failure: None }
    }

    /// The row this builder checks constraints for.
    pub fn row_index(&self) -> (r: usize)
        ensures
            r == self.row(),
    {
        self.row_index
    }

    /// The first stated constraint that does not hold on the row, if any.
    pub fn first_failure_found(&self) -> (r: Option<ConstraintFailure>)
        ensures
            r == self.failure(),
    {
        self.failure
    }

    /// The stated constraints, in order.
    pub fn into_constraints(self) -> (r: Vec<SymbolicExpression>)
        ensures
            r@ == self.recorded(),
    {
        self.constraints
    }

    /// States `x`: checks it on the window unless a failure was already found.
    fn check_and_record(&mut self, x: SymbolicExpression)
        ensures
            final(self).recorded() == old(self).recorded().push(x),
            final(self).layout() == old(self).layout(),
            final(self).row() == old(self).row(),
            final(self).window() == old(self).window(),
            final(self).failure() == match old(self).failure() {
                Some(f) => Some(f),
                None => constraint_outcome(x, old(self).window(), old(self).row()),
            },
            old(self).builder_wf() ==> final(self).builder_wf(),
    {
        if self.failure.is_none() {
            self.failure = check_constraint(&x, self.window, self.row_index);
        }
        let ghost old_cs = self.constraints@;
        self.constraints.push(x);
        assert(self.constraints@.drop_last() =~= old_cs);
    }
}

impl<'a> MidenAirBuilder for DebugConstraintBuilder<'a> {
    type Frame = (WindowView, usize);

    closed spec fn recorded(&self) -> Seq<SymbolicExpression> {
        self.constraints@
    }

    /// The window and the row.
    closed spec fn frame(&self) -> (WindowView, usize) {
        (self.window@, self.row_index)
    }

    /// The failure kept is the first failure of the stated constraints.
    closed spec fn builder_wf(&self) -> bool {
        self.failure == first_failure(self.constraints@, self.window@, self.row_index)
    }

    closed spec fn layout(&self) -> LayoutView {
        self.layout@
    }

    fn main(&self) -> (r: RowMajorMatrix<SymbolicVariable>) {
        self.layout.main_matrix()
    }

    fn preprocessed(&self) -> (r: RowMajorMatrix<SymbolicVariable>) {
        self.layout.preprocessed_matrix()
    }

    fn permutation(&self) -> (r: RowMajorMatrix<SymbolicVariable>) {
        self.layout.aux_matrix()
    }

    fn permutation_randomness(&self) -> (r: &[SymbolicVariable]) {
        self.layout.randomness()
    }

    fn aux_bus_boundary_values(&self) -> (r: &[SymbolicVariable]) {
        self.layout.bus_boundary_values()
    }

    fn public_values(&self) -> (r: &[SymbolicVariable]) {
        self.layout.public_values()
    }

    fn periodic_evals(&self) -> (r: &[SymbolicVariable]) {
        self.layout.periodic_values()
    }

    fn is_first_row(&self) -> (r: SymbolicExpression) {
        SymbolicExpression::IsFirstRow
    }

    fn is_last_row(&self) -> (r: SymbolicExpression) {
        SymbolicExpression::IsLastRow
    }

    fn is_transition_window(&self, size: usize) -> (r: SymbolicExpression) {
        SymbolicExpression::IsTransition
    }

    /// Checks `x` on the row's window, keeping it as the failure if it is the
    /// first one that does not hold.
    fn assert_zero(&mut self, x: SymbolicExpression)
        ensures
            final(self).row() == old(self).row(),
            final(self).window() == old(self).window(),
            final(self).failure() == match old(self).failure() {
                Some(f) => Some(f),
                None => constraint_outcome(x, old(self).window(), old(self).row()),
            },
    {
        self.check_and_record(x)
    }

    /// Checks the extension-field expression `x` on the row's window, keeping
    /// it as the failure if it is the first one that does not hold.
    fn assert_zero_ext(&mut self, x: SymbolicExpression)
        ensures
            final(self).row() == old(self).row(),
            final(self).window() == old(self).window(),
            final(self).failure() == match old(self).failure() {
                Some(f) => Some(f),
                None => constraint_outcome(x, old(self).window(), old(self).row()),
            },
    {
        self.check_and_record(x)
    }
}

// ---------------------------------------------------------------------------
// Checking a whole trace
// ---------------------------------------------------------------------------

/// The shape `check_constraints` reads an auxiliary trace with: whole
/// extension elements (an even number of base columns) and at least as many
/// rows as the main trace.
pub open spec fn aux_trace_fits(main: RowMajorMatrix<u64>, aux_trace: Option<RowMajorMatrix<u64>>) -> bool {
    match aux_trace {
        Some(m) => trace_width(m) % 2 == 0 && height_of(trace_values(main).len(), trace_width(main))
            * trace_width(m) <= trace_values(m).len(),
        None => true,
    }
}

/// The window that the constraints of row `row` are evaluated on, or `None`
/// when the preprocessed trace lacks a row that it reads.
pub fn row_window(
    main: &RowMajorMatrix<u64>,
    aux_trace: &Option<RowMajorMatrix<u64>>,
    aux_randomness: &[Ext2],
    public_values: &Vec<u64>,
    preprocessed: &Option<RowMajorMatrix<u64>>,
    periodic_table: &Vec<Vec<u64>>,
    row: usize,
) -> (r: Option<EvaluationWindow>)
    requires
        aux_trace_fits(*main, *aux_trace),
        row < trace_height(
            check_inputs(
                *main,
                *aux_trace,
                aux_randomness@,
                public_values@,
                matrix_view(*preprocessed),
                table_view(*periodic_table),
            ),
        ),
    ensures
        ({
            let inp = check_inputs(
                *main,
                *aux_trace,
                aux_randomness@,
                public_values@,
                matrix_view(*preprocessed),
                table_view(*periodic_table),
            );
            &&& r is Some <==> preprocessed_rows_exist(inp, row as nat)
            &&& r matches Some(w) ==> w@ == window_at(inp, row as nat)
        }),
{
    let ghost inp = check_inputs(
        *main,
        *aux_trace,
        aux_randomness@,
        public_values@,
        matrix_view(*preprocessed),
        table_view(*periodic_table),
    );
    let width = trace_matrix_width(main);
    let values = trace_matrix_values(main);
    let height = values.len() / width;
    let aux: Option<(&Vec<u64>, usize)> = match aux_trace {
        Some(m) => Some((trace_matrix_values(m), trace_matrix_width(m))),
        None => None,
    };
    let pre: Option<(&Vec<u64>, usize)> = match preprocessed {
        Some(m) => Some((trace_matrix_values(m), trace_matrix_width(m))),
        None => None,
    };
    let next = (row + 1) % height;
    let rows_exist = match pre {
        Some((v, pw)) => {
            let a = chunk_exec(v, pw, row);
            let b = chunk_exec(v, pw, next);
            a.is_some() && b.is_some()
        },
        None => true,
    };
    assert(next == next_row(row as nat, trace_height(inp)));
    if !rows_exist {
        return None;
    }
    Some(
        build_window(
            values,
            width,
            height,
            aux,
            pre,
            aux_randomness,
            public_values,
            periodic_table,
            row,
            Ghost(inp),
        ),
    )
}

/// Runs constraint checks using a given AIR definition and trace matrix, with
/// the AIR's preprocessed trace and periodic table as given.
///
/// Iterates over every row in `main`, in order. For each row it builds the
/// window of the row (rows `r` and `r + 1`, the last row wrapping to the
/// first, with the preprocessed trace and periodic columns, the auxiliary
/// trace and its challenges, and the public values), and lets `air.eval`
/// state the row's constraints to a [`DebugConstraintBuilder`], which checks
/// each on the window. The result is the first failure, or success.
pub fn check_trace<A: MidenAir>(
    air: &A,
    main: &RowMajorMatrix<u64>,
    aux_trace: &Option<RowMajorMatrix<u64>>,
    aux_randomness: &[Ext2],
    public_values: &Vec<u64>,
    preprocessed: &Option<RowMajorMatrix<u64>>,
    periodic_table: &Vec<Vec<u64>>,
) -> (r: Result<(), ConstraintFailure>)
    requires
        aux_trace_fits(*main, *aux_trace),
    ensures
        exists|log: Seq<Seq<SymbolicExpression>>|
            #[trigger] air_check_outcome(
                air,
                check_inputs(
                    *main,
                    *aux_trace,
                    aux_randomness@,
                    public_values@,
                    matrix_view(*preprocessed),
                    table_view(*periodic_table),
                ),
                log,
                r,
            ),
{
    let ghost inp = check_inputs(
        *main,
        *aux_trace,
        aux_randomness@,
        public_values@,
        matrix_view(*preprocessed),
        table_view(*periodic_table),
    );
    let width = trace_matrix_width(main);
    let values = trace_matrix_values(main);
    let height = if width == 0 {
        0
    } else {
        values.len() / width
    };
    let aux_ext_width = match aux_trace {
        Some(m) => trace_matrix_width(m) / 2,
        None => 0,
    };
    let pre_width = match preprocessed {
        Some(m) => trace_matrix_width(m),
        None => 0,
    };
    let layout = VariableLayout::new(
        pre_width,
        width,
        aux_ext_width,
        aux_randomness.len(),
        public_values.len(),
        periodic_table.len(),
    );
    let ghost mut log: Seq<Seq<SymbolicExpression>> = Seq::empty();
    let mut r: usize = 0;
    while r < height
        invariant
            r <= height,
            height == trace_height(inp),
            inp == check_inputs(
                *main,
                *aux_trace,
                aux_randomness@,
                public_values@,
                matrix_view(*preprocessed),
                table_view(*periodic_table),
            ),
            aux_trace_fits(*main, *aux_trace),
            log.len() == r,
            forall|k: int| 0 <= k < r ==> row_passes(inp, #[trigger] log[k], k as nat),
            layout@ == inputs_layout(inp),
            forall|k: int| 0 <= k < r ==> #[trigger] log[k] == air.constraints_spec(inputs_layout(inp)),
        decreases height - r,
    {
        let window = match row_window(
            main,
            aux_trace,
            aux_randomness,
            public_values,
            preprocessed,
            periodic_table,
            r,
        ) {
            Some(w) => w,
            None => {
                let f = ConstraintFailure::MissingPreprocessedRow { row: r };
                assert(air_check_outcome(air, inp, log, Err(f)));
                return Err(f);
            },
        };
        let mut builder = DebugConstraintBuilder::new(r, &layout, &window);
        air.eval(&mut builder);
        let outcome = builder.first_failure_found();
        let ghost constraints = builder.recorded();
        assert(constraints =~= air.constraints_spec(inputs_layout(inp)));
        assert(outcome == first_failure(constraints, window@, r));
        proof {
            log = log.push(constraints);
        }
        match outcome {
            Some(f) => {
                proof {
                    lemma_first_failure_row(constraints, window@, r);
                    assert(log[r as int] == constraints);
                }
                assert(air_check_outcome(air, inp, log, Err(f)));
                return Err(f);
            },
            None => {},
        }
        assert(log[r as int] == constraints);
        r = r + 1;
    }
    assert(air_check_outcome(air, inp, log, Ok(())));
    Ok(())
}

/// Runs constraint checks using a given AIR definition and trace matrix.
///
/// Takes the AIR's preprocessed trace and periodic table and checks every row
/// ([`check_trace`]). The result is what checking the AIR's constraints gives
/// on some preprocessed trace and periodic table that the AIR's
/// `preprocessed_trace` and `periodic_table` can return.
pub fn check_constraints<A: MidenAir>(
    air: &A,
    main: &RowMajorMatrix<u64>,
    aux_trace: &Option<RowMajorMatrix<u64>>,
    aux_randomness: &[Ext2],
    public_values: &Vec<u64>,
) -> (r: Result<(), ConstraintFailure>)
    requires
        aux_trace_fits(*main, *aux_trace),
    ensures
        exists|
            pre: Option<RowMajorMatrix<u64>>,
            periodic: Vec<Vec<u64>>,
            log: Seq<Seq<SymbolicExpression>>,
        |
            {
                &&& call_ensures(A::preprocessed_trace, (air,), pre)
                &&& call_ensures(A::periodic_table, (air,), periodic)
                &&& #[trigger] air_check_outcome(
                    air,
                    check_inputs(
                        *main,
                        *aux_trace,
                        aux_randomness@,
                        public_values@,
                        matrix_view(pre),
                        table_view(periodic),
                    ),
                    log,
                    r,
                )
            },
{
    let preprocessed = air.preprocessed_trace();
    let periodic_table = air.periodic_table();
    check_trace(air, main, aux_trace, aux_randomness, public_values, &preprocessed, &periodic_table)
}

} // verus!
