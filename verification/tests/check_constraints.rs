use p3_field::extension::BinomialExtensionField;
use p3_field::{BasedVectorSpace, Field, PrimeCharacteristicRing, PrimeField64};
use p3_goldilocks::Goldilocks;
use p3_matrix::dense::RowMajorMatrix;
use p3_matrix::Matrix;
use p3_miden_prover::air::{MidenAir, MidenAirBuilder};
use p3_miden_prover::check_constraints::{
    check_constraints, check_trace, ConstraintFailure, DebugConstraintBuilder,
};
use p3_miden_prover::layout::VariableLayout;
use p3_miden_prover::field::Ext2;
use p3_miden_prover::symbolic::{Entry, EvaluationWindow, SymbolicExpression, SymbolicVariable};

type EF = BinomialExtensionField<Goldilocks, 2>;

fn var(v: SymbolicVariable) -> SymbolicExpression {
    SymbolicExpression::from_variable(v)
}

/// A test AIR that enforces a simple linear transition logic:
/// - Each cell in the next row must equal the current cell plus 1 (i.e., `next = current + 1`)
/// - On the last row, the current row must match the provided public values.
/// With the auxiliary trace, a LogUp running sum shows that the two main
/// columns are permutations of each other.
struct RowLogicAir {
    with_aux: bool,
}

impl MidenAir for RowLogicAir {
    fn width(&self) -> usize {
        2
    }

    fn aux_width(&self) -> usize {
        if self.with_aux {
            3
        } else {
            0
        }
    }

    fn num_randomness(&self) -> usize {
        if self.with_aux {
            1
        } else {
            0
        }
    }

    fn eval<AB: MidenAirBuilder>(&self, builder: &mut AB) {
        let main = builder.main();
        let aux = builder.permutation();

        // row[i+1] = row[i] + 1, only on transitions
        let a = main.get(0, 0).unwrap();
        let b = main.get(1, 0).unwrap();
        let t = builder.is_transition();
        builder.assert_eq_when(
            t,
            var(b),
            SymbolicExpression::add_expr(var(a), SymbolicExpression::constant(1)),
        );

        if <Self as MidenAir>::num_randomness(self) != 0 {
            let xi = main.get(0, 0).unwrap();
            let yi = main.get(0, 1).unwrap();
            let r = builder.permutation_randomness()[0];

            let t_i = aux.get(0, 0).unwrap();
            let w_i = aux.get(0, 1).unwrap();
            let s_i = aux.get(0, 2).unwrap();
            let t_next = aux.get(1, 0).unwrap();
            let w_next = aux.get(1, 1).unwrap();
            let s_next = aux.get(1, 2).unwrap();

            // t * (r - x_i) == 1  and  w * (r - y_i) == 1
            builder.assert_eq_ext(
                SymbolicExpression::mul_expr(
                    var(t_i),
                    SymbolicExpression::sub_expr(var(r), var(xi)),
                ),
                SymbolicExpression::constant(1),
            );
            builder.assert_eq_ext(
                SymbolicExpression::mul_expr(
                    var(w_i),
                    SymbolicExpression::sub_expr(var(r), var(yi)),
                ),
                SymbolicExpression::constant(1),
            );
            // s' = s + t' - w' on transitions
            let t = builder.is_transition();
            builder.assert_eq_ext_when(
                t,
                var(s_next),
                SymbolicExpression::sub_expr(
                    SymbolicExpression::add_expr(var(s_i), var(t_next)),
                    var(w_next),
                ),
            );
            // s[last] = sum(t - w) == 0 if the multisets match
            let l = builder.is_last_row();
            builder.assert_zero_ext_when(l, var(s_i));
        }

        // public values on the last row
        let pv0 = builder.public_values()[0];
        let pv1 = builder.public_values()[1];
        let l = builder.is_last_row();
        builder.assert_eq_when(l, var(main.get(0, 0).unwrap()), var(pv0));
        let l = builder.is_last_row();
        builder.assert_eq_when(l, var(main.get(0, 1).unwrap()), var(pv1));
    }
}

// A very simple permutation
fn permute(x: &[u64]) -> Vec<u64> {
    x.iter().rev().cloned().collect::<Vec<u64>>()
}

// The first column is incremental, the second column is its reverse.
fn gen_main(main_col: &[u64]) -> RowMajorMatrix<u64> {
    let main_rev = permute(main_col);
    let main_values = main_col
        .iter()
        .zip(main_rev.iter())
        .flat_map(|(a, b)| vec![*a, *b])
        .collect();
    RowMajorMatrix::new(main_values, 2)
}

fn ef_to_ext(x: EF) -> Ext2 {
    let c: &[Goldilocks] = x.as_basis_coefficients_slice();
    Ext2 { c0: c[0].as_canonical_u64(), c1: c[1].as_canonical_u64() }
}

// The LogUp aux trace: t_i = 1/(r - x_i), w_i = 1/(r - y_i), s_i = sum_{k <= i} (t_k - w_k),
// each extension element flattened into its two basis coefficients.
fn gen_aux(main_col: &[u64], r: EF) -> RowMajorMatrix<u64> {
    let main_rev = permute(main_col);
    let mut s = EF::ZERO;
    let mut values = Vec::new();
    for (x, y) in main_col.iter().zip(main_rev.iter()) {
        let t = (r - EF::from(Goldilocks::from_u64(*x))).inverse();
        let w = (r - EF::from(Goldilocks::from_u64(*y))).inverse();
        s += t - w;
        for e in [t, w, s] {
            let e = ef_to_ext(e);
            values.push(e.c0);
            values.push(e.c1);
        }
    }
    RowMajorMatrix::new(values, 6)
}

#[test]
fn test_incremental_rows_with_last_row_check() {
    // Each row = previous + 1, with 4 rows total, 2 columns.
    // Last row must match public values [4, 1]
    let air = RowLogicAir { with_aux: false };
    let main = gen_main(&[1, 2, 3, 4]);
    let r = check_constraints(&air, &main, &None, &[], &vec![4, 1]);
    assert_eq!(r, Ok(()));
}

#[test]
fn test_check_trace_with_given_tables() {
    let air = RowLogicAir { with_aux: false };
    let main = gen_main(&[1, 2, 3, 4]);
    assert_eq!(check_trace(&air, &main, &None, &[], &vec![4, 1], &None, &vec![]), Ok(()));
    // a preprocessed trace of one row is too short for a four-row main trace
    let pre = Some(RowMajorMatrix::new(vec![7u64], 1));
    assert_eq!(
        check_trace(&air, &main, &None, &[], &vec![4, 1], &pre, &vec![]),
        Err(ConstraintFailure::MissingPreprocessedRow { row: 0 })
    );
}

#[test]
fn test_permuted_incremental_rows_with_last_row_check() {
    let len = 100u64;
    let air = RowLogicAir { with_aux: true };
    let main_col: Vec<u64> = (1..=len).collect();
    let main = gen_main(&main_col);

    let randomness = EF::from_basis_coefficients_slice(
        [Goldilocks::from_u64(1005), Goldilocks::from_u64(10010)].as_ref(),
    )
    .unwrap();
    let aux = gen_aux(&main_col, randomness);

    let r = check_constraints(
        &air,
        &main,
        &Some(aux),
        &[Ext2 { c0: 1005, c1: 10010 }],
        &vec![len, 1],
    );
    assert_eq!(r, Ok(()));
}

#[test]
fn test_incorrect_increment_logic() {
    // Row 2 does not equal row 1 + 1 -> fails on the transition from row 1 to 2.
    let air = RowLogicAir { with_aux: false };
    let values = vec![1, 1, 2, 2, 5, 5, 6, 6];
    let main = RowMajorMatrix::new(values, 2);
    let r = check_constraints(&air, &main, &None, &[], &vec![6; 2]);
    // the transition constraint of row 1 is (1) * (5 - (2 + 1)) = 2
    assert_eq!(r, Err(ConstraintFailure::NonZero { row: 1, value: Ext2 { c0: 2, c1: 0 } }));
}

#[test]
fn test_wrong_last_row_public_value() {
    // The transition logic is fine, but public value check fails at the last row.
    let air = RowLogicAir { with_aux: false };
    let values = vec![1, 1, 2, 2, 3, 3, 4, 4];
    let main = RowMajorMatrix::new(values, 2);
    let r = check_constraints(&air, &main, &None, &[], &vec![4, 5]);
    // on the last row, 1 * (4 - 5) = -1
    let minus_one = Goldilocks::NEG_ONE.as_canonical_u64();
    assert_eq!(r, Err(ConstraintFailure::NonZero { row: 3, value: Ext2 { c0: minus_one, c1: 0 } }));
}

#[test]
fn test_single_row_wraparound_logic() {
    // A single-row matrix still performs a wraparound check with itself.
    // Here: is_transition == false, so the transition constraint is not enforced.
    let air = RowLogicAir { with_aux: false };
    let main = RowMajorMatrix::new(vec![99, 77], 2);
    let r = check_constraints(&air, &main, &None, &[], &vec![99, 77]);
    assert_eq!(r, Ok(()));
}

#[test]
fn test_wrong_permutation_fails_on_last_row() {
    // The second column is no longer a permutation of the first: the running
    // sum does not end at zero.
    let air = RowLogicAir { with_aux: true };
    let main_col: Vec<u64> = vec![1, 2, 3, 4];
    let mut values = Vec::new();
    let second = [4u64, 3, 2, 2];
    for (a, b) in main_col.iter().zip(second.iter()) {
        values.push(*a);
        values.push(*b);
    }
    let main = RowMajorMatrix::new(values, 2);
    let randomness = EF::from_basis_coefficients_slice(
        [Goldilocks::from_u64(1005), Goldilocks::from_u64(10010)].as_ref(),
    )
    .unwrap();
    // aux built from the honest permutation, so that w_i does not match column 2
    let aux = gen_aux(&main_col, randomness);
    let r = check_constraints(
        &air,
        &main,
        &Some(aux),
        &[Ext2 { c0: 1005, c1: 10010 }],
        &vec![4, 2],
    );
    assert!(matches!(r, Err(ConstraintFailure::NonZero { row: 3, .. })));
}

/// An AIR that reads a column the trace does not have.
struct OutOfRangeAir;

impl MidenAir for OutOfRangeAir {
    fn width(&self) -> usize {
        2
    }

    fn eval<AB: MidenAirBuilder>(&self, builder: &mut AB) {
        builder.assert_zero(var(SymbolicVariable::new(Entry::Main { offset: 0 }, 5)));
    }
}

#[test]
fn test_unresolved_variable_is_reported() {
    let main = RowMajorMatrix::new(vec![0, 0, 0, 0], 2);
    let r = check_constraints(&OutOfRangeAir, &main, &None, &[], &vec![]);
    assert_eq!(r, Err(ConstraintFailure::Unresolved { row: 0 }));
}

/// An AIR with a preprocessed column and a periodic column: main column 0
/// equals the preprocessed column, main column 1 equals the periodic column.
struct PreprocessedPeriodicAir {
    preprocessed: Vec<u64>,
}

impl MidenAir for PreprocessedPeriodicAir {
    fn width(&self) -> usize {
        2
    }

    fn preprocessed_trace(&self) -> Option<RowMajorMatrix<u64>> {
        Some(RowMajorMatrix::new(self.preprocessed.clone(), 1))
    }

    fn periodic_table(&self) -> Vec<Vec<u64>> {
        vec![vec![7, 9]]
    }

    fn eval<AB: MidenAirBuilder>(&self, builder: &mut AB) {
        let main = builder.main();
        let pre = builder.preprocessed();
        let periodic = builder.periodic_evals()[0];
        builder.assert_eq(var(main.get(0, 0).unwrap()), var(pre.get(0, 0).unwrap()));
        builder.assert_eq(var(main.get(0, 1).unwrap()), var(periodic));
    }
}

#[test]
fn test_preprocessed_and_periodic_columns() {
    let air = PreprocessedPeriodicAir { preprocessed: vec![10, 11, 12, 13] };
    let main = RowMajorMatrix::new(vec![10, 7, 11, 9, 12, 7, 13, 9], 2);
    assert_eq!(check_constraints(&air, &main, &None, &[], &vec![]), Ok(()));
    // a wrong periodic value on row 2
    let main = RowMajorMatrix::new(vec![10, 7, 11, 9, 12, 9, 13, 9], 2);
    assert_eq!(
        check_constraints(&air, &main, &None, &[], &vec![]),
        Err(ConstraintFailure::NonZero { row: 2, value: Ext2 { c0: 2, c1: 0 } })
    );
}

#[test]
fn test_missing_preprocessed_row() {
    // The preprocessed trace has 2 rows, the main trace 4: row 1 reads row 2.
    let air = PreprocessedPeriodicAir { preprocessed: vec![10, 11] };
    let main = RowMajorMatrix::new(vec![10, 7, 11, 9, 12, 7, 13, 9], 2);
    assert_eq!(
        check_constraints(&air, &main, &None, &[], &vec![]),
        Err(ConstraintFailure::MissingPreprocessedRow { row: 1 })
    );
}

#[test]
fn test_empty_trace_passes() {
    let main = RowMajorMatrix::new(vec![], 2);
    assert_eq!(check_constraints(&OutOfRangeAir, &main, &None, &[], &vec![]), Ok(()));
}

fn row_window_of(main_local: Vec<Ext2>, main_next: Vec<Ext2>) -> EvaluationWindow {
    EvaluationWindow {
        main_local,
        main_next,
        preprocessed_local: vec![],
        preprocessed_next: vec![],
        aux_local: vec![],
        aux_next: vec![],
        randomness: vec![],
        aux_bus_boundary_values: vec![],
        public_values: vec![5],
        periodic_values: vec![],
        is_first_row: Ext2::zero(),
        is_last_row: Ext2::zero(),
        is_transition: Ext2::one(),
    }
}

#[test]
fn test_debug_builder_records_in_order() {
    let layout = VariableLayout::new(0, 2, 0, 0, 1, 0);
    let window = row_window_of(vec![Ext2 { c0: 1, c1: 0 }, Ext2 { c0: 2, c1: 0 }], vec![
        Ext2 { c0: 3, c1: 0 },
        Ext2 { c0: 4, c1: 0 },
    ]);
    let mut builder = DebugConstraintBuilder::new(3, &layout, &window);
    assert_eq!(builder.row_index(), 3);
    // the last-row selector is zero on this row
    builder.assert_zero_ext(SymbolicExpression::IsLastRow);
    assert_eq!(builder.first_failure_found(), None);
    builder.assert_zero(SymbolicExpression::constant(1));
    assert_eq!(
        builder.first_failure_found(),
        Some(ConstraintFailure::NonZero { row: 3, value: Ext2 { c0: 1, c1: 0 } })
    );
    // a later failure does not replace the first one
    builder.assert_zero(SymbolicExpression::constant(2));
    assert_eq!(
        builder.first_failure_found(),
        Some(ConstraintFailure::NonZero { row: 3, value: Ext2 { c0: 1, c1: 0 } })
    );
    assert_eq!(builder.public_values().len(), 1);
    assert_eq!(builder.main().values.len(), 4);
    let cs = builder.into_constraints();
    assert_eq!(
        cs,
        vec![
            SymbolicExpression::IsLastRow,
            SymbolicExpression::Constant(1),
            SymbolicExpression::Constant(2),
        ]
    );
}

#[test]
fn test_debug_builder_unresolved_variable() {
    let layout = VariableLayout::new(0, 2, 0, 0, 1, 0);
    let window = row_window_of(vec![Ext2 { c0: 1, c1: 0 }], vec![Ext2 { c0: 3, c1: 0 }]);
    let mut builder = DebugConstraintBuilder::new(0, &layout, &window);
    builder.assert_zero(var(SymbolicVariable::new(Entry::Main { offset: 0 }, 1)));
    assert_eq!(builder.first_failure_found(), Some(ConstraintFailure::Unresolved { row: 0 }));
}

/// An AIR stating that the last row's next row is the first row (its first
/// column is 5), and that the transition and last-row selectors add up to one.
struct WrapAir;

impl MidenAir for WrapAir {
    fn width(&self) -> usize {
        1
    }

    fn eval<AB: MidenAirBuilder>(&self, builder: &mut AB) {
        let main = builder.main();
        let last = builder.is_last_row();
        builder.assert_eq_when(last, var(main.get(1, 0).unwrap()), SymbolicExpression::constant(5));
        let t = builder.is_transition();
        let l = builder.is_last_row();
        builder.assert_eq(SymbolicExpression::add_expr(t, l), SymbolicExpression::constant(1));
    }
}

#[test]
fn test_last_row_wraps_to_first_row() {
    let main = RowMajorMatrix::new(vec![5, 6, 7], 1);
    assert_eq!(check_constraints(&WrapAir, &main, &None, &[], &vec![]), Ok(()));
    let main = RowMajorMatrix::new(vec![4, 6, 7], 1);
    let expected = (Goldilocks::from_u64(4) - Goldilocks::from_u64(5)).as_canonical_u64();
    assert_eq!(
        check_constraints(&WrapAir, &main, &None, &[], &vec![]),
        Err(ConstraintFailure::NonZero { row: 2, value: Ext2 { c0: expected, c1: 0 } })
    );
}
