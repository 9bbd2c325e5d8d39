use p3_field::extension::BinomialExtensionField;
use p3_field::{BasedVectorSpace, Field, PrimeCharacteristicRing, PrimeField64};
use p3_goldilocks::Goldilocks;
use p3_matrix::dense::RowMajorMatrix;
use p3_matrix::Matrix;
use p3_miden_prover::air::{MidenAir, MidenAirBuilder};
use p3_miden_prover::check_constraints::{check_constraints, ConstraintFailure};
use p3_miden_prover::field::Ext2;
use p3_miden_prover::symbolic::{SymbolicExpression, SymbolicVariable};

type EF = BinomialExtensionField<Goldilocks, 2>;

fn var(v: SymbolicVariable) -> SymbolicExpression {
    SymbolicExpression::from_variable(v)
}

/// Fibonacci AIR with 2 columns (a, b)
/// Constraints:
/// - Boundary: a[0] = pis[0], b[0] = pis[1]
/// - Transition: a' = b, b' = a + b
/// - Final: b[n-1] = pis[2]
struct FibonacciAir;

impl MidenAir for FibonacciAir {
    fn width(&self) -> usize {
        2
    }

    fn eval<AB: MidenAirBuilder>(&self, builder: &mut AB) {
        let main = builder.main();
        let pis = builder.public_values().to_vec();
        let a = var(main.get(0, 0).unwrap());
        let b = var(main.get(0, 1).unwrap());
        let a_next = var(main.get(1, 0).unwrap());
        let b_next = var(main.get(1, 1).unwrap());

        let first = builder.is_first_row();
        builder.assert_eq_when(first, a.duplicate(), var(pis[0]));
        let first = builder.is_first_row();
        builder.assert_eq_when(first, b.duplicate(), var(pis[1]));

        let t = builder.is_transition();
        builder.assert_eq_when(t, a_next, b.duplicate());
        let t = builder.is_transition();
        builder.assert_eq_when(t, b_next, SymbolicExpression::add_expr(a, b.duplicate()));

        let last = builder.is_last_row();
        builder.assert_eq_when(last, b, var(pis[2]));
    }
}

/// Generate a trace for the Fibonacci sequence
fn generate_fibonacci_trace(a: u64, b: u64, n: usize) -> RowMajorMatrix<u64> {
    assert!(n.is_power_of_two());
    let mut values = vec![a, b];
    for i in 1..n {
        let (pa, pb) = (values[2 * (i - 1)], values[2 * (i - 1) + 1]);
        values.push(pb);
        values.push(pa + pb);
    }
    RowMajorMatrix::new(values, 2)
}

/// n-th Fibonacci number starting from (a, b) expected to be x
fn fibonacci_check(a: u64, b: u64, n: usize, x: u64) -> Result<(), ConstraintFailure> {
    let trace = generate_fibonacci_trace(a, b, n);
    check_constraints(&FibonacciAir, &trace, &None, &[], &vec![a, b, x])
}

#[test]
fn fibonacci_air_test_one_row_trace() {
    // Starting with (0, 1), after 1 step we have b = 1
    assert_eq!(fibonacci_check(0, 1, 1, 1), Ok(()));
}

#[test]
fn test_fibonacci_classic() {
    // Starting with (0, 1), after 8 steps: 0, 1, 1, 2, 3, 5, 8, 13, 21
    assert_eq!(fibonacci_check(0, 1, 1 << 3, 21), Ok(()));
}

#[test]
fn test_fibonacci_larger() {
    // 32 rows = 31 transitions
    assert_eq!(fibonacci_check(0, 1, 1 << 5, 2178309), Ok(()));
}

#[test]
fn test_fibonacci_custom_start() {
    // Starting with (2, 3): 8 rows = 7 transitions; Row 7: (55, 89)
    assert_eq!(fibonacci_check(2, 3, 1 << 3, 89), Ok(()));
}

#[test]
fn test_incorrect_fibonacci_value() {
    // the last-row constraint 1 * (21 - 999) does not vanish
    let expected = (Goldilocks::from_u64(21) - Goldilocks::from_u64(999)).as_canonical_u64();
    assert_eq!(
        fibonacci_check(0, 1, 1 << 3, 999),
        Err(ConstraintFailure::NonZero { row: 7, value: Ext2 { c0: expected, c1: 0 } })
    );
}

/// An Air that enforce Fibonacci sequence and permutations.
///
/// | m1 | m2 | m3 | a1      | a2      | a3 |
/// | 0  | 1  | 8  | 1/(r-1) | 1/(r-8) | .. |
/// | 1  | 1  | 5  | 1/(r-1) | 1/(r-5) | .. |
struct FibPermAir;

impl MidenAir for FibPermAir {
    fn width(&self) -> usize {
        3
    }

    fn aux_width(&self) -> usize {
        3
    }

    fn num_randomness(&self) -> usize {
        1
    }

    fn eval<AB: MidenAirBuilder>(&self, builder: &mut AB) {
        let main = builder.main();
        let pis = builder.public_values().to_vec();
        let m1 = var(main.get(0, 0).unwrap());
        let m2 = var(main.get(0, 1).unwrap());
        let m3 = var(main.get(0, 2).unwrap());
        let m1_next = var(main.get(1, 0).unwrap());
        let m2_next = var(main.get(1, 1).unwrap());

        // main constraints
        let first = builder.is_first_row();
        builder.assert_eq_when(first, m1.duplicate(), var(pis[0]));
        let first = builder.is_first_row();
        builder.assert_eq_when(first, m2.duplicate(), var(pis[1]));
        // a' <- b
        let t = builder.is_transition();
        builder.assert_eq_when(t, m2.duplicate(), m1_next);
        // b' <- a + b
        let t = builder.is_transition();
        builder.assert_eq_when(t, SymbolicExpression::add_expr(m1, m2.duplicate()), m2_next);
        let last = builder.is_last_row();
        builder.assert_eq_when(last, m2.duplicate(), var(pis[2]));

        // aux constraints
        let aux = builder.permutation();
        let t_i = var(aux.get(0, 0).unwrap());
        let w_i = var(aux.get(0, 1).unwrap());
        let s_i = var(aux.get(0, 2).unwrap());
        let t_next = var(aux.get(1, 0).unwrap());
        let w_next = var(aux.get(1, 1).unwrap());
        let s_next = var(aux.get(1, 2).unwrap());
        let r = var(builder.permutation_randomness()[0]);

        // t * (r - x_i) == 1
        builder.assert_one_ext(SymbolicExpression::mul_expr(
            t_i.duplicate(),
            SymbolicExpression::sub_expr(r.duplicate(), m2),
        ));
        // w * (r - y_i) == 1
        builder.assert_one_ext(SymbolicExpression::mul_expr(
            w_i.duplicate(),
            SymbolicExpression::sub_expr(r, m3),
        ));
        // running sums
        let first = builder.is_first_row();
        builder.assert_eq_ext_when(first, s_i.duplicate(), SymbolicExpression::sub_expr(t_i, w_i));
        let t = builder.is_transition();
        builder.assert_eq_ext_when(
            t,
            s_next,
            SymbolicExpression::sub_expr(SymbolicExpression::add_expr(s_i.duplicate(), t_next), w_next),
        );
        let last = builder.is_last_row();
        builder.assert_zero_ext_when(last, s_i);
    }
}

fn generate_trace_rows(a: u64, b: u64, n: usize) -> Vec<[u64; 3]> {
    assert!(n.is_power_of_two());
    let mut rows = vec![[a, b, 0]];
    for i in 1..n {
        let (m1, m2) = (rows[i - 1][0], rows[i - 1][1]);
        rows.push([m2, m1 + m2, 0]);
    }
    for i in 0..n {
        rows[i][2] = rows[n - i - 1][1];
    }
    rows
}

fn ef_to_ext(x: EF) -> Ext2 {
    let c: &[Goldilocks] = x.as_basis_coefficients_slice();
    Ext2 { c0: c[0].as_canonical_u64(), c1: c[1].as_canonical_u64() }
}

/// The LogUp columns for m2 and m3: t = 1/(r - m2), w = 1/(r - m3) and their running sum.
fn logup_trace(rows: &[[u64; 3]], r: EF) -> RowMajorMatrix<u64> {
    let mut s = EF::ZERO;
    let mut values = Vec::new();
    for row in rows {
        let t = (r - EF::from(Goldilocks::from_u64(row[1]))).inverse();
        let w = (r - EF::from(Goldilocks::from_u64(row[2]))).inverse();
        s += t - w;
        for e in [t, w, s] {
            let e = ef_to_ext(e);
            values.push(e.c0);
            values.push(e.c1);
        }
    }
    RowMajorMatrix::new(values, 6)
}

fn public_value_check(n: usize, x: u64) -> Result<(), ConstraintFailure> {
    let rows = generate_trace_rows(0, 1, n);
    let main = RowMajorMatrix::new(rows.iter().flat_map(|r| r.to_vec()).collect(), 3);
    let r = EF::from_basis_coefficients_slice(
        [Goldilocks::from_u64(1005), Goldilocks::from_u64(10010)].as_ref(),
    )
    .unwrap();
    let aux = logup_trace(&rows, r);
    check_constraints(&FibPermAir, &main, &Some(aux), &[ef_to_ext(r)], &vec![0, 1, x])
}

#[test]
fn perm_air_test_one_row_trace() {
    assert_eq!(public_value_check(1, 1), Ok(()));
}

#[test]
fn test_public_value() {
    assert_eq!(public_value_check(1 << 3, 21), Ok(()));
}

#[test]
fn test_incorrect_public_value() {
    let expected = (Goldilocks::from_u64(21) - Goldilocks::from_u32(123_123)).as_canonical_u64();
    assert_eq!(
        public_value_check(1 << 3, 123_123),
        Err(ConstraintFailure::NonZero { row: 7, value: Ext2 { c0: expected, c1: 0 } })
    );
}
