use p3_matrix::Matrix;
use p3_miden_prover::air::{MidenAir, MidenAirBuilder};
use p3_miden_prover::symbolic::{Entry, SymbolicExpression, SymbolicVariable};
use p3_miden_prover::symbolic_builder::{
    get_log_quotient_degree, get_max_constraint_degree, get_symbolic_constraints,
    log_quotient_degree, max_constraint_degree, SymbolicAirBuilder,
};
use p3_util::log2_ceil_usize;

struct MockAir {
    // Store (entry_type, index) pairs instead of SymbolicVariables
    constraint_specs: Vec<(Entry, usize)>,
    width: usize,
}

impl MidenAir for MockAir {
    fn width(&self) -> usize {
        self.width
    }

    fn eval<AB: MidenAirBuilder>(&self, builder: &mut AB) {
        let main = builder.main();

        for (entry, index) in &self.constraint_specs {
            match entry {
                Entry::Main { offset } => {
                    let v = main.row_slice(*offset).unwrap()[*index];
                    builder.assert_zero(SymbolicExpression::from_variable(v));
                }
                _ => panic!("Test only supports Main entry"),
            }
        }
    }
}

#[test]
fn test_get_log_quotient_degree_no_constraints() {
    let air = MockAir { constraint_specs: vec![], width: 4 };
    let log_degree = get_log_quotient_degree(&air, 3, 2, 0, 0, 0);
    assert_eq!(log_degree, 0);
}

#[test]
fn test_get_log_quotient_degree_single_constraint() {
    let air = MockAir { constraint_specs: vec![(Entry::Main { offset: 0 }, 0)], width: 4 };
    let log_degree = get_log_quotient_degree(&air, 3, 2, 0, 0, 0);
    assert_eq!(log_degree, log2_ceil_usize(1));
}

#[test]
fn test_get_log_quotient_degree_multiple_constraints() {
    let air = MockAir {
        constraint_specs: vec![
            (Entry::Main { offset: 0 }, 0),
            (Entry::Main { offset: 1 }, 1),
            (Entry::Main { offset: 0 }, 2),
        ],
        width: 4,
    };
    let log_degree = get_log_quotient_degree(&air, 3, 2, 0, 0, 0);
    assert_eq!(log_degree, log2_ceil_usize(1));
}

#[test]
fn test_get_max_constraint_degree_no_constraints() {
    let air = MockAir { constraint_specs: vec![], width: 4 };
    let max_degree = get_max_constraint_degree(&air, 3, 2, 0, 0);
    assert_eq!(max_degree, 0, "No constraints should result in a degree of 0");
}

#[test]
fn test_get_max_constraint_degree_multiple_constraints() {
    let air = MockAir {
        constraint_specs: vec![
            (Entry::Main { offset: 0 }, 0),
            (Entry::Main { offset: 1 }, 1),
            (Entry::Main { offset: 0 }, 2),
        ],
        width: 4,
    };
    let max_degree = get_max_constraint_degree(&air, 3, 2, 0, 0);
    assert_eq!(max_degree, 1, "Max constraint degree should be 1");
}

#[test]
fn test_get_symbolic_constraints() {
    let c1 = SymbolicVariable::new(Entry::Main { offset: 0 }, 0);
    let c2 = SymbolicVariable::new(Entry::Main { offset: 1 }, 1);

    let air = MockAir {
        constraint_specs: vec![(Entry::Main { offset: 0 }, 0), (Entry::Main { offset: 1 }, 1)],
        width: 4,
    };

    let constraints = get_symbolic_constraints(&air, 3, 2, 0, 0);

    assert_eq!(constraints.len(), 2, "Should return exactly 2 constraints");

    assert!(
        constraints.iter().any(|x| matches!(x, SymbolicExpression::Variable(v) if v.index == c1.index && v.entry == c1.entry)),
        "Expected constraint {c1:?} was not found"
    );

    assert!(
        constraints.iter().any(|x| matches!(x, SymbolicExpression::Variable(v) if v.index == c2.index && v.entry == c2.entry)),
        "Expected constraint {c2:?} was not found"
    );
}

#[test]
fn test_symbolic_air_builder_initialization() {
    let builder = SymbolicAirBuilder::new(2, 4, 0, 0, 3);

    let expected_main = [
        SymbolicVariable::new(Entry::Main { offset: 0 }, 0),
        SymbolicVariable::new(Entry::Main { offset: 0 }, 1),
        SymbolicVariable::new(Entry::Main { offset: 0 }, 2),
        SymbolicVariable::new(Entry::Main { offset: 0 }, 3),
        SymbolicVariable::new(Entry::Main { offset: 1 }, 0),
        SymbolicVariable::new(Entry::Main { offset: 1 }, 1),
        SymbolicVariable::new(Entry::Main { offset: 1 }, 2),
        SymbolicVariable::new(Entry::Main { offset: 1 }, 3),
    ];

    let builder_main = builder.main().values;

    assert_eq!(
        builder_main.len(),
        expected_main.len(),
        "Main matrix should have the expected length"
    );

    for (expected, actual) in expected_main.iter().zip(builder_main.iter()) {
        assert_eq!(expected.index, actual.index, "Index mismatch");
        assert_eq!(expected.entry, actual.entry, "Entry mismatch");
    }
}

#[test]
fn test_symbolic_air_builder_is_first_last_row() {
    let builder = SymbolicAirBuilder::new(2, 4, 0, 0, 3);

    assert!(
        matches!(builder.is_first_row(), SymbolicExpression::IsFirstRow),
        "First row condition did not match"
    );

    assert!(
        matches!(builder.is_last_row(), SymbolicExpression::IsLastRow),
        "Last row condition did not match"
    );
}

#[test]
fn test_symbolic_air_builder_assert_zero() {
    let mut builder = SymbolicAirBuilder::new(2, 4, 0, 0, 3);
    let expr = SymbolicExpression::Constant(5);
    builder.assert_zero(expr);

    let constraints = builder.constraints();
    assert_eq!(constraints.len(), 1, "One constraint should be recorded");

    assert!(
        constraints.iter().any(|x| matches!(x, SymbolicExpression::Constant(val) if *val == 5)),
        "Constraint should match the asserted one"
    );
}

#[test]
fn test_symbolic_air_builder_layout_with_periodic() {
    let builder = SymbolicAirBuilder::new_with_periodic(1, 2, 3, 2, 1, 2);
    let pre = builder.preprocessed();
    assert_eq!(pre.width(), 1);
    assert_eq!(
        pre.values,
        vec![
            SymbolicVariable::new(Entry::Preprocessed { offset: 0 }, 0),
            SymbolicVariable::new(Entry::Preprocessed { offset: 1 }, 0),
        ]
    );
    let aux = builder.permutation();
    assert_eq!(aux.width(), 3);
    assert_eq!(aux.get(1, 2), Some(SymbolicVariable::new(Entry::Aux { offset: 1 }, 2)));
    assert_eq!(
        builder.permutation_randomness(),
        &[
            SymbolicVariable::new(Entry::Challenge, 0),
            SymbolicVariable::new(Entry::Challenge, 1)
        ]
    );
    assert_eq!(builder.aux_bus_boundary_values().len(), 3);
    assert_eq!(builder.aux_bus_boundary_values()[2], SymbolicVariable::new(Entry::AuxBusBoundary, 2));
    assert_eq!(builder.public_values(), &[SymbolicVariable::new(Entry::Public, 0)]);
    assert_eq!(
        builder.periodic_evals(),
        &[SymbolicVariable::new(Entry::Periodic, 0), SymbolicVariable::new(Entry::Periodic, 1)]
    );
    assert!(matches!(builder.is_transition_window(2), SymbolicExpression::IsTransition));
}

#[test]
fn test_degree_multiples_of_expressions() {
    let x = SymbolicExpression::from_variable(SymbolicVariable::new(Entry::Main { offset: 0 }, 0));
    let y = SymbolicExpression::from_variable(SymbolicVariable::new(Entry::Aux { offset: 1 }, 0));
    let p = SymbolicExpression::from_variable(SymbolicVariable::new(Entry::Public, 0));
    assert_eq!(p.degree_multiple(), 0);
    assert_eq!(SymbolicExpression::IsFirstRow.degree_multiple(), 1);
    assert_eq!(SymbolicExpression::IsTransition.degree_multiple(), 0);
    let xy = SymbolicExpression::mul_expr(x.duplicate(), y.duplicate());
    assert_eq!(xy.degree_multiple(), 2);
    let xyx = SymbolicExpression::mul_expr(xy, x.duplicate());
    assert_eq!(xyx.degree_multiple(), 3);
    let s = SymbolicExpression::sub_expr(xyx.duplicate(), p);
    assert_eq!(s.degree_multiple(), 3);
    let sel = SymbolicExpression::mul_expr(SymbolicExpression::IsLastRow, s);
    assert_eq!(sel.degree_multiple(), 4);
    let n = SymbolicExpression::neg_expr(sel.duplicate());
    assert_eq!(n.degree_multiple(), 4);
    let a = SymbolicExpression::add_expr(x, n);
    assert_eq!(a.degree_multiple(), 4);
    assert_eq!(max_constraint_degree(&vec![y, a, xyx]), 4);
    assert_eq!(max_constraint_degree(&vec![]), 0);
}

#[test]
fn test_log_quotient_degree_values() {
    // degree 0 or 1 or 2 -> padded to 2 -> log2_ceil(1) = 0
    assert_eq!(log_quotient_degree(0, 0), 0);
    assert_eq!(log_quotient_degree(2, 0), 0);
    // 3 -> log2_ceil(2) = 1
    assert_eq!(log_quotient_degree(3, 0), 1);
    assert_eq!(log_quotient_degree(2, 1), 1);
    // 5 -> log2_ceil(4) = 2; 4 + zk -> 5 -> 2
    assert_eq!(log_quotient_degree(5, 0), 2);
    assert_eq!(log_quotient_degree(4, 1), 2);
    // 9 -> log2_ceil(8) = 3; 10 -> log2_ceil(9) = 4
    assert_eq!(log_quotient_degree(9, 0), 3);
    assert_eq!(log_quotient_degree(10, 0), 4);
}

#[test]
fn test_log_quotient_degree_monotone_in_zk() {
    for d in [0usize, 1, 2, 3, 4, 7, 8, 9, 1000] {
        assert!(log_quotient_degree(d, 0) <= log_quotient_degree(d, 1));
    }
    assert_eq!(log_quotient_degree(1, 0), 0);
    assert_eq!(log_quotient_degree(1, 1), 0);
    assert_eq!(log_quotient_degree(8, 0), 3);
    assert_eq!(log_quotient_degree(8, 1), 3);
}

/// An AIR with a constraint of degree 3: x * x * x.
struct CubicAir;

impl MidenAir for CubicAir {
    fn width(&self) -> usize {
        1
    }

    fn eval<AB: MidenAirBuilder>(&self, builder: &mut AB) {
        let x = SymbolicExpression::from_variable(builder.main().get(0, 0).unwrap());
        let x2 = SymbolicExpression::mul_expr(x.duplicate(), x.duplicate());
        builder.assert_zero(SymbolicExpression::mul_expr(x2, x));
    }
}

#[test]
fn test_degree_of_cubic_air() {
    assert_eq!(get_max_constraint_degree(&CubicAir, 0, 0, 0, 0), 3);
    // 3 -> log2_ceil(2) = 1; 3 + zk -> 4 -> log2_ceil(3) = 2
    assert_eq!(get_log_quotient_degree(&CubicAir, 0, 0, 0, 0, 0), 1);
    assert_eq!(get_log_quotient_degree(&CubicAir, 0, 0, 1, 0, 0), 2);
}
