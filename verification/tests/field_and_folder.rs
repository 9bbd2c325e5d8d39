use p3_field::extension::BinomialExtensionField;
use p3_field::{BasedVectorSpace, PrimeCharacteristicRing, PrimeField64};
use p3_goldilocks::Goldilocks;
use p3_miden_prover::air::MidenAirBuilder;
use p3_miden_prover::field::{gl_add, gl_mul, gl_reduce, gl_sub, Ext2, P};
use p3_miden_prover::folder::{ProverConstraintFolder, VerifierConstraintFolder};
use p3_miden_prover::symbolic::{
    evaluate_exec, variable_value_exec, Entry, EvaluationWindow, SymbolicExpression,
    SymbolicVariable,
};
use p3_miden_prover::util::{prover_row_to_ext, verifier_row_to_ext};

type EF = BinomialExtensionField<Goldilocks, 2>;

fn to_ef(x: Ext2) -> EF {
    EF::from_basis_coefficients_slice(&[Goldilocks::from_u64(x.c0), Goldilocks::from_u64(x.c1)]).unwrap()
}

fn from_ef(x: EF) -> Ext2 {
    let c: &[Goldilocks] = x.as_basis_coefficients_slice();
    Ext2 { c0: c[0].as_canonical_u64(), c1: c[1].as_canonical_u64() }
}

const SAMPLES: [u64; 6] = [0, 1, 7, 0xFFFF_FFFF_0000_0000, 0xFFFF_FFFF_FFFF_FFFF, 123_456_789_123];

#[test]
fn test_base_field_matches_goldilocks() {
    for a in SAMPLES {
        assert_eq!(gl_reduce(a), Goldilocks::from_u64(a).as_canonical_u64());
        for b in SAMPLES {
            let (ga, gb) = (Goldilocks::from_u64(a), Goldilocks::from_u64(b));
            assert_eq!(gl_add(a, b), (ga + gb).as_canonical_u64());
            assert_eq!(gl_sub(a, b), (ga - gb).as_canonical_u64());
            assert_eq!(gl_mul(a, b), (ga * gb).as_canonical_u64());
        }
    }
    // exact values
    assert_eq!(gl_add(P - 1, 2), 1);
    assert_eq!(gl_sub(0, 1), P - 1);
    assert_eq!(gl_mul(1 << 32, 1 << 32), (1u64 << 32) - 1);
}

#[test]
fn test_extension_matches_binomial_extension() {
    for a0 in SAMPLES {
        for b1 in SAMPLES {
            let a = Ext2 { c0: a0, c1: 3 };
            let b = Ext2 { c0: 5, c1: b1 };
            assert_eq!(a.mul(&b), from_ef(to_ef(a) * to_ef(b)));
            assert_eq!(a.add(&b), from_ef(to_ef(a) + to_ef(b)));
            assert_eq!(a.sub(&b), from_ef(to_ef(a) - to_ef(b)));
            assert_eq!(a.neg(), from_ef(-to_ef(a)));
        }
    }
    // X * X = W = 7
    let x = Ext2 { c0: 0, c1: 1 };
    assert_eq!(x.mul(&x), Ext2 { c0: 7, c1: 0 });
    assert!(Ext2 { c0: P, c1: 0 }.is_zero());
    assert!(!Ext2 { c0: 0, c1: 1 }.is_zero());
    assert_eq!(Ext2::from_base(P + 3), Ext2 { c0: 3, c1: 0 });
    assert_eq!(Ext2::from_coefficients(P, P + 1), Ext2 { c0: 0, c1: 1 });
}

fn window(main_local: Vec<Ext2>, main_next: Vec<Ext2>, public_values: Vec<u64>) -> EvaluationWindow {
    EvaluationWindow {
        main_local,
        main_next,
        preprocessed_local: vec![],
        preprocessed_next: vec![],
        aux_local: vec![],
        aux_next: vec![],
        randomness: vec![],
        aux_bus_boundary_values: vec![],
        public_values,
        periodic_values: vec![],
        is_first_row: Ext2 { c0: 1, c1: 0 },
        is_last_row: Ext2 { c0: 0, c1: 0 },
        is_transition: Ext2 { c0: 1, c1: 0 },
    }
}

fn v(entry: Entry, index: usize) -> SymbolicExpression {
    SymbolicExpression::from_variable(SymbolicVariable::new(entry, index))
}

#[test]
fn test_evaluation_on_window() {
    let w = window(
        vec![Ext2 { c0: 3, c1: 0 }, Ext2 { c0: 4, c1: 0 }],
        vec![Ext2 { c0: 5, c1: 0 }, Ext2 { c0: 6, c1: 1 }],
        vec![P + 10],
    );
    let e = SymbolicExpression::mul_expr(
        SymbolicExpression::add_expr(v(Entry::Main { offset: 0 }, 0), v(Entry::Main { offset: 1 }, 1)),
        v(Entry::Public, 0),
    );
    // (3 + (6 + X)) * 10 = 90 + 10 X
    assert_eq!(evaluate_exec(&e, &w), Some(Ext2 { c0: 90, c1: 10 }));
    assert_eq!(variable_value_exec(&SymbolicVariable::new(Entry::Main { offset: 2 }, 0), &w), None);
    assert_eq!(evaluate_exec(&v(Entry::Main { offset: 0 }, 2), &w), None);
    assert_eq!(evaluate_exec(&SymbolicExpression::IsFirstRow, &w), Some(Ext2 { c0: 1, c1: 0 }));
    assert_eq!(
        evaluate_exec(&SymbolicExpression::neg_expr(SymbolicExpression::constant(1)), &w),
        Some(Ext2 { c0: P - 1, c1: 0 })
    );
}

#[test]
fn test_prover_and_verifier_folders_agree() {
    let w = || {
        window(
            vec![Ext2 { c0: 3, c1: 0 }, Ext2 { c0: 4, c1: 2 }],
            vec![Ext2 { c0: 5, c1: 0 }, Ext2 { c0: 6, c1: 1 }],
            vec![11],
        )
    };
    let constraints = || {
        vec![
            v(Entry::Main { offset: 0 }, 0),
            SymbolicExpression::mul_expr(v(Entry::Main { offset: 0 }, 1), v(Entry::Main { offset: 1 }, 1)),
            SymbolicExpression::sub_expr(v(Entry::Public, 0), v(Entry::Main { offset: 1 }, 0)),
        ]
    };
    let alpha = Ext2 { c0: 17, c1: 5 };
    // decreasing powers alpha^2, alpha, 1
    let a2 = alpha.mul(&alpha);
    let mut prover = ProverConstraintFolder::new(w(), vec![a2, alpha, Ext2::one()]);
    let mut verifier = VerifierConstraintFolder::new(w(), alpha);
    for c in constraints() {
        verifier.assert_zero(c.duplicate());
        prover.assert_zero_ext(c);
    }
    assert!(!prover.failed && !verifier.failed);
    assert_eq!(prover.constraint_index, 3);
    assert_eq!(prover.accumulator, verifier.accumulator);
    // exact value: c0 = 3, c1 = (4 + 2X)(6 + X) = 24 + 14 + 16X = 38 + 16X, c2 = 11 - 5 = 6
    let c0 = to_ef(Ext2 { c0: 3, c1: 0 });
    let c1 = to_ef(Ext2 { c0: 38, c1: 16 });
    let c2 = to_ef(Ext2 { c0: 6, c1: 0 });
    let a = to_ef(alpha);
    assert_eq!(from_ef(c0 * a * a + c1 * a + c2), verifier.accumulator);
}

#[test]
fn test_folders_fail_on_unresolved_constraint_or_missing_power() {
    let w = window(vec![Ext2 { c0: 3, c1: 0 }], vec![Ext2 { c0: 5, c1: 0 }], vec![]);
    let mut verifier = VerifierConstraintFolder::new(w, Ext2 { c0: 2, c1: 0 });
    verifier.assert_zero(v(Entry::Aux { offset: 0 }, 0));
    assert!(verifier.failed);
    assert_eq!(verifier.accumulator, Ext2::zero());

    let w = window(vec![Ext2 { c0: 3, c1: 0 }], vec![Ext2 { c0: 5, c1: 0 }], vec![]);
    let mut prover = ProverConstraintFolder::new(w, vec![Ext2::one()]);
    prover.assert_zero(v(Entry::Main { offset: 0 }, 0));
    assert_eq!(prover.accumulator, Ext2 { c0: 3, c1: 0 });
    prover.assert_zero(v(Entry::Main { offset: 1 }, 0));
    assert!(prover.failed);
    assert_eq!(prover.constraint_index, 1);
    assert_eq!(prover.accumulator, Ext2 { c0: 3, c1: 0 });
}

#[test]
fn test_zero_constraints_fold_to_zero() {
    let w = window(vec![Ext2 { c0: 3, c1: 0 }], vec![Ext2 { c0: 3, c1: 0 }], vec![]);
    let mut verifier = VerifierConstraintFolder::new(w, Ext2 { c0: 9, c1: 4 });
    verifier.assert_eq(v(Entry::Main { offset: 0 }, 0), v(Entry::Main { offset: 1 }, 0));
    verifier.assert_zero_when(SymbolicExpression::IsLastRow, SymbolicExpression::constant(8));
    assert_eq!(verifier.accumulator, Ext2::zero());
}

#[test]
fn test_row_conversions() {
    let row = [1u64, 2, P + 3, 4];
    // coefficients are read in canonical form, as the limb recombination gives them
    assert_eq!(prover_row_to_ext(&row), vec![Ext2 { c0: 1, c1: 2 }, Ext2 { c0: 3, c1: 4 }]);
    let limbs: Vec<Ext2> = row.iter().map(|x| Ext2 { c0: *x, c1: 0 }).collect();
    assert_eq!(
        verifier_row_to_ext(&limbs),
        Some(vec![Ext2 { c0: 1, c1: 2 }, Ext2 { c0: 3, c1: 4 }])
    );
    assert_eq!(verifier_row_to_ext(&limbs[..3]), None);
    // limbs that are themselves extension elements: (1 + X) + X * (2 + 0X) = 1 + 3X
    assert_eq!(
        verifier_row_to_ext(&[Ext2 { c0: 1, c1: 1 }, Ext2 { c0: 2, c1: 0 }]),
        Some(vec![Ext2 { c0: 1, c1: 3 }])
    );
    // X * (0 + X) = W = 7
    assert_eq!(
        verifier_row_to_ext(&[Ext2 { c0: 0, c1: 0 }, Ext2 { c0: 0, c1: 1 }]),
        Some(vec![Ext2 { c0: 7, c1: 0 }])
    );
}
