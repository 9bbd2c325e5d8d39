//! Folding an AIR's constraints into one value with a random challenge, as the
//! prover and the verifier do.
//!
//! The prover multiplies the `i`-th constraint by the `i`-th of a list of
//! challenge powers and sums; the verifier runs Horner's rule,
//! `acc = acc * alpha + c`. With the powers in decreasing order
//! (`alpha^(n-1), ..., alpha, 1`) both give `sum_i alpha^(n-1-i) C_i`.
use p3_matrix::dense::RowMajorMatrix;
use vstd::prelude::*;

use crate::air::MidenAirBuilder;
use crate::field::{
    ext_add, ext_mul, ext_one, ext_pow, ext_zero, lemma_canon_of_canonical, lemma_ext_add_assoc,
    lemma_ext_add_comm, lemma_ext_add_zero, lemma_ext_mul_assoc, lemma_ext_mul_comm,
    lemma_ext_mul_distrib, lemma_ext_mul_one, lemma_ext_mul_zero, lemma_ext_ops_canon,
    lemma_ext_results_canonical, lemma_modp_small, Ext2,
};
use crate::layout::{LayoutView, VariableLayout};
use crate::check_constraints::first_failure;
use crate::symbolic::{
    evaluate, evaluate_exec, lemma_evaluate_canonical, EvaluationWindow, SymbolicExpression,
    SymbolicVariable, WindowView,
};

verus! {

/// The values of the constraints `cs` on a window, or `None` when one of them
/// reads a variable the window does not have.
pub open spec fn constraint_values(cs: Seq<SymbolicExpression>, w: WindowView) -> Option<Seq<Ext2>>
    decreases cs.len(),
{
    if cs.len() == 0 {
        Some(Seq::empty())
    } else {
        match (constraint_values(cs.drop_last(), w), evaluate(cs.last(), w)) {
            (Some(vs), Some(v)) => Some(vs.push(v)),
            _ => None,
        }
    }
}

/// Horner's rule: `((v0 * alpha + v1) * alpha + ...) * alpha + v(n-1)`.
pub open spec fn horner(vs: Seq<Ext2>, alpha: Ext2) -> Ext2
    decreases vs.len(),
{
    if vs.len() == 0 {
        ext_zero()
    } else {
        ext_add(ext_mul(horner(vs.drop_last(), alpha), alpha), vs.last())
    }
}

/// `sum_i ps[i] * vs[i]` over the indices of `vs`.
pub open spec fn weighted_sum(ps: Seq<Ext2>, vs: Seq<Ext2>) -> Ext2
    decreases vs.len(),
{
    if vs.len() == 0 {
        ext_zero()
    } else {
        ext_add(weighted_sum(ps, vs.drop_last()), ext_mul(ps[vs.len() - 1], vs.last()))
    }
}

/// `alpha^0, alpha^1, ..., alpha^(n-1)`.
pub open spec fn powers(alpha: Ext2, n: nat) -> Seq<Ext2> {
    Seq::new(n, |i: int| ext_pow(alpha, i as nat))
}

/// `alpha^(n-1), ..., alpha^1, alpha^0`.
pub open spec fn reversed_powers(alpha: Ext2, n: nat) -> Seq<Ext2> {
    Seq::new(n, |i: int| ext_pow(alpha, (n - 1 - i) as nat))
}

// ---------------------------------------------------------------------------
// The prover's folder
// ---------------------------------------------------------------------------

/// Handles constraint accumulation for the prover in a STARK system.
///
/// Evaluates the constraints of one row of the (extended) trace and
/// accumulates them into a single value with the challenge powers:
/// `acc = sum_i alpha_powers[i] * C_i`.
pub struct ProverConstraintFolder {
    /// The variables handed to the AIR.
    pub layout: VariableLayout,
    /// The values the constraints are evaluated on.
    pub window: EvaluationWindow,
    /// Challenge powers used for randomized constraint combination
    pub alpha_powers: Vec<Ext2>,
    /// Running accumulator for all constraints multiplied by challenge powers
    pub accumulator: Ext2,
    /// Current constraint index being processed
    pub constraint_index: usize,
    /// Set once a constraint could not be folded: it read a variable the
    /// window does not have, or there was no challenge power left for it.
    pub failed: bool,
    /// The constraints stated so far.
    pub stated: Ghost<Seq<SymbolicExpression>>,
}

/// The folder's accumulator is the weighted sum of the values of the stated
/// constraints, unless folding failed, which happens exactly when a stated
/// constraint cannot be evaluated or there are more constraints than powers.
pub open spec fn prover_folder_consistent(f: ProverConstraintFolder) -> bool {
    let cs = f.stated@;
    match constraint_values(cs, f.window@) {
        Some(vs) => if cs.len() <= f.alpha_powers@.len() {
            &&& !f.failed
            &&& f.constraint_index == cs.len()
            &&& f.accumulator == weighted_sum(f.alpha_powers@, vs)
        } else {
            f.failed
        },
        None => f.failed,
    }
}

impl ProverConstraintFolder {
    /// A folder over `window` with the given challenge powers, with nothing
    /// stated and the accumulator at zero.
    pub fn new(window: EvaluationWindow, alpha_powers: Vec<Ext2>) -> (r: ProverConstraintFolder)
        ensures
            r.window@ == window@,
            r.alpha_powers@ == alpha_powers@,
            r.accumulator == ext_zero(),
            r.constraint_index == 0,
            !r.failed,
            r.stated@ == Seq::<SymbolicExpression>::empty(),
            r.layout@ == crate::layout::layout_of(
                window@.preprocessed_local.len(),
                window@.main_local.len(),
                window@.aux_local.len(),
                window@.randomness.len(),
                window@.public_values.len(),
                window@.periodic_values.len(),
            ),
            prover_folder_consistent(r),
    {
        let layout = VariableLayout::new(
            window.preprocessed_local.len(),
            window.main_local.len(),
            window.aux_local.len(),
            window.randomness.len(),
            window.public_values.len(),
            window.periodic_values.len(),
        );
        ProverConstraintFolder {
            layout,
            window,
            alpha_powers,
            accumulator: Ext2::zero(),
            constraint_index: 0,
            failed: false,
            stated: Ghost(Seq::empty()),
        }
    }

    /// Folds one constraint.
    fn fold(&mut self, x: SymbolicExpression)
        ensures
            final(self).stated@ == old(self).stated@.push(x),
            final(self).layout@ == old(self).layout@,
            final(self).window@ == old(self).window@,
            final(self).alpha_powers@ == old(self).alpha_powers@,
            ({
                let idx = old(self).constraint_index as int;
                match evaluate(x, old(self).window@) {
                    Some(v) if !old(self).failed && idx < old(self).alpha_powers@.len() => {
                        &&& final(self).accumulator == ext_add(
                            old(self).accumulator,
                            ext_mul(old(self).alpha_powers@[idx], v),
                        )
                        &&& final(self).constraint_index == idx + 1
                        &&& !final(self).failed
                    },
                    _ => {
                        &&& final(self).accumulator == old(self).accumulator
                        &&& final(self).constraint_index == old(self).constraint_index
                        &&& final(self).failed
                    },
                }
            }),
            prover_folder_consistent(*old(self)) ==> prover_folder_consistent(*final(self)),
    {
        let ghost old_self = *self;
        let value = evaluate_exec(&x, &self.window);
        match value {
            Some(v) => {
                if !self.failed && self.constraint_index < self.alpha_powers.len() {
                    let alpha_power = self.alpha_powers[self.constraint_index];
                    self.accumulator = self.accumulator.add(&alpha_power.mul(&v));
                    self.constraint_index = self.constraint_index + 1;
                } else {
                    self.failed = true;
                }
            },
            None => {
                self.failed = true;
            },
        }
        proof {
            self.stated = Ghost(self.stated@.push(x));
            let cs = self.stated@;
            assert(cs.drop_last() =~= old_self.stated@);
            lemma_constraint_values_len(old_self.stated@, old_self.window@);
            if let Some(vs) = constraint_values(old_self.stated@, old_self.window@) {
                if let Some(v) = evaluate(x, old_self.window@) {
                    assert(vs.push(v).drop_last() =~= vs);
                }
            }
        }
    }
}

impl MidenAirBuilder for ProverConstraintFolder {
    type Frame = (WindowView, Seq<Ext2>);

    closed spec fn recorded(&self) -> Seq<SymbolicExpression> {
        self.stated@
    }

    /// The window and the challenge powers.
    open spec fn frame(&self) -> (WindowView, Seq<Ext2>) {
        (self.window@, self.alpha_powers@)
    }

    open spec fn builder_wf(&self) -> bool {
        prover_folder_consistent(*self)
    }

    closed spec fn layout(&self) -> LayoutView {
        self.layout@
    }

    fn main(&self) -> (r: RowMajorMatrix<SymbolicVariable>) {
        self.layout.main_matrix()
    }

    fn preprocessed(&self) -> (r: RowMajorMatrix<SymbolicVariable>) {
        self.layout.preprocessed_matrix()
    }

    fn permutation(&self) -> (r: RowMajorMatrix<SymbolicVariable>) {
        self.layout.aux_matrix()
    }

    fn permutation_randomness(&self) -> (r: &[SymbolicVariable]) {
        self.layout.randomness()
    }

    fn aux_bus_boundary_values(&self) -> (r: &[SymbolicVariable]) {
        self.layout.bus_boundary_values()
    }

    fn public_values(&self) -> (r: &[SymbolicVariable]) {
        self.layout.public_values()
    }

    fn periodic_evals(&self) -> (r: &[SymbolicVariable]) {
        self.layout.periodic_values()
    }

    fn is_first_row(&self) -> (r: SymbolicExpression) {
        SymbolicExpression::IsFirstRow
    }

    fn is_last_row(&self) -> (r: SymbolicExpression) {
        SymbolicExpression::IsLastRow
    }

    fn is_transition_window(&self, size: usize) -> (r: SymbolicExpression) {
        SymbolicExpression::IsTransition
    }

    /// Adds `alpha_powers[constraint_index] * x` to the accumulator.
    fn assert_zero(&mut self, x: SymbolicExpression)
        ensures
            final(self).layout@ == old(self).layout@,
            final(self).window@ == old(self).window@,
            final(self).alpha_powers@ == old(self).alpha_powers@,
            ({
                let idx = old(self).constraint_index as int;
                match evaluate(x, old(self).window@) {
                    Some(v) if !old(self).failed && idx < old(self).alpha_powers@.len() => {
                        &&& final(self).accumulator == ext_add(
                            old(self).accumulator,
                            ext_mul(old(self).alpha_powers@[idx], v),
                        )
                        &&& final(self).constraint_index == idx + 1
                        &&& !final(self).failed
                    },
                    _ => {
                        &&& final(self).accumulator == old(self).accumulator
                        &&& final(self).constraint_index == old(self).constraint_index
                        &&& final(self).failed
                    },
                }
            }),
            prover_folder_consistent(*old(self)) ==> prover_folder_consistent(*final(self)),
    {
        self.fold(x)
    }

    /// Adds `alpha_powers[constraint_index] * x` to the accumulator.
    fn assert_zero_ext(&mut self, x: SymbolicExpression)
        ensures
            final(self).layout@ == old(self).layout@,
            final(self).window@ == old(self).window@,
            final(self).alpha_powers@ == old(self).alpha_powers@,
            ({
                let idx = old(self).constraint_index as int;
                match evaluate(x, old(self).window@) {
                    Some(v) if !old(self).failed && idx < old(self).alpha_powers@.len() => {
                        &&& final(self).accumulator == ext_add(
                            old(self).accumulator,
                            ext_mul(old(self).alpha_powers@[idx], v),
                        )
                        &&& final(self).constraint_index == idx + 1
                        &&& !final(self).failed
                    },
                    _ => {
                        &&& final(self).accumulator == old(self).accumulator
                        &&& final(self).constraint_index == old(self).constraint_index
                        &&& final(self).failed
                    },
                }
            }),
            prover_folder_consistent(*old(self)) ==> prover_folder_consistent(*final(self)),
    {
        self.fold(x)
    }
}

// ---------------------------------------------------------------------------
// The verifier's folder
// ---------------------------------------------------------------------------

/// Handles constraint verification for the verifier in a STARK system.
///
/// Evaluates the constraints at the out-of-domain point and accumulates them
/// with Horner's rule: `acc = acc * alpha + C`.
pub struct VerifierConstraintFolder {
    /// The variables handed to the AIR.
    pub layout: VariableLayout,
    /// The values the constraints are evaluated on.
    pub window: EvaluationWindow,
    /// Single challenge value used for constraint combination
    pub alpha: Ext2,
    /// Running accumulator for all constraints
    pub accumulator: Ext2,
    /// Set once a constraint read a variable the window does not have.
    pub failed: bool,
    /// The constraints stated so far.
    pub stated: Ghost<Seq<SymbolicExpression>>,
}

/// The folder's accumulator is Horner's rule over the values of the stated
/// constraints, unless folding failed, which happens exactly when a stated
/// constraint cannot be evaluated.
pub open spec fn verifier_folder_consistent(f: VerifierConstraintFolder) -> bool {
    match constraint_values(f.stated@, f.window@) {
        Some(vs) => !f.failed && f.accumulator == horner(vs, f.alpha),
        None => f.failed,
    }
}

impl VerifierConstraintFolder {
    /// A folder over `window` with challenge `alpha`, with nothing stated and
    /// the accumulator at zero.
    pub fn new(window: EvaluationWindow, alpha: Ext2) -> (r: VerifierConstraintFolder)
        ensures
            r.window@ == window@,
            r.alpha == alpha,
            r.accumulator == ext_zero(),
            !r.failed,
            r.stated@ == Seq::<SymbolicExpression>::empty(),
            r.layout@ == crate::layout::layout_of(
                window@.preprocessed_local.len(),
                window@.main_local.len(),
                window@.aux_local.len(),
                window@.randomness.len(),
                window@.public_values.len(),
                window@.periodic_values.len(),
            ),
            verifier_folder_consistent(r),
    {
        let layout = VariableLayout::new(
            window.preprocessed_local.len(),
            window.main_local.len(),
            window.aux_local.len(),
            window.randomness.len(),
            window.public_values.len(),
            window.periodic_values.len(),
        );
        VerifierConstraintFolder {
            layout,
            window,
            alpha,
            accumulator: Ext2::zero(),
            failed: false,
            stated: Ghost(Seq::empty()),
        }
    }

    /// Folds one constraint.
    fn fold(&mut self, x: SymbolicExpression)
        ensures
            final(self).stated@ == old(self).stated@.push(x),
            final(self).layout@ == old(self).layout@,
            final(self).window@ == old(self).window@,
            final(self).alpha == old(self).alpha,
            match evaluate(x, old(self).window@) {
                Some(v) if !old(self).failed => {
                    &&& final(self).accumulator == ext_add(
                        ext_mul(old(self).accumulator, old(self).alpha),
                        v,
                    )
                    &&& !final(self).failed
                },
                _ => {
                    &&& final(self).accumulator == old(self).accumulator
                    &&& final(self).failed
                },
            },
            verifier_folder_consistent(*old(self)) ==> verifier_folder_consistent(*final(self)),
    {
        let ghost old_self = *self;
        match evaluate_exec(&x, &self.window) {
            Some(v) => {
                if !self.failed {
                    self.accumulator = self.accumulator.mul(&self.alpha).add(&v);
                }
            },
            None => {
                self.failed = true;
            },
        }
        proof {
            self.stated = Ghost(self.stated@.push(x));
            assert(self.stated@.drop_last() =~= old_self.stated@);
            if let Some(vs) = constraint_values(old_self.stated@, old_self.window@) {
                if let Some(v) = evaluate(x, old_self.window@) {
                    assert(vs.push(v).drop_last() =~= vs);
                }
            }
        }
    }
}

impl MidenAirBuilder for VerifierConstraintFolder {
    type Frame = (WindowView, Ext2);

    closed spec fn recorded(&self) -> Seq<SymbolicExpression> {
        self.stated@
    }

    /// The window and the challenge.
    open spec fn frame(&self) -> (WindowView, Ext2) {
        (self.window@, self.alpha)
    }

    open spec fn builder_wf(&self) -> bool {
        verifier_folder_consistent(*self)
    }

    closed spec fn layout(&self) -> LayoutView {
        self.layout@
    }

    fn main(&self) -> (r: RowMajorMatrix<SymbolicVariable>) {
        self.layout.main_matrix()
    }

    fn preprocessed(&self) -> (r: RowMajorMatrix<SymbolicVariable>) {
        self.layout.preprocessed_matrix()
    }

    fn permutation(&self) -> (r: RowMajorMatrix<SymbolicVariable>) {
        self.layout.aux_matrix()
    }

    fn permutation_randomness(&self) -> (r: &[SymbolicVariable]) {
        self.layout.randomness()
    }

    fn aux_bus_boundary_values(&self) -> (r: &[SymbolicVariable]) {
        self.layout.bus_boundary_values()
    }

    fn public_values(&self) -> (r: &[SymbolicVariable]) {
        self.layout.public_values()
    }

    fn periodic_evals(&self) -> (r: &[SymbolicVariable]) {
        self.layout.periodic_values()
    }

    fn is_first_row(&self) -> (r: SymbolicExpression) {
        SymbolicExpression::IsFirstRow
    }

    fn is_last_row(&self) -> (r: SymbolicExpression) {
        SymbolicExpression::IsLastRow
    }

    fn is_transition_window(&self, size: usize) -> (r: SymbolicExpression) {
        SymbolicExpression::IsTransition
    }

    /// Sets the accumulator to `accumulator * alpha + x`.
    fn assert_zero(&mut self, x: SymbolicExpression)
        ensures
            final(self).layout@ == old(self).layout@,
            final(self).window@ == old(self).window@,
            final(self).alpha == old(self).alpha,
            match evaluate(x, old(self).window@) {
                Some(v) if !old(self).failed => {
                    &&& final(self).accumulator == ext_add(
                        ext_mul(old(self).accumulator, old(self).alpha),
                        v,
                    )
                    &&& !final(self).failed
                },
                _ => {
                    &&& final(self).accumulator == old(self).accumulator
                    &&& final(self).failed
                },
            },
            verifier_folder_consistent(*old(self)) ==> verifier_folder_consistent(*final(self)),
    {
        self.fold(x)
    }

    /// Sets the accumulator to `accumulator * alpha + x`.
    fn assert_zero_ext(&mut self, x: SymbolicExpression)
        ensures
            final(self).layout@ == old(self).layout@,
            final(self).window@ == old(self).window@,
            final(self).alpha == old(self).alpha,
            match evaluate(x, old(self).window@) {
                Some(v) if !old(self).failed => {
                    &&& final(self).accumulator == ext_add(
                        ext_mul(old(self).accumulator, old(self).alpha),
                        v,
                    )
                    &&& !final(self).failed
                },
                _ => {
                    &&& final(self).accumulator == old(self).accumulator
                    &&& final(self).failed
                },
            },
            verifier_folder_consistent(*old(self)) ==> verifier_folder_consistent(*final(self)),
    {
        self.fold(x)
    }
}

// ---------------------------------------------------------------------------
// Laws of folding
// ---------------------------------------------------------------------------

/// There is one value per constraint.
proof fn lemma_constraint_values_len(cs: Seq<SymbolicExpression>, w: WindowView)
    ensures
        constraint_values(cs, w) matches Some(vs) ==> vs.len() == cs.len(),
    decreases cs.len(),
{
    if cs.len() > 0 {
        lemma_constraint_values_len(cs.drop_last(), w);
    }
}

/// Scaling every weight by `alpha` scales the weighted sum by `alpha`.
proof fn lemma_weighted_sum_scaled(ps: Seq<Ext2>, qs: Seq<Ext2>, vs: Seq<Ext2>, alpha: Ext2)
    requires
        vs.len() <= ps.len(),
        vs.len() <= qs.len(),
        forall|i: int| 0 <= i < vs.len() ==> ps[i] == ext_mul(qs[i], alpha),
    ensures
        weighted_sum(ps, vs) == ext_mul(weighted_sum(qs, vs), alpha),
    decreases vs.len(),
{
    if vs.len() == 0 {
        lemma_ext_mul_zero(alpha);
    } else {
        let k = vs.len() - 1;
        let v = vs.last();
        let rest = vs.drop_last();
        lemma_weighted_sum_scaled(ps, qs, rest, alpha);
        let s = weighted_sum(qs, rest);
        let q = qs[k];
        // (q * alpha) * v == (q * v) * alpha
        lemma_ext_mul_assoc(q, alpha, v);
        lemma_ext_mul_comm(alpha, v);
        lemma_ext_mul_assoc(q, v, alpha);
        // (s + q v) alpha == s alpha + (q v) alpha
        lemma_ext_mul_distrib(s, ext_mul(q, v), alpha);
    }
}

/// The verifier's Horner accumulation equals the prover's weighted sum with
/// the challenge powers in decreasing order: both are
/// `sum_i alpha^(n-1-i) v_i`.
pub proof fn lemma_prover_verifier_agree(vs: Seq<Ext2>, alpha: Ext2)
    ensures
        horner(vs, alpha) == weighted_sum(reversed_powers(alpha, vs.len()), vs),
    decreases vs.len(),
{
    let n = vs.len();
    if n > 0 {
        let rest = vs.drop_last();
        let v = vs.last();
        lemma_prover_verifier_agree(rest, alpha);
        let big = reversed_powers(alpha, n);
        let small = reversed_powers(alpha, (n - 1) as nat);
        assert forall|i: int| 0 <= i < rest.len() implies big[i] == ext_mul(small[i], alpha) by {
            assert((n - 1 - i) as nat == (((n - 1) - 1 - i) as nat) + 1);
        }
        lemma_weighted_sum_scaled(big, small, rest, alpha);
        assert(weighted_sum(big, vs.drop_last()) == weighted_sum(big, rest));
        assert(big[n - 1] == ext_one());
        lemma_ext_mul_one(v);
        lemma_ext_ops_canon(ext_mul(horner(rest, alpha), alpha), v);
    }
}

/// The prover's weighted sum with increasing powers is
/// `C_0 + alpha C_1 + alpha^2 C_2 + ...`, that is, Horner's rule run over the
/// constraints in reverse order.
pub proof fn lemma_increasing_powers_fold(vs: Seq<Ext2>, alpha: Ext2)
    ensures
        weighted_sum(powers(alpha, vs.len()), vs) == horner(vs.reverse(), alpha),
{
    let n = vs.len();
    let rv = vs.reverse();
    lemma_prover_verifier_agree(rv, alpha);
    lemma_weighted_sum_reverse(powers(alpha, n), vs);
    assert(powers(alpha, n).reverse() =~= reversed_powers(alpha, n));
}

/// Reversing both the weights and the values keeps the weighted sum.
proof fn lemma_weighted_sum_reverse(ps: Seq<Ext2>, vs: Seq<Ext2>)
    requires
        ps.len() == vs.len(),
    ensures
        weighted_sum(ps, vs) == weighted_sum(ps.reverse(), vs.reverse()),
    decreases vs.len(),
{
    if vs.len() > 0 {
        let n = vs.len();
        // peel the first element of the reversed pair
        let ps1 = ps.drop_last();
        let vs1 = vs.drop_last();
        lemma_weighted_sum_reverse(ps1, vs1);
        // weighted_sum(rev ps, rev vs) = ps[n-1] vs[n-1] + weighted_sum(rev ps1, rev vs1)
        lemma_weighted_sum_cons(ps.reverse(), vs.reverse());
        assert(ps.reverse().drop_first() =~= ps1.reverse());
        assert(vs.reverse().drop_first() =~= vs1.reverse());
        assert(weighted_sum(ps, vs.drop_last()) == weighted_sum(ps1, vs1)) by {
            lemma_weighted_sum_prefix(ps, ps1, vs1);
        }
        lemma_ext_add_comm(weighted_sum(ps1, vs1), ext_mul(ps[n - 1], vs[n - 1]));
    }
}

/// Only the weights at the indices of `vs` matter.
proof fn lemma_weighted_sum_prefix(ps: Seq<Ext2>, qs: Seq<Ext2>, vs: Seq<Ext2>)
    requires
        vs.len() <= ps.len(),
        vs.len() <= qs.len(),
        forall|i: int| 0 <= i < vs.len() ==> ps[i] == qs[i],
    ensures
        weighted_sum(ps, vs) == weighted_sum(qs, vs),
    decreases vs.len(),
{
    if vs.len() > 0 {
        lemma_weighted_sum_prefix(ps, qs, vs.drop_last());
    }
}

/// Splitting off the first term of a weighted sum.
proof fn lemma_weighted_sum_cons(ps: Seq<Ext2>, vs: Seq<Ext2>)
    requires
        vs.len() > 0,
        ps.len() == vs.len(),
    ensures
        weighted_sum(ps, vs) == ext_add(ext_mul(ps[0], vs[0]), weighted_sum(ps.drop_first(), vs.drop_first())),
    decreases vs.len(),
{
    let n = vs.len();
    if n == 1 {
        assert(vs.drop_last().len() == 0);
        assert(vs.drop_first().len() == 0);
        assert(vs.last() == vs[0]);
        let m = ext_mul(ps[0], vs[0]);
        lemma_ext_add_zero(m);
        lemma_ext_results_canonical(ps[0], vs[0]);
        lemma_canon_of_canonical(m);
        assert(weighted_sum(ps, vs.drop_last()) == ext_zero());
        assert(weighted_sum(ps, vs) == ext_add(ext_zero(), m));
        assert(weighted_sum(ps.drop_first(), vs.drop_first()) == ext_zero());
    } else {
        let ps1 = ps.drop_last();
        let vs1 = vs.drop_last();
        lemma_weighted_sum_prefix(ps, ps1, vs1);
        lemma_weighted_sum_cons(ps1, vs1);
        assert(ps1.drop_first() =~= ps.drop_first().drop_last());
        assert(vs1.drop_first() =~= vs.drop_first().drop_last());
        lemma_weighted_sum_prefix(ps.drop_first(), ps1.drop_first(), vs1.drop_first());
        let a = ext_mul(ps[0], vs[0]);
        let b = weighted_sum(ps1.drop_first(), vs1.drop_first());
        let c = ext_mul(ps[n - 1], vs[n - 1]);
        lemma_ext_add_assoc(a, b, c);
        assert(weighted_sum(ps, vs) == ext_add(weighted_sum(ps1, vs1), c));
        assert(weighted_sum(ps1, vs1) == ext_add(a, b));
        let pd = ps.drop_first();
        let vd = vs.drop_first();
        assert(vd.drop_last() =~= vs1.drop_first());
        assert(pd[vd.len() - 1] == ps[n - 1]);
        assert(vd.last() == vs[n - 1]);
        assert(weighted_sum(pd, vd) == ext_add(weighted_sum(pd, vd.drop_last()), c));
        assert(weighted_sum(pd, vd) == ext_add(b, c));
    }
}

/// Constraints that all vanish fold to zero, for the prover and the verifier.
pub proof fn lemma_zero_constraints_fold_to_zero(ps: Seq<Ext2>, vs: Seq<Ext2>, alpha: Ext2)
    requires
        vs.len() <= ps.len(),
        forall|i: int| 0 <= i < vs.len() ==> #[trigger] vs[i] == ext_zero(),
    ensures
        horner(vs, alpha) == ext_zero(),
        weighted_sum(ps, vs) == ext_zero(),
    decreases vs.len(),
{
    if vs.len() > 0 {
        let rest = vs.drop_last();
        assert forall|i: int| 0 <= i < rest.len() implies #[trigger] rest[i] == ext_zero() by {
            assert(rest[i] == vs[i]);
        }
        lemma_zero_constraints_fold_to_zero(ps, rest, alpha);
        assert(vs.last() == vs[vs.len() - 1]);
        lemma_ext_mul_zero(alpha);
        lemma_ext_mul_zero(ps[vs.len() - 1]);
    }
}

/// All constraints pass on a window: each can be evaluated there and is zero.
proof fn lemma_no_failure_values_zero(cs: Seq<SymbolicExpression>, w: WindowView, row: usize)
    requires
        first_failure(cs, w, row) is None,
    ensures
        constraint_values(cs, w) is Some,
        constraint_values(cs, w) matches Some(vs) ==> vs.len() == cs.len() && forall|i: int|
            0 <= i < vs.len() ==> #[trigger] vs[i] == ext_zero(),
    decreases cs.len(),
{
    if cs.len() > 0 {
        let rest = cs.drop_last();
        lemma_no_failure_values_zero(rest, w, row);
        let vs0 = constraint_values(rest, w).unwrap();
        let v = evaluate(cs.last(), w).unwrap();
        lemma_evaluate_canonical(cs.last(), w);
        lemma_modp_small(v.c0 as int);
        lemma_modp_small(v.c1 as int);
        let vs = vs0.push(v);
        assert forall|i: int| 0 <= i < vs.len() implies #[trigger] vs[i] == ext_zero() by {
            if i < vs0.len() {
                assert(vs[i] == vs0[i]);
            }
        }
    }
}

/// A row on which the debug check finds no failure folds to zero, for the
/// verifier (any challenge) and for the prover (any challenge powers, one per
/// constraint).
pub proof fn lemma_passing_row_folds_to_zero(
    cs: Seq<SymbolicExpression>,
    w: WindowView,
    row: usize,
    alpha: Ext2,
    alpha_powers: Seq<Ext2>,
)
    requires
        first_failure(cs, w, row) is None,
        cs.len() <= alpha_powers.len(),
    ensures
        constraint_values(cs, w) matches Some(vs) && horner(vs, alpha) == ext_zero()
            && weighted_sum(alpha_powers, vs) == ext_zero(),
{
    lemma_no_failure_values_zero(cs, w, row);
    let vs = constraint_values(cs, w).unwrap();
    lemma_zero_constraints_fold_to_zero(alpha_powers, vs, alpha);
}

} // verus!
