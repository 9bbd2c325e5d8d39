//! Arithmetic in the Goldilocks field and in its quadratic binomial extension.
//!
//! A base-field element is held as a `u64`; its value is the `u64` reduced modulo
//! `P`, so non-canonical encodings are accepted everywhere and every operation
//! returns the canonical representative. An extension element `c0 + c1 * X`
//! lives in `F[X] / (X^2 - W)` with `W = 7`.
use vstd::arithmetic::div_mod::*;
use vstd::prelude::*;

verus! {

/// The Goldilocks prime `2^64 - 2^32 + 1`.
pub const P: u64 = 0xFFFF_FFFF_0000_0001u64;

/// `x` reduced modulo `P`.
pub open spec fn modp(x: int) -> int {
    x % (P as int)
}

/// Two integers are congruent modulo `P`.
pub open spec fn cong(x: int, y: int) -> bool {
    modp(x) == modp(y)
}

/// An element of the quadratic extension, `c0 + c1 * X`.
#[derive(Clone, Copy, Debug, PartialEq, Eq, Structural)]
pub struct Ext2 {
    pub c0: u64,
    pub c1: u64,
}

/// Both coordinates are canonical (below `P`).
pub open spec fn is_canonical(a: Ext2) -> bool {
    a.c0 < P && a.c1 < P
}

/// The canonical representative of `a`.
pub open spec fn canon(a: Ext2) -> Ext2 {
    Ext2 { c0: modp(a.c0 as int) as u64, c1: modp(a.c1 as int) as u64 }
}

/// The additive identity.
pub open spec fn ext_zero() -> Ext2 {
    Ext2 { c0: 0, c1: 0 }
}

/// The multiplicative identity.
pub open spec fn ext_one() -> Ext2 {
    Ext2 { c0: 1, c1: 0 }
}

/// The base-field element `x` seen in the extension.
pub open spec fn embed(x: u64) -> Ext2 {
    Ext2 { c0: modp(x as int) as u64, c1: 0 }
}

/// The generator `X` of the extension.
pub open spec fn ext_x() -> Ext2 {
    Ext2 { c0: 0, c1: 1 }
}

pub open spec fn ext_add(a: Ext2, b: Ext2) -> Ext2 {
    Ext2 {
        c0: modp(a.c0 + b.c0) as u64,
        c1: modp(a.c1 + b.c1) as u64,
    }
}

pub open spec fn ext_sub(a: Ext2, b: Ext2) -> Ext2 {
    Ext2 {
        c0: modp(a.c0 - b.c0) as u64,
        c1: modp(a.c1 - b.c1) as u64,
    }
}

pub open spec fn ext_neg(a: Ext2) -> Ext2 {
    Ext2 {
        c0: modp(0 - a.c0) as u64,
        c1: modp(0 - a.c1) as u64,
    }
}

/// `(a0 + a1 X)(b0 + b1 X) = (a0 b0 + W a1 b1) + (a0 b1 + a1 b0) X`.
pub open spec fn ext_mul(a: Ext2, b: Ext2) -> Ext2 {
    Ext2 {
        c0: modp(a.c0 * b.c0 + 7 * (a.c1 * b.c1)) as u64,
        c1: modp(a.c0 * b.c1 + a.c1 * b.c0) as u64,
    }
}

/// `a^k`.
pub open spec fn ext_pow(a: Ext2, k: nat) -> Ext2
    decreases k,
{
    if k == 0 {
        ext_one()
    } else {
        ext_mul(ext_pow(a, (k - 1) as nat), a)
    }
}

/// `a` is zero in the field, whatever its encoding.
pub open spec fn ext_is_zero_spec(a: Ext2) -> bool {
    modp(a.c0 as int) == 0 && modp(a.c1 as int) == 0
}

// ---------------------------------------------------------------------------
// Facts about reduction modulo P
// ---------------------------------------------------------------------------

pub proof fn lemma_modp_range(x: int)
    ensures
        0 <= modp(x) < P,
{
    lemma_mod_bound(x, P as int);
}

pub proof fn lemma_modp_idem(x: int)
    ensures
        modp(modp(x)) == modp(x),
{
    lemma_mod_twice(x, P as int);
}

pub proof fn lemma_modp_small(x: int)
    requires
        0 <= x < P,
    ensures
        modp(x) == x,
{
    lemma_small_mod(x as nat, P as nat);
}

pub proof fn lemma_cong_add(x: int, x2: int, y: int, y2: int)
    requires
        cong(x, x2),
        cong(y, y2),
    ensures
        cong(x + y, x2 + y2),
{
    lemma_add_mod_noop(x, y, P as int);
    lemma_add_mod_noop(x2, y2, P as int);
}

pub proof fn lemma_cong_sub(x: int, x2: int, y: int, y2: int)
    requires
        cong(x, x2),
        cong(y, y2),
    ensures
        cong(x - y, x2 - y2),
{
    lemma_sub_mod_noop(x, y, P as int);
    lemma_sub_mod_noop(x2, y2, P as int);
}

pub proof fn lemma_cong_mul(x: int, x2: int, y: int, y2: int)
    requires
        cong(x, x2),
        cong(y, y2),
    ensures
        cong(x * y, x2 * y2),
{
    lemma_mul_mod_noop(x, y, P as int);
    lemma_mul_mod_noop(x2, y2, P as int);
}

pub proof fn lemma_cong_modp(x: int)
    ensures
        cong(modp(x), x),
{
    lemma_modp_idem(x);
}

// ---------------------------------------------------------------------------
// Ring laws of the extension
// ---------------------------------------------------------------------------

pub proof fn lemma_ext_results_canonical(a: Ext2, b: Ext2)
    ensures
        is_canonical(ext_add(a, b)),
        is_canonical(ext_sub(a, b)),
        is_canonical(ext_neg(a)),
        is_canonical(ext_mul(a, b)),
        is_canonical(canon(a)),
        is_canonical(embed(a.c0)),
{
    lemma_modp_range(a.c0 + b.c0);
    lemma_modp_range(a.c1 + b.c1);
    lemma_modp_range(a.c0 - b.c0);
    lemma_modp_range(a.c1 - b.c1);
    lemma_modp_range(0 - a.c0);
    lemma_modp_range(0 - a.c1);
    lemma_modp_range(a.c0 * b.c0 + 7 * (a.c1 * b.c1));
    lemma_modp_range(a.c0 * b.c1 + a.c1 * b.c0);
    lemma_modp_range(a.c0 as int);
    lemma_modp_range(a.c1 as int);
}

/// Canonical elements are their own canonical representative.
pub proof fn lemma_canon_of_canonical(a: Ext2)
    requires
        is_canonical(a),
    ensures
        canon(a) == a,
{
    lemma_modp_small(a.c0 as int);
    lemma_modp_small(a.c1 as int);
}

/// Two elements with congruent coordinates are the same field element.
pub proof fn lemma_ext_eq_from_cong(a: Ext2, b: Ext2)
    requires
        is_canonical(a),
        is_canonical(b),
        cong(a.c0 as int, b.c0 as int),
        cong(a.c1 as int, b.c1 as int),
    ensures
        a == b,
{
    lemma_modp_small(a.c0 as int);
    lemma_modp_small(a.c1 as int);
    lemma_modp_small(b.c0 as int);
    lemma_modp_small(b.c1 as int);
}

pub proof fn lemma_ext_add_comm(a: Ext2, b: Ext2)
    ensures
        ext_add(a, b) == ext_add(b, a),
{
}

pub proof fn lemma_ext_mul_comm(a: Ext2, b: Ext2)
    ensures
        ext_mul(a, b) == ext_mul(b, a),
{
    assert(a.c0 * b.c0 + 7 * (a.c1 * b.c1) == b.c0 * a.c0 + 7 * (b.c1 * a.c1)) by (nonlinear_arith);
    assert(a.c0 * b.c1 + a.c1 * b.c0 == b.c0 * a.c1 + b.c1 * a.c0) by (nonlinear_arith);
}

/// Operations only see their operands modulo `P`.
pub proof fn lemma_ext_ops_canon(a: Ext2, b: Ext2)
    ensures
        ext_add(canon(a), b) == ext_add(a, b),
        ext_add(a, canon(b)) == ext_add(a, b),
        ext_mul(canon(a), b) == ext_mul(a, b),
        ext_mul(a, canon(b)) == ext_mul(a, b),
        ext_sub(canon(a), b) == ext_sub(a, b),
        ext_sub(a, canon(b)) == ext_sub(a, b),
        ext_neg(canon(a)) == ext_neg(a),
{
    let ca = canon(a);
    let cb = canon(b);
    lemma_modp_range(a.c0 as int);
    lemma_modp_range(a.c1 as int);
    lemma_modp_range(b.c0 as int);
    lemma_modp_range(b.c1 as int);
    lemma_cong_modp(a.c0 as int);
    lemma_cong_modp(a.c1 as int);
    lemma_cong_modp(b.c0 as int);
    lemma_cong_modp(b.c1 as int);
    assert(cong(ca.c0 as int, a.c0 as int));
    assert(cong(ca.c1 as int, a.c1 as int));
    assert(cong(cb.c0 as int, b.c0 as int));
    assert(cong(cb.c1 as int, b.c1 as int));
    lemma_cong_add(ca.c0 as int, a.c0 as int, b.c0 as int, b.c0 as int);
    lemma_cong_add(ca.c1 as int, a.c1 as int, b.c1 as int, b.c1 as int);
    lemma_cong_add(a.c0 as int, a.c0 as int, cb.c0 as int, b.c0 as int);
    lemma_cong_add(a.c1 as int, a.c1 as int, cb.c1 as int, b.c1 as int);
    lemma_cong_sub(ca.c0 as int, a.c0 as int, b.c0 as int, b.c0 as int);
    lemma_cong_sub(ca.c1 as int, a.c1 as int, b.c1 as int, b.c1 as int);
    lemma_cong_sub(a.c0 as int, a.c0 as int, cb.c0 as int, b.c0 as int);
    lemma_cong_sub(a.c1 as int, a.c1 as int, cb.c1 as int, b.c1 as int);
    lemma_cong_sub(0, 0, ca.c0 as int, a.c0 as int);
    lemma_cong_sub(0, 0, ca.c1 as int, a.c1 as int);
    lemma_ext_mul_cong(ca, a, b, b);
    lemma_ext_mul_cong(a, a, cb, b);
}

/// Multiplication respects congruence of coordinates.
pub proof fn lemma_ext_mul_cong(a: Ext2, a2: Ext2, b: Ext2, b2: Ext2)
    requires
        cong(a.c0 as int, a2.c0 as int),
        cong(a.c1 as int, a2.c1 as int),
        cong(b.c0 as int, b2.c0 as int),
        cong(b.c1 as int, b2.c1 as int),
    ensures
        ext_mul(a, b) == ext_mul(a2, b2),
{
    lemma_cong_mul(a.c0 as int, a2.c0 as int, b.c0 as int, b2.c0 as int);
    lemma_cong_mul(a.c1 as int, a2.c1 as int, b.c1 as int, b2.c1 as int);
    lemma_cong_mul(7, 7, a.c1 * b.c1, a2.c1 * b2.c1);
    lemma_cong_add(a.c0 * b.c0, a2.c0 * b2.c0, 7 * (a.c1 * b.c1), 7 * (a2.c1 * b2.c1));
    lemma_cong_mul(a.c0 as int, a2.c0 as int, b.c1 as int, b2.c1 as int);
    lemma_cong_mul(a.c1 as int, a2.c1 as int, b.c0 as int, b2.c0 as int);
    lemma_cong_add(a.c0 * b.c1, a2.c0 * b2.c1, a.c1 * b.c0, a2.c1 * b2.c0);
}

pub proof fn lemma_ext_add_assoc(a: Ext2, b: Ext2, c: Ext2)
    ensures
        ext_add(ext_add(a, b), c) == ext_add(a, ext_add(b, c)),
{
    let ab = ext_add(a, b);
    let bc = ext_add(b, c);
    lemma_cong_modp(a.c0 + b.c0);
    lemma_cong_modp(a.c1 + b.c1);
    lemma_cong_modp(b.c0 + c.c0);
    lemma_cong_modp(b.c1 + c.c1);
    lemma_modp_range(a.c0 + b.c0);
    lemma_modp_range(a.c1 + b.c1);
    lemma_modp_range(b.c0 + c.c0);
    lemma_modp_range(b.c1 + c.c1);
    lemma_cong_add(ab.c0 as int, a.c0 + b.c0, c.c0 as int, c.c0 as int);
    lemma_cong_add(ab.c1 as int, a.c1 + b.c1, c.c1 as int, c.c1 as int);
    lemma_cong_add(a.c0 as int, a.c0 as int, bc.c0 as int, b.c0 + c.c0);
    lemma_cong_add(a.c1 as int, a.c1 as int, bc.c1 as int, b.c1 + c.c1);
    assert(a.c0 + b.c0 + c.c0 == a.c0 + (b.c0 + c.c0));
    assert(a.c1 + b.c1 + c.c1 == a.c1 + (b.c1 + c.c1));
}

/// The polynomial identities behind associativity of the extension product.
proof fn lemma_assoc_identities(a0: int, a1: int, b0: int, b1: int, c0: int, c1: int)
    ensures
        (a0 * b0 + 7 * (a1 * b1)) * c0 + 7 * ((a0 * b1 + a1 * b0) * c1)
            == a0 * (b0 * c0 + 7 * (b1 * c1)) + 7 * (a1 * (b0 * c1 + b1 * c0)),
        (a0 * b0 + 7 * (a1 * b1)) * c1 + (a0 * b1 + a1 * b0) * c0
            == a0 * (b0 * c1 + b1 * c0) + a1 * (b0 * c0 + 7 * (b1 * c1)),
{
    let t000 = a0 * b0 * c0;
    let t011 = a0 * b1 * c1;
    let t101 = a1 * b0 * c1;
    let t110 = a1 * b1 * c0;
    let t001 = a0 * b0 * c1;
    let t010 = a0 * b1 * c0;
    let t100 = a1 * b0 * c0;
    let t111 = a1 * b1 * c1;
    assert((a0 * b0 + 7 * (a1 * b1)) * c0 == t000 + 7 * t110) by (nonlinear_arith)
        requires t000 == a0 * b0 * c0, t110 == a1 * b1 * c0;
    assert((a0 * b1 + a1 * b0) * c1 == t011 + t101) by (nonlinear_arith)
        requires t011 == a0 * b1 * c1, t101 == a1 * b0 * c1;
    assert(a0 * (b0 * c0 + 7 * (b1 * c1)) == t000 + 7 * t011) by (nonlinear_arith)
        requires t000 == a0 * b0 * c0, t011 == a0 * b1 * c1;
    assert(a1 * (b0 * c1 + b1 * c0) == t101 + t110) by (nonlinear_arith)
        requires t101 == a1 * b0 * c1, t110 == a1 * b1 * c0;
    assert((a0 * b0 + 7 * (a1 * b1)) * c1 == t001 + 7 * t111) by (nonlinear_arith)
        requires t001 == a0 * b0 * c1, t111 == a1 * b1 * c1;
    assert((a0 * b1 + a1 * b0) * c0 == t010 + t100) by (nonlinear_arith)
        requires t010 == a0 * b1 * c0, t100 == a1 * b0 * c0;
    assert(a0 * (b0 * c1 + b1 * c0) == t001 + t010) by (nonlinear_arith)
        requires t001 == a0 * b0 * c1, t010 == a0 * b1 * c0;
    assert(a1 * (b0 * c0 + 7 * (b1 * c1)) == t100 + 7 * t111) by (nonlinear_arith)
        requires t100 == a1 * b0 * c0, t111 == a1 * b1 * c1;
}

pub proof fn lemma_ext_mul_assoc(a: Ext2, b: Ext2, c: Ext2)
    ensures
        ext_mul(ext_mul(a, b), c) == ext_mul(a, ext_mul(b, c)),
{
    let ab = ext_mul(a, b);
    let bc = ext_mul(b, c);
    let (a0, a1, b0, b1, c0, c1) = (a.c0 as int, a.c1 as int, b.c0 as int, b.c1 as int, c.c0 as int, c.c1 as int);
    let x0 = a0 * b0 + 7 * (a1 * b1);
    let x1 = a0 * b1 + a1 * b0;
    let y0 = b0 * c0 + 7 * (b1 * c1);
    let y1 = b0 * c1 + b1 * c0;
    lemma_modp_range(x0);
    lemma_modp_range(x1);
    lemma_modp_range(y0);
    lemma_modp_range(y1);
    lemma_cong_modp(x0);
    lemma_cong_modp(x1);
    lemma_cong_modp(y0);
    lemma_cong_modp(y1);
    // (ab) c computed on unreduced coordinates
    lemma_cong_mul(ab.c0 as int, x0, c0, c0);
    lemma_cong_mul(ab.c1 as int, x1, c1, c1);
    lemma_cong_mul(7, 7, ab.c1 * c1, x1 * c1);
    lemma_cong_add(ab.c0 * c0, x0 * c0, 7 * (ab.c1 * c1), 7 * (x1 * c1));
    lemma_cong_mul(ab.c0 as int, x0, c1, c1);
    lemma_cong_mul(ab.c1 as int, x1, c0, c0);
    lemma_cong_add(ab.c0 * c1, x0 * c1, ab.c1 * c0, x1 * c0);
    // a (bc) computed on unreduced coordinates
    lemma_cong_mul(a0, a0, bc.c0 as int, y0);
    lemma_cong_mul(a1, a1, bc.c1 as int, y1);
    lemma_cong_mul(7, 7, a1 * bc.c1, a1 * y1);
    lemma_cong_add(a0 * bc.c0, a0 * y0, 7 * (a1 * bc.c1), 7 * (a1 * y1));
    lemma_cong_mul(a0, a0, bc.c1 as int, y1);
    lemma_cong_mul(a1, a1, bc.c0 as int, y0);
    lemma_cong_add(a0 * bc.c1, a0 * y1, a1 * bc.c0, a1 * y0);
    lemma_assoc_identities(a0, a1, b0, b1, c0, c1);
    let lhs = ext_mul(ab, c);
    let rhs = ext_mul(a, bc);
    lemma_ext_results_canonical(ab, c);
    lemma_ext_results_canonical(a, bc);
    lemma_ext_eq_from_cong(lhs, rhs);
}

/// Multiplication distributes over addition.
pub proof fn lemma_ext_mul_distrib(a: Ext2, b: Ext2, c: Ext2)
    ensures
        ext_mul(ext_add(a, b), c) == ext_add(ext_mul(a, c), ext_mul(b, c)),
{
    let s = ext_add(a, b);
    let ac = ext_mul(a, c);
    let bc = ext_mul(b, c);
    let (a0, a1, b0, b1, c0, c1) = (a.c0 as int, a.c1 as int, b.c0 as int, b.c1 as int, c.c0 as int, c.c1 as int);
    lemma_cong_modp(a0 + b0);
    lemma_cong_modp(a1 + b1);
    lemma_modp_range(a0 + b0);
    lemma_modp_range(a1 + b1);
    // left side on unreduced coordinates
    lemma_cong_mul(s.c0 as int, a0 + b0, c0, c0);
    lemma_cong_mul(s.c1 as int, a1 + b1, c1, c1);
    lemma_cong_mul(7, 7, s.c1 * c1, (a1 + b1) * c1);
    lemma_cong_add(s.c0 * c0, (a0 + b0) * c0, 7 * (s.c1 * c1), 7 * ((a1 + b1) * c1));
    lemma_cong_mul(s.c0 as int, a0 + b0, c1, c1);
    lemma_cong_mul(s.c1 as int, a1 + b1, c0, c0);
    lemma_cong_add(s.c0 * c1, (a0 + b0) * c1, s.c1 * c0, (a1 + b1) * c0);
    // right side on unreduced coordinates
    let u0 = a0 * c0 + 7 * (a1 * c1);
    let u1 = a0 * c1 + a1 * c0;
    let v0 = b0 * c0 + 7 * (b1 * c1);
    let v1 = b0 * c1 + b1 * c0;
    lemma_cong_modp(u0);
    lemma_cong_modp(u1);
    lemma_cong_modp(v0);
    lemma_cong_modp(v1);
    lemma_cong_add(ac.c0 as int, u0, bc.c0 as int, v0);
    lemma_cong_add(ac.c1 as int, u1, bc.c1 as int, v1);
    assert((a0 + b0) * c0 + 7 * ((a1 + b1) * c1) == u0 + v0) by (nonlinear_arith)
        requires
            u0 == a0 * c0 + 7 * (a1 * c1),
            v0 == b0 * c0 + 7 * (b1 * c1),
    ;
    assert((a0 + b0) * c1 + (a1 + b1) * c0 == u1 + v1) by (nonlinear_arith)
        requires
            u1 == a0 * c1 + a1 * c0,
            v1 == b0 * c1 + b1 * c0,
    ;
    let lhs = ext_mul(s, c);
    let rhs = ext_add(ac, bc);
    lemma_ext_results_canonical(s, c);
    lemma_ext_results_canonical(ac, bc);
    lemma_ext_eq_from_cong(lhs, rhs);
}

pub proof fn lemma_ext_mul_one(a: Ext2)
    ensures
        ext_mul(ext_one(), a) == canon(a),
        ext_mul(a, ext_one()) == canon(a),
{
    lemma_ext_mul_comm(a, ext_one());
    assert(1 * a.c0 + 7 * (0 * a.c1) == a.c0) by (nonlinear_arith);
    assert(1 * a.c1 + 0 * a.c0 == a.c1) by (nonlinear_arith);
}

pub proof fn lemma_ext_mul_zero(a: Ext2)
    ensures
        ext_mul(ext_zero(), a) == ext_zero(),
        ext_mul(a, ext_zero()) == ext_zero(),
{
    lemma_ext_mul_comm(a, ext_zero());
    assert(0 * a.c0 + 7 * (0 * a.c1) == 0) by (nonlinear_arith);
    assert(0 * a.c1 + 0 * a.c0 == 0) by (nonlinear_arith);
}

pub proof fn lemma_ext_add_zero(a: Ext2)
    ensures
        ext_add(ext_zero(), a) == canon(a),
        ext_add(a, ext_zero()) == canon(a),
{
}

/// Subtraction undoes addition and addition undoes subtraction; a negation
/// adds to zero.
pub proof fn lemma_ext_sub_add_inverse(a: Ext2, b: Ext2)
    ensures
        ext_add(ext_sub(a, b), b) == canon(a),
        ext_sub(ext_add(a, b), b) == canon(a),
        ext_add(ext_neg(a), a) == ext_zero(),
{
    let d = ext_sub(a, b);
    let s = ext_add(a, b);
    let n = ext_neg(a);
    lemma_modp_range(a.c0 - b.c0);
    lemma_modp_range(a.c1 - b.c1);
    lemma_modp_range(a.c0 + b.c0);
    lemma_modp_range(a.c1 + b.c1);
    lemma_modp_range(0 - a.c0);
    lemma_modp_range(0 - a.c1);
    lemma_cong_modp(a.c0 - b.c0);
    lemma_cong_modp(a.c1 - b.c1);
    lemma_cong_modp(a.c0 + b.c0);
    lemma_cong_modp(a.c1 + b.c1);
    lemma_cong_modp(0 - a.c0);
    lemma_cong_modp(0 - a.c1);
    lemma_cong_add(d.c0 as int, a.c0 - b.c0, b.c0 as int, b.c0 as int);
    lemma_cong_add(d.c1 as int, a.c1 - b.c1, b.c1 as int, b.c1 as int);
    lemma_cong_sub(s.c0 as int, a.c0 + b.c0, b.c0 as int, b.c0 as int);
    lemma_cong_sub(s.c1 as int, a.c1 + b.c1, b.c1 as int, b.c1 as int);
    lemma_cong_add(n.c0 as int, 0 - a.c0, a.c0 as int, a.c0 as int);
    lemma_cong_add(n.c1 as int, 0 - a.c1, a.c1 as int, a.c1 as int);
    assert(d.c0 + b.c0 == (d.c0 + b.c0) as int);
    assert((a.c0 - b.c0) + b.c0 == a.c0 as int);
    assert((a.c1 - b.c1) + b.c1 == a.c1 as int);
    assert((a.c0 + b.c0) - b.c0 == a.c0 as int);
    assert((a.c1 + b.c1) - b.c1 == a.c1 as int);
    assert((0 - a.c0) + a.c0 == 0);
    assert((0 - a.c1) + a.c1 == 0);
    lemma_modp_small(0);
}

/// The generator squares to the non-residue `W = 7`: `X * X = 7`; and a base
/// element times `X` moves to the `X` coordinate.
pub proof fn lemma_ext_x_squared(c: u64)
    ensures
        ext_mul(ext_x(), ext_x()) == embed(7),
        ext_mul(embed(c), ext_x()) == (Ext2 { c0: 0, c1: modp(c as int) as u64 }),
{
    assert(0 * 0 + 7 * (1 * 1) == 7) by (nonlinear_arith);
    assert(0 * 1 + 1 * 0 == 0) by (nonlinear_arith);
    let m = modp(c as int);
    lemma_modp_range(c as int);
    assert(m * 0 + 7 * (0 * 1) == 0) by (nonlinear_arith);
    assert(m * 1 + 0 * 0 == m) by (nonlinear_arith);
    lemma_modp_small(0);
    lemma_modp_small(7);
    lemma_modp_idem(c as int);
}

/// Powers are canonical.
pub proof fn lemma_ext_pow_canonical(a: Ext2, k: nat)
    ensures
        is_canonical(ext_pow(a, k)),
    decreases k,
{
    if k > 0 {
        lemma_ext_pow_canonical(a, (k - 1) as nat);
        lemma_ext_results_canonical(ext_pow(a, (k - 1) as nat), a);
    }
}

// ---------------------------------------------------------------------------
// Executable arithmetic
// ---------------------------------------------------------------------------

/// Reduces a `u128` modulo `P`.
fn reduce128(x: u128) -> (r: u64)
    ensures
        r as int == modp(x as int),
        r < P,
{
    proof {
        lemma_modp_range(x as int);
    }
    (x % (P as u128)) as u64
}

/// The canonical representative of a base-field element.
pub fn gl_reduce(x: u64) -> (r: u64)
    ensures
        r as int == modp(x as int),
        r < P,
{
    reduce128(x as u128)
}

/// Base-field addition.
pub fn gl_add(a: u64, b: u64) -> (r: u64)
    ensures
        r as int == modp(a + b),
        r < P,
{
    reduce128(a as u128 + b as u128)
}

/// Base-field subtraction.
pub fn gl_sub(a: u64, b: u64) -> (r: u64)
    ensures
        r as int == modp(a - b),
        r < P,
{
    let ra = gl_reduce(a);
    let rb = gl_reduce(b);
    proof {
        lemma_cong_modp(a as int);
        lemma_cong_modp(b as int);
        lemma_cong_sub(ra as int, a as int, rb as int, b as int);
        lemma_cong_modp(ra + P - rb);
        assert(cong(ra + P - rb, ra - rb)) by {
            lemma_cong_add(ra - rb, ra - rb, P as int, 0);
        }
    }
    reduce128(ra as u128 + (P as u128) - rb as u128)
}

/// Base-field multiplication.
pub fn gl_mul(a: u64, b: u64) -> (r: u64)
    ensures
        r as int == modp(a * b),
        r < P,
{
    proof {
        assert(a * b <= 0xFFFF_FFFF_FFFF_FFFFu64 * 0xFFFF_FFFF_FFFF_FFFFu64) by (nonlinear_arith)
            requires a <= 0xFFFF_FFFF_FFFF_FFFFu64, b <= 0xFFFF_FFFF_FFFF_FFFFu64;
    }
    reduce128(a as u128 * b as u128)
}

impl Ext2 {
    /// The zero element.
    pub fn zero() -> (r: Ext2)
        ensures
            r == ext_zero(),
    {
        Ext2 { c0: 0, c1: 0 }
    }

    /// The one element.
    pub fn one() -> (r: Ext2)
        ensures
            r == ext_one(),
    {
        Ext2 { c0: 1, c1: 0 }
    }

    /// Embeds a base-field element.
    pub fn from_base(x: u64) -> (r: Ext2)
        ensures
            r == embed(x),
    {
        Ext2 { c0: gl_reduce(x), c1: 0 }
    }

    /// Builds an element from its two basis coefficients.
    pub fn from_coefficients(c0: u64, c1: u64) -> (r: Ext2)
        ensures
            r == canon(Ext2 { c0, c1 }),
    {
        Ext2 { c0: gl_reduce(c0), c1: gl_reduce(c1) }
    }

    /// The canonical representative of `self`.
    pub fn reduce(&self) -> (r: Ext2)
        ensures
            r == canon(*self),
    {
        Ext2 { c0: gl_reduce(self.c0), c1: gl_reduce(self.c1) }
    }

    /// Field addition.
    pub fn add(&self, other: &Ext2) -> (r: Ext2)
        ensures
            r == ext_add(*self, *other),
    {
        Ext2 { c0: gl_add(self.c0, other.c0), c1: gl_add(self.c1, other.c1) }
    }

    /// Field subtraction.
    pub fn sub(&self, other: &Ext2) -> (r: Ext2)
        ensures
            r == ext_sub(*self, *other),
    {
        Ext2 { c0: gl_sub(self.c0, other.c0), c1: gl_sub(self.c1, other.c1) }
    }

    /// Additive inverse.
    pub fn neg(&self) -> (r: Ext2)
        ensures
            r == ext_neg(*self),
    {
        Ext2 { c0: gl_sub(0, self.c0), c1: gl_sub(0, self.c1) }
    }

    /// Field multiplication.
    pub fn mul(&self, other: &Ext2) -> (r: Ext2)
        ensures
            r == ext_mul(*self, *other),
    {
        let (a0, a1, b0, b1) = (self.c0, self.c1, other.c0, other.c1);
        let p00 = gl_mul(a0, b0);
        let p11 = gl_mul(a1, b1);
        let w11 = gl_mul(7, p11);
        let c0 = gl_add(p00, w11);
        let p01 = gl_mul(a0, b1);
        let p10 = gl_mul(a1, b0);
        let c1 = gl_add(p01, p10);
        proof {
            lemma_cong_modp(a0 * b0);
            lemma_cong_modp(a1 * b1);
            lemma_cong_modp(7 * p11);
            lemma_cong_mul(7, 7, p11 as int, a1 * b1);
            lemma_cong_add(p00 as int, a0 * b0, w11 as int, 7 * (a1 * b1));
            lemma_cong_modp(p00 + w11);
            lemma_modp_idem(a0 * b0 + 7 * (a1 * b1));
            lemma_cong_modp(a0 * b1);
            lemma_cong_modp(a1 * b0);
            lemma_cong_add(p01 as int, a0 * b1, p10 as int, a1 * b0);
            lemma_cong_modp(p01 + p10);
        }
        Ext2 { c0, c1 }
    }

    /// Whether `self` is zero in the field.
    pub fn is_zero(&self) -> (r: bool)
        ensures
            r == ext_is_zero_spec(*self),
    {
        gl_reduce(self.c0) == 0 && gl_reduce(self.c1) == 0
    }
}

} // verus!
