//! Conversions between flattened base-field rows and extension elements, and
//! the ceiling logarithm of `p3_util`.
use vstd::arithmetic::power2::pow2;
use vstd::prelude::*;

use crate::field::{
    canon, ext_add, ext_mul, ext_x, lemma_modp_idem, lemma_modp_range, modp, Ext2,
};

verus! {

/// `r` is the ceiling of `log2(n)`: the least `r` with `n <= 2^r`.
pub open spec fn is_log2_ceil(n: nat, r: nat) -> bool {
    &&& n <= pow2(r)
    &&& r > 0 ==> pow2((r - 1) as nat) < n
}

/// Calls `p3_util::log2_ceil_usize`, which computes
/// `usize::BITS - (n - 1).leading_zeros()` with `n - 1` saturated at zero: the
/// least `r` with `n <= 2^r` (zero for `n` zero or one), at most 64.
#[verifier::external_body]
pub(crate) fn log2_ceil(n: usize) -> (r: usize)
    ensures
        r <= 64,
        is_log2_ceil(n as nat, r as nat),
{
    p3_util::log2_ceil_usize(n)
}

/// A base-field value as an extension element (not reduced).
pub open spec fn lift(x: u64) -> Ext2 {
    Ext2 { c0: x, c1: 0 }
}

/// Base-field values as extension elements.
pub open spec fn lift_seq(s: Seq<u64>) -> Seq<Ext2> {
    Seq::new(s.len(), |i: int| lift(s[i]))
}

/// The extension element whose basis coefficients are the two limbs, in
/// canonical form.
pub open spec fn from_limbs(c0: u64, c1: u64) -> Ext2 {
    canon(Ext2 { c0, c1 })
}

/// A flattened row of base-field coefficients read as extension elements,
/// two coefficients per element.
pub open spec fn coefficients_to_ext(row: Seq<u64>) -> Seq<Ext2> {
    Seq::new(row.len() / 2, |j: int| from_limbs(row[2 * j], row[2 * j + 1]))
}

/// A row of extension limbs recombined two at a time over the basis `(1, X)`:
/// `l0 * 1 + l1 * X`.
pub open spec fn limbs_to_ext(row: Seq<Ext2>) -> Seq<Ext2> {
    Seq::new(
        row.len() / 2,
        |j: int| ext_add(ext_mul(Ext2 { c0: 1, c1: 0 }, row[2 * j]), ext_mul(ext_x(), row[2 * j + 1])),
    )
}

/// Reads a flattened base-field row (slice of coefficients) as extension
/// elements, two coefficients per element. The row must hold whole elements.
pub fn prover_row_to_ext(row: &[u64]) -> (r: Vec<Ext2>)
    requires
        row@.len() % 2 == 0,
    ensures
        r@ == coefficients_to_ext(row@),
{
    let n = row.len() / 2;
    let mut out: Vec<Ext2> = Vec::new();
    let mut j: usize = 0;
    while j < n
        invariant
            n == row@.len() / 2,
            j <= n,
            out@ == coefficients_to_ext(row@).take(j as int),
        decreases n - j,
    {
        assert(2 * j + 1 < row.len());
        let e = Ext2::from_coefficients(row[2 * j], row[2 * j + 1]);
        out.push(e);
        j = j + 1;
        assert(out@ =~= coefficients_to_ext(row@).take(j as int));
    }
    assert(out@ =~= coefficients_to_ext(row@));
    out
}

/// Reassembles extension elements from a row of extension limbs, two limbs per
/// element, as `l0 * 1 + l1 * X`; `None` when the row does not hold a whole
/// number of elements.
pub fn verifier_row_to_ext(row: &[Ext2]) -> (r: Option<Vec<Ext2>>)
    ensures
        row@.len() % 2 != 0 ==> r.is_none(),
        row@.len() % 2 == 0 ==> r.is_some() && r.unwrap()@ == limbs_to_ext(row@),
{
    let dim: usize = 2;
    if row.len() % dim != 0 {
        return None;
    }
    let n = row.len() / dim;
    let basis0 = Ext2::one();
    let basis1 = Ext2 { c0: 0, c1: 1 };
    let mut out: Vec<Ext2> = Vec::new();
    let mut j: usize = 0;
    while j < n
        invariant
            n == row@.len() / 2,
            row@.len() % 2 == 0,
            j <= n,
            basis0 == (Ext2 { c0: 1, c1: 0 }),
            basis1 == ext_x(),
            out@ == limbs_to_ext(row@).take(j as int),
        decreases n - j,
    {
        assert(2 * j + 1 < row.len());
        let t0 = basis0.mul(&row[2 * j]);
        let t1 = basis1.mul(&row[2 * j + 1]);
        let acc = t0.add(&t1);
        out.push(acc);
        j = j + 1;
        assert(out@ =~= limbs_to_ext(row@).take(j as int));
    }
    assert(out@ =~= limbs_to_ext(row@));
    Some(out)
}

/// The two conversions agree: recombining base-field coefficients (lifted
/// into the extension) over the basis `(1, X)` gives the element those
/// coefficients describe.
pub proof fn lemma_row_conversions_agree(row: Seq<u64>)
    requires
        row.len() % 2 == 0,
    ensures
        limbs_to_ext(lift_seq(row)).len() == coefficients_to_ext(row).len(),
        forall|j: int|
            0 <= j < coefficients_to_ext(row).len() ==> #[trigger] limbs_to_ext(lift_seq(row))[j]
                == coefficients_to_ext(row)[j],
{
    assert forall|j: int| 0 <= j < coefficients_to_ext(row).len() implies #[trigger] limbs_to_ext(
        lift_seq(row),
    )[j] == coefficients_to_ext(row)[j] by {
        let r0 = row[2 * j];
        let r1 = row[2 * j + 1];
        let a = ext_mul(Ext2 { c0: 1, c1: 0 }, lift(r0));
        let b = ext_mul(ext_x(), lift(r1));
        assert(1 * (r0 as int) + 7 * (0 * 0) == r0 as int) by (nonlinear_arith);
        assert(1 * 0 + 0 * (r0 as int) == 0) by (nonlinear_arith);
        assert(0 * (r1 as int) + 7 * (1 * 0) == 0) by (nonlinear_arith);
        assert(0 * 0 + 1 * (r1 as int) == r1 as int) by (nonlinear_arith);
        lemma_modp_range(r0 as int);
        lemma_modp_range(r1 as int);
        lemma_modp_idem(r0 as int);
        lemma_modp_idem(r1 as int);
        assert(a == Ext2 { c0: modp(r0 as int) as u64, c1: 0 });
        assert(b == Ext2 { c0: 0, c1: modp(r1 as int) as u64 });
    }
}

} // verus!
