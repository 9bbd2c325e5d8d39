//! The row-major matrices of `p3_matrix`, as the library sees them.
//!
//! A `RowMajorMatrix` is a flat vector of values and a width. Its fields are
//! read through the wrappers below; the contents and the width are named by
//! spec functions that the wrappers' contracts speak of.
use p3_matrix::dense::{DenseMatrix, RowMajorMatrix};
use vstd::prelude::*;

use crate::symbolic::SymbolicVariable;

verus! {

#[verifier::external_type_specification]
#[verifier::external_body]
#[verifier::reject_recursive_types(T)]
#[verifier::reject_recursive_types(V)]
pub struct ExDenseMatrix<T, V>(DenseMatrix<T, V>);

/// The flat, row-major values of a trace matrix.
pub uninterp spec fn trace_values(m: RowMajorMatrix<u64>) -> Seq<u64>;

/// The width (number of columns) of a trace matrix.
pub uninterp spec fn trace_width(m: RowMajorMatrix<u64>) -> nat;

/// The flat, row-major values of a matrix of symbolic variables.
pub uninterp spec fn variable_values(m: RowMajorMatrix<SymbolicVariable>) -> Seq<SymbolicVariable>;

/// The width (number of columns) of a matrix of symbolic variables.
pub uninterp spec fn variable_width(m: RowMajorMatrix<SymbolicVariable>) -> nat;

/// The number of rows of a matrix with `len` values and `width` columns, as
/// `p3_matrix` counts them (zero when the width is zero).
pub open spec fn height_of(len: nat, width: nat) -> nat {
    if width == 0 {
        0
    } else {
        len / width
    }
}

/// Reads the `width` field of a `p3_matrix` trace matrix.
#[verifier::external_body]
pub(crate) fn trace_matrix_width(m: &RowMajorMatrix<u64>) -> (r: usize)
    ensures
        r == trace_width(*m),
{
    m.width
}

/// Reads the `values` field of a `p3_matrix` trace matrix.
#[verifier::external_body]
pub(crate) fn trace_matrix_values(m: &RowMajorMatrix<u64>) -> (r: &Vec<u64>)
    ensures
        r@ == trace_values(*m),
{
    &m.values
}

/// Builds a `p3_matrix` matrix of symbolic variables with `RowMajorMatrix::new`,
/// which keeps the given values and width. In debug builds `new` asserts that
/// the length is a multiple of the width, hence the precondition.
#[verifier::external_body]
pub(crate) fn variable_matrix(values: Vec<SymbolicVariable>, width: usize) -> (m: RowMajorMatrix<SymbolicVariable>)
    requires
        width == 0 ==> values.len() == 0,
        width > 0 ==> values.len() % width == 0,
    ensures
        variable_values(m) == values@,
        variable_width(m) == width,
{
    RowMajorMatrix::new(values, width)
}

} // verus!
