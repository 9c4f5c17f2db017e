//! Compressed-column and compressed-row descriptors.
//!
//! Both formats list the non-zeroes slice by slice (a column, or a row):
//! `ptr[j]..ptr[j + 1]` are the positions of slice `j` in the value and
//! index arrays, and each index names the entry's place along the other
//! dimension. A constructor checks that the buffers have that shape before
//! it takes them, because the native routines read them without bounds.

use vstd::prelude::*;
use crate::super_matrix::{c_NCformat, c_NRformat, c_SuperMatrix, Dtype_t, Mtype_t, Stype_t};

verus! {

/// `ptr` splits `nnz` entries into `major` slices, in order, and each of the
/// `nnz` indices in `idx` lies below `minor`; there are `nvals` values, one
/// for each entry.
pub open spec fn compressed_shape(
    minor: int,
    major: int,
    nnz: int,
    nvals: int,
    idx: Seq<i32>,
    ptr: Seq<i32>,
) -> bool {
    &&& minor >= 0
    &&& major >= 0
    &&& nnz >= 0
    &&& nvals == nnz
    &&& idx.len() == nnz
    &&& ptr.len() == major + 1
    &&& ptr[0] == 0
    &&& ptr[major] == nnz
    &&& forall|j: int| 0 <= j < major ==> #[trigger] ptr[j] <= ptr[j + 1]
    &&& forall|k: int| 0 <= k < nnz ==> 0 <= #[trigger] idx[k] < minor
}

fn check_compressed_shape(
    minor: i32,
    major: i32,
    nnz: i32,
    nvals: usize,
    idx: &Vec<i32>,
    ptr: &Vec<i32>,
) -> (r: bool)
    ensures
        r == compressed_shape(minor as int, major as int, nnz as int, nvals as int, idx@, ptr@),
{
    if minor < 0 || major < 0 || nnz < 0 {
        return false;
    }
    let major_u = major as usize;
    if nvals != nnz as usize || idx.len() != nnz as usize || ptr.len() != major_u + 1 {
        return false;
    }
    if ptr[0] != 0 || ptr[major_u] != nnz {
        return false;
    }
    let mut j: usize = 0;
    while j < major_u
        invariant
            0 <= j <= major_u,
            major_u == major as int,
            ptr@.len() == major + 1,
            forall|i: int| 0 <= i < j ==> #[trigger] ptr@[i] <= ptr@[i + 1],
        decreases major_u - j,
    {
        if ptr[j] > ptr[j + 1] {
            return false;
        }
        j = j + 1;
    }
    let mut k: usize = 0;
    while k < idx.len()
        invariant
            0 <= k <= idx@.len(),
            forall|i: int| 0 <= i < k ==> 0 <= #[trigger] idx@[i] < minor,
        decreases idx@.len() - k,
    {
        if idx[k] < 0 || idx[k] >= minor {
            return false;
        }
        k = k + 1;
    }
    true
}

/// The descriptor that `create_comp_col_matrix` builds from its arguments.
pub open spec fn comp_col_matrix<T>(
    m: i32,
    n: i32,
    nnz: i32,
    nzval: Vec<T>,
    rowind: Vec<i32>,
    colptr: Vec<i32>,
    dtype: Dtype_t,
    mtype: Mtype_t,
) -> c_SuperMatrix<c_NCformat<T>> {
    c_SuperMatrix {
        Stype: Stype_t::SLU_NC,
        Dtype: dtype,
        Mtype: mtype,
        nrow: m,
        ncol: n,
        Store: c_NCformat { nnz, nzval, rowind, colptr },
    }
}

/// The descriptor that `create_comp_row_matrix` builds from its arguments.
pub open spec fn comp_row_matrix<T>(
    m: i32,
    n: i32,
    nnz: i32,
    nzval: Vec<T>,
    colind: Vec<i32>,
    rowptr: Vec<i32>,
    dtype: Dtype_t,
    mtype: Mtype_t,
) -> c_SuperMatrix<c_NRformat<T>> {
    c_SuperMatrix {
        Stype: Stype_t::SLU_NR,
        Dtype: dtype,
        Mtype: mtype,
        nrow: m,
        ncol: n,
        Store: c_NRformat { nnz, nzval, colind, rowptr },
    }
}

/// Builds an `m` by `n` compressed-column descriptor of precision `dtype`
/// that takes over the three buffers. Where they do not have the
/// compressed-column shape, they come back unchanged in `Err`.
pub fn create_comp_col_matrix<T>(
    m: i32,
    n: i32,
    nnz: i32,
    nzval: Vec<T>,
    rowind: Vec<i32>,
    colptr: Vec<i32>,
    dtype: Dtype_t,
    mtype: Mtype_t,
) -> (r: Result<c_SuperMatrix<c_NCformat<T>>, (Vec<T>, Vec<i32>, Vec<i32>)>)
    ensures
        r is Ok <==> compressed_shape(
            m as int,
            n as int,
            nnz as int,
            nzval@.len() as int,
            rowind@,
            colptr@,
        ),
        r matches Ok(a) ==> a == comp_col_matrix(m, n, nnz, nzval, rowind, colptr, dtype, mtype),
        r matches Err(b) ==> b == (nzval, rowind, colptr),
{
    if check_compressed_shape(m, n, nnz, nzval.len(), &rowind, &colptr) {
        Ok(
            c_SuperMatrix {
                Stype: Stype_t::SLU_NC,
                Dtype: dtype,
                Mtype: mtype,
                nrow: m,
                ncol: n,
                Store: c_NCformat { nnz, nzval, rowind, colptr },
            },
        )
    } else {
        Err((nzval, rowind, colptr))
    }
}

/// Builds an `m` by `n` compressed-row descriptor of precision `dtype`
/// that takes over the three buffers. Where they do not have the
/// compressed-row shape, they come back unchanged in `Err`.
pub fn create_comp_row_matrix<T>(
    m: i32,
    n: i32,
    nnz: i32,
    nzval: Vec<T>,
    colind: Vec<i32>,
    rowptr: Vec<i32>,
    dtype: Dtype_t,
    mtype: Mtype_t,
) -> (r: Result<c_SuperMatrix<c_NRformat<T>>, (Vec<T>, Vec<i32>, Vec<i32>)>)
    ensures
        r is Ok <==> compressed_shape(
            n as int,
            m as int,
            nnz as int,
            nzval@.len() as int,
            colind@,
            rowptr@,
        ),
        r matches Ok(a) ==> a == comp_row_matrix(m, n, nnz, nzval, colind, rowptr, dtype, mtype),
        r matches Err(b) ==> b == (nzval, colind, rowptr),
{
    if check_compressed_shape(n, m, nnz, nzval.len(), &colind, &rowptr) {
        Ok(
            c_SuperMatrix {
                Stype: Stype_t::SLU_NR,
                Dtype: dtype,
                Mtype: mtype,
                nrow: m,
                ncol: n,
                Store: c_NRformat { nnz, nzval, colind, rowptr },
            },
        )
    } else {
        Err((nzval, colind, rowptr))
    }
}

/// Deallocates the descriptor together with the three buffers it took over.
pub fn c_Destroy_CompCol_Matrix<T>(A: c_SuperMatrix<c_NCformat<T>>) {
    // The descriptor is consumed here, and its buffers are freed with it.
    let _consumed = A;
}

/// Deallocates the descriptor together with the three buffers it took over.
pub fn c_Destroy_CompRow_Matrix<T>(A: c_SuperMatrix<c_NRformat<T>>) {
    // The descriptor is consumed here, and its buffers are freed with it.
    let _consumed = A;
}

/// Building a compressed-column descriptor and then destroying only its
/// store gives the caller back the buffers it handed over, of the same
/// length and content, for every precision.
pub proof fn comp_col_store_only_destroy_keeps_buffers<T>(
    m: i32,
    n: i32,
    nnz: i32,
    nzval: Vec<T>,
    rowind: Vec<i32>,
    colptr: Vec<i32>,
    dtype: Dtype_t,
    mtype: Mtype_t,
)
    ensures
        ({
            let store = comp_col_matrix(m, n, nnz, nzval, rowind, colptr, dtype, mtype).Store;
            &&& store.nzval@ == nzval@
            &&& store.rowind@ == rowind@
            &&& store.colptr@ == colptr@
        }),
{
}

/// Building a compressed-row descriptor and then destroying only its store
/// gives the caller back the buffers it handed over, of the same length and
/// content, for every precision.
pub proof fn comp_row_store_only_destroy_keeps_buffers<T>(
    m: i32,
    n: i32,
    nnz: i32,
    nzval: Vec<T>,
    colind: Vec<i32>,
    rowptr: Vec<i32>,
    dtype: Dtype_t,
    mtype: Mtype_t,
)
    ensures
        ({
            let store = comp_row_matrix(m, n, nnz, nzval, colind, rowptr, dtype, mtype).Store;
            &&& store.nzval@ == nzval@
            &&& store.colind@ == colind@
            &&& store.rowptr@ == rowptr@
        }),
{
}

} // verus!
