//! Matrix descriptors.
//!
//! A descriptor carries three tags (storage format, precision and
//! mathematical properties), the matrix dimensions, and the store that
//! holds the entries in the layout the storage format names.
//!
//! The native library receives each tag as a plain integer, so the order of
//! the variants below is part of the interface: `code` gives the integer
//! each variant stands for, and `to_c_int` hands it out.

use vstd::prelude::*;

verus! {

/// The matrix numerical type and floating-point precision.
#[derive(Clone, Copy, Debug, PartialEq, Eq, Structural)]
pub enum Dtype_t {
    /// Single-precision real
    SLU_S,
    /// Double-precision real
    SLU_D,
    /// Single-precision complex
    SLU_C,
    /// Double-precision complex
    SLU_Z,
}

impl Dtype_t {
    /// The integer by which the native library knows this precision.
    pub open spec fn code(self) -> int {
        match self {
            Dtype_t::SLU_S => 0,
            Dtype_t::SLU_D => 1,
            Dtype_t::SLU_C => 2,
            Dtype_t::SLU_Z => 3,
        }
    }

    pub fn to_c_int(&self) -> (r: i32)
        ensures
            r as int == self.code(),
    {
        match self {
            Dtype_t::SLU_S => 0,
            Dtype_t::SLU_D => 1,
            Dtype_t::SLU_C => 2,
            Dtype_t::SLU_Z => 3,
        }
    }
}

/// Specifies some mathematical properties of the matrix.
#[derive(Clone, Copy, Debug, PartialEq, Eq, Structural)]
pub enum Mtype_t {
    /// General matrix
    SLU_GE,
    /// Lower-triangular, unit diagonal
    SLU_TRLU,
    /// Upper-triangular, unit diagonal
    SLU_TRUU,
    /// Lower-triangular
    SLU_TRL,
    /// Upper-triangular
    SLU_TRU,
    /// Symmetric, store lower half
    SLU_SYL,
    /// Symmetric, store upper half
    SLU_SYU,
    /// Hermitian, store lower half
    SLU_HEL,
    /// Hermitian, store upper half
    SLU_HEU,
}

impl Mtype_t {
    /// The integer by which the native library knows this property.
    pub open spec fn code(self) -> int {
        match self {
            Mtype_t::SLU_GE => 0,
            Mtype_t::SLU_TRLU => 1,
            Mtype_t::SLU_TRUU => 2,
            Mtype_t::SLU_TRL => 3,
            Mtype_t::SLU_TRU => 4,
            Mtype_t::SLU_SYL => 5,
            Mtype_t::SLU_SYU => 6,
            Mtype_t::SLU_HEL => 7,
            Mtype_t::SLU_HEU => 8,
        }
    }

    pub fn to_c_int(&self) -> (r: i32)
        ensures
            r as int == self.code(),
    {
        match self {
            Mtype_t::SLU_GE => 0,
            Mtype_t::SLU_TRLU => 1,
            Mtype_t::SLU_TRUU => 2,
            Mtype_t::SLU_TRL => 3,
            Mtype_t::SLU_TRU => 4,
            Mtype_t::SLU_SYL => 5,
            Mtype_t::SLU_SYU => 6,
            Mtype_t::SLU_HEL => 7,
            Mtype_t::SLU_HEU => 8,
        }
    }
}

/// Specifies the manner of matrix storage in memory.
///
/// Column-major storage keeps the elements of one column next to each
/// other, row-major storage those of one row. A supernodal matrix groups
/// together columns (or rows) with a similar layout of non-zero elements.
#[derive(Clone, Copy, Debug, PartialEq, Eq, Structural)]
pub enum Stype_t {
    /// Not supernodal, column-major
    SLU_NC,
    /// Not supernodal, column-major, permuted by columns
    SLU_NCP,
    /// Not supernodal, row-major
    SLU_NR,
    /// Supernodal, column-major
    SLU_SC,
    /// Supernodal, column-major, permuted by columns
    SLU_SCP,
    /// Supernodal, row-major
    SLU_SR,
    /// Dense, column-major (Fortran-style)
    SLU_DN,
    /// Distributed compressed row format
    SLU_NR_loc,
}

impl Stype_t {
    /// The integer by which the native library knows this storage format.
    pub open spec fn code(self) -> int {
        match self {
            Stype_t::SLU_NC => 0,
            Stype_t::SLU_NCP => 1,
            Stype_t::SLU_NR => 2,
            Stype_t::SLU_SC => 3,
            Stype_t::SLU_SCP => 4,
            Stype_t::SLU_SR => 5,
            Stype_t::SLU_DN => 6,
            Stype_t::SLU_NR_loc => 7,
        }
    }

    pub fn to_c_int(&self) -> (r: i32)
        ensures
            r as int == self.code(),
    {
        match self {
            Stype_t::SLU_NC => 0,
            Stype_t::SLU_NCP => 1,
            Stype_t::SLU_NR => 2,
            Stype_t::SLU_SC => 3,
            Stype_t::SLU_SCP => 4,
            Stype_t::SLU_SR => 5,
            Stype_t::SLU_DN => 6,
            Stype_t::SLU_NR_loc => 7,
        }
    }
}

/// A matrix descriptor that owns its store.
///
/// `Store` holds the entries in the layout that `Stype` names. A descriptor
/// is a move-only value: each destroy operation consumes it, so it is
/// destroyed at most once and cannot be used afterwards.
pub struct c_SuperMatrix<S> {
    /// The storage format for the matrix data (determines the type of Store).
    pub Stype: Stype_t,
    /// Specifies the precision
    pub Dtype: Dtype_t,
    /// Any mathematical properties of the matrix
    pub Mtype: Mtype_t,
    /// Number of rows
    pub nrow: i32,
    /// Number of columns
    pub ncol: i32,
    /// The data structure storing the values in the matrix.
    pub Store: S,
}

impl c_SuperMatrix<()> {
    /// A descriptor with well-defined but meaningless tags, no rows and no
    /// columns, and no store yet: a slot for a routine that fills in a
    /// descriptor, such as the factors written by a driver.
    pub fn allocate() -> (r: Self)
        ensures
            r.Stype == Stype_t::SLU_DN,
            r.Dtype == Dtype_t::SLU_C,
            r.Mtype == Mtype_t::SLU_GE,
            r.nrow == 0,
            r.ncol == 0,
    {
        c_SuperMatrix {
            Stype: Stype_t::SLU_DN,
            Dtype: Dtype_t::SLU_C,
            Mtype: Mtype_t::SLU_GE,
            nrow: 0,
            ncol: 0,
            Store: (),
        }
    }
}

/// Deallocates only the descriptor, and hands back its store with the
/// caller's buffers in it, untouched.
pub fn c_Destroy_SuperMatrix_Store<S>(A: c_SuperMatrix<S>) -> (r: S)
    ensures
        r == A.Store,
{
    A.Store
}

/// The compressed-column format.
pub struct c_NCformat<T> {
    /// Total number of non-zeroes in the matrix
    pub nnz: i32,
    /// Array of non-zero values, column-major order
    pub nzval: Vec<T>,
    /// Array containing the row indices of the non-zeroes
    pub rowind: Vec<i32>,
    /// Array of indices showing where each new column starts in rowind
    pub colptr: Vec<i32>,
}

/// The compressed-row format.
pub struct c_NRformat<T> {
    /// Total number of non-zeroes in the matrix
    pub nnz: i32,
    /// Array of non-zero values, row-major order
    pub nzval: Vec<T>,
    /// Array containing the column indices of the non-zeroes
    pub colind: Vec<i32>,
    /// Array of indices showing where each new row starts in colind
    pub rowptr: Vec<i32>,
}

/// The dense format, column-major.
pub struct c_DNformat<T> {
    /// The leading dimension of the array, at least the number of rows
    pub lda: i32,
    /// Array of values, column-major order, of length lda * ncol
    pub nzval: Vec<T>,
}

} // verus!
