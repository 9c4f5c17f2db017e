//! Solver options.
//!
//! The options record tells a driver how to work (section 2.4 of the
//! SuperLU manual). Its switches are the enums below; the native library
//! reads each as a plain integer, which `code` gives and `to_c_int` hands
//! out, so the order of the variants is part of the interface.

use vstd::prelude::*;

verus! {
/// A yes-or-no switch.
#[derive(Clone, Copy, Debug, PartialEq, Eq, Structural)]
pub enum yes_no_t {
    NO,
    YES,
}

impl yes_no_t {
    /// The integer by which the native library knows this value.
    pub open spec fn code(self) -> int {
        match self {
            yes_no_t::NO => 0,
            yes_no_t::YES => 1,
        }
    }

    pub fn to_c_int(&self) -> (r: i32)
        ensures
            r as int == self.code(),
    {
        match self {
            yes_no_t::NO => 0,
            yes_no_t::YES => 1,
        }
    }
}

/// Whether, and how far, the matrix is already factored.
#[derive(Clone, Copy, Debug, PartialEq, Eq, Structural)]
pub enum fact_t {
    DOFACT,
    SamePattern,
    SamePattern_SameRowPerm,
    FACTORED,
}

impl fact_t {
    /// The integer by which the native library knows this value.
    pub open spec fn code(self) -> int {
        match self {
            fact_t::DOFACT => 0,
            fact_t::SamePattern => 1,
            fact_t::SamePattern_SameRowPerm => 2,
            fact_t::FACTORED => 3,
        }
    }

    pub fn to_c_int(&self) -> (r: i32)
        ensures
            r as int == self.code(),
    {
        match self {
            fact_t::DOFACT => 0,
            fact_t::SamePattern => 1,
            fact_t::SamePattern_SameRowPerm => 2,
            fact_t::FACTORED => 3,
        }
    }
}

/// The column permutation applied before factorization.
#[derive(Clone, Copy, Debug, PartialEq, Eq, Structural)]
pub enum colperm_t {
    NATURAL,
    MMD_ATA,
    MMD_AT_PLUS_A,
    COLAMD,
    METIS_AT_PLUS_A,
    PARAMETIS,
    ZOLTAN,
    MY_PERMC,
}

impl colperm_t {
    /// The integer by which the native library knows this value.
    pub open spec fn code(self) -> int {
        match self {
            colperm_t::NATURAL => 0,
            colperm_t::MMD_ATA => 1,
            colperm_t::MMD_AT_PLUS_A => 2,
            colperm_t::COLAMD => 3,
            colperm_t::METIS_AT_PLUS_A => 4,
            colperm_t::PARAMETIS => 5,
            colperm_t::ZOLTAN => 6,
            colperm_t::MY_PERMC => 7,
        }
    }

    pub fn to_c_int(&self) -> (r: i32)
        ensures
            r as int == self.code(),
    {
        match self {
            colperm_t::NATURAL => 0,
            colperm_t::MMD_ATA => 1,
            colperm_t::MMD_AT_PLUS_A => 2,
            colperm_t::COLAMD => 3,
            colperm_t::METIS_AT_PLUS_A => 4,
            colperm_t::PARAMETIS => 5,
            colperm_t::ZOLTAN => 6,
            colperm_t::MY_PERMC => 7,
        }
    }
}

/// Which system is solved: with the matrix, its transpose, or its conjugate transpose.
#[derive(Clone, Copy, Debug, PartialEq, Eq, Structural)]
pub enum trans_t {
    NOTRANS,
    TRANS,
    CONJ,
}

impl trans_t {
    /// The integer by which the native library knows this value.
    pub open spec fn code(self) -> int {
        match self {
            trans_t::NOTRANS => 0,
            trans_t::TRANS => 1,
            trans_t::CONJ => 2,
        }
    }

    pub fn to_c_int(&self) -> (r: i32)
        ensures
            r as int == self.code(),
    {
        match self {
            trans_t::NOTRANS => 0,
            trans_t::TRANS => 1,
            trans_t::CONJ => 2,
        }
    }
}

/// The precision of iterative refinement, if any.
#[derive(Clone, Copy, Debug, PartialEq, Eq, Structural)]
pub enum IterRefine_t {
    NOREFINE,
    SLU_SINGLE,
    SLU_DOUBLE,
    SLU_EXTRA,
}

impl IterRefine_t {
    /// The integer by which the native library knows this value.
    pub open spec fn code(self) -> int {
        match self {
            IterRefine_t::NOREFINE => 0,
            IterRefine_t::SLU_SINGLE => 1,
            IterRefine_t::SLU_DOUBLE => 2,
            IterRefine_t::SLU_EXTRA => 3,
        }
    }

    pub fn to_c_int(&self) -> (r: i32)
        ensures
            r as int == self.code(),
    {
        match self {
            IterRefine_t::NOREFINE => 0,
            IterRefine_t::SLU_SINGLE => 1,
            IterRefine_t::SLU_DOUBLE => 2,
            IterRefine_t::SLU_EXTRA => 3,
        }
    }
}

/// The row permutation applied before factorization.
#[derive(Clone, Copy, Debug, PartialEq, Eq, Structural)]
pub enum rowperm_t {
    NOROWPERM,
    LargeDiag_MC64,
    LargeDiag_HWPM,
    MY_PERMR,
}

impl rowperm_t {
    /// The integer by which the native library knows this value.
    pub open spec fn code(self) -> int {
        match self {
            rowperm_t::NOROWPERM => 0,
            rowperm_t::LargeDiag_MC64 => 1,
            rowperm_t::LargeDiag_HWPM => 2,
            rowperm_t::MY_PERMR => 3,
        }
    }

    pub fn to_c_int(&self) -> (r: i32)
        ensures
            r as int == self.code(),
    {
        match self {
            rowperm_t::NOROWPERM => 0,
            rowperm_t::LargeDiag_MC64 => 1,
            rowperm_t::LargeDiag_HWPM => 2,
            rowperm_t::MY_PERMR => 3,
        }
    }
}

/// The norm used by the incomplete-factorization drop rules.
#[derive(Clone, Copy, Debug, PartialEq, Eq, Structural)]
pub enum norm_t {
    ONE_NORM,
    TWO_NORM,
    INF_NORM,
}

impl norm_t {
    /// The integer by which the native library knows this value.
    pub open spec fn code(self) -> int {
        match self {
            norm_t::ONE_NORM => 0,
            norm_t::TWO_NORM => 1,
            norm_t::INF_NORM => 2,
        }
    }

    pub fn to_c_int(&self) -> (r: i32)
        ensures
            r as int == self.code(),
    {
        match self {
            norm_t::ONE_NORM => 0,
            norm_t::TWO_NORM => 1,
            norm_t::INF_NORM => 2,
        }
    }
}

/// The modified incomplete-factorization variant.
#[derive(Clone, Copy, Debug, PartialEq, Eq, Structural)]
pub enum milu_t {
    SILU,
    SMILU_1,
    SMILU_2,
    SMILU_3,
}

impl milu_t {
    /// The integer by which the native library knows this value.
    pub open spec fn code(self) -> int {
        match self {
            milu_t::SILU => 0,
            milu_t::SMILU_1 => 1,
            milu_t::SMILU_2 => 2,
            milu_t::SMILU_3 => 3,
        }
    }

    pub fn to_c_int(&self) -> (r: i32)
        ensures
            r as int == self.code(),
    {
        match self {
            milu_t::SILU => 0,
            milu_t::SMILU_1 => 1,
            milu_t::SMILU_2 => 2,
            milu_t::SMILU_3 => 3,
        }
    }
}

} // verus!
