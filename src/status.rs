//! The status a driver reports.
//!
//! A driver hands back one integer, `info`, which the binding passes on
//! unchanged. `classify_status` says what it means for a system of order
//! `n`, without retrying or correcting anything.

use vstd::prelude::*;

verus! {

/// The meaning of a driver's status.
#[derive(Clone, Copy, Debug, PartialEq, Eq, Structural)]
pub enum SolveStatus {
    /// The factorization and solve succeeded.
    Success,
    /// `U(column, column)` is exactly zero: the factorization stopped there,
    /// and the factors and solution are not valid. `column` counts from 1.
    SingularPivot { column: i32 },
    /// Memory ran out during factorization; `shortfall` is how far the
    /// status lies above the order of the matrix.
    AllocationFailure { shortfall: i32 },
    /// The argument at `position`, counting from 1, had an illegal value.
    IllegalArgument { position: u32 },
}

/// What status `info` means for a system of order `n`.
pub open spec fn status_meaning(info: int, n: int) -> SolveStatus {
    if info == 0 {
        SolveStatus::Success
    } else if info < 0 {
        SolveStatus::IllegalArgument { position: (-info) as u32 }
    } else if info <= n {
        SolveStatus::SingularPivot { column: info as i32 }
    } else {
        SolveStatus::AllocationFailure { shortfall: (info - n) as i32 }
    }
}

/// Says what status `info` means for a system of order `n`.
pub fn classify_status(info: i32, n: i32) -> (r: SolveStatus)
    requires
        n >= 0,
    ensures
        r == status_meaning(info as int, n as int),
        info == 0 <==> r is Success,
        info < 0 <==> r is IllegalArgument,
        0 < info <= n <==> r is SingularPivot,
        info > n <==> r is AllocationFailure,
        r matches SolveStatus::IllegalArgument { position } ==> position as int == -info,
        r matches SolveStatus::SingularPivot { column } ==> column == info,
        r matches SolveStatus::AllocationFailure { shortfall } ==> shortfall as int == info - n,
{
    if info == 0 {
        SolveStatus::Success
    } else if info < 0 {
        let position: u32 = (0i64 - info as i64) as u32;
        SolveStatus::IllegalArgument { position }
    } else if info <= n {
        SolveStatus::SingularPivot { column: info }
    } else {
        SolveStatus::AllocationFailure { shortfall: info - n }
    }
}

} // verus!
