//! Performance tuning.
//!
//! During factorization the native library asks for seven machine-dependent
//! parameters, each by an index from 1 to 7. `TuningParams` holds them, and
//! `TuningState` is the current choice together with whether the host has
//! overridden the library defaults. A host that shares one state between
//! threads must not change it while a driver call is in flight: keep it
//! behind the same lock as the driver calls.

use vstd::prelude::*;

verus! {

/// The seven tuning parameters.
#[derive(Clone, Copy, Debug, PartialEq, Eq, Structural)]
pub struct TuningParams {
    /// The panel size: the number of consecutive columns of the matrix that
    /// make one panel during Gaussian elimination.
    pub panel_size: usize,
    /// When the elimination tree is constructed, there may be supernodes of
    /// very small size. These are grouped together (relaxation) into
    /// artificial supernodes that are larger, but contain some zeros. This
    /// parameter sets the cutoff at which this grouping will occur, which
    /// sets the minimum size of the supernodes.
    pub relaxation_param: usize,
    /// The maximum size of a supernode in complete LU.
    pub max_supernode_size: usize,
    /// The minimum row dimension for 2-D blocking to be used.
    pub min_row_2d_block: usize,
    /// The minimum column dimension for 2-D blocking to be used.
    pub min_col_2d_block: usize,
    /// The estimated fills factor for L and U, compared with A.
    pub estimated_fills: usize,
    /// The maximum size of a supernode in incomplete LU.
    pub max_ilu_supernode_size: usize,
}

impl TuningParams {
    /// The library defaults.
    pub open spec fn defaults() -> TuningParams {
        TuningParams {
            panel_size: 20,
            relaxation_param: 10,
            max_supernode_size: 200,
            min_row_2d_block: 200,
            min_col_2d_block: 100,
            estimated_fills: 30,
            max_ilu_supernode_size: 10,
        }
    }

    /// The parameter that index `ispec` names (1 to 7, in field order).
    pub open spec fn param(self, ispec: int) -> int
        recommends
            1 <= ispec <= 7,
    {
        if ispec == 1 {
            self.panel_size as int
        } else if ispec == 2 {
            self.relaxation_param as int
        } else if ispec == 3 {
            self.max_supernode_size as int
        } else if ispec == 4 {
            self.min_row_2d_block as int
        } else if ispec == 5 {
            self.min_col_2d_block as int
        } else if ispec == 6 {
            self.estimated_fills as int
        } else {
            self.max_ilu_supernode_size as int
        }
    }

    pub fn new() -> (r: Self)
        ensures
            r == Self::defaults(),
    {
        TuningParams {
            panel_size: 20,
            relaxation_param: 10,
            max_supernode_size: 200,
            min_row_2d_block: 200,
            min_col_2d_block: 100,
            estimated_fills: 30,
            max_ilu_supernode_size: 10,
        }
    }

    /// The parameter that index `ispec` names.
    pub fn value(&self, ispec: i32) -> (r: usize)
        requires
            1 <= ispec <= 7,
        ensures
            r as int == self.param(ispec as int),
    {
        if ispec == 1 {
            self.panel_size
        } else if ispec == 2 {
            self.relaxation_param
        } else if ispec == 3 {
            self.max_supernode_size
        } else if ispec == 4 {
            self.min_row_2d_block
        } else if ispec == 5 {
            self.min_col_2d_block
        } else if ispec == 6 {
            self.estimated_fills
        } else {
            self.max_ilu_supernode_size
        }
    }

    /// The parameter that index `ispec` names, as the native library's
    /// integer. Any index outside 1 to 7 is a programming error.
    pub fn sp_ienv(&self, ispec: i32) -> (r: i32)
        requires
            1 <= ispec <= 7,
            self.param(ispec as int) <= i32::MAX,
        ensures
            r as int == self.param(ispec as int),
    {
        self.value(ispec) as i32
    }
}

/// The tuning parameters in force, and whether they were set by the host.
///
/// A fresh state holds the library defaults; `set_tuning_params` moves it
/// to the overridden state, and nothing moves it back.
pub struct TuningState {
    params: TuningParams,
    overridden: bool,
}

impl TuningState {
    /// The parameters in force.
    pub closed spec fn current(&self) -> TuningParams {
        self.params
    }

    /// Whether the host has set the parameters.
    pub closed spec fn is_overridden(&self) -> bool {
        self.overridden
    }

    /// A state that holds the library defaults.
    pub fn new() -> (r: Self)
        ensures
            r.current() == TuningParams::defaults(),
            !r.is_overridden(),
    {
        TuningState { params: TuningParams::new(), overridden: false }
    }

    /// Whether the host has set the parameters.
    pub fn overridden(&self) -> (r: bool)
        ensures
            r == self.is_overridden(),
    {
        self.overridden
    }
}

/// The parameters in force.
pub fn get_tuning_params(state: &TuningState) -> (r: TuningParams)
    ensures
        r == state.current(),
{
    state.params
}

/// Puts `new_params` in force, in place of the defaults or of an earlier set.
pub fn set_tuning_params(state: &mut TuningState, new_params: TuningParams)
    ensures
        final(state).current() == new_params,
        final(state).is_overridden(),
{
    state.params = new_params;
    state.overridden = true;
}

/// Reading the parameters twice with no set in between gives the same
/// record both times.
pub proof fn get_tuning_params_idempotent(
    state: TuningState,
    first: TuningParams,
    second: TuningParams,
)
    requires
        first == state.current(),
        second == state.current(),
    ensures
        first == second,
{
}

} // verus!
