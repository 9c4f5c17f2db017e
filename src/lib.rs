//! Descriptors, options and tuning for the SuperLU sparse direct solver.
//!
//! The native library does the factorization; this crate states what is
//! handed to it. Matrix descriptors own their buffers and are consumed when
//! destroyed, their tags carry the integers the native library expects, the
//! tuning parameters the library asks for live in an explicit state, and a
//! driver's status is read according to the native rules.

#![allow(non_camel_case_types)]
#![allow(non_snake_case)]

pub mod comp_col;
pub mod dense;
pub mod options;
pub mod sp_ienv;
pub mod status;
pub mod super_matrix;

pub use sp_ienv::{get_tuning_params, set_tuning_params, TuningParams};
