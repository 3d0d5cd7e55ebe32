//! The prediction-kind constants of the native interface.  Their values are
//! defined by the LightGBM C API and must match it bit-for-bit; the wrapper
//! passes them through without interpreting the shape of the result.

use vstd::prelude::*;

verus! {

/// Normal prediction.
pub const NORMAL: i32 = 0;

/// Raw score prediction.
pub const RAW_SCORE: i32 = 1;

/// Leaf index prediction.
pub const LEAF_INDEX: i32 = 2;

/// Feature contribution (SHAP values).
pub const CONTRIB: i32 = 3;

} // verus!
