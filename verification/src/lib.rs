//! A safe, verified core for a wrapper around the LightGBM C API.
//!
//! The native library is reached through a thin foreign-function layer that
//! lives outside this crate.  Everything the wrapper decides on its own —
//! validating model text before it crosses the C boundary, checking matrix
//! shapes with overflow-safe arithmetic, translating native return codes
//! into structured errors, and fixing the parameters of the two-phase
//! prediction protocol — is implemented and verified here.

mod decimal;
mod encoding;
mod error;
mod model;
pub mod predict_type;

pub use crate::decimal::append_i32;
pub use crate::decimal::append_u64;
pub use crate::encoding::contains_nul_byte;
pub use crate::encoding::is_valid_utf8;
pub use crate::error::LightGBMError;
pub use crate::error::LightGBMResult;
pub use crate::model::Booster;
pub use crate::model::NativeText;
pub use crate::model::PredictCall;
pub use crate::model::C_API_DTYPE_FLOAT32;
pub use crate::model::C_API_DTYPE_FLOAT64;
