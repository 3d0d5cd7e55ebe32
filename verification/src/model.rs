//! The wrapper core: validated model text, the booster handle, and the
//! dense-matrix prediction protocol.
//!
//! The foreign calls themselves live outside this crate.  Each operation that
//! crosses the C boundary is split here into a verified preparation step
//! (which validates the inputs and fixes every parameter of the native call)
//! and a verified completion step (which takes the native return values as
//! arguments and translates them into the wrapper's result type).

use vstd::prelude::*;
use vstd::slice::slice_to_vec;
use vstd::string::StrSliceExecFns;
use vstd::string::StringExecFns;
use vstd::utf8::encode_utf8;
use vstd::utf8::encode_utf8_valid_utf8;
use vstd::utf8::valid_utf8;

use crate::decimal::append_i32;
use crate::decimal::append_u64;
use crate::decimal::dec_int;
use crate::decimal::dec_nat;
use crate::encoding::contains_nul;
use crate::encoding::contains_nul_byte;
use crate::encoding::is_valid_utf8;
use crate::error::LightGBMError;
use crate::error::LightGBMResult;

verus! {

/// Element-type tag of the native interface for 32-bit floating point, as
/// defined by the LightGBM C API header.
pub const C_API_DTYPE_FLOAT32: i32 = 0;

/// Element-type tag of the native interface for 64-bit floating point, as
/// defined by the LightGBM C API header.
pub const C_API_DTYPE_FLOAT64: i32 = 1;

/// Model text validated for the null-terminated text form that the native
/// interface requires: well-formed UTF-8 with no interior NUL byte.
#[derive(Debug)]
pub struct NativeText {
    bytes: Vec<u8>,
}

impl View for NativeText {
    type V = Seq<u8>;

    closed spec fn view(&self) -> Seq<u8> {
        self.bytes@
    }
}

impl NativeText {
    /// Validated text is well-formed UTF-8 and free of interior NUL bytes.
    pub open spec fn wf(self) -> bool {
        valid_utf8(self@) && !contains_nul(self@)
    }

    /// The validated bytes, ready to be null-terminated and handed to the
    /// native interface.
    pub fn as_bytes(&self) -> (r: &[u8])
        ensures
            r@ == self@,
    {
        self.bytes.as_slice()
    }

    /// Consumes the text and returns the validated bytes.
    pub fn into_bytes(self) -> (r: Vec<u8>)
        ensures
            r@ == self@,
    {
        self.bytes
    }
}

/// The parameters of one native dense-matrix prediction call.
///
/// The two-phase protocol of the native interface issues the same call twice:
/// first with a null output pointer to learn the required output length, then
/// with a buffer of exactly that length.  Both phases use one unchanged
/// parameter set, which this struct fixes.
#[derive(Debug)]
pub struct PredictCall {
    /// The native handle of the booster issuing the prediction.
    pub handle: usize,
    /// Element-type tag of the input buffer.
    pub data_type: i32,
    /// Number of rows of the input matrix.
    pub num_rows: i32,
    /// Number of columns of the input matrix.
    pub num_cols: i32,
    /// Always 1: the wrapper only passes row-major matrices.
    pub is_row_major: i32,
    /// The prediction kind requested by the caller.
    pub predict_type: i32,
    /// Always 0: prediction starts at the first boosting iteration.
    pub start_iteration: i32,
    /// Always -1: prediction uses all boosting iterations.
    pub num_iteration: i32,
}

/// True when the declared matrix shape matches the supplied buffer length.
pub open spec fn valid_shape(num_rows: i32, num_cols: i32, data_len: usize) -> bool {
    0 <= num_rows && 0 <= num_cols && num_rows * num_cols == data_len
}

/// The error message for a negative row or column count.
pub open spec fn negative_dimensions_message(num_rows: i32, num_cols: i32) -> Seq<char> {
    "Invalid data dimensions: num_rows ("@ + dec_int(num_rows as int)
        + ") and num_cols ("@ + dec_int(num_cols as int) + ") must be non-negative"@
}

/// The error message for a row/column product that overflows `usize`.
pub open spec fn overflow_message(num_rows: i32, num_cols: i32) -> Seq<char> {
    "Integer overflow when computing expected data size: num_rows ("@ + dec_int(num_rows as int)
        + ") * num_cols ("@ + dec_int(num_cols as int) + ")"@
}

/// The error message for a buffer length that does not match the declared
/// shape.
pub open spec fn mismatch_message(
    expected: usize,
    num_rows: i32,
    num_cols: i32,
    data_len: usize,
) -> Seq<char> {
    "Input data size mismatch: expected "@ + dec_nat(expected as nat) + " elements ("@ + dec_int(
        num_rows as int,
    ) + "x"@ + dec_int(num_cols as int) + "), got "@ + dec_nat(data_len as nat)
}

/// The message of the error that prediction-input validation raises, for each
/// way the declared shape can fail to describe the supplied buffer.
pub open spec fn shape_error_message(num_rows: i32, num_cols: i32, data_len: usize) -> Seq<char> {
    if num_rows < 0 || num_cols < 0 {
        negative_dimensions_message(num_rows, num_cols)
    } else if num_rows * num_cols > usize::MAX {
        overflow_message(num_rows, num_cols)
    } else {
        mismatch_message((num_rows * num_cols) as usize, num_rows, num_cols, data_len)
    }
}

fn build_negative_dimensions_message(num_rows: i32, num_cols: i32) -> (m: String)
    ensures
        m@ == negative_dimensions_message(num_rows, num_cols),
{
    let mut s = String::new();
    s.append("Invalid data dimensions: num_rows (");
    append_i32(&mut s, num_rows);
    s.append(") and num_cols (");
    append_i32(&mut s, num_cols);
    s.append(") must be non-negative");
    proof {
        assert(s@ =~= negative_dimensions_message(num_rows, num_cols));
    }
    s
}

fn build_overflow_message(num_rows: i32, num_cols: i32) -> (m: String)
    ensures
        m@ == overflow_message(num_rows, num_cols),
{
    let mut s = String::new();
    s.append("Integer overflow when computing expected data size: num_rows (");
    append_i32(&mut s, num_rows);
    s.append(") * num_cols (");
    append_i32(&mut s, num_cols);
    s.append(")");
    proof {
        assert(s@ =~= overflow_message(num_rows, num_cols));
    }
    s
}

fn build_mismatch_message(expected: usize, num_rows: i32, num_cols: i32, data_len: usize) -> (m:
    String)
    ensures
        m@ == mismatch_message(expected, num_rows, num_cols, data_len),
{
    let mut s = String::new();
    s.append("Input data size mismatch: expected ");
    append_u64(&mut s, expected as u64);
    s.append(" elements (");
    append_i32(&mut s, num_rows);
    s.append("x");
    append_i32(&mut s, num_cols);
    s.append("), got ");
    append_u64(&mut s, data_len as u64);
    proof {
        assert((expected as u64) as nat == expected as nat);
        assert((data_len as u64) as nat == data_len as nat);
        assert(s@ =~= mismatch_message(expected, num_rows, num_cols, data_len));
    }
    s
}

/// A loaded model of the native library, identified by its opaque handle.
///
/// A `Booster` owns exactly one native handle.  The handle is never null, and
/// because the type cannot be cloned, releasing the handle once when the
/// owner is destroyed releases it exactly once.  The native library's
/// thread-safety for concurrent use of a single handle is undocumented, so a
/// `Booster` must not be shared across threads without external mutual
/// exclusion.
#[derive(Debug)]
pub struct Booster {
    handle: usize,
}

impl Booster {
    /// The opaque native handle owned by this booster.
    pub closed spec fn spec_handle(self) -> usize {
        self.handle
    }

    /// A live booster never holds a null handle.
    pub open spec fn wf(self) -> bool {
        self.spec_handle() != 0
    }

    /// Validates a model file path for the native "create from model file"
    /// entry point: the text must carry no interior NUL byte.
    pub fn load(path: &str) -> (r: LightGBMResult<NativeText>)
        ensures
            r is Ok <==> !contains_nul(encode_utf8(path@)),
            r matches Ok(t) ==> t@ == encode_utf8(path@) && t.wf(),
            r matches Err(e) ==> e.description@ == "Path contains NUL byte"@,
    {
        let bytes = path.as_bytes_vec();
        proof {
            encode_utf8_valid_utf8(path@);
        }
        if contains_nul_byte(bytes.as_slice()) {
            Err(LightGBMError { description: String::from_str("Path contains NUL byte") })
        } else {
            Ok(NativeText { bytes })
        }
    }

    /// Validates model text for the native "load from string" entry point:
    /// the text must carry no interior NUL byte.
    pub fn load_from_string(model_str: &str) -> (r: LightGBMResult<NativeText>)
        ensures
            r is Ok <==> !contains_nul(encode_utf8(model_str@)),
            r matches Ok(t) ==> t@ == encode_utf8(model_str@) && t.wf(),
            r matches Err(e) ==> e.description@ == "Model string contains NUL byte"@,
    {
        let bytes = model_str.as_bytes_vec();
        proof {
            encode_utf8_valid_utf8(model_str@);
        }
        if contains_nul_byte(bytes.as_slice()) {
            Err(LightGBMError { description: String::from_str("Model string contains NUL byte") })
        } else {
            Ok(NativeText { bytes })
        }
    }

    /// Validates a byte buffer holding model text: the bytes must decode as
    /// UTF-8 — checked first, so an undecodable buffer fails before anything
    /// else is considered — and must carry no interior NUL byte.
    pub fn load_from_buffer(buffer: &[u8]) -> (r: LightGBMResult<NativeText>)
        ensures
            r is Ok <==> valid_utf8(buffer@) && !contains_nul(buffer@),
            r matches Ok(t) ==> t@ == buffer@ && t.wf(),
            r matches Err(e) ==> e.description@ == if !valid_utf8(buffer@) {
                "Invalid UTF-8 in model buffer"@
            } else {
                "Model string contains NUL byte"@
            },
    {
        if !is_valid_utf8(buffer) {
            return Err(
                LightGBMError { description: String::from_str("Invalid UTF-8 in model buffer") },
            );
        }
        if contains_nul_byte(buffer) {
            return Err(
                LightGBMError { description: String::from_str("Model string contains NUL byte") },
            );
        }
        Ok(NativeText { bytes: slice_to_vec(buffer) })
    }

    /// Completes a load: translates the return code and output handle of a
    /// native load call into a booster or an error.
    ///
    /// On success the native interface guarantees a non-null handle, which
    /// the caller asserts through the precondition.
    pub fn load_from_native(ret_val: i32, handle: usize, last_error: &str) -> (r: LightGBMResult<
        Booster,
    >)
        requires
            ret_val == 0 ==> handle != 0,
        ensures
            ret_val == 0 <==> r is Ok,
            r matches Ok(b) ==> b.spec_handle() == handle && b.wf(),
            r matches Err(e) ==> e.description@ == last_error@,
    {
        match LightGBMError::check_return_value(ret_val, last_error) {
            Ok(()) => Ok(Booster { handle }),
            Err(e) => Err(e),
        }
    }

    /// Completes a metadata query (number of features, number of classes):
    /// translates the return code and output value of the native call.
    pub fn count_from_native(ret_val: i32, count: i32, last_error: &str) -> (r: LightGBMResult<
        i32,
    >)
        ensures
            ret_val == 0 <==> r is Ok,
            r matches Ok(c) ==> c == count,
            r matches Err(e) ==> e.description@ == last_error@,
    {
        match LightGBMError::check_return_value(ret_val, last_error) {
            Ok(()) => Ok(count),
            Err(e) => Err(e),
        }
    }

    /// The native handle, for issuing and completing foreign calls.
    pub fn handle(&self) -> (h: usize)
        ensures
            h == self.spec_handle(),
    {
        self.handle
    }

    /// Validates a dense row-major `f64` matrix for prediction and fixes the
    /// parameters of the native prediction call.
    ///
    /// The declared shape must describe the supplied buffer exactly:
    /// `num_rows * num_cols`, computed with overflow-checked arithmetic, must
    /// equal `data_len`.  Any failure is detected here, before anything
    /// crosses the C boundary.
    pub fn predict(&self, data_len: usize, num_rows: i32, num_cols: i32, predict_type: i32) -> (r:
        LightGBMResult<PredictCall>)
        ensures
            r is Ok <==> valid_shape(num_rows, num_cols, data_len),
            r matches Ok(call) ==> call == (PredictCall {
                handle: self.spec_handle(),
                data_type: C_API_DTYPE_FLOAT64,
                num_rows,
                num_cols,
                is_row_major: 1,
                predict_type,
                start_iteration: 0,
                num_iteration: -1i32,
            }),
            r matches Err(e) ==> e.description@ == shape_error_message(
                num_rows,
                num_cols,
                data_len,
            ),
    {
        self.predict_with_data_type(C_API_DTYPE_FLOAT64, data_len, num_rows, num_cols, predict_type)
    }

    /// Validates a dense row-major `f32` matrix for prediction, as
    /// [`Booster::predict`] does for `f64`; only the element-type tag passed
    /// to the native call differs.
    pub fn predict_f32(
        &self,
        data_len: usize,
        num_rows: i32,
        num_cols: i32,
        predict_type: i32,
    ) -> (r: LightGBMResult<PredictCall>)
        ensures
            r is Ok <==> valid_shape(num_rows, num_cols, data_len),
            r matches Ok(call) ==> call == (PredictCall {
                handle: self.spec_handle(),
                data_type: C_API_DTYPE_FLOAT32,
                num_rows,
                num_cols,
                is_row_major: 1,
                predict_type,
                start_iteration: 0,
                num_iteration: -1i32,
            }),
            r matches Err(e) ==> e.description@ == shape_error_message(
                num_rows,
                num_cols,
                data_len,
            ),
    {
        self.predict_with_data_type(C_API_DTYPE_FLOAT32, data_len, num_rows, num_cols, predict_type)
    }

    fn predict_with_data_type(
        &self,
        data_type: i32,
        data_len: usize,
        num_rows: i32,
        num_cols: i32,
        predict_type: i32,
    ) -> (r: LightGBMResult<PredictCall>)
        ensures
            r is Ok <==> valid_shape(num_rows, num_cols, data_len),
            r matches Ok(call) ==> call == (PredictCall {
                handle: self.spec_handle(),
                data_type,
                num_rows,
                num_cols,
                is_row_major: 1,
                predict_type,
                start_iteration: 0,
                num_iteration: -1i32,
            }),
            r matches Err(e) ==> e.description@ == shape_error_message(
                num_rows,
                num_cols,
                data_len,
            ),
    {
        if num_rows < 0 || num_cols < 0 {
            return Err(
                LightGBMError { description: build_negative_dimensions_message(num_rows, num_cols) },
            );
        }
        let rows = num_rows as usize;
        let cols = num_cols as usize;
        match rows.checked_mul(cols) {
            None => Err(LightGBMError { description: build_overflow_message(num_rows, num_cols) }),
            Some(expected) => {
                if expected != data_len {
                    Err(
                        LightGBMError {
                            description: build_mismatch_message(
                                expected,
                                num_rows,
                                num_cols,
                                data_len,
                            ),
                        },
                    )
                } else {
                    Ok(
                        PredictCall {
                            handle: self.handle,
                            data_type,
                            num_rows,
                            num_cols,
                            is_row_major: 1,
                            predict_type,
                            start_iteration: 0,
                            num_iteration: -1i32,
                        },
                    )
                }
            },
        }
    }
}

} // verus!
