//! The structured error type of the wrapper and the translation of native
//! return codes into it.

use vstd::prelude::*;
use vstd::string::StringExecFns;

verus! {

/// The result type of every fallible wrapper operation.
pub type LightGBMResult<T> = Result<T, LightGBMError>;

/// An error raised by the wrapper, carrying a human-readable description.
///
/// For failures reported by the native library the description is the text of
/// the library's last-error state at the moment of failure; for failures the
/// wrapper detects locally it is a message built by the wrapper itself.
#[derive(Debug)]
pub struct LightGBMError {
    pub description: String,
}

impl LightGBMError {
    /// Translate the return code of a native call.
    ///
    /// A return value of 0 is success; any other value is an error, reported
    /// with the message that the native library's last-error accessor held at
    /// the time of the failure, which the caller passes in as `last_error`.
    pub fn check_return_value(ret_val: i32, last_error: &str) -> (r: LightGBMResult<()>)
        ensures
            ret_val == 0 <==> r is Ok,
            r matches Err(e) ==> e.description@ == last_error@,
    {
        if ret_val == 0 {
            Ok(())
        } else {
            Err(LightGBMError { description: String::from_str(last_error) })
        }
    }
}

impl PartialEq for LightGBMError {
    fn eq(&self, other: &LightGBMError) -> (r: bool) {
        self.description == other.description
    }
}

impl vstd::std_specs::cmp::PartialEqSpecImpl for LightGBMError {
    open spec fn obeys_eq_spec() -> bool {
        true
    }

    open spec fn eq_spec(&self, other: &LightGBMError) -> bool {
        self.description@ == other.description@
    }
}

} // verus!
