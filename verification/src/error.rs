//! Translation of native status codes into `Result` values.
//!
//! Every call into the native library reports a status code: zero on success,
//! one of the negative `STS_*` codes on failure, possibly with a message. The
//! binding layer surfaces each failure uniformly as an error value carrying
//! that code and message, and never maps a failing status to success.

use vstd::prelude::*;

verus! {

/// Status code the native library reports on success.
pub const STS_OK: i32 = 0;

/// Status code the native library reports for a bad argument.
pub const STS_BAD_ARG: i32 = -5;

/// Status code the native library reports for an unspecified failure.
pub const STS_ERROR: i32 = -2;

/// An error reported by a native call: the status code it returned and the
/// message text that came with it.
#[derive(Debug)]
pub struct CvError {
    pub code: i32,
    pub message: String,
}

impl CvError {
    /// True when the carried code is one a native call can actually fail
    /// with: failures never carry the success code.
    pub open spec fn wf(&self) -> bool {
        self.code != STS_OK
    }
}

/// Turns a native status code and its message into a `Result`: the success
/// code becomes `Ok`, every other code becomes an error carrying exactly that
/// code and message.
pub fn result_of_code(code: i32, message: String) -> (r: Result<(), CvError>)
    ensures
        code == STS_OK <==> r is Ok,
        r matches Err(e) ==> e.code == code && e.message@ == message@ && e.wf(),
{
    if code == STS_OK {
        Ok(())
    } else {
        Err(CvError { code, message })
    }
}

} // verus!
