//! The runtime's status protocol.
//!
//! Runtime entry points report failure through a returned status value
//! rather than through the caller's native error mechanism. The status
//! carries the reporting function's name, an error message, and an exit
//! code; a present function name or error message signals failure. Every
//! status-returning runtime call must be checked through [`is_failure`]
//! before any field the call populated is trusted.

use vstd::prelude::*;
use crate::error::Error;

verus! {

/// Result value of a runtime entry point. The runtime's own status holds
/// C string pointers for the function name and the message; here each is
/// either absent (a null pointer) or the bytes of the named string.
#[derive(Debug)]
pub struct PyStatus {
    pub func: Option<Vec<u8>>,
    pub err_msg: Option<Vec<u8>>,
    pub exitcode: i32,
}

impl PyStatus {
    /// A present function name or error message signals failure.
    pub open spec fn is_error(self) -> bool {
        self.func is Some || self.err_msg is Some
    }
}

/// True iff the runtime signaled failure for the immediately preceding call.
pub fn is_failure(status: &PyStatus) -> (r: bool)
    ensures
        r == status.is_error(),
{
    status.func.is_some() || status.err_msg.is_some()
}

/// Uniform interpretation of a runtime status: a non-failure status passes,
/// a failure status becomes [`Error::StatusError`] carrying the status as
/// the runtime reported it.
pub fn check_status(status: PyStatus) -> (r: Result<(), Error>)
    ensures
        r is Ok <==> !status.is_error(),
        r matches Err(e) ==> (e matches Error::StatusError { status: s } && s == status),
{
    if is_failure(&status) {
        Err(Error::StatusError { status })
    } else {
        Ok(())
    }
}

} // verus!
