//! The uniform response envelope: every handler answers with a success flag,
//! an optional payload and an optional error message, exactly one of the two
//! being present.

use vstd::prelude::*;

verus! {

/// The tagged result serialized uniformly at the HTTP boundary.
#[derive(Clone, Debug)]
pub struct ApiResponse<T> {
    pub success: bool,
    pub data: Option<T>,
    pub error: Option<String>,
}

impl<T> ApiResponse<T> {
    /// A successful envelope carrying a payload and no error.
    pub fn success(data: T) -> (r: ApiResponse<T>)
        ensures
            r.success == true,
            r.data == Some(data),
            r.error is None,
    {
        ApiResponse { success: true, data: Some(data), error: None }
    }

    /// A failed envelope carrying a message and no payload.
    pub fn error(msg: String) -> (r: ApiResponse<T>)
        ensures
            r.success == false,
            r.data is None,
            r.error matches Some(m) && m@ == msg@,
    {
        ApiResponse { success: false, data: None, error: Some(msg) }
    }
}

} // verus!
