//! The envelope in which a successful answer travels.

use vstd::prelude::*;

verus! {

/// A successful answer: a status code, a message and the payload.
#[derive(Clone, Debug, PartialEq, Eq)]
pub struct SuccessResponse<T> {
    pub code: u16,
    pub message: String,
    pub data: T,
}

impl<T> SuccessResponse<T> {
    /// Wraps `data` with the given message under status code 200.
    pub fn new(message: String, data: T) -> (response: SuccessResponse<T>)
        ensures
            response.code == 200,
            response.message == message,
            response.data == data,
    {
        SuccessResponse { code: 200, message, data }
    }
}

} // verus!
