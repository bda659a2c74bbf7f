//! The result code that every response body carries, and what it means.
use vstd::prelude::*;

verus! {

/// The result code of a successful response.
pub const RET_TYPE_SUCCEED: i32 = 0;

/// The status fields of a decoded response body.
#[derive(Debug)]
pub struct ResponseStatus {
    pub ret_type: i32,
    pub ret_msg: String,
}

/// An application-level failure reported by the server: its result code and
/// message text. It is no transport error.
#[derive(Debug)]
pub struct ServerError {
    pub ret_type: i32,
    pub ret_msg: String,
}

/// The response's payload when its result code is the success code;
/// otherwise the server's code and message as a `ServerError`.
pub fn check_response<T>(status: ResponseStatus, payload: T) -> (r: Result<T, ServerError>)
    ensures
        status.ret_type == RET_TYPE_SUCCEED ==> r == Ok::<T, ServerError>(payload),
        status.ret_type != RET_TYPE_SUCCEED ==> r == Err::<T, ServerError>(
            ServerError { ret_type: status.ret_type, ret_msg: status.ret_msg },
        ),
{
    if status.ret_type == RET_TYPE_SUCCEED {
        Ok(payload)
    } else {
        Err(ServerError { ret_type: status.ret_type, ret_msg: status.ret_msg })
    }
}

} // verus!
