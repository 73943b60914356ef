//! Response envelopes: a success wrapper around a payload and a flat error
//! body, mirrored by the serializable copies at the HTTP boundary.

use vstd::prelude::*;

verus! {

pub struct ApiResponse<T> {
    pub success: bool,
    pub data: T,
}

impl<T> ApiResponse<T> {
    pub fn ok(data: T) -> (r: ApiResponse<T>)
        ensures
            r.success == true,
            r.data == data,
    {
        ApiResponse { success: true, data }
    }
}

pub struct ApiError {
    pub success: bool,
    pub error: String,
}

impl ApiError {
    pub fn new(msg: String) -> (r: ApiError)
        ensures
            r.success == false,
            r.error == msg,
    {
        ApiError { success: false, error: msg }
    }
}

} // verus!
