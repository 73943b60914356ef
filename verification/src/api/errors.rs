//! HTTP-level error kinds, one per status the handlers answer with.

use vstd::prelude::*;

verus! {

#[derive(Debug)]
pub enum ApiError {
    NotFound(String),
    BadRequest(String),
    InternalServerError(String),
    Unauthorized(String),
    Forbidden(String),
}

pub fn not_found(message: String) -> (r: ApiError)
    ensures
        r == ApiError::NotFound(message),
{
    ApiError::NotFound(message)
}

pub fn bad_request(message: String) -> (r: ApiError)
    ensures
        r == ApiError::BadRequest(message),
{
    ApiError::BadRequest(message)
}

pub fn internal_error(message: String) -> (r: ApiError)
    ensures
        r == ApiError::InternalServerError(message),
{
    ApiError::InternalServerError(message)
}

pub fn unauthorized(message: String) -> (r: ApiError)
    ensures
        r == ApiError::Unauthorized(message),
{
    ApiError::Unauthorized(message)
}

pub fn forbidden(message: String) -> (r: ApiError)
    ensures
        r == ApiError::Forbidden(message),
{
    ApiError::Forbidden(message)
}

} // verus!
