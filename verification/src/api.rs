//! Transport-facing shells: the HTTP-level error kinds and the response
//! envelopes that handlers wrap service results in.

pub mod errors;
pub mod queries;
pub mod response;
