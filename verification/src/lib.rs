//! Business-logic core of an e-commerce backend: identity and session
//! tokens with role-dependent lifetime, catalog validation and pagination,
//! idempotent cart accumulation, and favorites set-membership, each stated
//! as a contract and proved.

pub mod api;
pub mod auth;
pub mod cart;
pub mod config;
pub mod errors;
pub mod favorite;
pub mod product;
pub mod storage;
pub mod strings;
pub mod user;

pub use errors::{Error, ErrorCode};
