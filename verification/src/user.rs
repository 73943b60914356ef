//! The user aggregate: entities, the store interface with its verified
//! in-memory implementation, and the registration and login service.

pub mod entity;
pub mod memory;
pub mod repository;
pub mod service;
