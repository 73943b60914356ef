//! The catalog aggregate: entities, the store interface with its verified
//! in-memory implementation, and the catalog service.

pub mod entity;
pub mod memory;
pub mod repository;
pub mod service;
