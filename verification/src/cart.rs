//! The cart aggregate: entities, the store interface with its verified
//! in-memory implementation, and the add-to-cart service.

pub mod entity;
pub mod memory;
pub mod repository;
pub mod service;
