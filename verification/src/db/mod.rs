//! The records that the store keeps, and how the core makes them.

pub mod posts;
pub mod users;
