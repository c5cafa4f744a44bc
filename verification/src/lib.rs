//! Credential and session core of a small content-publishing backend:
//! password hashing at account creation, signed-token issuance and
//! verification, and the per-request authorization gate that every
//! protected write goes through.

pub mod clock;
pub mod db;
pub mod gate;
pub mod jwt;
pub mod status;
