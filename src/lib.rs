//! Credential checks and authorization codes for a local authorization-code grant.
pub mod authentication;
pub mod repository;
