//! The store on Postgres: what its rows say, and what is decided over them.
pub mod certificate_laws;
pub mod certificate_ops;
pub mod connection;
pub mod error;
pub mod failure_laws;
pub mod http01_ops;
pub mod idempotency;
pub mod instance_ops;
pub mod laws;
pub mod lifecycle_ops;
pub mod mapping;
pub mod materialization_ops;
pub mod migrations;
pub mod route_ops;
