//! A minimal health-check service library.
//!
//! The library holds the logic of a small HTTP liveness service: the database
//! connection parameters, the fixed route table, the two probe outcomes, and
//! the construction of a lazily connected Postgres pool. Listening, serving
//! and the actual query round-trip are left to the binary around it.

pub mod config;
pub mod db;
pub mod health;
pub mod routes;
