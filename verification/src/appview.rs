//! Core AppView types: AT URIs, identifiers and the service error type.

pub mod types;
pub mod error;
pub mod config;
