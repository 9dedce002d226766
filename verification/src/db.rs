//! The rows read from the database.

pub mod models;
