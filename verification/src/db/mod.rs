//! The discovery database's records.

pub mod models;
