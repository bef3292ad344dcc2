//! The foreign-function interface: plain-data types and the conversions to
//! them.

pub mod conversions;
pub mod types;
pub mod entry;
