//! Configuration: the schema with its defaults, and the configuration file.

pub mod loader;
pub mod schema;
