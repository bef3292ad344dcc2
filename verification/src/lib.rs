//! Crystal Clear core: the safety rules, path model, scanners' classification
//! logic and output parsers of a safe system cleaner, with their contracts.

pub mod text;
pub mod audit;
pub mod path;
pub mod config;
pub mod db;
pub mod discovery;
pub mod disk;
pub mod error;
pub mod platform;
pub mod safety;
pub mod cleaners;
pub mod ffi;
pub mod order;
pub mod scanner;
pub mod trash;
