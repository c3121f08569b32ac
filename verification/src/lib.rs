//! Layered configuration resolver: built-in defaults, a configuration file
//! and environment variables are folded, in that order of rising priority,
//! into one typed configuration value.

pub mod adapter;
pub mod bootstrap;
pub mod error;
pub mod laws;
pub mod logging;
pub mod machine;
pub mod options;
pub mod resolver;
pub mod sources;
pub mod text;
