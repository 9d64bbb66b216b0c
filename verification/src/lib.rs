//! Shared scaffolding for small command-line services: a unified error
//! type, a command registry with a dispatcher, and a layered settings
//! loader that merges a configuration file with environment variables.

pub mod command;
pub mod error;
pub mod settings;
