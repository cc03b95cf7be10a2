//! Installs a compiled plugin into a running host through its remote console,
//! or queues it for activation at the host's next start.

pub mod cli;
pub mod config;
pub mod endpoint;
pub mod error;
pub mod install;
pub mod plugin_type;
pub mod rcon;
pub mod standalone;
pub mod text;

pub use crate::cli::Args;
pub use crate::error::Error;
