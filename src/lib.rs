//! Execution context and command lifecycle core for runtime plugins.
//!
//! The library holds what a plugin host adapter decides: which identity a
//! command gets, which lifecycle events it owes, where its output goes, which
//! configuration file is used and in which format, and when a shutdown signal
//! is sent. The asynchronous transport around these decisions lives outside.
pub mod cli;
pub mod common;
pub mod config;
pub mod control;
pub mod error;
pub mod event;
pub mod lifecycle;
pub mod output;
pub mod runtime;
pub mod signal;
pub mod service;

pub use cli::{Command, CommandCli, EmptyArgs};
pub use common::{DefaultEnv, IntoVec};
pub use config::{ConfigError, ConfigFormat};
pub use control::RuntimeControl;
pub use error::{Error, ErrorExt};
pub use event::{ProcessEvent, StateEvent};
pub use lifecycle::CommandLedger;
pub use output::{OutputAction, OutputStream, ResultTarget};
pub use runtime::{ProcessId, RuntimeMode};
pub use service::ServiceMode;
