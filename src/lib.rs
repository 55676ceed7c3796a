//! Start-up logic of a desktop application shell.
//!
//! The host runtime owns the event loop and the windows. This library decides
//! what the one-time setup hook does, in which order, and how the process ends:
//! `config` holds the compiled-in choices, `setup` walks the setup plan one
//! step at a time, and `lifecycle` follows the process from launch to exit.
pub mod config;
pub mod lifecycle;
pub mod setup;

pub use config::{main_window_label, LogLevel, StartupConfig};
pub use lifecycle::{setup_signal, Phase, Signal};
pub use setup::{plan, Action, Fault, Notice, Setup, Status, Step};
