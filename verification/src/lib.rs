//! Lifecycle, environment parsing and status translation for sudo I/O
//! plugins.

pub mod abi;
pub mod conversation;
pub mod env;
pub mod hooks;
pub mod lifecycle;
pub mod options;
pub mod outcome;
pub mod plugin;
