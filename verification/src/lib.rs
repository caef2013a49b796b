//! Functional core of a daemon-driven code-formatting orchestrator.
//!
//! Everything here is a decision or a computation on plain values: rule
//! matching, the configuration's and the wire's formats, the command-flow
//! interpreter, the layout of what a plugin returns, the protocol by which
//! clients arbitrate who starts the daemon, and what the user is shown of a
//! response. The surrounding program performs the effects that these
//! functions ask for: it reads and writes files, talks over the socket,
//! spawns processes, loads plugins and runs the template engine.

pub mod app_dir;
pub mod bindings;
pub mod build_info;
pub mod bulk_format;
pub mod cli;
pub mod config;
pub mod daemon;
pub mod flow;
pub mod json;
pub mod leaf;
pub mod log;
pub mod path_utils;
pub mod plugin_abi;
pub mod plugin_cache;
pub mod process_utils;
pub mod text;
