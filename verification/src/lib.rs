//! Verified core of the opencode-cloud command line tool.
//!
//! The library holds the decisions, parsers and text renderers of the CLI;
//! the program around it performs the Docker, terminal and file system work.

pub mod text;
pub mod mounts;
pub mod disk_usage;
pub mod runtime;
pub mod sandbox;
pub mod logs;
pub mod users;
pub mod config;
pub mod iotp;
pub mod style;
pub mod update;
pub mod cli;
pub mod lifecycle;
pub mod cleanup;
pub mod status;
pub mod maintenance;
pub mod wizard;
pub mod errors;
pub mod host;
pub mod update_listener;
pub mod status_view;
pub mod notices;
pub mod container_mode;
pub mod laws;
