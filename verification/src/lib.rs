//! A verified core for a desktop proxy supervisor.
//!
//! The library keeps a catalog of server nodes, renders and resolves the
//! external configuration file the managed proxy executable reads, classifies
//! running instances of that executable, and plans the operating-system
//! effects — process launch and kill commands, automatic-proxy (PAC) settings,
//! startup artifacts — that a thin unverified shell performs. Every function
//! here carries a contract checked by Verus; the shell owns the file, process
//! and registry I/O.

pub mod config;
pub mod desktop;
pub mod error;
pub mod laws;
pub mod log_level;
pub mod node;
pub mod pac;
pub mod proxy;
pub mod text;
pub mod trojan;
