//! Verified core of a high-performance port scanner: target parsing and CIDR
//! expansion, configuration validation, port-to-service identification,
//! probe-outcome classification, banner cleaning, result flattening and the
//! content of the terminal, CSV, JSON and HTML renderings.
//!
//! Network I/O, the async runtime, argument parsing and file output live in
//! the companion application crate under `app/`.

pub mod cli;
pub mod errors;
pub mod export;
pub mod html_output;
pub mod ip;
pub mod json_report;
pub mod output;
pub mod probes;
pub mod report;
pub mod scanner;
pub mod service;
pub mod targets;
pub mod terminal;
pub mod text;
pub mod tls;
