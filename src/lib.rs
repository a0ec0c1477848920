//! A small faucet gateway in front of a blockchain node's command-line tool.
//!
//! The library decides what each HTTP operation does: which command line the
//! tool is run with, whether a caller is authorized, how the tool's exit status
//! and output become a result, and how a result becomes an HTTP response. The
//! process spawning and the HTTP server itself stand outside it.
pub mod command;
pub mod config;
pub mod error;
pub mod gateway;
