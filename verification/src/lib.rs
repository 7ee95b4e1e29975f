//! A declarative command-line definition and parsing engine.
//!
//! A command tree is composed from [`command::Command`] nodes that own typed
//! flags and positional arguments. The same tree serves two purposes: running
//! a command line against it, and suggesting completions for a partially typed
//! line.

pub mod arg;
pub mod cli_error;
pub mod command;
pub mod completion;
pub mod exit;
pub mod flag;
pub mod help;
pub mod input;
pub mod parser;
pub mod request;
pub mod script;
pub mod symbol;
pub mod text;
pub mod value;
