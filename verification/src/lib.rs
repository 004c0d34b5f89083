//! The core of a package manager front end that leaves package discovery to
//! pluggable resolver executables.
//!
//! The library holds every decision of that front end as verified code on plain
//! values: how a line of resolver output is classified, how the two output
//! streams of a resolver are drained, what a finished resolver run amounts to,
//! where a bundle is unpacked, and how each failure is reported. Starting
//! processes, reading pipes and unpacking archives is left to the caller, who
//! performs what the library asks for and hands back what happened.

pub mod config;
pub mod error;
pub mod location;
pub mod multiplexer;
pub mod process;
pub mod protocol;
pub mod resolver;
pub mod writer;
