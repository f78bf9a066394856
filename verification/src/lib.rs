//! The decision core of a batch text-formatter command.
//!
//! Documents are gathered from standard input or from a list of files,
//! handed to a formatting function, and routed to one of four output
//! destinations. This crate holds the part of that cycle that decides:
//! how command-line tokens resolve into a run configuration, how a
//! configuration file's presence or absence picks the active
//! configuration, what each output sink does with a formatted document,
//! and how per-document outcomes aggregate into the process exit status.
//! Reading, writing and the formatting function itself stay outside;
//! they hand plain values in and take plain values back.
pub mod args;
pub mod config;
pub mod run;
