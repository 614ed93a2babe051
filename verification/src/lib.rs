//! Command-line option parsing for the Agon emulator, verified.
//!
//! The library turns an argument vector (the process arguments without the
//! program name) into either a validated `AppArgs` configuration, a request
//! for the usage text, or a diagnostic describing why no configuration could
//! be produced.  All recognition, validation and defaulting logic lives here
//! and is specified by the spec-level interpreter `spec_parse`; reading the
//! real process arguments, printing, and exiting the process are left to the
//! surrounding binary.

pub mod config;
pub mod laws;
pub mod numeral;
pub mod parser;
pub mod strutil;
pub mod usage;
