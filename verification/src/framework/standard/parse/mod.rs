//! Parsing of commands.

pub mod map;
