//! The standard command framework.

pub mod parse;
