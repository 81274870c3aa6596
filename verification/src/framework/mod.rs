//! Command frameworks.

pub mod standard;
