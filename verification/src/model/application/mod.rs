//! Application commands and interactions.

pub mod autocomplete;
pub mod interaction;
