//! What the library knows of the platform's REST interface.

pub mod routing;

pub use routing::{RatelimitingBucket, Route};
