//! Plain data records of the platform, as far as the library reads them.

pub mod application;
pub mod channel;
pub mod error;
pub mod event;
pub mod gateway;
pub mod guild;
pub mod id;
pub mod permissions;
pub mod snowflake;
pub mod timestamp;
pub mod user;
