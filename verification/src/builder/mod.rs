//! Builders of what is sent to the platform.

pub mod create_parts;
pub mod edit_message;
pub mod edit_webhook_message;
pub mod set_activity;

pub use create_parts::{CreateAllowedMentions, CreateComponents, CreateEmbed, MessageFlags};
pub use edit_message::EditMessage;
pub use edit_webhook_message::EditWebhookMessage;
pub use set_activity::{ActivityBuilder, PresenceBuilder};
