//! The fields to edit in a message that a webhook has sent.

use vstd::prelude::*;
use crate::builder::create_parts::{CreateAllowedMentions, CreateComponents, CreateEmbed};

verus! {

/// The fields to edit in an existing message of a webhook. A field that was
/// not set is left as it is.
#[derive(Debug)]
pub struct EditWebhookMessage {
    pub content: Option<String>,
    pub embeds: Option<Vec<CreateEmbed>>,
    pub allowed_mentions: Option<CreateAllowedMentions>,
    pub components: Option<CreateComponents>,
}

impl Default for EditWebhookMessage {
    fn default() -> (edit: Self)
        ensures
            edit.content is None,
            edit.embeds is None,
            edit.allowed_mentions is None,
            edit.components is None,
    {
        EditWebhookMessage { content: None, embeds: None, allowed_mentions: None, components: None }
    }
}

impl EditWebhookMessage {
    /// Sets the content of the message.
    pub fn content(&mut self, content: String) -> (this: &mut Self)
        ensures
            *this == (EditWebhookMessage { content: Some(content), ..*old(self) }),
            *final(self) == *final(this),
    {
        self.content = Some(content);
        self
    }

    /// Sets the embeds of the message.
    pub fn embeds(&mut self, embeds: Vec<CreateEmbed>) -> (this: &mut Self)
        ensures
            *this == (EditWebhookMessage { embeds: Some(embeds), ..*old(self) }),
            *final(self) == *final(this),
    {
        self.embeds = Some(embeds);
        self
    }

    /// Sets who may be notified by the mentions of the message.
    pub fn allowed_mentions(&mut self, allowed_mentions: CreateAllowedMentions) -> (this:
        &mut Self)
        ensures
            *this == (EditWebhookMessage {
                allowed_mentions: Some(allowed_mentions),
                ..*old(self)
            }),
            *final(self) == *final(this),
    {
        self.allowed_mentions = Some(allowed_mentions);
        self
    }

    /// Sets the components of the message.
    pub fn components(&mut self, components: CreateComponents) -> (this: &mut Self)
        ensures
            *this == (EditWebhookMessage { components: Some(components), ..*old(self) }),
            *final(self) == *final(this),
    {
        self.components = Some(components);
        self
    }
}

} // verus!
