//! The fields to edit in an existing message.

use vstd::prelude::*;
use crate::builder::create_parts::{
    CreateAllowedMentions,
    CreateComponents,
    CreateEmbed,
    MessageFlags,
    SUPPRESS_EMBEDS,
};
use crate::model::channel::attachment_type::AttachmentType;
use crate::model::id::AttachmentId;

verus! {

/// The fields to edit in an existing message. A field that was not set is
/// left as it is.
#[derive(Debug)]
pub struct EditMessage {
    pub content: Option<String>,
    pub embeds: Option<Vec<CreateEmbed>>,
    pub flags: Option<MessageFlags>,
    pub allowed_mentions: Option<CreateAllowedMentions>,
    pub components: Option<CreateComponents>,
    pub attachments: Option<Vec<AttachmentId>>,
    pub files: Vec<AttachmentType>,
}

/// The embeds that are set, none if the field was not set.
pub open spec fn embeds_of(embeds: Option<Vec<CreateEmbed>>) -> Seq<CreateEmbed> {
    match embeds {
        Some(list) => list@,
        None => Seq::empty(),
    }
}

/// The attachments that are kept, none if the field was not set.
pub open spec fn kept_of(attachments: Option<Vec<AttachmentId>>) -> Seq<AttachmentId> {
    match attachments {
        Some(list) => list@,
        None => Seq::empty(),
    }
}

/// The place of the first `wanted` in `list`, or the length of the list if
/// there is none.
pub open spec fn first_index(list: Seq<AttachmentId>, wanted: AttachmentId) -> int
    decreases list.len(),
{
    if list.len() == 0 {
        0
    } else if list[0] == wanted {
        0
    } else {
        1 + first_index(list.drop_first(), wanted)
    }
}

/// Where [`first_index`] points: at the first `wanted`, before which there
/// is none, or behind the list.
pub proof fn lemma_first_index(list: Seq<AttachmentId>, wanted: AttachmentId)
    ensures
        0 <= first_index(list, wanted) <= list.len(),
        first_index(list, wanted) < list.len() ==> list[first_index(list, wanted)] == wanted,
        forall|i: int| 0 <= i < first_index(list, wanted) ==> list[i] != wanted,
    decreases list.len(),
{
    if list.len() > 0 && list[0] != wanted {
        lemma_first_index(list.drop_first(), wanted);
        assert forall|i: int| 0 <= i < first_index(list, wanted) implies list[i] != wanted by {
            if i > 0 {
                assert(list[i] == list.drop_first()[i - 1]);
            }
        }
    }
}

impl Default for EditMessage {
    fn default() -> (edit: Self)
        ensures
            edit.content is None,
            edit.embeds is None,
            edit.flags is None,
            edit.allowed_mentions is None,
            edit.components is None,
            edit.attachments is None,
            edit.files@.len() == 0,
    {
        EditMessage {
            content: None,
            embeds: None,
            flags: None,
            allowed_mentions: None,
            components: None,
            attachments: None,
            files: Vec::new(),
        }
    }
}

impl EditMessage {
    /// Whether `other` is this edit but for its embeds.
    pub open spec fn same_but_embeds(&self, other: &Self) -> bool {
        &&& self.content == other.content
        &&& self.flags == other.flags
        &&& self.allowed_mentions == other.allowed_mentions
        &&& self.components == other.components
        &&& self.attachments == other.attachments
        &&& self.files == other.files
    }

    /// Whether `other` is this edit but for the attachments it keeps.
    pub open spec fn same_but_attachments(&self, other: &Self) -> bool {
        &&& self.content == other.content
        &&& self.embeds == other.embeds
        &&& self.flags == other.flags
        &&& self.allowed_mentions == other.allowed_mentions
        &&& self.components == other.components
        &&& self.files == other.files
    }

    /// Sets the content of the message.
    pub fn content(&mut self, content: String) -> (this: &mut Self)
        ensures
            *this == (EditMessage { content: Some(content), ..*old(self) }),
            *final(self) == *final(this),
    {
        self.content = Some(content);
        self
    }

    /// Adds an embed and keeps those that were set.
    pub fn add_embed(&mut self, embed: CreateEmbed) -> (this: &mut Self)
        ensures
            this.embeds is Some,
            embeds_of(this.embeds) == embeds_of(old(self).embeds).push(embed),
            this.same_but_embeds(old(self)),
            *final(self) == *final(this),
    {
        let mut embeds = match self.embeds.take() {
            Some(list) => list,
            None => Vec::new(),
        };
        embeds.push(embed);
        self.embeds = Some(embeds);
        self
    }

    /// Adds embeds and keeps those that were set.
    pub fn add_embeds(&mut self, embeds: Vec<CreateEmbed>) -> (this: &mut Self)
        ensures
            this.embeds is Some,
            embeds_of(this.embeds) == embeds_of(old(self).embeds) + embeds@,
            this.same_but_embeds(old(self)),
            *final(self) == *final(this),
    {
        let mut all = match self.embeds.take() {
            Some(list) => list,
            None => Vec::new(),
        };
        let mut more = embeds;
        all.append(&mut more);
        self.embeds = Some(all);
        self
    }

    /// Sets one embed in the place of all that were set.
    pub fn embed(&mut self, embed: CreateEmbed) -> (this: &mut Self)
        ensures
            this.embeds is Some,
            embeds_of(this.embeds) == seq![embed],
            this.same_but_embeds(old(self)),
            *final(self) == *final(this),
    {
        self.set_embed(embed)
    }

    /// Sets one embed in the place of all that were set.
    pub fn set_embed(&mut self, embed: CreateEmbed) -> (this: &mut Self)
        ensures
            this.embeds is Some,
            embeds_of(this.embeds) == seq![embed],
            this.same_but_embeds(old(self)),
            *final(self) == *final(this),
    {
        let mut embeds: Vec<CreateEmbed> = Vec::new();
        embeds.push(embed);
        self.set_embeds(embeds)
    }

    /// Sets embeds in the place of all that were set.
    pub fn set_embeds(&mut self, embeds: Vec<CreateEmbed>) -> (this: &mut Self)
        ensures
            *this == (EditMessage { embeds: Some(embeds), ..*old(self) }),
            *final(self) == *final(this),
    {
        self.embeds = Some(embeds);
        self
    }

    /// Keeps embeds from being shown, or lets them be shown again. This is
    /// the only flag that an edit can set, so the flags are either that one or
    /// none.
    pub fn suppress_embeds(&mut self, suppress: bool) -> (this: &mut Self)
        ensures
            *this == (EditMessage {
                flags: Some(
                    MessageFlags {
                        bits: if suppress {
                            SUPPRESS_EMBEDS
                        } else {
                            0
                        },
                    },
                ),
                ..*old(self)
            }),
            *final(self) == *final(this),
    {
        let flags = if suppress {
            MessageFlags { bits: SUPPRESS_EMBEDS }
        } else {
            MessageFlags::empty()
        };
        self.flags = Some(flags);
        self
    }

    /// Sets who may be notified by the mentions of the message.
    pub fn allowed_mentions(&mut self, allowed_mentions: CreateAllowedMentions) -> (this:
        &mut Self)
        ensures
            *this == (EditMessage { allowed_mentions: Some(allowed_mentions), ..*old(self) }),
            *final(self) == *final(this),
    {
        self.allowed_mentions = Some(allowed_mentions);
        self
    }

    /// Sets the components of the message.
    pub fn components(&mut self, components: CreateComponents) -> (this: &mut Self)
        ensures
            *this == (EditMessage { components: Some(components), ..*old(self) }),
            *final(self) == *final(this),
    {
        self.set_components(components)
    }

    /// Sets the components of the message.
    pub fn set_components(&mut self, components: CreateComponents) -> (this: &mut Self)
        ensures
            *this == (EditMessage { components: Some(components), ..*old(self) }),
            *final(self) == *final(this),
    {
        self.components = Some(components);
        self
    }

    /// Sets the flags of the message.
    pub fn flags(&mut self, flags: MessageFlags) -> (this: &mut Self)
        ensures
            *this == (EditMessage { flags: Some(flags), ..*old(self) }),
            *final(self) == *final(this),
    {
        self.flags = Some(flags);
        self
    }

    /// Adds a new attachment; this can be done several times.
    pub fn attachment(&mut self, attachment: AttachmentType) -> (this: &mut Self)
        ensures
            this.files@ == old(self).files@.push(attachment),
            this.same_but_embeds(&EditMessage { files: this.files, ..*old(self) }),
            this.embeds == old(self).embeds,
            *final(self) == *final(this),
    {
        self.files.push(attachment);
        self
    }

    /// Keeps an attachment that the message has.
    pub fn add_existing_attachment(&mut self, attachment: AttachmentId) -> (this: &mut Self)
        ensures
            this.attachments is Some,
            kept_of(this.attachments) == kept_of(old(self).attachments).push(attachment),
            this.same_but_attachments(old(self)),
            *final(self) == *final(this),
    {
        let mut kept = match self.attachments.take() {
            Some(list) => list,
            None => Vec::new(),
        };
        kept.push(attachment);
        self.attachments = Some(kept);
        self
    }

    /// No longer keeps an attachment: takes the first mention of it from
    /// the list of those that are kept. Where the list was not set or does
    /// not hold the attachment, nothing changes.
    pub fn remove_existing_attachment(&mut self, attachment: AttachmentId) -> (this: &mut Self)
        ensures
            this.attachments is Some == old(self).attachments is Some,
            kept_of(this.attachments) == if first_index(kept_of(old(self).attachments), attachment)
                < kept_of(old(self).attachments).len() {
                kept_of(old(self).attachments).remove(
                    first_index(kept_of(old(self).attachments), attachment),
                )
            } else {
                kept_of(old(self).attachments)
            },
            this.same_but_attachments(old(self)),
            *final(self) == *final(this),
    {
        if let Some(mut kept) = self.attachments.take() {
            let ghost before = kept@;
            let mut i: usize = 0;
            proof {
                lemma_first_index(before, attachment);
            }
            while i < kept.len() && kept[i] != attachment
                invariant
                    kept@ == before,
                    i <= kept@.len(),
                    forall|j: int| 0 <= j < i ==> kept@[j] != attachment,
                decreases kept@.len() - i,
            {
                i = i + 1;
            }
            if i < kept.len() {
                kept.remove(i);
            }
            self.attachments = Some(kept);
        }
        self
    }
}

} // verus!
