//! What a channel identifier can do by itself.

use vstd::prelude::*;
use vstd::string::{StrSliceExecFns, StringExecFns, StringSliceAdditionalSpecFns};
use crate::cache::Cache;
use crate::collector::aliases::{MessageCollectorBuilder, ReactionCollectorBuilder};
use crate::collector::collector_builder::CollectorBuilder;
use crate::collector::filter_options::{Limits, MessageFilterOptions, ReactionFilterOptions};
use crate::collector::predicate::AcceptAll;
use crate::model::channel::message::Message;
use crate::model::channel::Channel;
use crate::model::error::Error;
use crate::model::id::{ChannelId, MessageId};
use crate::model::snowflake::{append_decimal, decimal};

verus! {

impl ChannelId {
    /// The text that the platform shows as a link to the channel.
    pub fn mention(&self) -> (text: String)
        ensures
            text@ == "<#"@ + decimal(self@ as nat) + ">"@,
    {
        let mut text = String::new();
        text.append("<#");
        append_decimal(&mut text, self.get());
        text.append(">");
        assert(text@ =~= "<#"@ + decimal(self@ as nat) + ">"@);
        text
    }
}

/// The greatest number of characters that the content of a message may
/// have.
pub const MESSAGE_CODE_LIMIT: usize = 2000;

/// How messages are to be deleted.
#[derive(Debug)]
pub enum Deletion {
    /// One message, by the request for a single message.
    Single(MessageId),
    /// Several messages at once; the numbers of their identifiers.
    Bulk(Vec<u64>),
}

/// Which messages of a channel are asked for.
#[derive(Clone, Copy, Debug, PartialEq, Eq, Structural)]
pub enum SearchFilter {
    /// Those after a message.
    After(MessageId),
    /// Those around a message.
    Around(MessageId),
    /// Those before a message.
    Before(MessageId),
}

/// Where a channel is to be had from.
#[derive(Debug)]
pub enum ChannelSource<'a> {
    /// The cache holds it.
    Cached(&'a Channel),
    /// It has to be asked for.
    Fetch,
}

/// The numbers of a list of message identifiers.
pub open spec fn message_numbers(ids: Seq<MessageId>) -> Seq<u64> {
    ids.map_values(|id: MessageId| id@)
}

/// The query of a request for messages.
pub open spec fn spec_messages_query(limit: Option<u64>, filter: Option<SearchFilter>) -> Seq<char> {
    "?limit="@ + decimal(
        match limit {
            Some(limit) => limit as nat,
            None => 50,
        },
    ) + match filter {
        Some(SearchFilter::After(id)) => "&after="@ + decimal(id@ as nat),
        Some(SearchFilter::Around(id)) => "&around="@ + decimal(id@ as nat),
        Some(SearchFilter::Before(id)) => "&before="@ + decimal(id@ as nat),
        None => Seq::empty(),
    }
}

impl ChannelId {
    /// How the messages `ids` of this channel are to be deleted: one by the
    /// request for a single message, two to a hundred at once; none or more
    /// than a hundred is an error.
    pub fn plan_deletion(ids: &Vec<MessageId>) -> (plan: Result<Deletion, Error>)
        ensures
            match plan {
                Ok(Deletion::Single(id)) => ids@.len() == 1 && id == ids@[0],
                Ok(Deletion::Bulk(numbers)) => 2 <= ids@.len() <= 100 && numbers@
                    == message_numbers(ids@),
                Err(error) => (ids@.len() == 0 || ids@.len() > 100) && error
                    == Error::BulkDeleteAmount,
            },
    {
        let len = ids.len();
        if len == 0 || len > 100 {
            return Err(Error::BulkDeleteAmount);
        }
        if len == 1 {
            return Ok(Deletion::Single(ids[0]));
        }
        let mut numbers: Vec<u64> = Vec::new();
        let mut i: usize = 0;
        while i < ids.len()
            invariant
                i <= ids@.len(),
                numbers@ == message_numbers(ids@.take(i as int)),
            decreases ids@.len() - i,
        {
            numbers.push(ids[i].get());
            proof {
                assert(ids@.take(i + 1) == ids@.take(i as int).push(ids@[i as int]));
                assert(numbers@ =~= message_numbers(ids@.take(i + 1)));
            }
            i = i + 1;
        }
        proof {
            assert(ids@.take(i as int) == ids@);
        }
        Ok(Deletion::Bulk(numbers))
    }

    /// How many users who reacted are asked for: fifty if nothing is said,
    /// and never more than a hundred.
    pub fn reaction_users_limit(limit: Option<u8>) -> (asked: u8)
        ensures
            asked == match limit {
                Some(limit) => if limit > 100 {
                    100u8
                } else {
                    limit
                },
                None => 50u8,
            },
    {
        match limit {
            Some(limit) => if limit > 100 {
                100
            } else {
                limit
            },
            None => 50,
        }
    }

    /// Whether the name of a new webhook, if one is given, is two to a
    /// hundred bytes long.
    pub fn check_webhook_name(name: Option<&str>) -> (checked: Result<(), Error>)
        ensures
            checked == match name {
                Some(name) => if name.spec_bytes().len() < 2 {
                    Err::<(), Error>(Error::NameTooShort)
                } else if name.spec_bytes().len() > 100 {
                    Err::<(), Error>(Error::NameTooLong)
                } else {
                    Ok::<(), Error>(())
                },
                None => Ok::<(), Error>(()),
            },
    {
        match name {
            Some(name) => {
                let len = name.as_bytes().len();
                if len < 2 {
                    Err(Error::NameTooShort)
                } else if len > 100 {
                    Err(Error::NameTooLong)
                } else {
                    Ok(())
                }
            },
            None => Ok(()),
        }
    }

    /// By how many characters a content is too long, if it is.
    pub fn overflow_length(content: &str) -> (over: Option<usize>)
        ensures
            over == if content@.len() > MESSAGE_CODE_LIMIT {
                Some((content@.len() - MESSAGE_CODE_LIMIT) as usize)
            } else {
                None
            },
    {
        let count = content.unicode_len();
        if count > MESSAGE_CODE_LIMIT {
            Some(count - MESSAGE_CODE_LIMIT)
        } else {
            None
        }
    }

    /// Whether the content of an edit, if one is set, is short enough.
    pub fn check_content(content: &Option<String>) -> (checked: Result<(), Error>)
        ensures
            checked == match content {
                Some(content) => if content@.len() > MESSAGE_CODE_LIMIT {
                    Err::<(), Error>(
                        Error::MessageTooLong((content@.len() - MESSAGE_CODE_LIMIT) as usize),
                    )
                } else {
                    Ok::<(), Error>(())
                },
                None => Ok::<(), Error>(()),
            },
    {
        match content {
            Some(content) => match Self::overflow_length(content.as_str()) {
                Some(over) => Err(Error::MessageTooLong(over)),
                None => Ok(()),
            },
            None => Ok(()),
        }
    }

    /// The query of a request for messages: at most `limit` of them, fifty
    /// if nothing is said, and where a filter is given, those that it names.
    pub fn messages_query(limit: Option<u64>, filter: Option<SearchFilter>) -> (query: String)
        ensures
            query@ == spec_messages_query(limit, filter),
    {
        let mut query = String::from_str("?limit=");
        append_decimal(
            &mut query,
            match limit {
                Some(limit) => limit,
                None => 50,
            },
        );
        match filter {
            Some(SearchFilter::After(id)) => {
                query.append("&after=");
                append_decimal(&mut query, id.get());
            },
            Some(SearchFilter::Around(id)) => {
                query.append("&around=");
                append_decimal(&mut query, id.get());
            },
            Some(SearchFilter::Before(id)) => {
                query.append("&before=");
                append_decimal(&mut query, id.get());
            },
            None => {},
        }
        assert(query@ =~= spec_messages_query(limit, filter));
        query
    }

    /// The channel as the cache holds it, if it holds it.
    pub fn to_channel_cached(self, cache: &Cache) -> (found: Option<&Channel>)
        ensures
            match found {
                Some(channel) => channel.spec_id() == self && cache.channels().contains(*channel),
                None => !cache.holds(self),
            },
    {
        cache.channel(self)
    }

    /// Where the channel is to be had from: from the cache if there is one
    /// and it holds the channel, else by a request.
    pub fn to_channel<'a>(self, cache: Option<&'a Cache>) -> (source: ChannelSource<'a>)
        ensures
            match source {
                ChannelSource::Cached(channel) => cache matches Some(cache) && channel.spec_id()
                    == self && cache.channels().contains(*channel),
                ChannelSource::Fetch => cache matches Some(cache) ==> !cache.holds(self),
            },
    {
        match cache {
            Some(cache) => match cache.channel(self) {
                Some(channel) => ChannelSource::Cached(channel),
                None => ChannelSource::Fetch,
            },
            None => ChannelSource::Fetch,
        }
    }

    /// The name of the channel as the cache holds it: the name of a guild
    /// channel or a category, the name of the other user of a private
    /// channel.
    pub fn name(self, cache: &Cache) -> (name: Option<String>)
        ensures
            !cache.holds(self) <==> name is None,
            name matches Some(text) ==> exists|channel: Channel|
                #[trigger] cache.channels().contains(channel) && channel.spec_id() == self && text@
                    == match channel {
                    Channel::Guild(ch) => ch.name@,
                    Channel::Category(ch) => ch.name@,
                    Channel::Private(ch) => ch.recipient.name@,
                },
    {
        match self.to_channel_cached(cache) {
            Some(channel) => {
                let text = match channel {
                    Channel::Guild(ch) => String::from_str(ch.name()),
                    Channel::Category(ch) => String::from_str(ch.name()),
                    Channel::Private(ch) => ch.name(),
                };
                proof {
                    assert(cache.channels().contains(*channel));
                    let i = choose|i: int|
                        0 <= i < cache.channels().len() && cache.channels()[i] == *channel;
                    assert(cache.channels()[i].spec_id() == self);
                }
                Some(text)
            },
            None => None,
        }
    }

    /// A builder of a collector of the messages of this channel.
    pub fn reply_collector(&self) -> (builder: MessageCollectorBuilder<AcceptAll>)
        ensures
            builder.options() == (MessageFilterOptions {
                channel_id: Some(*self),
                guild_id: None,
                author_id: None,
            }),
            builder.limits() == (Limits { filter_limit: None, collect_limit: None }),
            builder.timeout_ms() is None,
    {
        CollectorBuilder::<Message, AcceptAll>::new().channel_id(*self)
    }

    /// A builder of a collector of the reactions in this channel.
    pub fn reaction_collector(&self) -> (builder: ReactionCollectorBuilder<AcceptAll>)
        ensures
            builder.options() == (ReactionFilterOptions {
                channel_id: Some(*self),
                guild_id: None,
                author_id: None,
                message_id: None,
                accept_added: true,
                accept_removed: false,
            }),
            builder.limits() == (Limits { filter_limit: None, collect_limit: None }),
            builder.timeout_ms() is None,
    {
        CollectorBuilder::<crate::collector::ReactionAction, AcceptAll>::new().channel_id(*self)
    }
}

/// Walks through the messages of a channel from the newest to the oldest,
/// a page at a time. The iterator decides what is to be asked for and takes
/// what was fetched; its caller does the asking.
#[derive(Debug)]
pub struct MessagesIter {
    channel_id: ChannelId,
    buffer: Vec<Message>,
    before: Option<MessageId>,
    tried_fetch: bool,
}

/// How many messages a page holds at most.
pub const GRAB_SIZE: u64 = 100;

impl MessagesIter {
    /// The channel.
    pub closed spec fn channel_id(&self) -> ChannelId {
        self.channel_id
    }

    /// The messages at hand; the last is handed out next.
    pub closed spec fn buffer(&self) -> Seq<Message> {
        self.buffer@
    }

    /// The message before which the next page is asked for.
    pub closed spec fn before(&self) -> Option<MessageId> {
        self.before
    }

    /// Whether a page was fetched yet.
    pub closed spec fn tried_fetch(&self) -> bool {
        self.tried_fetch
    }

    /// Whether a page is to be fetched before a message is handed out:
    /// before the first, and whenever none is at hand but the last page held
    /// some.
    pub open spec fn spec_needs_refresh(&self) -> bool {
        (self.buffer().len() == 0 && self.before() is Some) || !self.tried_fetch()
    }

    /// An iterator that has fetched nothing.
    pub fn new(channel_id: ChannelId) -> (iter: Self)
        ensures
            iter.channel_id() == channel_id,
            iter.buffer().len() == 0,
            iter.before() is None,
            !iter.tried_fetch(),
    {
        MessagesIter { channel_id, buffer: Vec::new(), before: None, tried_fetch: false }
    }

    /// Whether a page is to be fetched before a message is handed out.
    pub fn needs_refresh(&self) -> (needed: bool)
        ensures
            needed == self.spec_needs_refresh(),
    {
        (self.buffer.len() == 0 && self.before.is_some()) || !self.tried_fetch
    }

    /// The query by which the next page is asked for: a full page, before
    /// the oldest message seen so far.
    pub fn refresh_query(&self) -> (query: String)
        ensures
            query@ == spec_messages_query(
                Some(GRAB_SIZE),
                match self.before() {
                    Some(id) => Some(SearchFilter::Before(id)),
                    None => None,
                },
            ),
    {
        let filter = match self.before {
            Some(id) => Some(SearchFilter::Before(id)),
            None => None,
        };
        ChannelId::messages_query(Some(GRAB_SIZE), filter)
    }

    /// Takes a page as it was fetched, newest message first: the messages
    /// are at hand in reverse, so that the newest is handed out first, and
    /// the next page is asked for before the oldest of them.
    pub fn refresh(&mut self, fetched: Vec<Message>)
        ensures
            final(self).channel_id() == old(self).channel_id(),
            final(self).buffer() == fetched@.reverse(),
            final(self).before() == if fetched@.len() > 0 {
                Some(fetched@.last().id)
            } else {
                None
            },
            final(self).tried_fetch(),
    {
        let mut page = fetched;
        let ghost given = page@;
        let mut reversed: Vec<Message> = Vec::new();
        while page.len() > 0
            invariant
                page@.len() <= given.len(),
                page@ == given.take(page@.len() as int),
                reversed@ == given.skip(page@.len() as int).reverse(),
            decreases page@.len(),
        {
            let ghost n = page@.len() as int;
            let last = page.pop();
            if let Some(message) = last {
                reversed.push(message);
                proof {
                    assert(page@ == given.take(n - 1));
                    assert(given.skip(n - 1).reverse() =~= given.skip(n).reverse().push(
                        given[n - 1],
                    ));
                }
            }
        }
        proof {
            assert(given.skip(0) == given);
        }
        self.before = if reversed.len() > 0 {
            Some(reversed[0].id)
        } else {
            None
        };
        self.buffer = reversed;
        self.tried_fetch = true;
    }

    /// Hands out the next message at hand, if there is one.
    pub fn pop(&mut self) -> (next: Option<Message>)
        ensures
            final(self).channel_id() == old(self).channel_id(),
            final(self).before() == old(self).before(),
            final(self).tried_fetch() == old(self).tried_fetch(),
            match next {
                Some(message) => old(self).buffer().len() > 0 && message == old(
                    self,
                ).buffer().last() && final(self).buffer() == old(self).buffer().drop_last(),
                None => old(self).buffer().len() == 0 && final(self).buffer().len() == 0,
            },
    {
        self.buffer.pop()
    }
}

} // verus!
