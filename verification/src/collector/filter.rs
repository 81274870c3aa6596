//! The filter of one subscription: it counts the items it is shown, tests
//! each against its constraints, forwards the accepted ones through its
//! channel, and says after each whether it is to stay registered.

use std::sync::Arc;
use tokio::sync::mpsc::{UnboundedReceiver, UnboundedSender};
use vstd::prelude::*;
use crate::collector::channel::deliver;
use crate::collector::collectable::Collectable;
use crate::collector::filter_options::{
    CommonFilterOptions,
    ComponentFilterOptions,
    EventFilterOptions,
    Limits,
    MessageFilterOptions,
    ModalFilterOptions,
    ReactionFilterOptions,
};
use crate::collector::lazy_item::{LazyArc, LazyItem, LazyReactionAction};
use crate::collector::predicate::ItemPredicate;
use crate::collector::{share, ReactionAction};
use crate::model::application::interaction::{ComponentInteraction, ModalSubmitInteraction};
use crate::model::channel::message::Message;
use crate::model::channel::reaction::Reaction;
use crate::model::event::{Event, EventType, RelatedId};
use crate::model::id::{ChannelId, GuildId, MessageId, UserId};

verus! {

/// The two counters of a filter.
#[derive(Clone, Copy, Debug, PartialEq, Eq, Structural)]
pub struct Counters {
    /// How many items the filter has examined to the end.
    pub filtered: u32,
    /// How many items the filter has accepted.
    pub collected: u32,
}

/// What happened to one item that a filter was shown.
#[derive(Clone, Copy, Debug, PartialEq, Eq, Structural)]
pub struct Outcome {
    /// The item passed every constraint.
    pub passed: bool,
    /// The item was put on the channel. Only an item that passed is sent.
    pub delivered: bool,
    /// The channel was still open afterwards.
    pub open: bool,
}

/// One more, but never past the largest number a counter can hold.
pub open spec fn bump(n: u32) -> u32 {
    if n < u32::MAX {
        (n + 1) as u32
    } else {
        n
    }
}

impl Outcome {
    /// The item passed, but the channel refused it.
    pub open spec fn refused(self) -> bool {
        self.passed && !self.delivered
    }
}

impl Counters {
    /// The counters after one more item: an accepted item counts as
    /// collected; every item counts as filtered, except one that the channel
    /// refused, at which the filter stops at once.
    pub open spec fn after(self, outcome: Outcome) -> Counters {
        Counters {
            filtered: if outcome.refused() {
                self.filtered
            } else {
                bump(self.filtered)
            },
            collected: if outcome.passed {
                bump(self.collected)
            } else {
                self.collected
            },
        }
    }
}

/// Whether a filter with caps `limits` whose counters stood at `before`
/// stays registered after an item with `outcome`: the channel took what was
/// sent, the new counters are below every cap, and the channel is open.
pub open spec fn keeps(limits: Limits, before: Counters, outcome: Outcome) -> bool {
    let now = before.after(outcome);
    !outcome.refused() && limits.admits(now.filtered, now.collected) && outcome.open
}

/// Where a filter stands after it was shown a sequence of items, each only
/// while the filter was still registered.
pub struct Run {
    /// The filter's counters.
    pub counters: Counters,
    /// Whether the filter is still registered.
    pub registered: bool,
    /// How many of the items the filter was shown.
    pub examined: nat,
    /// How many items went onto the channel.
    pub sent: nat,
}

/// The run of a filter with caps `limits` whose counters stand at `start`
/// over items with `outcomes`. An item that comes after the filter has said
/// that it is to be deregistered is never shown to it.
pub open spec fn run_from(limits: Limits, start: Counters, outcomes: Seq<Outcome>) -> Run
    decreases outcomes.len(),
{
    if outcomes.len() == 0 {
        Run { counters: start, registered: true, examined: 0, sent: 0 }
    } else {
        let before = run_from(limits, start, outcomes.drop_last());
        let outcome = outcomes.last();
        if before.registered {
            Run {
                counters: before.counters.after(outcome),
                registered: keeps(limits, before.counters, outcome),
                examined: before.examined + 1,
                sent: if outcome.passed && outcome.delivered {
                    before.sent + 1
                } else {
                    before.sent
                },
            }
        } else {
            before
        }
    }
}

/// The run of a new filter with caps `limits` over items with `outcomes`.
pub open spec fn run(limits: Limits, outcomes: Seq<Outcome>) -> Run {
    run_from(limits, Counters { filtered: 0, collected: 0 }, outcomes)
}

/// A filter with a cap of `cap` accepted items never puts more than `cap`
/// items on its channel, whatever items it is shown and whatever becomes of
/// them; and it accepts no more than `cap`.
pub proof fn lemma_collect_limit_bounds_sent(limits: Limits, cap: u32, outcomes: Seq<Outcome>)
    requires
        limits.collect_limit == Some(cap),
        cap > 0,
    ensures
        run(limits, outcomes).sent <= run(limits, outcomes).counters.collected <= cap,
        run(limits, outcomes).registered ==> run(limits, outcomes).counters.collected < cap,
    decreases outcomes.len(),
{
    if outcomes.len() > 0 {
        lemma_collect_limit_bounds_sent(limits, cap, outcomes.drop_last());
    }
}

/// A filter with a cap of `cap` examined items is deregistered at the
/// `cap`-th item it is shown at the latest: it is never shown more than `cap`
/// items, and once `cap` items have been dispatched it is no longer
/// registered.
pub proof fn lemma_filter_limit_deregisters(limits: Limits, cap: u32, outcomes: Seq<Outcome>)
    requires
        limits.filter_limit == Some(cap),
        cap > 0,
    ensures
        run(limits, outcomes).examined <= cap,
        run(limits, outcomes).registered ==> run(limits, outcomes).examined == outcomes.len()
            && run(limits, outcomes).counters.filtered == outcomes.len(),
        outcomes.len() >= cap ==> !run(limits, outcomes).registered,
    decreases outcomes.len(),
{
    if outcomes.len() > 0 {
        lemma_filter_limit_deregisters(limits, cap, outcomes.drop_last());
    }
}

/// Decides for one subscription which items reach its collector.
#[verifier::reject_recursive_types(Item)]
pub struct Filter<Item: Collectable, P> {
    pub(crate) filtered: u32,
    pub(crate) collected: u32,
    pub(crate) sender: UnboundedSender<Arc<Item>>,
    pub(crate) options: Item::FilterOptions,
    pub(crate) common_options: CommonFilterOptions<P>,
}

/// The constraint test of the filters of one kind.
pub trait FilterTrait<Item: Collectable> {
    /// Whether `verdict` is a verdict that the filter may reach on `item`:
    /// `false` where a declarative constraint fails, else an answer of the
    /// custom predicate.
    spec fn may_pass(&self, item: &Item::Lazy<'_>, verdict: bool) -> bool;

    /// Tests the borrowed `item` against the constraints of the kind, then
    /// against the identifier constraints, then against the custom
    /// predicate, and stops at the first that fails.
    fn is_passing_constraints(&self, item: &Item::Lazy<'_>) -> (verdict: bool)
        ensures
            self.may_pass(item, verdict),
    ;
}

impl<Item: Collectable, P> Filter<Item, P> {
    /// The two counters.
    pub closed spec fn counters(&self) -> Counters {
        Counters { filtered: self.filtered, collected: self.collected }
    }

    /// The declarative constraints.
    pub closed spec fn options(&self) -> Item::FilterOptions {
        self.options
    }

    /// The caps and the custom predicate.
    pub closed spec fn common(&self) -> CommonFilterOptions<P> {
        self.common_options
    }

    /// The sending half of the channel.
    pub closed spec fn sender(&self) -> UnboundedSender<Arc<Item>> {
        self.sender
    }

    /// The caps.
    pub open spec fn limits(&self) -> Limits {
        self.common().limits()
    }

    /// The custom predicate.
    pub open spec fn predicate(&self) -> P {
        self.common().predicate()
    }

    /// Whether `other` is this filter but for its counters.
    pub open spec fn same_subscription(&self, other: &Self) -> bool {
        &&& self.options() == other.options()
        &&& self.common() == other.common()
        &&& self.sender() == other.sender()
    }

    /// A filter that has seen nothing, and the receiving half of its
    /// channel.
    pub fn new(options: Item::FilterOptions, common_options: CommonFilterOptions<P>) -> (made: (
        Self,
        UnboundedReceiver<Arc<Item>>,
    ))
        ensures
            made.0.counters() == (Counters { filtered: 0, collected: 0 }),
            made.0.options() == options,
            made.0.common() == common_options,
    {
        let (sender, receiver) = tokio::sync::mpsc::unbounded_channel();
        let filter = Filter { filtered: 0, collected: 0, sender, options, common_options };
        (filter, receiver)
    }

    /// How many items the filter has examined to the end.
    pub fn filtered(&self) -> (count: u32)
        ensures
            count == self.counters().filtered,
    {
        self.filtered
    }

    /// How many items the filter has accepted.
    pub fn collected(&self) -> (count: u32)
        ensures
            count == self.counters().collected,
    {
        self.collected
    }

    /// Whether both counters are strictly below their caps.
    pub fn is_within_limits(&self) -> (within: bool)
        ensures
            within == self.limits().admits(self.counters().filtered, self.counters().collected),
    {
        self.common_options.is_within_limits(self.filtered, self.collected)
    }

    /// Books one item with the given `outcome`: moves the counters on and
    /// says whether the filter stays registered.
    pub fn settle(&mut self, outcome: Outcome) -> (keep: bool)
        ensures
            final(self).counters() == old(self).counters().after(outcome),
            keep == keeps(old(self).limits(), old(self).counters(), outcome),
            final(self).same_subscription(old(self)),
    {
        if outcome.passed {
            if self.collected < u32::MAX {
                self.collected = self.collected + 1;
            }
            if !outcome.delivered {
                return false;
            }
        }
        if self.filtered < u32::MAX {
            self.filtered = self.filtered + 1;
        }
        self.is_within_limits() && outcome.open
    }
}

impl<Item: Collectable, P> Filter<Item, P> where Filter<Item, P>: FilterTrait<Item> {
    /// Whether `outcome` can be what happens to `item` at this filter: its
    /// verdict is one that the constraints may reach, and only what passed
    /// is delivered.
    pub open spec fn may_end(&self, item: &Item::Lazy<'_>, outcome: Outcome) -> bool {
        self.may_pass(item, outcome.passed) && (outcome.delivered ==> outcome.passed)
    }

    /// Shows `item` to the filter. If the item passes the constraints it is
    /// promoted and sent to the collector. The result says whether the
    /// filter is to stay registered: `false` when the channel refused the
    /// item, when a cap is reached, or when the channel is closed.
    pub fn process_item(&mut self, item: Item::Lazy<'_>) -> (keep: bool)
        ensures
            final(self).same_subscription(old(self)),
            exists|outcome: Outcome| #[trigger]
                old(self).may_end(&item, outcome) && final(self).counters() == old(
                    self,
                ).counters().after(outcome) && keep == keeps(
                    old(self).limits(),
                    old(self).counters(),
                    outcome,
                ),
    {
        let mut lazy = item;
        let passed = self.is_passing_constraints(&lazy);
        let delivered = if passed {
            deliver(&self.sender, share(lazy.as_arc()))
        } else {
            false
        };
        let open = !self.sender.is_closed();
        let outcome = Outcome { passed, delivered, open };
        let keep = self.settle(outcome);
        proof {
            assert(old(self).may_end(&item, outcome));
        }
        keep
    }
}

/// Whether one of the `wanted` identifiers is the one that an event
/// carries. An empty list wants nothing and is met by every event.
pub open spec fn related_matches(wanted: Seq<u64>, carried: RelatedId) -> bool {
    wanted.len() == 0 || exists|i: int|
        0 <= i < wanted.len() && carried.spec_contains(#[trigger] wanted[i])
}

/// Whether an allow-list of custom identifiers, if there is one, holds
/// `custom_id`.
pub open spec fn custom_id_allowed(allowed: Option<Vec<String>>, custom_id: String) -> bool {
    allowed matches Some(ids) ==> exists|i: int|
        0 <= i < ids@.len() && (#[trigger] ids@[i])@ == custom_id@
}

/// The declarative constraints of a message filter.
pub open spec fn message_constraints(options: MessageFilterOptions, message: Message) -> bool {
    &&& options.guild_id matches Some(id) ==> message.guild_id == Some(id)
    &&& options.channel_id matches Some(id) ==> id == message.channel_id
    &&& options.author_id matches Some(id) ==> id == message.author.id
}

/// The declarative constraints of a reaction filter: first the direction of
/// the change, then the identifiers.
pub open spec fn reaction_constraints(
    options: ReactionFilterOptions,
    reaction: Reaction,
    added: bool,
) -> bool {
    &&& if added {
        options.accept_added
    } else {
        options.accept_removed
    }
    &&& options.guild_id matches Some(id) ==> reaction.guild_id == Some(id)
    &&& options.message_id matches Some(id) ==> id == reaction.message_id
    &&& options.channel_id matches Some(id) ==> id == reaction.channel_id
    &&& options.author_id matches Some(id) ==> reaction.user_id == Some(id)
}

/// The declarative constraints of a component interaction filter.
pub open spec fn component_constraints(
    options: ComponentFilterOptions,
    interaction: ComponentInteraction,
) -> bool {
    &&& options.guild_id matches Some(id) ==> interaction.guild_id == Some(id)
    &&& custom_id_allowed(options.custom_ids, interaction.data.custom_id)
    &&& options.message_id matches Some(id) ==> id == interaction.message.id
    &&& options.channel_id matches Some(id) ==> id == interaction.channel_id
    &&& options.author_id matches Some(id) ==> id == interaction.user.id
}

/// The declarative constraints of a modal submission filter.
pub open spec fn modal_constraints(
    options: ModalFilterOptions,
    interaction: ModalSubmitInteraction,
) -> bool {
    &&& options.guild_id matches Some(id) ==> interaction.guild_id == Some(id)
    &&& custom_id_allowed(options.custom_ids, interaction.data.custom_id)
    &&& options.message_id matches Some(id) ==> (interaction.message matches Some(message)
        && message.id == id)
    &&& options.channel_id matches Some(id) ==> id == interaction.channel_id
    &&& options.author_id matches Some(id) ==> id == interaction.user.id
}

/// The declarative constraints of a raw-event filter: the type of the event
/// is on the allow-list, and for each kind of identifier the list of wanted
/// identifiers is empty or names the one that the event carries.
pub open spec fn event_constraints(options: EventFilterOptions, event: Event) -> bool {
    &&& options.event_types@.contains(event.spec_event_type())
    &&& related_matches(guild_numbers(options.guild_id@), event.spec_guild_id())
    &&& related_matches(user_numbers(options.user_id@), event.spec_user_id())
    &&& related_matches(channel_numbers(options.channel_id@), event.spec_channel_id())
    &&& related_matches(message_numbers(options.message_id@), event.spec_message_id())
}

/// Whether a constraint on the channel identifier, if there is one, names
/// `actual`.
fn channel_is(wanted: Option<ChannelId>, actual: ChannelId) -> (ok: bool)
    ensures
        ok == (wanted matches Some(id) ==> id == actual),
{
    match wanted {
        Some(id) => id == actual,
        None => true,
    }
}

/// Whether a constraint on the message identifier, if there is one, names
/// `actual`.
fn message_is(wanted: Option<MessageId>, actual: MessageId) -> (ok: bool)
    ensures
        ok == (wanted matches Some(id) ==> id == actual),
{
    match wanted {
        Some(id) => id == actual,
        None => true,
    }
}

/// Whether a constraint on the user identifier, if there is one, names
/// `actual`.
fn user_is(wanted: Option<UserId>, actual: UserId) -> (ok: bool)
    ensures
        ok == (wanted matches Some(id) ==> id == actual),
{
    match wanted {
        Some(id) => id == actual,
        None => true,
    }
}

/// Whether a constraint on the guild identifier, if there is one, names the
/// identifier that is there.
fn guild_is_some(wanted: Option<GuildId>, actual: Option<GuildId>) -> (ok: bool)
    ensures
        ok == (wanted matches Some(id) ==> actual == Some(id)),
{
    match wanted {
        Some(id) => match actual {
            Some(own) => id == own,
            None => false,
        },
        None => true,
    }
}

/// Whether a constraint on the user identifier, if there is one, names the
/// identifier that is there.
fn user_is_some(wanted: Option<UserId>, actual: Option<UserId>) -> (ok: bool)
    ensures
        ok == (wanted matches Some(id) ==> actual == Some(id)),
{
    match wanted {
        Some(id) => match actual {
            Some(own) => id == own,
            None => false,
        },
        None => true,
    }
}

/// Whether `text` is one of `list`.
fn holds_text(list: &Vec<String>, text: &String) -> (found: bool)
    ensures
        found == exists|i: int| 0 <= i < list@.len() && (#[trigger] list@[i])@ == text@,
{
    let mut i: usize = 0;
    while i < list.len()
        invariant
            i <= list.len(),
            forall|j: int| 0 <= j < i ==> (#[trigger] list@[j])@ != text@,
        decreases list.len() - i,
    {
        if list[i] == *text {
            assert((#[trigger] list@[i as int])@ == text@);
            return true;
        }
        i = i + 1;
    }
    false
}

/// Whether an allow-list of custom identifiers, if there is one, holds
/// `custom_id`.
fn is_custom_id_allowed(allowed: &Option<Vec<String>>, custom_id: &String) -> (ok: bool)
    ensures
        ok == custom_id_allowed(*allowed, *custom_id),
{
    match allowed {
        None => true,
        Some(ids) => holds_text(ids, custom_id),
    }
}

/// Whether `kind` is on the allow-list.
fn is_type_allowed(allowed: &Vec<EventType>, kind: EventType) -> (ok: bool)
    ensures
        ok == allowed@.contains(kind),
{
    let mut i: usize = 0;
    while i < allowed.len()
        invariant
            i <= allowed.len(),
            forall|j: int| 0 <= j < i ==> allowed@[j] != kind,
        decreases allowed.len() - i,
    {
        if allowed[i] == kind {
            assert(allowed@[i as int] == kind);
            return true;
        }
        i = i + 1;
    }
    false
}

/// The numbers of a list of guild identifiers.
pub open spec fn guild_numbers(ids: Seq<GuildId>) -> Seq<u64> {
    ids.map_values(|id: GuildId| id@)
}

/// Whether the list of wanted guild identifiers is empty or names the
/// identifier that the event carries.
fn any_guild_related(wanted: &Vec<GuildId>, carried: RelatedId) -> (ok: bool)
    ensures
        ok == related_matches(guild_numbers(wanted@), carried),
{
    if wanted.len() == 0 {
        return true;
    }
    let mut i: usize = 0;
    while i < wanted.len()
        invariant
            i <= wanted.len(),
            forall|j: int| 0 <= j < i ==> !carried.spec_contains(#[trigger] guild_numbers(wanted@)[j]),
        decreases wanted.len() - i,
    {
        if carried.contains(wanted[i].get()) {
            assert(carried.spec_contains(guild_numbers(wanted@)[i as int]));
            return true;
        }
        i = i + 1;
    }
    false
}

/// The numbers of a list of user identifiers.
pub open spec fn user_numbers(ids: Seq<UserId>) -> Seq<u64> {
    ids.map_values(|id: UserId| id@)
}

/// Whether the list of wanted user identifiers is empty or names the
/// identifier that the event carries.
fn any_user_related(wanted: &Vec<UserId>, carried: RelatedId) -> (ok: bool)
    ensures
        ok == related_matches(user_numbers(wanted@), carried),
{
    if wanted.len() == 0 {
        return true;
    }
    let mut i: usize = 0;
    while i < wanted.len()
        invariant
            i <= wanted.len(),
            forall|j: int| 0 <= j < i ==> !carried.spec_contains(#[trigger] user_numbers(wanted@)[j]),
        decreases wanted.len() - i,
    {
        if carried.contains(wanted[i].get()) {
            assert(carried.spec_contains(user_numbers(wanted@)[i as int]));
            return true;
        }
        i = i + 1;
    }
    false
}

/// The numbers of a list of channel identifiers.
pub open spec fn channel_numbers(ids: Seq<ChannelId>) -> Seq<u64> {
    ids.map_values(|id: ChannelId| id@)
}

/// Whether the list of wanted channel identifiers is empty or names the
/// identifier that the event carries.
fn any_channel_related(wanted: &Vec<ChannelId>, carried: RelatedId) -> (ok: bool)
    ensures
        ok == related_matches(channel_numbers(wanted@), carried),
{
    if wanted.len() == 0 {
        return true;
    }
    let mut i: usize = 0;
    while i < wanted.len()
        invariant
            i <= wanted.len(),
            forall|j: int| 0 <= j < i ==> !carried.spec_contains(#[trigger] channel_numbers(wanted@)[j]),
        decreases wanted.len() - i,
    {
        if carried.contains(wanted[i].get()) {
            assert(carried.spec_contains(channel_numbers(wanted@)[i as int]));
            return true;
        }
        i = i + 1;
    }
    false
}

/// The numbers of a list of message identifiers.
pub open spec fn message_numbers(ids: Seq<MessageId>) -> Seq<u64> {
    ids.map_values(|id: MessageId| id@)
}

/// Whether the list of wanted message identifiers is empty or names the
/// identifier that the event carries.
fn any_message_related(wanted: &Vec<MessageId>, carried: RelatedId) -> (ok: bool)
    ensures
        ok == related_matches(message_numbers(wanted@), carried),
{
    if wanted.len() == 0 {
        return true;
    }
    let mut i: usize = 0;
    while i < wanted.len()
        invariant
            i <= wanted.len(),
            forall|j: int| 0 <= j < i ==> !carried.spec_contains(#[trigger] message_numbers(wanted@)[j]),
        decreases wanted.len() - i,
    {
        if carried.contains(wanted[i].get()) {
            assert(carried.spec_contains(message_numbers(wanted@)[i as int]));
            return true;
        }
        i = i + 1;
    }
    false
}

impl<P: ItemPredicate<Reaction>> FilterTrait<ReactionAction> for Filter<ReactionAction, P> {
    open spec fn may_pass(&self, item: &LazyReactionAction<'_>, verdict: bool) -> bool {
        if reaction_constraints(self.options(), item.reaction(), item.added()) {
            self.predicate().may_answer(&item.reaction(), verdict)
        } else {
            !verdict
        }
    }

    fn is_passing_constraints(&self, item: &LazyReactionAction<'_>) -> (verdict: bool) {
        let accepted = if item.is_added() {
            self.options.accept_added
        } else {
            self.options.accept_removed
        };
        if !accepted {
            return false;
        }
        let reaction = item.get();
        guild_is_some(self.options.guild_id, reaction.guild_id) && message_is(
            self.options.message_id,
            reaction.message_id,
        ) && channel_is(self.options.channel_id, reaction.channel_id) && user_is_some(
            self.options.author_id,
            reaction.user_id,
        ) && self.common_options.filter().test(reaction)
    }
}

impl<P: ItemPredicate<ComponentInteraction>> FilterTrait<ComponentInteraction> for Filter<
    ComponentInteraction,
    P,
> {
    open spec fn may_pass(&self, item: &LazyArc<'_, ComponentInteraction>, verdict: bool) -> bool {
        if component_constraints(self.options(), item.value()) {
            self.predicate().may_answer(&item.value(), verdict)
        } else {
            !verdict
        }
    }

    fn is_passing_constraints(&self, item: &LazyArc<'_, ComponentInteraction>) -> (verdict: bool) {
        let interaction = item.get();
        guild_is_some(self.options.guild_id, interaction.guild_id) && is_custom_id_allowed(
            &self.options.custom_ids,
            &interaction.data.custom_id,
        ) && message_is(self.options.message_id, interaction.message.id) && channel_is(
            self.options.channel_id,
            interaction.channel_id,
        ) && user_is(self.options.author_id, interaction.user.id)
            && self.common_options.filter().test(interaction)
    }
}

impl<P: ItemPredicate<Event>> FilterTrait<Event> for Filter<Event, P> {
    open spec fn may_pass(&self, item: &LazyArc<'_, Event>, verdict: bool) -> bool {
        if event_constraints(self.options(), item.value()) {
            self.predicate().may_answer(&item.value(), verdict)
        } else {
            !verdict
        }
    }

    fn is_passing_constraints(&self, item: &LazyArc<'_, Event>) -> (verdict: bool) {
        let event = item.get();
        is_type_allowed(&self.options.event_types, event.event_type()) && any_guild_related(
            &self.options.guild_id,
            event.guild_id(),
        ) && any_user_related(&self.options.user_id, event.user_id()) && any_channel_related(
            &self.options.channel_id,
            event.channel_id(),
        ) && any_message_related(&self.options.message_id, event.message_id())
            && self.common_options.filter().test(event)
    }
}

impl<P: ItemPredicate<Message>> FilterTrait<Message> for Filter<Message, P> {
    open spec fn may_pass(&self, item: &LazyArc<'_, Message>, verdict: bool) -> bool {
        if message_constraints(self.options(), item.value()) {
            self.predicate().may_answer(&item.value(), verdict)
        } else {
            !verdict
        }
    }

    fn is_passing_constraints(&self, item: &LazyArc<'_, Message>) -> (verdict: bool) {
        let message = item.get();
        guild_is_some(self.options.guild_id, message.guild_id) && channel_is(
            self.options.channel_id,
            message.channel_id,
        ) && user_is(self.options.author_id, message.author.id)
            && self.common_options.filter().test(message)
    }
}

impl<P: ItemPredicate<ModalSubmitInteraction>> FilterTrait<ModalSubmitInteraction> for Filter<
    ModalSubmitInteraction,
    P,
> {
    open spec fn may_pass(&self, item: &LazyArc<'_, ModalSubmitInteraction>, verdict: bool) -> bool {
        if modal_constraints(self.options(), item.value()) {
            self.predicate().may_answer(&item.value(), verdict)
        } else {
            !verdict
        }
    }

    fn is_passing_constraints(&self, item: &LazyArc<'_, ModalSubmitInteraction>) -> (verdict:
        bool) {
        let interaction = item.get();
        let message_ok = match self.options.message_id {
            Some(id) => match &interaction.message {
                Some(message) => message.id == id,
                None => false,
            },
            None => true,
        };
        guild_is_some(self.options.guild_id, interaction.guild_id) && is_custom_id_allowed(
            &self.options.custom_ids,
            &interaction.data.custom_id,
        ) && message_ok && channel_is(self.options.channel_id, interaction.channel_id) && user_is(
            self.options.author_id,
            interaction.user.id,
        ) && self.common_options.filter().test(interaction)
    }
}

} // verus!
