//! Newtypes for the platform's 64-bit identifiers ("snowflakes").
//!
//! Every identifier wraps one `u64`; its view is that number. Two identifiers of
//! one type are equal exactly when their numbers are.

use vstd::prelude::*;
use vstd::std_specs::convert::{FromSpec, FromSpecImpl};

use crate::model::snowflake::{decimal, to_decimal};
use crate::model::timestamp::Timestamp;

verus! {

/// An identifier for an Application.
#[derive(Clone, Copy, Debug, PartialEq, Eq, Hash, PartialOrd, Ord, Structural)]
pub struct ApplicationId(u64);

impl View for ApplicationId {
    type V = u64;

    closed spec fn view(&self) -> u64 {
        self.0
    }
}

impl ApplicationId {
    /// Wraps `id`.
    pub fn new(id: u64) -> (made: Self)
        ensures
            made@ == id,
    {
        ApplicationId(id)
    }

    /// The wrapped number.
    pub fn get(self) -> (id: u64)
        ensures
            id == self@,
    {
        self.0
    }

    /// The moment at which the platform created this identifier.
    pub fn created_at(&self) -> (at: Timestamp)
        ensures
            at@ == Timestamp::spec_from_discord_id(self@),
    {
        Timestamp::from_discord_id(self.0)
    }

    /// The identifier as it is written on the wire: its number in decimal.
    pub fn to_string(&self) -> (text: String)
        ensures
            text@ == decimal(self@ as nat),
    {
        to_decimal(self.0)
    }

    /// Identifiers are equal exactly when their numbers are.
    pub proof fn lemma_view_injective(a: Self, b: Self)
        ensures
            a@ == b@ <==> a == b,
    {
    }

    /// The identifier that is made from a number wraps that number.
    pub proof fn lemma_from_number(id: u64)
        ensures
            <Self as FromSpec<u64>>::from_spec(id)@ == id,
    {
    }
}

impl Default for ApplicationId {
    fn default() -> (made: Self)
        ensures
            made@ == 1,
    {
        ApplicationId(1)
    }
}

impl From<u64> for ApplicationId {
    fn from(id: u64) -> (made: Self) {
        ApplicationId(id)
    }
}

impl FromSpecImpl<u64> for ApplicationId {
    open spec fn obeys_from_spec() -> bool {
        true
    }

    closed spec fn from_spec(id: u64) -> Self {
        ApplicationId(id)
    }
}

/// An identifier for a Channel.
#[derive(Clone, Copy, Debug, PartialEq, Eq, Hash, PartialOrd, Ord, Structural)]
pub struct ChannelId(u64);

impl View for ChannelId {
    type V = u64;

    closed spec fn view(&self) -> u64 {
        self.0
    }
}

impl ChannelId {
    /// Wraps `id`.
    pub fn new(id: u64) -> (made: Self)
        ensures
            made@ == id,
    {
        ChannelId(id)
    }

    /// The wrapped number.
    pub fn get(self) -> (id: u64)
        ensures
            id == self@,
    {
        self.0
    }

    /// The moment at which the platform created this identifier.
    pub fn created_at(&self) -> (at: Timestamp)
        ensures
            at@ == Timestamp::spec_from_discord_id(self@),
    {
        Timestamp::from_discord_id(self.0)
    }

    /// The identifier as it is written on the wire: its number in decimal.
    pub fn to_string(&self) -> (text: String)
        ensures
            text@ == decimal(self@ as nat),
    {
        to_decimal(self.0)
    }

    /// Identifiers are equal exactly when their numbers are.
    pub proof fn lemma_view_injective(a: Self, b: Self)
        ensures
            a@ == b@ <==> a == b,
    {
    }

    /// The identifier that is made from a number wraps that number.
    pub proof fn lemma_from_number(id: u64)
        ensures
            <Self as FromSpec<u64>>::from_spec(id)@ == id,
    {
    }
}

impl Default for ChannelId {
    fn default() -> (made: Self)
        ensures
            made@ == 1,
    {
        ChannelId(1)
    }
}

impl From<u64> for ChannelId {
    fn from(id: u64) -> (made: Self) {
        ChannelId(id)
    }
}

impl FromSpecImpl<u64> for ChannelId {
    open spec fn obeys_from_spec() -> bool {
        true
    }

    closed spec fn from_spec(id: u64) -> Self {
        ChannelId(id)
    }
}

/// An identifier for an Emoji.
#[derive(Clone, Copy, Debug, PartialEq, Eq, Hash, PartialOrd, Ord, Structural)]
pub struct EmojiId(u64);

impl View for EmojiId {
    type V = u64;

    closed spec fn view(&self) -> u64 {
        self.0
    }
}

impl EmojiId {
    /// Wraps `id`.
    pub fn new(id: u64) -> (made: Self)
        ensures
            made@ == id,
    {
        EmojiId(id)
    }

    /// The wrapped number.
    pub fn get(self) -> (id: u64)
        ensures
            id == self@,
    {
        self.0
    }

    /// The moment at which the platform created this identifier.
    pub fn created_at(&self) -> (at: Timestamp)
        ensures
            at@ == Timestamp::spec_from_discord_id(self@),
    {
        Timestamp::from_discord_id(self.0)
    }

    /// The identifier as it is written on the wire: its number in decimal.
    pub fn to_string(&self) -> (text: String)
        ensures
            text@ == decimal(self@ as nat),
    {
        to_decimal(self.0)
    }

    /// Identifiers are equal exactly when their numbers are.
    pub proof fn lemma_view_injective(a: Self, b: Self)
        ensures
            a@ == b@ <==> a == b,
    {
    }

    /// The identifier that is made from a number wraps that number.
    pub proof fn lemma_from_number(id: u64)
        ensures
            <Self as FromSpec<u64>>::from_spec(id)@ == id,
    {
    }
}

impl Default for EmojiId {
    fn default() -> (made: Self)
        ensures
            made@ == 1,
    {
        EmojiId(1)
    }
}

impl From<u64> for EmojiId {
    fn from(id: u64) -> (made: Self) {
        EmojiId(id)
    }
}

impl FromSpecImpl<u64> for EmojiId {
    open spec fn obeys_from_spec() -> bool {
        true
    }

    closed spec fn from_spec(id: u64) -> Self {
        EmojiId(id)
    }
}

/// An identifier for an unspecific entity.
#[derive(Clone, Copy, Debug, PartialEq, Eq, Hash, PartialOrd, Ord, Structural)]
pub struct GenericId(u64);

impl View for GenericId {
    type V = u64;

    closed spec fn view(&self) -> u64 {
        self.0
    }
}

impl GenericId {
    /// Wraps `id`.
    pub fn new(id: u64) -> (made: Self)
        ensures
            made@ == id,
    {
        GenericId(id)
    }

    /// The wrapped number.
    pub fn get(self) -> (id: u64)
        ensures
            id == self@,
    {
        self.0
    }

    /// The moment at which the platform created this identifier.
    pub fn created_at(&self) -> (at: Timestamp)
        ensures
            at@ == Timestamp::spec_from_discord_id(self@),
    {
        Timestamp::from_discord_id(self.0)
    }

    /// The identifier as it is written on the wire: its number in decimal.
    pub fn to_string(&self) -> (text: String)
        ensures
            text@ == decimal(self@ as nat),
    {
        to_decimal(self.0)
    }

    /// Identifiers are equal exactly when their numbers are.
    pub proof fn lemma_view_injective(a: Self, b: Self)
        ensures
            a@ == b@ <==> a == b,
    {
    }

    /// The identifier that is made from a number wraps that number.
    pub proof fn lemma_from_number(id: u64)
        ensures
            <Self as FromSpec<u64>>::from_spec(id)@ == id,
    {
    }
}

impl Default for GenericId {
    fn default() -> (made: Self)
        ensures
            made@ == 1,
    {
        GenericId(1)
    }
}

impl From<u64> for GenericId {
    fn from(id: u64) -> (made: Self) {
        GenericId(id)
    }
}

impl FromSpecImpl<u64> for GenericId {
    open spec fn obeys_from_spec() -> bool {
        true
    }

    closed spec fn from_spec(id: u64) -> Self {
        GenericId(id)
    }
}

/// An identifier for a Guild.
#[derive(Clone, Copy, Debug, PartialEq, Eq, Hash, PartialOrd, Ord, Structural)]
pub struct GuildId(u64);

impl View for GuildId {
    type V = u64;

    closed spec fn view(&self) -> u64 {
        self.0
    }
}

impl GuildId {
    /// Wraps `id`.
    pub fn new(id: u64) -> (made: Self)
        ensures
            made@ == id,
    {
        GuildId(id)
    }

    /// The wrapped number.
    pub fn get(self) -> (id: u64)
        ensures
            id == self@,
    {
        self.0
    }

    /// The moment at which the platform created this identifier.
    pub fn created_at(&self) -> (at: Timestamp)
        ensures
            at@ == Timestamp::spec_from_discord_id(self@),
    {
        Timestamp::from_discord_id(self.0)
    }

    /// The identifier as it is written on the wire: its number in decimal.
    pub fn to_string(&self) -> (text: String)
        ensures
            text@ == decimal(self@ as nat),
    {
        to_decimal(self.0)
    }

    /// Identifiers are equal exactly when their numbers are.
    pub proof fn lemma_view_injective(a: Self, b: Self)
        ensures
            a@ == b@ <==> a == b,
    {
    }

    /// The identifier that is made from a number wraps that number.
    pub proof fn lemma_from_number(id: u64)
        ensures
            <Self as FromSpec<u64>>::from_spec(id)@ == id,
    {
    }
}

impl Default for GuildId {
    fn default() -> (made: Self)
        ensures
            made@ == 1,
    {
        GuildId(1)
    }
}

impl From<u64> for GuildId {
    fn from(id: u64) -> (made: Self) {
        GuildId(id)
    }
}

impl FromSpecImpl<u64> for GuildId {
    open spec fn obeys_from_spec() -> bool {
        true
    }

    closed spec fn from_spec(id: u64) -> Self {
        GuildId(id)
    }
}

/// An identifier for an Integration.
#[derive(Clone, Copy, Debug, PartialEq, Eq, Hash, PartialOrd, Ord, Structural)]
pub struct IntegrationId(u64);

impl View for IntegrationId {
    type V = u64;

    closed spec fn view(&self) -> u64 {
        self.0
    }
}

impl IntegrationId {
    /// Wraps `id`.
    pub fn new(id: u64) -> (made: Self)
        ensures
            made@ == id,
    {
        IntegrationId(id)
    }

    /// The wrapped number.
    pub fn get(self) -> (id: u64)
        ensures
            id == self@,
    {
        self.0
    }

    /// The moment at which the platform created this identifier.
    pub fn created_at(&self) -> (at: Timestamp)
        ensures
            at@ == Timestamp::spec_from_discord_id(self@),
    {
        Timestamp::from_discord_id(self.0)
    }

    /// The identifier as it is written on the wire: its number in decimal.
    pub fn to_string(&self) -> (text: String)
        ensures
            text@ == decimal(self@ as nat),
    {
        to_decimal(self.0)
    }

    /// Identifiers are equal exactly when their numbers are.
    pub proof fn lemma_view_injective(a: Self, b: Self)
        ensures
            a@ == b@ <==> a == b,
    {
    }

    /// The identifier that is made from a number wraps that number.
    pub proof fn lemma_from_number(id: u64)
        ensures
            <Self as FromSpec<u64>>::from_spec(id)@ == id,
    {
    }
}

impl Default for IntegrationId {
    fn default() -> (made: Self)
        ensures
            made@ == 1,
    {
        IntegrationId(1)
    }
}

impl From<u64> for IntegrationId {
    fn from(id: u64) -> (made: Self) {
        IntegrationId(id)
    }
}

impl FromSpecImpl<u64> for IntegrationId {
    open spec fn obeys_from_spec() -> bool {
        true
    }

    closed spec fn from_spec(id: u64) -> Self {
        IntegrationId(id)
    }
}

/// An identifier for a Message.
#[derive(Clone, Copy, Debug, PartialEq, Eq, Hash, PartialOrd, Ord, Structural)]
pub struct MessageId(u64);

impl View for MessageId {
    type V = u64;

    closed spec fn view(&self) -> u64 {
        self.0
    }
}

impl MessageId {
    /// Wraps `id`.
    pub fn new(id: u64) -> (made: Self)
        ensures
            made@ == id,
    {
        MessageId(id)
    }

    /// The wrapped number.
    pub fn get(self) -> (id: u64)
        ensures
            id == self@,
    {
        self.0
    }

    /// The moment at which the platform created this identifier.
    pub fn created_at(&self) -> (at: Timestamp)
        ensures
            at@ == Timestamp::spec_from_discord_id(self@),
    {
        Timestamp::from_discord_id(self.0)
    }

    /// The identifier as it is written on the wire: its number in decimal.
    pub fn to_string(&self) -> (text: String)
        ensures
            text@ == decimal(self@ as nat),
    {
        to_decimal(self.0)
    }

    /// Identifiers are equal exactly when their numbers are.
    pub proof fn lemma_view_injective(a: Self, b: Self)
        ensures
            a@ == b@ <==> a == b,
    {
    }

    /// The identifier that is made from a number wraps that number.
    pub proof fn lemma_from_number(id: u64)
        ensures
            <Self as FromSpec<u64>>::from_spec(id)@ == id,
    {
    }
}

impl Default for MessageId {
    fn default() -> (made: Self)
        ensures
            made@ == 1,
    {
        MessageId(1)
    }
}

impl From<u64> for MessageId {
    fn from(id: u64) -> (made: Self) {
        MessageId(id)
    }
}

impl FromSpecImpl<u64> for MessageId {
    open spec fn obeys_from_spec() -> bool {
        true
    }

    closed spec fn from_spec(id: u64) -> Self {
        MessageId(id)
    }
}

/// An identifier for a Role.
#[derive(Clone, Copy, Debug, PartialEq, Eq, Hash, PartialOrd, Ord, Structural)]
pub struct RoleId(u64);

impl View for RoleId {
    type V = u64;

    closed spec fn view(&self) -> u64 {
        self.0
    }
}

impl RoleId {
    /// Wraps `id`.
    pub fn new(id: u64) -> (made: Self)
        ensures
            made@ == id,
    {
        RoleId(id)
    }

    /// The wrapped number.
    pub fn get(self) -> (id: u64)
        ensures
            id == self@,
    {
        self.0
    }

    /// The moment at which the platform created this identifier.
    pub fn created_at(&self) -> (at: Timestamp)
        ensures
            at@ == Timestamp::spec_from_discord_id(self@),
    {
        Timestamp::from_discord_id(self.0)
    }

    /// The identifier as it is written on the wire: its number in decimal.
    pub fn to_string(&self) -> (text: String)
        ensures
            text@ == decimal(self@ as nat),
    {
        to_decimal(self.0)
    }

    /// Identifiers are equal exactly when their numbers are.
    pub proof fn lemma_view_injective(a: Self, b: Self)
        ensures
            a@ == b@ <==> a == b,
    {
    }

    /// The identifier that is made from a number wraps that number.
    pub proof fn lemma_from_number(id: u64)
        ensures
            <Self as FromSpec<u64>>::from_spec(id)@ == id,
    {
    }
}

impl Default for RoleId {
    fn default() -> (made: Self)
        ensures
            made@ == 1,
    {
        RoleId(1)
    }
}

impl From<u64> for RoleId {
    fn from(id: u64) -> (made: Self) {
        RoleId(id)
    }
}

impl FromSpecImpl<u64> for RoleId {
    open spec fn obeys_from_spec() -> bool {
        true
    }

    closed spec fn from_spec(id: u64) -> Self {
        RoleId(id)
    }
}

/// An identifier for an auto moderation rule.
#[derive(Clone, Copy, Debug, PartialEq, Eq, Hash, PartialOrd, Ord, Structural)]
pub struct RuleId(u64);

impl View for RuleId {
    type V = u64;

    closed spec fn view(&self) -> u64 {
        self.0
    }
}

impl RuleId {
    /// Wraps `id`.
    pub fn new(id: u64) -> (made: Self)
        ensures
            made@ == id,
    {
        RuleId(id)
    }

    /// The wrapped number.
    pub fn get(self) -> (id: u64)
        ensures
            id == self@,
    {
        self.0
    }

    /// The moment at which the platform created this identifier.
    pub fn created_at(&self) -> (at: Timestamp)
        ensures
            at@ == Timestamp::spec_from_discord_id(self@),
    {
        Timestamp::from_discord_id(self.0)
    }

    /// The identifier as it is written on the wire: its number in decimal.
    pub fn to_string(&self) -> (text: String)
        ensures
            text@ == decimal(self@ as nat),
    {
        to_decimal(self.0)
    }

    /// Identifiers are equal exactly when their numbers are.
    pub proof fn lemma_view_injective(a: Self, b: Self)
        ensures
            a@ == b@ <==> a == b,
    {
    }

    /// The identifier that is made from a number wraps that number.
    pub proof fn lemma_from_number(id: u64)
        ensures
            <Self as FromSpec<u64>>::from_spec(id)@ == id,
    {
    }
}

impl Default for RuleId {
    fn default() -> (made: Self)
        ensures
            made@ == 1,
    {
        RuleId(1)
    }
}

impl From<u64> for RuleId {
    fn from(id: u64) -> (made: Self) {
        RuleId(id)
    }
}

impl FromSpecImpl<u64> for RuleId {
    open spec fn obeys_from_spec() -> bool {
        true
    }

    closed spec fn from_spec(id: u64) -> Self {
        RuleId(id)
    }
}

/// An identifier for a Scheduled Event.
#[derive(Clone, Copy, Debug, PartialEq, Eq, Hash, PartialOrd, Ord, Structural)]
pub struct ScheduledEventId(u64);

impl View for ScheduledEventId {
    type V = u64;

    closed spec fn view(&self) -> u64 {
        self.0
    }
}

impl ScheduledEventId {
    /// Wraps `id`.
    pub fn new(id: u64) -> (made: Self)
        ensures
            made@ == id,
    {
        ScheduledEventId(id)
    }

    /// The wrapped number.
    pub fn get(self) -> (id: u64)
        ensures
            id == self@,
    {
        self.0
    }

    /// The moment at which the platform created this identifier.
    pub fn created_at(&self) -> (at: Timestamp)
        ensures
            at@ == Timestamp::spec_from_discord_id(self@),
    {
        Timestamp::from_discord_id(self.0)
    }

    /// The identifier as it is written on the wire: its number in decimal.
    pub fn to_string(&self) -> (text: String)
        ensures
            text@ == decimal(self@ as nat),
    {
        to_decimal(self.0)
    }

    /// Identifiers are equal exactly when their numbers are.
    pub proof fn lemma_view_injective(a: Self, b: Self)
        ensures
            a@ == b@ <==> a == b,
    {
    }

    /// The identifier that is made from a number wraps that number.
    pub proof fn lemma_from_number(id: u64)
        ensures
            <Self as FromSpec<u64>>::from_spec(id)@ == id,
    {
    }
}

impl Default for ScheduledEventId {
    fn default() -> (made: Self)
        ensures
            made@ == 1,
    {
        ScheduledEventId(1)
    }
}

impl From<u64> for ScheduledEventId {
    fn from(id: u64) -> (made: Self) {
        ScheduledEventId(id)
    }
}

impl FromSpecImpl<u64> for ScheduledEventId {
    open spec fn obeys_from_spec() -> bool {
        true
    }

    closed spec fn from_spec(id: u64) -> Self {
        ScheduledEventId(id)
    }
}

/// An identifier for a User.
#[derive(Clone, Copy, Debug, PartialEq, Eq, Hash, PartialOrd, Ord, Structural)]
pub struct UserId(u64);

impl View for UserId {
    type V = u64;

    closed spec fn view(&self) -> u64 {
        self.0
    }
}

impl UserId {
    /// Wraps `id`.
    pub fn new(id: u64) -> (made: Self)
        ensures
            made@ == id,
    {
        UserId(id)
    }

    /// The wrapped number.
    pub fn get(self) -> (id: u64)
        ensures
            id == self@,
    {
        self.0
    }

    /// The moment at which the platform created this identifier.
    pub fn created_at(&self) -> (at: Timestamp)
        ensures
            at@ == Timestamp::spec_from_discord_id(self@),
    {
        Timestamp::from_discord_id(self.0)
    }

    /// The identifier as it is written on the wire: its number in decimal.
    pub fn to_string(&self) -> (text: String)
        ensures
            text@ == decimal(self@ as nat),
    {
        to_decimal(self.0)
    }

    /// Identifiers are equal exactly when their numbers are.
    pub proof fn lemma_view_injective(a: Self, b: Self)
        ensures
            a@ == b@ <==> a == b,
    {
    }

    /// The identifier that is made from a number wraps that number.
    pub proof fn lemma_from_number(id: u64)
        ensures
            <Self as FromSpec<u64>>::from_spec(id)@ == id,
    {
    }
}

impl Default for UserId {
    fn default() -> (made: Self)
        ensures
            made@ == 1,
    {
        UserId(1)
    }
}

impl From<u64> for UserId {
    fn from(id: u64) -> (made: Self) {
        UserId(id)
    }
}

impl FromSpecImpl<u64> for UserId {
    open spec fn obeys_from_spec() -> bool {
        true
    }

    closed spec fn from_spec(id: u64) -> Self {
        UserId(id)
    }
}

/// An identifier for a Webhook.
#[derive(Clone, Copy, Debug, PartialEq, Eq, Hash, PartialOrd, Ord, Structural)]
pub struct WebhookId(u64);

impl View for WebhookId {
    type V = u64;

    closed spec fn view(&self) -> u64 {
        self.0
    }
}

impl WebhookId {
    /// Wraps `id`.
    pub fn new(id: u64) -> (made: Self)
        ensures
            made@ == id,
    {
        WebhookId(id)
    }

    /// The wrapped number.
    pub fn get(self) -> (id: u64)
        ensures
            id == self@,
    {
        self.0
    }

    /// The moment at which the platform created this identifier.
    pub fn created_at(&self) -> (at: Timestamp)
        ensures
            at@ == Timestamp::spec_from_discord_id(self@),
    {
        Timestamp::from_discord_id(self.0)
    }

    /// The identifier as it is written on the wire: its number in decimal.
    pub fn to_string(&self) -> (text: String)
        ensures
            text@ == decimal(self@ as nat),
    {
        to_decimal(self.0)
    }

    /// Identifiers are equal exactly when their numbers are.
    pub proof fn lemma_view_injective(a: Self, b: Self)
        ensures
            a@ == b@ <==> a == b,
    {
    }

    /// The identifier that is made from a number wraps that number.
    pub proof fn lemma_from_number(id: u64)
        ensures
            <Self as FromSpec<u64>>::from_spec(id)@ == id,
    {
    }
}

impl Default for WebhookId {
    fn default() -> (made: Self)
        ensures
            made@ == 1,
    {
        WebhookId(1)
    }
}

impl From<u64> for WebhookId {
    fn from(id: u64) -> (made: Self) {
        WebhookId(id)
    }
}

impl FromSpecImpl<u64> for WebhookId {
    open spec fn obeys_from_spec() -> bool {
        true
    }

    closed spec fn from_spec(id: u64) -> Self {
        WebhookId(id)
    }
}

/// An identifier for an audit log entry.
#[derive(Clone, Copy, Debug, PartialEq, Eq, Hash, PartialOrd, Ord, Structural)]
pub struct AuditLogEntryId(u64);

impl View for AuditLogEntryId {
    type V = u64;

    closed spec fn view(&self) -> u64 {
        self.0
    }
}

impl AuditLogEntryId {
    /// Wraps `id`.
    pub fn new(id: u64) -> (made: Self)
        ensures
            made@ == id,
    {
        AuditLogEntryId(id)
    }

    /// The wrapped number.
    pub fn get(self) -> (id: u64)
        ensures
            id == self@,
    {
        self.0
    }

    /// The moment at which the platform created this identifier.
    pub fn created_at(&self) -> (at: Timestamp)
        ensures
            at@ == Timestamp::spec_from_discord_id(self@),
    {
        Timestamp::from_discord_id(self.0)
    }

    /// The identifier as it is written on the wire: its number in decimal.
    pub fn to_string(&self) -> (text: String)
        ensures
            text@ == decimal(self@ as nat),
    {
        to_decimal(self.0)
    }

    /// Identifiers are equal exactly when their numbers are.
    pub proof fn lemma_view_injective(a: Self, b: Self)
        ensures
            a@ == b@ <==> a == b,
    {
    }

    /// The identifier that is made from a number wraps that number.
    pub proof fn lemma_from_number(id: u64)
        ensures
            <Self as FromSpec<u64>>::from_spec(id)@ == id,
    {
    }
}

impl Default for AuditLogEntryId {
    fn default() -> (made: Self)
        ensures
            made@ == 1,
    {
        AuditLogEntryId(1)
    }
}

impl From<u64> for AuditLogEntryId {
    fn from(id: u64) -> (made: Self) {
        AuditLogEntryId(id)
    }
}

impl FromSpecImpl<u64> for AuditLogEntryId {
    open spec fn obeys_from_spec() -> bool {
        true
    }

    closed spec fn from_spec(id: u64) -> Self {
        AuditLogEntryId(id)
    }
}

/// An identifier for an attachment.
#[derive(Clone, Copy, Debug, PartialEq, Eq, Hash, PartialOrd, Ord, Structural)]
pub struct AttachmentId(u64);

impl View for AttachmentId {
    type V = u64;

    closed spec fn view(&self) -> u64 {
        self.0
    }
}

impl AttachmentId {
    /// Wraps `id`.
    pub fn new(id: u64) -> (made: Self)
        ensures
            made@ == id,
    {
        AttachmentId(id)
    }

    /// The wrapped number.
    pub fn get(self) -> (id: u64)
        ensures
            id == self@,
    {
        self.0
    }

    /// The moment at which the platform created this identifier.
    pub fn created_at(&self) -> (at: Timestamp)
        ensures
            at@ == Timestamp::spec_from_discord_id(self@),
    {
        Timestamp::from_discord_id(self.0)
    }

    /// The identifier as it is written on the wire: its number in decimal.
    pub fn to_string(&self) -> (text: String)
        ensures
            text@ == decimal(self@ as nat),
    {
        to_decimal(self.0)
    }

    /// Identifiers are equal exactly when their numbers are.
    pub proof fn lemma_view_injective(a: Self, b: Self)
        ensures
            a@ == b@ <==> a == b,
    {
    }

    /// The identifier that is made from a number wraps that number.
    pub proof fn lemma_from_number(id: u64)
        ensures
            <Self as FromSpec<u64>>::from_spec(id)@ == id,
    {
    }
}

impl Default for AttachmentId {
    fn default() -> (made: Self)
        ensures
            made@ == 1,
    {
        AttachmentId(1)
    }
}

impl From<u64> for AttachmentId {
    fn from(id: u64) -> (made: Self) {
        AttachmentId(id)
    }
}

impl FromSpecImpl<u64> for AttachmentId {
    open spec fn obeys_from_spec() -> bool {
        true
    }

    closed spec fn from_spec(id: u64) -> Self {
        AttachmentId(id)
    }
}

/// An identifier for a sticker.
#[derive(Clone, Copy, Debug, PartialEq, Eq, Hash, PartialOrd, Ord, Structural)]
pub struct StickerId(u64);

impl View for StickerId {
    type V = u64;

    closed spec fn view(&self) -> u64 {
        self.0
    }
}

impl StickerId {
    /// Wraps `id`.
    pub fn new(id: u64) -> (made: Self)
        ensures
            made@ == id,
    {
        StickerId(id)
    }

    /// The wrapped number.
    pub fn get(self) -> (id: u64)
        ensures
            id == self@,
    {
        self.0
    }

    /// The moment at which the platform created this identifier.
    pub fn created_at(&self) -> (at: Timestamp)
        ensures
            at@ == Timestamp::spec_from_discord_id(self@),
    {
        Timestamp::from_discord_id(self.0)
    }

    /// The identifier as it is written on the wire: its number in decimal.
    pub fn to_string(&self) -> (text: String)
        ensures
            text@ == decimal(self@ as nat),
    {
        to_decimal(self.0)
    }

    /// Identifiers are equal exactly when their numbers are.
    pub proof fn lemma_view_injective(a: Self, b: Self)
        ensures
            a@ == b@ <==> a == b,
    {
    }

    /// The identifier that is made from a number wraps that number.
    pub proof fn lemma_from_number(id: u64)
        ensures
            <Self as FromSpec<u64>>::from_spec(id)@ == id,
    {
    }
}

impl Default for StickerId {
    fn default() -> (made: Self)
        ensures
            made@ == 1,
    {
        StickerId(1)
    }
}

impl From<u64> for StickerId {
    fn from(id: u64) -> (made: Self) {
        StickerId(id)
    }
}

impl FromSpecImpl<u64> for StickerId {
    open spec fn obeys_from_spec() -> bool {
        true
    }

    closed spec fn from_spec(id: u64) -> Self {
        StickerId(id)
    }
}

/// An identifier for a sticker pack.
#[derive(Clone, Copy, Debug, PartialEq, Eq, Hash, PartialOrd, Ord, Structural)]
pub struct StickerPackId(u64);

impl View for StickerPackId {
    type V = u64;

    closed spec fn view(&self) -> u64 {
        self.0
    }
}

impl StickerPackId {
    /// Wraps `id`.
    pub fn new(id: u64) -> (made: Self)
        ensures
            made@ == id,
    {
        StickerPackId(id)
    }

    /// The wrapped number.
    pub fn get(self) -> (id: u64)
        ensures
            id == self@,
    {
        self.0
    }

    /// The moment at which the platform created this identifier.
    pub fn created_at(&self) -> (at: Timestamp)
        ensures
            at@ == Timestamp::spec_from_discord_id(self@),
    {
        Timestamp::from_discord_id(self.0)
    }

    /// The identifier as it is written on the wire: its number in decimal.
    pub fn to_string(&self) -> (text: String)
        ensures
            text@ == decimal(self@ as nat),
    {
        to_decimal(self.0)
    }

    /// Identifiers are equal exactly when their numbers are.
    pub proof fn lemma_view_injective(a: Self, b: Self)
        ensures
            a@ == b@ <==> a == b,
    {
    }

    /// The identifier that is made from a number wraps that number.
    pub proof fn lemma_from_number(id: u64)
        ensures
            <Self as FromSpec<u64>>::from_spec(id)@ == id,
    {
    }
}

impl Default for StickerPackId {
    fn default() -> (made: Self)
        ensures
            made@ == 1,
    {
        StickerPackId(1)
    }
}

impl From<u64> for StickerPackId {
    fn from(id: u64) -> (made: Self) {
        StickerPackId(id)
    }
}

impl FromSpecImpl<u64> for StickerPackId {
    open spec fn obeys_from_spec() -> bool {
        true
    }

    closed spec fn from_spec(id: u64) -> Self {
        StickerPackId(id)
    }
}

/// An identifier for a sticker pack banner.
#[derive(Clone, Copy, Debug, PartialEq, Eq, Hash, PartialOrd, Ord, Structural)]
pub struct StickerPackBannerId(u64);

impl View for StickerPackBannerId {
    type V = u64;

    closed spec fn view(&self) -> u64 {
        self.0
    }
}

impl StickerPackBannerId {
    /// Wraps `id`.
    pub fn new(id: u64) -> (made: Self)
        ensures
            made@ == id,
    {
        StickerPackBannerId(id)
    }

    /// The wrapped number.
    pub fn get(self) -> (id: u64)
        ensures
            id == self@,
    {
        self.0
    }

    /// The moment at which the platform created this identifier.
    pub fn created_at(&self) -> (at: Timestamp)
        ensures
            at@ == Timestamp::spec_from_discord_id(self@),
    {
        Timestamp::from_discord_id(self.0)
    }

    /// The identifier as it is written on the wire: its number in decimal.
    pub fn to_string(&self) -> (text: String)
        ensures
            text@ == decimal(self@ as nat),
    {
        to_decimal(self.0)
    }

    /// Identifiers are equal exactly when their numbers are.
    pub proof fn lemma_view_injective(a: Self, b: Self)
        ensures
            a@ == b@ <==> a == b,
    {
    }

    /// The identifier that is made from a number wraps that number.
    pub proof fn lemma_from_number(id: u64)
        ensures
            <Self as FromSpec<u64>>::from_spec(id)@ == id,
    {
    }
}

impl Default for StickerPackBannerId {
    fn default() -> (made: Self)
        ensures
            made@ == 1,
    {
        StickerPackBannerId(1)
    }
}

impl From<u64> for StickerPackBannerId {
    fn from(id: u64) -> (made: Self) {
        StickerPackBannerId(id)
    }
}

impl FromSpecImpl<u64> for StickerPackBannerId {
    open spec fn obeys_from_spec() -> bool {
        true
    }

    closed spec fn from_spec(id: u64) -> Self {
        StickerPackBannerId(id)
    }
}

/// An identifier for a SKU.
#[derive(Clone, Copy, Debug, PartialEq, Eq, Hash, PartialOrd, Ord, Structural)]
pub struct SkuId(u64);

impl View for SkuId {
    type V = u64;

    closed spec fn view(&self) -> u64 {
        self.0
    }
}

impl SkuId {
    /// Wraps `id`.
    pub fn new(id: u64) -> (made: Self)
        ensures
            made@ == id,
    {
        SkuId(id)
    }

    /// The wrapped number.
    pub fn get(self) -> (id: u64)
        ensures
            id == self@,
    {
        self.0
    }

    /// The moment at which the platform created this identifier.
    pub fn created_at(&self) -> (at: Timestamp)
        ensures
            at@ == Timestamp::spec_from_discord_id(self@),
    {
        Timestamp::from_discord_id(self.0)
    }

    /// The identifier as it is written on the wire: its number in decimal.
    pub fn to_string(&self) -> (text: String)
        ensures
            text@ == decimal(self@ as nat),
    {
        to_decimal(self.0)
    }

    /// Identifiers are equal exactly when their numbers are.
    pub proof fn lemma_view_injective(a: Self, b: Self)
        ensures
            a@ == b@ <==> a == b,
    {
    }

    /// The identifier that is made from a number wraps that number.
    pub proof fn lemma_from_number(id: u64)
        ensures
            <Self as FromSpec<u64>>::from_spec(id)@ == id,
    {
    }
}

impl Default for SkuId {
    fn default() -> (made: Self)
        ensures
            made@ == 1,
    {
        SkuId(1)
    }
}

impl From<u64> for SkuId {
    fn from(id: u64) -> (made: Self) {
        SkuId(id)
    }
}

impl FromSpecImpl<u64> for SkuId {
    open spec fn obeys_from_spec() -> bool {
        true
    }

    closed spec fn from_spec(id: u64) -> Self {
        SkuId(id)
    }
}

/// An identifier for an interaction.
#[derive(Clone, Copy, Debug, PartialEq, Eq, Hash, PartialOrd, Ord, Structural)]
pub struct InteractionId(u64);

impl View for InteractionId {
    type V = u64;

    closed spec fn view(&self) -> u64 {
        self.0
    }
}

impl InteractionId {
    /// Wraps `id`.
    pub fn new(id: u64) -> (made: Self)
        ensures
            made@ == id,
    {
        InteractionId(id)
    }

    /// The wrapped number.
    pub fn get(self) -> (id: u64)
        ensures
            id == self@,
    {
        self.0
    }

    /// The moment at which the platform created this identifier.
    pub fn created_at(&self) -> (at: Timestamp)
        ensures
            at@ == Timestamp::spec_from_discord_id(self@),
    {
        Timestamp::from_discord_id(self.0)
    }

    /// The identifier as it is written on the wire: its number in decimal.
    pub fn to_string(&self) -> (text: String)
        ensures
            text@ == decimal(self@ as nat),
    {
        to_decimal(self.0)
    }

    /// Identifiers are equal exactly when their numbers are.
    pub proof fn lemma_view_injective(a: Self, b: Self)
        ensures
            a@ == b@ <==> a == b,
    {
    }

    /// The identifier that is made from a number wraps that number.
    pub proof fn lemma_from_number(id: u64)
        ensures
            <Self as FromSpec<u64>>::from_spec(id)@ == id,
    {
    }
}

impl Default for InteractionId {
    fn default() -> (made: Self)
        ensures
            made@ == 1,
    {
        InteractionId(1)
    }
}

impl From<u64> for InteractionId {
    fn from(id: u64) -> (made: Self) {
        InteractionId(id)
    }
}

impl FromSpecImpl<u64> for InteractionId {
    open spec fn obeys_from_spec() -> bool {
        true
    }

    closed spec fn from_spec(id: u64) -> Self {
        InteractionId(id)
    }
}

/// An identifier for a slash command.
#[derive(Clone, Copy, Debug, PartialEq, Eq, Hash, PartialOrd, Ord, Structural)]
pub struct CommandId(u64);

impl View for CommandId {
    type V = u64;

    closed spec fn view(&self) -> u64 {
        self.0
    }
}

impl CommandId {
    /// Wraps `id`.
    pub fn new(id: u64) -> (made: Self)
        ensures
            made@ == id,
    {
        CommandId(id)
    }

    /// The wrapped number.
    pub fn get(self) -> (id: u64)
        ensures
            id == self@,
    {
        self.0
    }

    /// The moment at which the platform created this identifier.
    pub fn created_at(&self) -> (at: Timestamp)
        ensures
            at@ == Timestamp::spec_from_discord_id(self@),
    {
        Timestamp::from_discord_id(self.0)
    }

    /// The identifier as it is written on the wire: its number in decimal.
    pub fn to_string(&self) -> (text: String)
        ensures
            text@ == decimal(self@ as nat),
    {
        to_decimal(self.0)
    }

    /// Identifiers are equal exactly when their numbers are.
    pub proof fn lemma_view_injective(a: Self, b: Self)
        ensures
            a@ == b@ <==> a == b,
    {
    }

    /// The identifier that is made from a number wraps that number.
    pub proof fn lemma_from_number(id: u64)
        ensures
            <Self as FromSpec<u64>>::from_spec(id)@ == id,
    {
    }
}

impl Default for CommandId {
    fn default() -> (made: Self)
        ensures
            made@ == 1,
    {
        CommandId(1)
    }
}

impl From<u64> for CommandId {
    fn from(id: u64) -> (made: Self) {
        CommandId(id)
    }
}

impl FromSpecImpl<u64> for CommandId {
    open spec fn obeys_from_spec() -> bool {
        true
    }

    closed spec fn from_spec(id: u64) -> Self {
        CommandId(id)
    }
}

/// An identifier for a slash command permission; holds a role or a user id.
#[derive(Clone, Copy, Debug, PartialEq, Eq, Hash, PartialOrd, Ord, Structural)]
pub struct CommandPermissionId(u64);

impl View for CommandPermissionId {
    type V = u64;

    closed spec fn view(&self) -> u64 {
        self.0
    }
}

impl CommandPermissionId {
    /// Wraps `id`.
    pub fn new(id: u64) -> (made: Self)
        ensures
            made@ == id,
    {
        CommandPermissionId(id)
    }

    /// The wrapped number.
    pub fn get(self) -> (id: u64)
        ensures
            id == self@,
    {
        self.0
    }

    /// The moment at which the platform created this identifier.
    pub fn created_at(&self) -> (at: Timestamp)
        ensures
            at@ == Timestamp::spec_from_discord_id(self@),
    {
        Timestamp::from_discord_id(self.0)
    }

    /// The identifier as it is written on the wire: its number in decimal.
    pub fn to_string(&self) -> (text: String)
        ensures
            text@ == decimal(self@ as nat),
    {
        to_decimal(self.0)
    }

    /// Identifiers are equal exactly when their numbers are.
    pub proof fn lemma_view_injective(a: Self, b: Self)
        ensures
            a@ == b@ <==> a == b,
    {
    }

    /// The identifier that is made from a number wraps that number.
    pub proof fn lemma_from_number(id: u64)
        ensures
            <Self as FromSpec<u64>>::from_spec(id)@ == id,
    {
    }
}

impl Default for CommandPermissionId {
    fn default() -> (made: Self)
        ensures
            made@ == 1,
    {
        CommandPermissionId(1)
    }
}

impl From<u64> for CommandPermissionId {
    fn from(id: u64) -> (made: Self) {
        CommandPermissionId(id)
    }
}

impl FromSpecImpl<u64> for CommandPermissionId {
    open spec fn obeys_from_spec() -> bool {
        true
    }

    closed spec fn from_spec(id: u64) -> Self {
        CommandPermissionId(id)
    }
}

/// An identifier for a slash command version.
#[derive(Clone, Copy, Debug, PartialEq, Eq, Hash, PartialOrd, Ord, Structural)]
pub struct CommandVersionId(u64);

impl View for CommandVersionId {
    type V = u64;

    closed spec fn view(&self) -> u64 {
        self.0
    }
}

impl CommandVersionId {
    /// Wraps `id`.
    pub fn new(id: u64) -> (made: Self)
        ensures
            made@ == id,
    {
        CommandVersionId(id)
    }

    /// The wrapped number.
    pub fn get(self) -> (id: u64)
        ensures
            id == self@,
    {
        self.0
    }

    /// The moment at which the platform created this identifier.
    pub fn created_at(&self) -> (at: Timestamp)
        ensures
            at@ == Timestamp::spec_from_discord_id(self@),
    {
        Timestamp::from_discord_id(self.0)
    }

    /// The identifier as it is written on the wire: its number in decimal.
    pub fn to_string(&self) -> (text: String)
        ensures
            text@ == decimal(self@ as nat),
    {
        to_decimal(self.0)
    }

    /// Identifiers are equal exactly when their numbers are.
    pub proof fn lemma_view_injective(a: Self, b: Self)
        ensures
            a@ == b@ <==> a == b,
    {
    }

    /// The identifier that is made from a number wraps that number.
    pub proof fn lemma_from_number(id: u64)
        ensures
            <Self as FromSpec<u64>>::from_spec(id)@ == id,
    {
    }
}

impl Default for CommandVersionId {
    fn default() -> (made: Self)
        ensures
            made@ == 1,
    {
        CommandVersionId(1)
    }
}

impl From<u64> for CommandVersionId {
    fn from(id: u64) -> (made: Self) {
        CommandVersionId(id)
    }
}

impl FromSpecImpl<u64> for CommandVersionId {
    open spec fn obeys_from_spec() -> bool {
        true
    }

    closed spec fn from_spec(id: u64) -> Self {
        CommandVersionId(id)
    }
}

/// An identifier for a slash command target; holds a user or a message id.
#[derive(Clone, Copy, Debug, PartialEq, Eq, Hash, PartialOrd, Ord, Structural)]
pub struct TargetId(u64);

impl View for TargetId {
    type V = u64;

    closed spec fn view(&self) -> u64 {
        self.0
    }
}

impl TargetId {
    /// Wraps `id`.
    pub fn new(id: u64) -> (made: Self)
        ensures
            made@ == id,
    {
        TargetId(id)
    }

    /// The wrapped number.
    pub fn get(self) -> (id: u64)
        ensures
            id == self@,
    {
        self.0
    }

    /// The moment at which the platform created this identifier.
    pub fn created_at(&self) -> (at: Timestamp)
        ensures
            at@ == Timestamp::spec_from_discord_id(self@),
    {
        Timestamp::from_discord_id(self.0)
    }

    /// The identifier as it is written on the wire: its number in decimal.
    pub fn to_string(&self) -> (text: String)
        ensures
            text@ == decimal(self@ as nat),
    {
        to_decimal(self.0)
    }

    /// Identifiers are equal exactly when their numbers are.
    pub proof fn lemma_view_injective(a: Self, b: Self)
        ensures
            a@ == b@ <==> a == b,
    {
    }

    /// The identifier that is made from a number wraps that number.
    pub proof fn lemma_from_number(id: u64)
        ensures
            <Self as FromSpec<u64>>::from_spec(id)@ == id,
    {
    }
}

impl Default for TargetId {
    fn default() -> (made: Self)
        ensures
            made@ == 1,
    {
        TargetId(1)
    }
}

impl From<u64> for TargetId {
    fn from(id: u64) -> (made: Self) {
        TargetId(id)
    }
}

impl FromSpecImpl<u64> for TargetId {
    open spec fn obeys_from_spec() -> bool {
        true
    }

    closed spec fn from_spec(id: u64) -> Self {
        TargetId(id)
    }
}

/// An identifier for a stage channel instance.
#[derive(Clone, Copy, Debug, PartialEq, Eq, Hash, PartialOrd, Ord, Structural)]
pub struct StageInstanceId(u64);

impl View for StageInstanceId {
    type V = u64;

    closed spec fn view(&self) -> u64 {
        self.0
    }
}

impl StageInstanceId {
    /// Wraps `id`.
    pub fn new(id: u64) -> (made: Self)
        ensures
            made@ == id,
    {
        StageInstanceId(id)
    }

    /// The wrapped number.
    pub fn get(self) -> (id: u64)
        ensures
            id == self@,
    {
        self.0
    }

    /// The moment at which the platform created this identifier.
    pub fn created_at(&self) -> (at: Timestamp)
        ensures
            at@ == Timestamp::spec_from_discord_id(self@),
    {
        Timestamp::from_discord_id(self.0)
    }

    /// The identifier as it is written on the wire: its number in decimal.
    pub fn to_string(&self) -> (text: String)
        ensures
            text@ == decimal(self@ as nat),
    {
        to_decimal(self.0)
    }

    /// Identifiers are equal exactly when their numbers are.
    pub proof fn lemma_view_injective(a: Self, b: Self)
        ensures
            a@ == b@ <==> a == b,
    {
    }

    /// The identifier that is made from a number wraps that number.
    pub proof fn lemma_from_number(id: u64)
        ensures
            <Self as FromSpec<u64>>::from_spec(id)@ == id,
    {
    }
}

impl Default for StageInstanceId {
    fn default() -> (made: Self)
        ensures
            made@ == 1,
    {
        StageInstanceId(1)
    }
}

impl From<u64> for StageInstanceId {
    fn from(id: u64) -> (made: Self) {
        StageInstanceId(id)
    }
}

impl FromSpecImpl<u64> for StageInstanceId {
    open spec fn obeys_from_spec() -> bool {
        true
    }

    closed spec fn from_spec(id: u64) -> Self {
        StageInstanceId(id)
    }
}

/// An identifier for a forum tag.
#[derive(Clone, Copy, Debug, PartialEq, Eq, Hash, PartialOrd, Ord, Structural)]
pub struct ForumTagId(u64);

impl View for ForumTagId {
    type V = u64;

    closed spec fn view(&self) -> u64 {
        self.0
    }
}

impl ForumTagId {
    /// Wraps `id`.
    pub fn new(id: u64) -> (made: Self)
        ensures
            made@ == id,
    {
        ForumTagId(id)
    }

    /// The wrapped number.
    pub fn get(self) -> (id: u64)
        ensures
            id == self@,
    {
        self.0
    }

    /// The moment at which the platform created this identifier.
    pub fn created_at(&self) -> (at: Timestamp)
        ensures
            at@ == Timestamp::spec_from_discord_id(self@),
    {
        Timestamp::from_discord_id(self.0)
    }

    /// The identifier as it is written on the wire: its number in decimal.
    pub fn to_string(&self) -> (text: String)
        ensures
            text@ == decimal(self@ as nat),
    {
        to_decimal(self.0)
    }

    /// Identifiers are equal exactly when their numbers are.
    pub proof fn lemma_view_injective(a: Self, b: Self)
        ensures
            a@ == b@ <==> a == b,
    {
    }

    /// The identifier that is made from a number wraps that number.
    pub proof fn lemma_from_number(id: u64)
        ensures
            <Self as FromSpec<u64>>::from_spec(id)@ == id,
    {
    }
}

impl Default for ForumTagId {
    fn default() -> (made: Self)
        ensures
            made@ == 1,
    {
        ForumTagId(1)
    }
}

impl From<u64> for ForumTagId {
    fn from(id: u64) -> (made: Self) {
        ForumTagId(id)
    }
}

impl FromSpecImpl<u64> for ForumTagId {
    open spec fn obeys_from_spec() -> bool {
        true
    }

    closed spec fn from_spec(id: u64) -> Self {
        ForumTagId(id)
    }
}

} // verus!
