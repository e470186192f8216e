use crate::event::{BridgeEvent, BridgeEventView, EventType, EventTypeView};
use crate::identity::{
    first_named, get_or_create_webhook, identities_view, relay_name, relay_name_spec,
    IdentityChoice, RelayIdentity, RelayIdentityView,
};
use crate::store::{
    discord_id, discord_id_spec, mapping_plan, plan_view, slack_channel_key_spec,
    slack_message_key, slack_message_key_spec, text_of, unmap_from_slack_plan, RedisClient,
    StoreCommand, StoreCommandView,
};
use crate::text::{parse_u64, parse_u64_spec, same_text, split_pair, split_pair_spec};
use vstd::prelude::*;

verus! {

/// A message as Discord reports it after a delivery.
#[derive(Debug, Clone, Copy, PartialEq, Eq)]
pub struct DeliveredMessage {
    pub channel_id: u64,
    pub id: u64,
}

impl DeliveredMessage {
    /// Whether this can be a message of Discord: neither id is zero.
    pub open spec fn is_valid(self) -> bool {
        self.channel_id != 0 && self.id != 0
    }

    /// Whether this can be a message of Discord: neither id is zero.
    pub fn valid(&self) -> (valid: bool)
        ensures
            valid == self.is_valid(),
    {
        self.channel_id != 0 && self.id != 0
    }
}

/// Something the dispatcher asks its caller to do for it.
#[derive(Debug, Clone, PartialEq, Eq)]
pub enum Effect {
    /// Run a command against the correlation store.
    Store(StoreCommand),
    /// List the relay identities that a Discord channel has.
    ListIdentities { channel: u64 },
    /// Create a relay identity on a Discord channel.
    CreateIdentity { channel: u64, name: String },
    /// Post a message through a relay identity, under the author's name.
    Deliver { identity: u64, username: String, avatar_url: String, content: String },
    /// Replace the text of a message that a relay identity posted.
    EditMessage { identity: u64, message: u64, content: String },
    /// Delete a message from a Discord channel.
    DeleteMessage { channel: u64, message: u64 },
}

/// An [`Effect`] as plain text.
pub enum EffectView {
    Store(StoreCommandView),
    ListIdentities { channel: u64 },
    CreateIdentity { channel: u64, name: Seq<char> },
    Deliver { identity: u64, username: Seq<char>, avatar_url: Seq<char>, content: Seq<char> },
    EditMessage { identity: u64, message: u64, content: Seq<char> },
    DeleteMessage { channel: u64, message: u64 },
}

impl View for Effect {
    type V = EffectView;

    open spec fn view(&self) -> EffectView {
        match self {
            Effect::Store(command) => EffectView::Store(command@),
            Effect::ListIdentities { channel } => EffectView::ListIdentities { channel: *channel },
            Effect::CreateIdentity { channel, name } => EffectView::CreateIdentity {
                channel: *channel,
                name: name@,
            },
            Effect::Deliver { identity, username, avatar_url, content } => EffectView::Deliver {
                identity: *identity,
                username: username@,
                avatar_url: avatar_url@,
                content: content@,
            },
            Effect::EditMessage { identity, message, content } => EffectView::EditMessage {
                identity: *identity,
                message: *message,
                content: content@,
            },
            Effect::DeleteMessage { channel, message } => EffectView::DeleteMessage {
                channel: *channel,
                message: *message,
            },
        }
    }
}

/// What came of an [`Effect`].
#[derive(Debug, Clone, PartialEq, Eq)]
pub enum Reply {
    /// A store read answered: the value under the key, if there is one.
    Value(Option<String>),
    /// A store write or removal went through.
    Applied,
    /// The identities that the channel has.
    Identities(Vec<RelayIdentity>),
    /// The identity that was created.
    Identity(RelayIdentity),
    /// The delivery went through; the platform may hand back no message.
    Delivered(Option<DeliveredMessage>),
    /// The edit or the deletion went through.
    Done,
    /// The store or the platform failed.
    Failed,
}

/// A [`Reply`] as plain text.
pub enum ReplyView {
    Value(Option<Seq<char>>),
    Applied,
    Identities(Seq<RelayIdentityView>),
    Identity(RelayIdentityView),
    Delivered(Option<DeliveredMessage>),
    Done,
    Failed,
}

impl View for Reply {
    type V = ReplyView;

    open spec fn view(&self) -> ReplyView {
        match self {
            Reply::Value(value) => ReplyView::Value(
                match value {
                    Some(text) => Some(text@),
                    None => None,
                },
            ),
            Reply::Applied => ReplyView::Applied,
            Reply::Identities(identities) => ReplyView::Identities(identities_view(identities@)),
            Reply::Identity(identity) => ReplyView::Identity(identity@),
            Reply::Delivered(message) => ReplyView::Delivered(*message),
            Reply::Done => ReplyView::Done,
            Reply::Failed => ReplyView::Failed,
        }
    }
}

/// How the handling of an event ended.
#[derive(Debug, Clone, Copy, PartialEq, Eq)]
pub enum Outcome {
    /// The message was delivered and its mapping stored.
    Relayed,
    /// The mapped message was edited.
    Edited,
    /// The mapped message was deleted and its mapping removed.
    Deleted,
    /// The event comes from another workspace.
    OtherWorkspace,
    /// Pins and unpins are not relayed.
    Unhandled,
    /// The source channel is linked to no channel.
    NotLinked,
    /// The link holds no number, or zero, which is no channel of Discord.
    InvalidChannel,
    /// No mapping is stored for the source message.
    NoMapping,
    /// The stored mapping does not hold a channel and a message.
    InvalidMapping,
    /// The correlation store failed.
    StoreFailed,
    /// The delivery platform failed, or delivered without handing back a
    /// message that can be one of its own.
    PlatformFailed,
    /// The reply does not answer what was asked.
    UnexpectedReply,
}

/// What the dispatcher wants next.
#[derive(Debug, Clone, PartialEq, Eq)]
pub enum Step {
    /// Carry out the effect and come back with its reply.
    Perform(Effect),
    /// The event is dealt with.
    Finish(Outcome),
}

/// A [`Step`] as plain text.
pub enum StepView {
    Perform(EffectView),
    Finish(Outcome),
}

impl View for Step {
    type V = StepView;

    open spec fn view(&self) -> StepView {
        match self {
            Step::Perform(effect) => StepView::Perform(effect@),
            Step::Finish(outcome) => StepView::Finish(*outcome),
        }
    }
}

/// What the dispatcher is waiting for.
#[derive(Debug, Clone, Copy, PartialEq, Eq)]
pub enum Stage {
    /// A new message: the channel that the source channel is linked to.
    Resolving,
    /// A new message: the identities of the target channel.
    Listing { channel: u64 },
    /// A new message: the identity created on the target channel.
    Creating { channel: u64 },
    /// A new message: the delivery.
    Delivering,
    /// A new message: the first half of the mapping.
    RecordingFirst { delivered: DeliveredMessage },
    /// A new message: the second half of the mapping.
    RecordingSecond,
    /// An edit: the mapping of the source message.
    FindingEdited,
    /// An edit: the identities of the mapped channel.
    ListingForEdit { channel: u64, message: u64 },
    /// An edit: the identity created on the mapped channel.
    CreatingForEdit { message: u64 },
    /// An edit: the edit itself.
    Editing,
    /// A deletion: the mapping of the source message.
    FindingDeleted,
    /// A deletion: the deletion itself.
    Removing,
    /// A deletion: the mapping once more, to remove both of its halves.
    Unmapping,
    /// A deletion: the removal of the Discord half of the mapping.
    ForgettingPaired,
    /// A deletion: the removal of the Slack half of the mapping.
    ForgettingOwn,
    /// Nothing: the event is dealt with.
    Finished,
}

/// The Discord channel and message that a stored reference names: two
/// Discord ids joined by one colon.
pub open spec fn message_target_spec(reference: Seq<char>) -> Option<(u64, u64)> {
    match split_pair_spec(reference) {
        Some((channel, message)) => match (discord_id_spec(channel), discord_id_spec(message)) {
            (Some(channel), Some(message)) => Some((channel, message)),
            _ => None,
        },
        None => None,
    }
}

/// Reads the Discord channel and message that a stored reference names.
pub fn message_target(reference: &str) -> (target: Option<(u64, u64)>)
    ensures
        target == message_target_spec(reference@),
{
    match split_pair(reference) {
        Some((channel, message)) => {
            match (discord_id(channel.as_str()), discord_id(message.as_str())) {
                (Some(channel), Some(message)) => Some((channel, message)),
                _ => None,
            }
        },
        None => None,
    }
}

/// The Discord channel that a link lookup answers with: the stored value
/// read as a number.
pub open spec fn discord_channel_spec(stored: Option<Seq<char>>) -> Option<u64> {
    match stored {
        Some(text) => parse_u64_spec(text),
        None => None,
    }
}

/// Reads the Discord channel out of the answer to a link lookup.
pub fn get_discord_channel_id(stored: Option<&str>) -> (channel: Option<u64>)
    ensures
        channel == discord_channel_spec(text_of(stored)),
{
    match stored {
        Some(text) => parse_u64(text),
        None => None,
    }
}

/// The delivery of an event's text through `identity`, under its author's
/// name and avatar.
pub open spec fn delivery_spec(event: BridgeEventView, identity: u64) -> EffectView {
    EffectView::Deliver {
        identity,
        username: event.author_name,
        avatar_url: event.author_avatar,
        content: event.event_type.content(),
    }
}

/// The edit that gives `message` the event's text.
pub open spec fn edit_spec(event: BridgeEventView, identity: u64, message: u64) -> EffectView {
    EffectView::EditMessage { identity, message, content: event.event_type.content() }
}

/// The creation of a relay identity on `channel`.
pub open spec fn creation_spec(channel: u64) -> EffectView {
    EffectView::CreateIdentity { channel, name: relay_name_spec() }
}

/// The read of the mapping of the event's message.
pub open spec fn mapping_query_spec(event: BridgeEventView) -> EffectView {
    EffectView::Store(
        StoreCommandView::Get { key: slack_message_key_spec(event.event_type.message_id()) },
    )
}

/// The mapping that a delivery of the event's message calls for.
pub open spec fn recording_spec(event: BridgeEventView, delivered: DeliveredMessage) -> Seq<
    StoreCommandView,
> {
    mapping_plan(
        delivered.channel_id,
        delivered.id,
        event.channel_id,
        event.event_type.message_id(),
    )
}

/// The end of the handling, with its outcome.
pub open spec fn finish(outcome: Outcome) -> (Stage, StepView) {
    (Stage::Finished, StepView::Finish(outcome))
}

/// Where the handling of an event begins. An event from another workspace
/// is dropped; a new message asks for the channel its channel is linked to;
/// an edit and a deletion ask for the mapping of their message; pins and
/// unpins are not relayed.
pub open spec fn start_spec(workspace_id: Seq<char>, event: BridgeEventView) -> (Stage, StepView) {
    if event.workspace_id != workspace_id {
        finish(Outcome::OtherWorkspace)
    } else {
        match event.event_type {
            EventTypeView::MessageSent { message_id, content } => (
                Stage::Resolving,
                StepView::Perform(
                    EffectView::Store(
                        StoreCommandView::Get { key: slack_channel_key_spec(event.channel_id) },
                    ),
                ),
            ),
            EventTypeView::MessageDeleted { message_id } => (
                Stage::FindingDeleted,
                StepView::Perform(mapping_query_spec(event)),
            ),
            EventTypeView::MessageEdited { message_id, new_content } => (
                Stage::FindingEdited,
                StepView::Perform(mapping_query_spec(event)),
            ),
            EventTypeView::MessagePinned { message_id, content } => finish(Outcome::Unhandled),
            EventTypeView::MessageUnpinned { message_id, content } => finish(Outcome::Unhandled),
        }
    }
}


/// Where the relay of a new message goes on a reply: from the linked
/// channel to its relay identity, to the delivery, to the two halves of
/// the mapping. A link to channel zero ends it, since Discord has no such
/// channel, and so does a delivered message with a zero id. A failure ends
/// it, and so does a reply that does not answer what was asked.
pub open spec fn sending_spec(event: BridgeEventView, stage: Stage, reply: ReplyView) -> (
    Stage,
    StepView,
) {
    match stage {
        Stage::Resolving => match reply {
            ReplyView::Value(stored) => match discord_channel_spec(stored) {
                Some(channel) => if channel != 0 {
                    (
                        Stage::Listing { channel },
                        StepView::Perform(EffectView::ListIdentities { channel }),
                    )
                } else {
                    finish(Outcome::InvalidChannel)
                },
                None => if stored is Some {
                    finish(Outcome::InvalidChannel)
                } else {
                    finish(Outcome::NotLinked)
                },
            },
            ReplyView::Failed => finish(Outcome::StoreFailed),
            _ => finish(Outcome::UnexpectedReply),
        },
        Stage::Listing { channel } => match reply {
            ReplyView::Identities(identities) => match first_named(identities, relay_name_spec()) {
                Some(identity) => (
                    Stage::Delivering,
                    StepView::Perform(delivery_spec(event, identity)),
                ),
                None => (Stage::Creating { channel }, StepView::Perform(creation_spec(channel))),
            },
            ReplyView::Failed => finish(Outcome::PlatformFailed),
            _ => finish(Outcome::UnexpectedReply),
        },
        Stage::Creating { channel } => match reply {
            ReplyView::Identity(identity) => (
                Stage::Delivering,
                StepView::Perform(delivery_spec(event, identity.id)),
            ),
            ReplyView::Failed => finish(Outcome::PlatformFailed),
            _ => finish(Outcome::UnexpectedReply),
        },
        Stage::Delivering => match reply {
            ReplyView::Delivered(Some(delivered)) => if delivered.is_valid() {
                (
                    Stage::RecordingFirst { delivered },
                    StepView::Perform(EffectView::Store(recording_spec(event, delivered)[0])),
                )
            } else {
                finish(Outcome::PlatformFailed)
            },
            ReplyView::Delivered(None) => finish(Outcome::PlatformFailed),
            ReplyView::Failed => finish(Outcome::PlatformFailed),
            _ => finish(Outcome::UnexpectedReply),
        },
        Stage::RecordingFirst { delivered } => match reply {
            ReplyView::Applied => (
                Stage::RecordingSecond,
                StepView::Perform(EffectView::Store(recording_spec(event, delivered)[1])),
            ),
            ReplyView::Failed => finish(Outcome::StoreFailed),
            _ => finish(Outcome::UnexpectedReply),
        },
        Stage::RecordingSecond => match reply {
            ReplyView::Applied => finish(Outcome::Relayed),
            ReplyView::Failed => finish(Outcome::StoreFailed),
            _ => finish(Outcome::UnexpectedReply),
        },
        _ => finish(Outcome::UnexpectedReply),
    }
}

/// Where the relay of an edit goes on a reply: from the mapping of the
/// source message to the relay identity of the mapped channel, to the edit
/// of the mapped message. An edit without a mapping is dropped.
pub open spec fn editing_spec(event: BridgeEventView, stage: Stage, reply: ReplyView) -> (
    Stage,
    StepView,
) {
    match stage {
        Stage::FindingEdited => match reply {
            ReplyView::Value(Some(reference)) => match message_target_spec(reference) {
                Some((channel, message)) => (
                    Stage::ListingForEdit { channel, message },
                    StepView::Perform(EffectView::ListIdentities { channel }),
                ),
                None => finish(Outcome::InvalidMapping),
            },
            ReplyView::Value(None) => finish(Outcome::NoMapping),
            ReplyView::Failed => finish(Outcome::StoreFailed),
            _ => finish(Outcome::UnexpectedReply),
        },
        Stage::ListingForEdit { channel, message } => match reply {
            ReplyView::Identities(identities) => match first_named(identities, relay_name_spec()) {
                Some(identity) => (
                    Stage::Editing,
                    StepView::Perform(edit_spec(event, identity, message)),
                ),
                None => (
                    Stage::CreatingForEdit { message },
                    StepView::Perform(creation_spec(channel)),
                ),
            },
            ReplyView::Failed => finish(Outcome::PlatformFailed),
            _ => finish(Outcome::UnexpectedReply),
        },
        Stage::CreatingForEdit { message } => match reply {
            ReplyView::Identity(identity) => (
                Stage::Editing,
                StepView::Perform(edit_spec(event, identity.id, message)),
            ),
            ReplyView::Failed => finish(Outcome::PlatformFailed),
            _ => finish(Outcome::UnexpectedReply),
        },
        Stage::Editing => match reply {
            ReplyView::Done => finish(Outcome::Edited),
            ReplyView::Failed => finish(Outcome::PlatformFailed),
            _ => finish(Outcome::UnexpectedReply),
        },
        _ => finish(Outcome::UnexpectedReply),
    }
}

/// Where the relay of a deletion goes on a reply: from the mapping of the
/// source message to the deletion of the mapped message, then to the
/// removal of the mapping, which is read once more and removed half by
/// half. A deletion without a mapping is dropped. Whether the deletion
/// itself went through or failed, the mapping is removed.
pub open spec fn deleting_spec(event: BridgeEventView, stage: Stage, reply: ReplyView) -> (
    Stage,
    StepView,
) {
    match stage {
        Stage::FindingDeleted => match reply {
            ReplyView::Value(Some(reference)) => match message_target_spec(reference) {
                Some((channel, message)) => (
                    Stage::Removing,
                    StepView::Perform(EffectView::DeleteMessage { channel, message }),
                ),
                None => finish(Outcome::InvalidMapping),
            },
            ReplyView::Value(None) => finish(Outcome::NoMapping),
            ReplyView::Failed => finish(Outcome::StoreFailed),
            _ => finish(Outcome::UnexpectedReply),
        },
        Stage::Removing => match reply {
            ReplyView::Done => (Stage::Unmapping, StepView::Perform(mapping_query_spec(event))),
            ReplyView::Failed => (Stage::Unmapping, StepView::Perform(mapping_query_spec(event))),
            _ => finish(Outcome::UnexpectedReply),
        },
        Stage::Unmapping => match reply {
            ReplyView::Value(stored) => match unmap_from_slack_plan(
                event.event_type.message_id(),
                stored,
            ) {
                Ok(plan) => (
                    if plan.len() == 2 {
                        Stage::ForgettingPaired
                    } else {
                        Stage::ForgettingOwn
                    },
                    StepView::Perform(EffectView::Store(plan[0])),
                ),
                Err(e) => finish(Outcome::InvalidMapping),
            },
            ReplyView::Failed => finish(Outcome::StoreFailed),
            _ => finish(Outcome::UnexpectedReply),
        },
        Stage::ForgettingPaired => match reply {
            ReplyView::Applied => (
                Stage::ForgettingOwn,
                StepView::Perform(
                    EffectView::Store(
                        StoreCommandView::Del {
                            key: slack_message_key_spec(event.event_type.message_id()),
                        },
                    ),
                ),
            ),
            ReplyView::Failed => finish(Outcome::StoreFailed),
            _ => finish(Outcome::UnexpectedReply),
        },
        Stage::ForgettingOwn => match reply {
            ReplyView::Applied => finish(Outcome::Deleted),
            ReplyView::Failed => finish(Outcome::StoreFailed),
            _ => finish(Outcome::UnexpectedReply),
        },
        _ => finish(Outcome::UnexpectedReply),
    }
}

/// Where the handling of an event goes on a reply, by what it is waiting
/// for. Once the event is dealt with, no reply is expected.
pub open spec fn next_spec(event: BridgeEventView, stage: Stage, reply: ReplyView) -> (
    Stage,
    StepView,
) {
    match stage {
        Stage::Resolving => sending_spec(event, stage, reply),
        Stage::Listing { channel } => sending_spec(event, stage, reply),
        Stage::Creating { channel } => sending_spec(event, stage, reply),
        Stage::Delivering => sending_spec(event, stage, reply),
        Stage::RecordingFirst { delivered } => sending_spec(event, stage, reply),
        Stage::RecordingSecond => sending_spec(event, stage, reply),
        Stage::FindingEdited => editing_spec(event, stage, reply),
        Stage::ListingForEdit { channel, message } => editing_spec(event, stage, reply),
        Stage::CreatingForEdit { message } => editing_spec(event, stage, reply),
        Stage::Editing => editing_spec(event, stage, reply),
        Stage::FindingDeleted => deleting_spec(event, stage, reply),
        Stage::Removing => deleting_spec(event, stage, reply),
        Stage::Unmapping => deleting_spec(event, stage, reply),
        Stage::ForgettingPaired => deleting_spec(event, stage, reply),
        Stage::ForgettingOwn => deleting_spec(event, stage, reply),
        Stage::Finished => finish(Outcome::UnexpectedReply),
    }
}

fn deliver(event: &BridgeEvent, identity: u64) -> (effect: Effect)
    ensures
        effect@ == delivery_spec(event@, identity),
{
    Effect::Deliver {
        identity,
        username: event.author_name.clone(),
        avatar_url: event.author_avatar.clone(),
        content: String::from_str(event.event_type.content()),
    }
}

fn edit(event: &BridgeEvent, identity: u64, message: u64) -> (effect: Effect)
    ensures
        effect@ == edit_spec(event@, identity, message),
{
    Effect::EditMessage {
        identity,
        message,
        content: String::from_str(event.event_type.content()),
    }
}

fn find_mapping(event: &BridgeEvent) -> (effect: Effect)
    ensures
        effect@ == mapping_query_spec(event@),
{
    Effect::Store(RedisClient::new().get_discord_message(event.event_type.message_id()))
}

fn create_identity(channel: u64) -> (effect: Effect)
    ensures
        effect@ == creation_spec(channel),
{
    Effect::CreateIdentity { channel, name: String::from_str(relay_name()) }
}

fn answer_of(value: &Option<String>) -> (text: Option<&str>)
    ensures
        text_of(text) == match *value {
            Some(s) => Some(s@),
            None => None,
        },
{
    match value {
        Some(s) => Some(s.as_str()),
        None => None,
    }
}

fn done(outcome: Outcome) -> (r: (Stage, Step))
    ensures
        (r.0, r.1@) == finish(outcome),
{
    (Stage::Finished, Step::Finish(outcome))
}

fn record(event: &BridgeEvent, delivered: DeliveredMessage, half: usize) -> (effect: Effect)
    requires
        half < 2,
    ensures
        effect@ == EffectView::Store(recording_spec(event@, delivered)[half as int]),
{
    let mut plan = RedisClient::new().store_message_mapping(
        delivered.channel_id,
        delivered.id,
        event.channel_id.as_str(),
        event.event_type.message_id(),
    );
    assert(recording_spec(event@, delivered).len() == 2);
    assert(plan_view(plan@).len() == plan@.len());
    assert(plan_view(plan@)[half as int] == plan@[half as int]@);
    Effect::Store(plan.remove(half))
}

/// Goes on with the relay of a new message.
pub fn send_message_to_discord(event: &BridgeEvent, stage: Stage, reply: Reply) -> (r: (
    Stage,
    Step,
))
    ensures
        (r.0, r.1@) == sending_spec(event@, stage, reply@),
{
    match stage {
        Stage::Resolving => match reply {
            Reply::Value(value) => match get_discord_channel_id(answer_of(&value)) {
                Some(channel) => if channel != 0 {
                    (Stage::Listing { channel }, Step::Perform(Effect::ListIdentities { channel }))
                } else {
                    done(Outcome::InvalidChannel)
                },
                None => if value.is_some() {
                    done(Outcome::InvalidChannel)
                } else {
                    done(Outcome::NotLinked)
                },
            },
            Reply::Failed => done(Outcome::StoreFailed),
            _ => done(Outcome::UnexpectedReply),
        },
        Stage::Listing { channel } => match reply {
            Reply::Identities(identities) => match get_or_create_webhook(&identities) {
                IdentityChoice::Reuse(identity) => (
                    Stage::Delivering,
                    Step::Perform(deliver(event, identity)),
                ),
                IdentityChoice::Create => (
                    Stage::Creating { channel },
                    Step::Perform(create_identity(channel)),
                ),
            },
            Reply::Failed => done(Outcome::PlatformFailed),
            _ => done(Outcome::UnexpectedReply),
        },
        Stage::Creating { channel } => match reply {
            Reply::Identity(identity) => (
                Stage::Delivering,
                Step::Perform(deliver(event, identity.id)),
            ),
            Reply::Failed => done(Outcome::PlatformFailed),
            _ => done(Outcome::UnexpectedReply),
        },
        Stage::Delivering => match reply {
            Reply::Delivered(Some(delivered)) => if delivered.valid() {
                (Stage::RecordingFirst { delivered }, Step::Perform(record(event, delivered, 0)))
            } else {
                done(Outcome::PlatformFailed)
            },
            Reply::Delivered(None) => done(Outcome::PlatformFailed),
            Reply::Failed => done(Outcome::PlatformFailed),
            _ => done(Outcome::UnexpectedReply),
        },
        Stage::RecordingFirst { delivered } => match reply {
            Reply::Applied => (Stage::RecordingSecond, Step::Perform(record(event, delivered, 1))),
            Reply::Failed => done(Outcome::StoreFailed),
            _ => done(Outcome::UnexpectedReply),
        },
        Stage::RecordingSecond => match reply {
            Reply::Applied => done(Outcome::Relayed),
            Reply::Failed => done(Outcome::StoreFailed),
            _ => done(Outcome::UnexpectedReply),
        },
        _ => done(Outcome::UnexpectedReply),
    }
}

/// Goes on with the relay of an edit.
pub fn handle_message_edit(event: &BridgeEvent, stage: Stage, reply: Reply) -> (r: (Stage, Step))
    ensures
        (r.0, r.1@) == editing_spec(event@, stage, reply@),
{
    match stage {
        Stage::FindingEdited => match reply {
            Reply::Value(Some(reference)) => match message_target(reference.as_str()) {
                Some((channel, message)) => (
                    Stage::ListingForEdit { channel, message },
                    Step::Perform(Effect::ListIdentities { channel }),
                ),
                None => done(Outcome::InvalidMapping),
            },
            Reply::Value(None) => done(Outcome::NoMapping),
            Reply::Failed => done(Outcome::StoreFailed),
            _ => done(Outcome::UnexpectedReply),
        },
        Stage::ListingForEdit { channel, message } => match reply {
            Reply::Identities(identities) => match get_or_create_webhook(&identities) {
                IdentityChoice::Reuse(identity) => (
                    Stage::Editing,
                    Step::Perform(edit(event, identity, message)),
                ),
                IdentityChoice::Create => (
                    Stage::CreatingForEdit { message },
                    Step::Perform(create_identity(channel)),
                ),
            },
            Reply::Failed => done(Outcome::PlatformFailed),
            _ => done(Outcome::UnexpectedReply),
        },
        Stage::CreatingForEdit { message } => match reply {
            Reply::Identity(identity) => (
                Stage::Editing,
                Step::Perform(edit(event, identity.id, message)),
            ),
            Reply::Failed => done(Outcome::PlatformFailed),
            _ => done(Outcome::UnexpectedReply),
        },
        Stage::Editing => match reply {
            Reply::Done => done(Outcome::Edited),
            Reply::Failed => done(Outcome::PlatformFailed),
            _ => done(Outcome::UnexpectedReply),
        },
        _ => done(Outcome::UnexpectedReply),
    }
}

/// Goes on with the relay of a deletion.
pub fn handle_message_deletion(event: &BridgeEvent, stage: Stage, reply: Reply) -> (r: (
    Stage,
    Step,
))
    ensures
        (r.0, r.1@) == deleting_spec(event@, stage, reply@),
{
    match stage {
        Stage::FindingDeleted => match reply {
            Reply::Value(Some(reference)) => match message_target(reference.as_str()) {
                Some((channel, message)) => (
                    Stage::Removing,
                    Step::Perform(Effect::DeleteMessage { channel, message }),
                ),
                None => done(Outcome::InvalidMapping),
            },
            Reply::Value(None) => done(Outcome::NoMapping),
            Reply::Failed => done(Outcome::StoreFailed),
            _ => done(Outcome::UnexpectedReply),
        },
        Stage::Removing => match reply {
            Reply::Done => (Stage::Unmapping, Step::Perform(find_mapping(event))),
            Reply::Failed => (Stage::Unmapping, Step::Perform(find_mapping(event))),
            _ => done(Outcome::UnexpectedReply),
        },
        Stage::Unmapping => match reply {
            Reply::Value(value) => match RedisClient::new().delete_message_mapping_from_slack(
                event.event_type.message_id(),
                answer_of(&value),
            ) {
                Ok(mut plan) => {
                    assert(plan_view(plan@).len() == plan@.len());
                    assert(plan@.len() == 1 || plan@.len() == 2);
                    assert(plan_view(plan@)[0] == plan@[0]@);
                    let paired = plan.len() == 2;
                    let first = plan.remove(0);
                    (
                        if paired {
                            Stage::ForgettingPaired
                        } else {
                            Stage::ForgettingOwn
                        },
                        Step::Perform(Effect::Store(first)),
                    )
                },
                Err(e) => done(Outcome::InvalidMapping),
            },
            Reply::Failed => done(Outcome::StoreFailed),
            _ => done(Outcome::UnexpectedReply),
        },
        Stage::ForgettingPaired => match reply {
            Reply::Applied => (
                Stage::ForgettingOwn,
                Step::Perform(
                    Effect::Store(
                        StoreCommand::Del { key: slack_message_key(event.event_type.message_id()) },
                    ),
                ),
            ),
            Reply::Failed => done(Outcome::StoreFailed),
            _ => done(Outcome::UnexpectedReply),
        },
        Stage::ForgettingOwn => match reply {
            Reply::Applied => done(Outcome::Deleted),
            Reply::Failed => done(Outcome::StoreFailed),
            _ => done(Outcome::UnexpectedReply),
        },
        _ => done(Outcome::UnexpectedReply),
    }
}

/// The handling of one event, between two effects.
#[derive(Debug, Clone, PartialEq, Eq)]
pub struct Dispatch {
    pub event: BridgeEvent,
    pub stage: Stage,
}

/// Takes up an event that came off the queue. `team_id` is the workspace
/// this deployment relays for.
pub fn handle_bridge_event(team_id: &str, event: BridgeEvent) -> (r: (Dispatch, Step))
    ensures
        r.0.event == event,
        (r.0.stage, r.1@) == start_spec(team_id@, event@),
{
    let (stage, step) = if !same_text(event.workspace_id.as_str(), team_id) {
        done(Outcome::OtherWorkspace)
    } else {
        match &event.event_type {
            EventType::MessageSent { message_id, content } => (
                Stage::Resolving,
                Step::Perform(
                    Effect::Store(
                        RedisClient::new().get_linked_discord_channel(event.channel_id.as_str()),
                    ),
                ),
            ),
            EventType::MessageDeleted { message_id } => (
                Stage::FindingDeleted,
                Step::Perform(find_mapping(&event)),
            ),
            EventType::MessageEdited { message_id, new_content } => (
                Stage::FindingEdited,
                Step::Perform(find_mapping(&event)),
            ),
            EventType::MessagePinned { message_id, content } => done(Outcome::Unhandled),
            EventType::MessageUnpinned { message_id, content } => done(Outcome::Unhandled),
        }
    };
    (Dispatch { event, stage }, step)
}

impl Dispatch {
    /// Whether the event is dealt with.
    pub fn is_finished(&self) -> (finished: bool)
        ensures
            finished == (self.stage == Stage::Finished),
    {
        match self.stage {
            Stage::Finished => true,
            _ => false,
        }
    }

    /// Goes on with the reply to the effect that was asked for last.
    pub fn advance(self, reply: Reply) -> (r: (Dispatch, Step))
        ensures
            r.0.event == self.event,
            (r.0.stage, r.1@) == next_spec(self.event@, self.stage, reply@),
    {
        let (stage, step) = match self.stage {
            Stage::Resolving => send_message_to_discord(&self.event, self.stage, reply),
            Stage::Listing { channel } => send_message_to_discord(&self.event, self.stage, reply),
            Stage::Creating { channel } => send_message_to_discord(&self.event, self.stage, reply),
            Stage::Delivering => send_message_to_discord(&self.event, self.stage, reply),
            Stage::RecordingFirst { delivered } => send_message_to_discord(
                &self.event,
                self.stage,
                reply,
            ),
            Stage::RecordingSecond => send_message_to_discord(&self.event, self.stage, reply),
            Stage::FindingEdited => handle_message_edit(&self.event, self.stage, reply),
            Stage::ListingForEdit { channel, message } => handle_message_edit(
                &self.event,
                self.stage,
                reply,
            ),
            Stage::CreatingForEdit { message } => handle_message_edit(
                &self.event,
                self.stage,
                reply,
            ),
            Stage::Editing => handle_message_edit(&self.event, self.stage, reply),
            Stage::FindingDeleted => handle_message_deletion(&self.event, self.stage, reply),
            Stage::Removing => handle_message_deletion(&self.event, self.stage, reply),
            Stage::Unmapping => handle_message_deletion(&self.event, self.stage, reply),
            Stage::ForgettingPaired => handle_message_deletion(&self.event, self.stage, reply),
            Stage::ForgettingOwn => handle_message_deletion(&self.event, self.stage, reply),
            Stage::Finished => done(Outcome::UnexpectedReply),
        };
        (Dispatch { event: self.event, stage }, step)
    }
}

} // verus!
