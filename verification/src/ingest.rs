use crate::event::{BridgeEvent, EventType, EventTypeView};
use vstd::prelude::*;

verus! {

/// What kind of message event Slack reports, where it is not a plain new
/// message.
#[derive(Debug, Clone, Copy, PartialEq, Eq)]
pub enum MessageSubtype {
    /// A message was edited.
    MessageChanged,
    /// A message was deleted.
    MessageDeleted,
    /// A message was pinned.
    PinnedItem,
    /// Any other kind: joins, topics, files and the like.
    Other,
}

/// The content of a Slack message, as far as it is relayed.
#[derive(Debug, Clone, PartialEq, Eq)]
pub struct MessageContent {
    pub text: Option<String>,
}

/// The message as it stands after an edit.
#[derive(Debug, Clone, PartialEq, Eq)]
pub struct EditedMessage {
    /// Timestamp of the edited message: the id it was sent under.
    pub ts: String,
    pub content: Option<MessageContent>,
}

/// A message event as Slack reports it.
#[derive(Debug, Clone, PartialEq, Eq)]
pub struct NativeMessage {
    /// Timestamp of the event. For a new message it is the message's id;
    /// an edit and a deletion have a timestamp of their own and name the
    /// message they are about elsewhere.
    pub ts: String,
    pub channel: Option<String>,
    pub user: Option<String>,
    pub subtype: Option<MessageSubtype>,
    /// Content of a new message. An edit carries none here.
    pub content: Option<MessageContent>,
    /// On an edit, the message as it now stands.
    pub message: Option<EditedMessage>,
    /// On a deletion, the timestamp of the deleted message.
    pub deleted_ts: Option<String>,
}

/// What Slack knows of a user, as far as it is relayed.
#[derive(Debug, Clone, PartialEq, Eq)]
pub struct UserProfile {
    pub display_name: Option<String>,
    pub real_name: Option<String>,
    pub image_original: Option<String>,
}

/// Why a Slack event could not be turned into a bridge event.
#[derive(Debug, Clone, Copy, PartialEq, Eq)]
pub enum TranslationError {
    /// A deletion does not say which message was deleted.
    MissingDeletedTs,
}

/// The text behind an optional string.
pub open spec fn text_opt(value: Option<String>) -> Option<Seq<char>> {
    match value {
        Some(s) => Some(s@),
        None => None,
    }
}

/// The name an author is relayed under when Slack gives none.
pub open spec fn unknown_user() -> Seq<char> {
    "Unknown User"@
}

/// The text a message is relayed with when Slack gives none.
pub open spec fn missing_content() -> Seq<char> {
    "Failed to get message content"@
}

/// The name and the avatar an author is relayed under: the display name,
/// else the real name, else a placeholder; the original image, else none.
/// An author without a profile gets the placeholder and no avatar.
pub open spec fn author_spec(profile: Option<UserProfile>) -> (Seq<char>, Seq<char>) {
    match profile {
        Some(profile) => (
            match (text_opt(profile.display_name), text_opt(profile.real_name)) {
                (Some(name), _) => name,
                (None, Some(name)) => name,
                (None, None) => unknown_user(),
            },
            match text_opt(profile.image_original) {
                Some(image) => image,
                None => Seq::empty(),
            },
        ),
        None => (unknown_user(), Seq::empty()),
    }
}

/// Works out the name and the avatar to relay an author under. `profile`
/// is what the lookup of the author gave: nothing where the event names
/// no user, the lookup failed or the user has no profile.
pub fn get_user_info(profile: Option<&UserProfile>) -> (author: (String, String))
    ensures
        (author.0@, author.1@) == author_spec(
            match profile {
                Some(p) => Some(*p),
                None => None,
            },
        ),
{
    match profile {
        Some(profile) => {
            let name = match (&profile.display_name, &profile.real_name) {
                (Some(name), _) => name.clone(),
                (None, Some(name)) => name.clone(),
                (None, None) => String::from_str("Unknown User"),
            };
            let avatar = match &profile.image_original {
                Some(image) => image.clone(),
                None => String::new(),
            };
            (name, avatar)
        },
        None => (String::from_str("Unknown User"), String::new()),
    }
}

/// The text that a content is relayed with: its own, or the placeholder
/// where there is no content or the content has no text.
pub open spec fn content_text(content: Option<MessageContent>) -> Seq<char> {
    match content {
        Some(MessageContent { text: Some(text) }) => text@,
        _ => missing_content(),
    }
}

/// What a Slack message event is relayed as.
///
/// An event without a channel is not relayed. A plain message is a sent
/// message under the event's timestamp. An edit is an edited message under
/// the timestamp of the message that was edited, with the text of that
/// message as it now stands; an edit that does not hold the edited message
/// is not relayed. Where a sent or an edited message has no text, it is
/// relayed with the placeholder. A deletion is a deleted message under the
/// deleted message's timestamp, and an error without one. A pin and every
/// other kind are not relayed.
pub open spec fn translation_spec(message: NativeMessage) -> Result<
    Option<EventTypeView>,
    TranslationError,
> {
    if message.channel is None {
        Ok(None)
    } else {
        match message.subtype {
            None => Ok(
                Some(
                    EventTypeView::MessageSent {
                        message_id: message.ts@,
                        content: content_text(message.content),
                    },
                ),
            ),
            Some(MessageSubtype::MessageChanged) => match message.message {
                Some(edited) => Ok(
                    Some(
                        EventTypeView::MessageEdited {
                            message_id: edited.ts@,
                            new_content: content_text(edited.content),
                        },
                    ),
                ),
                None => Ok(None),
            },
            Some(MessageSubtype::MessageDeleted) => match message.deleted_ts {
                Some(ts) => Ok(Some(EventTypeView::MessageDeleted { message_id: ts@ })),
                None => Err(TranslationError::MissingDeletedTs),
            },
            Some(MessageSubtype::PinnedItem) => Ok(None),
            Some(MessageSubtype::Other) => Ok(None),
        }
    }
}

fn text_or_placeholder(content: Option<MessageContent>) -> (text: String)
    ensures
        text@ == content_text(content),
{
    match content {
        Some(MessageContent { text: Some(text) }) => text,
        _ => String::from_str("Failed to get message content"),
    }
}

/// Turns a Slack message event into the bridge event it is relayed as, if
/// it is relayed. The author's name and avatar come from
/// [`get_user_info`].
pub fn create_bridge_event(
    message: NativeMessage,
    team_id: String,
    author_name: String,
    author_avatar: String,
) -> (r: Result<Option<BridgeEvent>, TranslationError>)
    ensures
        match r {
            Ok(Some(event)) => translation_spec(message) == Ok::<
                Option<EventTypeView>,
                TranslationError,
            >(Some(event.event_type@)) && event.author_name == author_name && event.author_avatar
                == author_avatar && message.channel == Some(event.channel_id) && event.workspace_id
                == team_id,
            Ok(None) => translation_spec(message) == Ok::<Option<EventTypeView>, TranslationError>(
                None,
            ),
            Err(e) => translation_spec(message) == Err::<Option<EventTypeView>, TranslationError>(
                e,
            ),
        },
{
    let channel_id = match message.channel {
        Some(channel) => channel,
        None => {
            return Ok(None);
        },
    };
    let event_type = match message.subtype {
        None => EventType::MessageSent {
            message_id: message.ts,
            content: text_or_placeholder(message.content),
        },
        Some(MessageSubtype::MessageChanged) => match message.message {
            Some(edited) => EventType::MessageEdited {
                message_id: edited.ts,
                new_content: text_or_placeholder(edited.content),
            },
            None => {
                return Ok(None);
            },
        },
        Some(MessageSubtype::MessageDeleted) => match message.deleted_ts {
            Some(ts) => EventType::MessageDeleted { message_id: ts },
            None => {
                return Err(TranslationError::MissingDeletedTs);
            },
        },
        Some(MessageSubtype::PinnedItem) => {
            return Ok(None);
        },
        Some(MessageSubtype::Other) => {
            return Ok(None);
        },
    };
    Ok(Some(BridgeEvent { event_type, author_name, author_avatar, channel_id, workspace_id: team_id }))
}

/// What Slack pushes to the bridge.
#[derive(Debug, Clone, PartialEq, Eq)]
pub enum PushEvent {
    /// Slack checks that the endpoint is the bridge's.
    UrlVerification { challenge: String },
    /// Something happened to a message of a workspace.
    Message { message: NativeMessage, team_id: String },
    /// Anything else.
    Other,
}

/// What the bridge does with a push.
#[derive(Debug, Clone, PartialEq, Eq)]
pub enum PushOutcome {
    /// Answer with this text.
    Challenge(String),
    /// Answer with nothing and queue the event for Discord.
    Forward(BridgeEvent),
    /// Answer with nothing.
    Ignored,
    /// Answer with nothing; the event is not what Slack promises.
    Rejected(TranslationError),
}

/// The user whose profile is to be looked up before a push is handled:
/// the sender of a message event that has a channel. Any other push needs
/// no lookup.
pub open spec fn author_lookup_spec(event: PushEvent) -> Option<Seq<char>> {
    match event {
        PushEvent::Message { message, team_id } => if message.channel is Some {
            text_opt(message.user)
        } else {
            None
        },
        _ => None,
    }
}

/// Tells whose profile to look up before [`push_event`] is called. What
/// the lookup gives goes through [`get_user_info`].
pub fn author_lookup(event: &PushEvent) -> (user: Option<&str>)
    ensures
        match user {
            Some(id) => author_lookup_spec(*event) == Some(id@),
            None => author_lookup_spec(*event) is None,
        },
{
    match event {
        PushEvent::Message { message, team_id } => {
            if message.channel.is_some() {
                match &message.user {
                    Some(id) => Some(id.as_str()),
                    None => None,
                }
            } else {
                None
            }
        },
        _ => None,
    }
}

/// Handles a push from Slack: a verification is answered with its
/// challenge, letter for letter; a message event is translated, and
/// forwarded if it is relayed; anything else is ignored. `author_name`
/// and `author_avatar` come from [`get_user_info`].
pub fn push_event(event: PushEvent, author_name: String, author_avatar: String) -> (outcome:
    PushOutcome)
    ensures
        match event {
            PushEvent::UrlVerification { challenge } => outcome == PushOutcome::Challenge(
                challenge,
            ),
            PushEvent::Message { message, team_id } => match translation_spec(message) {
                Ok(Some(event_type)) => outcome matches PushOutcome::Forward(forwarded)
                    && forwarded.event_type@ == event_type && forwarded.author_name == author_name
                    && forwarded.author_avatar == author_avatar && message.channel == Some(
                    forwarded.channel_id,
                ) && forwarded.workspace_id == team_id,
                Ok(None) => outcome is Ignored,
                Err(e) => outcome == PushOutcome::Rejected(e),
            },
            PushEvent::Other => outcome is Ignored,
        },
{
    match event {
        PushEvent::UrlVerification { challenge } => PushOutcome::Challenge(challenge),
        PushEvent::Message { message, team_id } => {
            match create_bridge_event(message, team_id, author_name, author_avatar) {
                Ok(Some(event)) => PushOutcome::Forward(event),
                Ok(None) => PushOutcome::Ignored,
                Err(e) => PushOutcome::Rejected(e),
            }
        },
        PushEvent::Other => PushOutcome::Ignored,
    }
}

/// An edit and a deletion are relayed under the id of the message they are
/// about: the id under which that message was relayed when it was sent,
/// whatever timestamps the edit and the deletion have of their own.
pub proof fn law_events_name_the_sent_message(
    sent: NativeMessage,
    edit: NativeMessage,
    deletion: NativeMessage,
)
    requires
        sent.channel is Some,
        sent.subtype is None,
        edit.channel is Some,
        edit.subtype == Some(MessageSubtype::MessageChanged),
        edit.message matches Some(edited) && edited.ts@ == sent.ts@,
        deletion.channel is Some,
        deletion.subtype == Some(MessageSubtype::MessageDeleted),
        deletion.deleted_ts matches Some(ts) && ts@ == sent.ts@,
    ensures
        translation_spec(sent) matches Ok(Some(event)) && event is MessageSent
            && event.message_id() == sent.ts@,
        translation_spec(edit) matches Ok(Some(event)) && event is MessageEdited
            && event.message_id() == sent.ts@,
        translation_spec(deletion) matches Ok(Some(event)) && event is MessageDeleted
            && event.message_id() == sent.ts@,
{
}

} // verus!
