use vstd::prelude::*;

verus! {

/// What happened to a message on the platform an event comes from.
///
/// `message_id` is always the identifier the source platform gave the
/// message; it is carried as an opaque key.
#[derive(Debug, Clone, PartialEq, Eq)]
pub enum EventType {
    MessageSent { message_id: String, content: String },
    MessageDeleted { message_id: String },
    MessageEdited { message_id: String, new_content: String },
    MessagePinned { message_id: String, content: String },
    MessageUnpinned { message_id: String, content: String },
}

/// A relayable action in platform-neutral form.
#[derive(Debug, Clone, PartialEq, Eq)]
pub struct BridgeEvent {
    pub event_type: EventType,
    pub author_name: String,
    pub author_avatar: String,
    /// Channel id as the source platform knows it.
    pub channel_id: String,
    /// Organisation or team the event was raised in.
    pub workspace_id: String,
}

/// An [`EventType`] as plain text.
pub enum EventTypeView {
    MessageSent { message_id: Seq<char>, content: Seq<char> },
    MessageDeleted { message_id: Seq<char> },
    MessageEdited { message_id: Seq<char>, new_content: Seq<char> },
    MessagePinned { message_id: Seq<char>, content: Seq<char> },
    MessageUnpinned { message_id: Seq<char>, content: Seq<char> },
}

impl EventTypeView {
    /// The source platform's id of the message the event is about.
    pub open spec fn message_id(self) -> Seq<char> {
        match self {
            EventTypeView::MessageSent { message_id, content } => message_id,
            EventTypeView::MessageDeleted { message_id } => message_id,
            EventTypeView::MessageEdited { message_id, new_content } => message_id,
            EventTypeView::MessagePinned { message_id, content } => message_id,
            EventTypeView::MessageUnpinned { message_id, content } => message_id,
        }
    }

    /// The text the event carries; a deletion carries none.
    pub open spec fn content(self) -> Seq<char> {
        match self {
            EventTypeView::MessageSent { message_id, content } => content,
            EventTypeView::MessageDeleted { message_id } => Seq::empty(),
            EventTypeView::MessageEdited { message_id, new_content } => new_content,
            EventTypeView::MessagePinned { message_id, content } => content,
            EventTypeView::MessageUnpinned { message_id, content } => content,
        }
    }
}

impl View for EventType {
    type V = EventTypeView;

    open spec fn view(&self) -> EventTypeView {
        match self {
            EventType::MessageSent { message_id, content } => EventTypeView::MessageSent {
                message_id: message_id@,
                content: content@,
            },
            EventType::MessageDeleted { message_id } => EventTypeView::MessageDeleted {
                message_id: message_id@,
            },
            EventType::MessageEdited { message_id, new_content } => EventTypeView::MessageEdited {
                message_id: message_id@,
                new_content: new_content@,
            },
            EventType::MessagePinned { message_id, content } => EventTypeView::MessagePinned {
                message_id: message_id@,
                content: content@,
            },
            EventType::MessageUnpinned { message_id, content } => EventTypeView::MessageUnpinned {
                message_id: message_id@,
                content: content@,
            },
        }
    }
}

impl EventType {
    /// The source platform's id of the message the event is about.
    pub fn message_id(&self) -> (id: &str)
        ensures
            id@ == self@.message_id(),
    {
        match self {
            EventType::MessageSent { message_id, content } => message_id.as_str(),
            EventType::MessageDeleted { message_id } => message_id.as_str(),
            EventType::MessageEdited { message_id, new_content } => message_id.as_str(),
            EventType::MessagePinned { message_id, content } => message_id.as_str(),
            EventType::MessageUnpinned { message_id, content } => message_id.as_str(),
        }
    }

    /// The text the event carries; a deletion carries none.
    pub fn content(&self) -> (text: &str)
        ensures
            text@ == self@.content(),
    {
        proof {
            reveal_strlit("");
        }
        match self {
            EventType::MessageSent { message_id, content } => content.as_str(),
            EventType::MessageDeleted { message_id } => {
                let none = "";
                assert(none@ =~= Seq::<char>::empty());
                none
            },
            EventType::MessageEdited { message_id, new_content } => new_content.as_str(),
            EventType::MessagePinned { message_id, content } => content.as_str(),
            EventType::MessageUnpinned { message_id, content } => content.as_str(),
        }
    }
}

/// A [`BridgeEvent`] as plain text.
pub struct BridgeEventView {
    pub event_type: EventTypeView,
    pub author_name: Seq<char>,
    pub author_avatar: Seq<char>,
    pub channel_id: Seq<char>,
    pub workspace_id: Seq<char>,
}

impl View for BridgeEvent {
    type V = BridgeEventView;

    open spec fn view(&self) -> BridgeEventView {
        BridgeEventView {
            event_type: self.event_type@,
            author_name: self.author_name@,
            author_avatar: self.author_avatar@,
            channel_id: self.channel_id@,
            workspace_id: self.workspace_id@,
        }
    }
}

} // verus!
