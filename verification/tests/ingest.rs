use chat_bridge::event::{BridgeEvent, EventType};
use chat_bridge::ingest::{
    author_lookup, create_bridge_event, get_user_info, push_event, EditedMessage, MessageContent,
    MessageSubtype, NativeMessage, PushEvent, PushOutcome, TranslationError, UserProfile,
};

fn content(text: Option<&str>) -> Option<MessageContent> {
    Some(MessageContent { text: text.map(str::to_string) })
}

fn plain(text: Option<&str>) -> NativeMessage {
    NativeMessage {
        ts: "1700000000.000100".to_string(),
        channel: Some("C1".to_string()),
        user: Some("U1".to_string()),
        subtype: None,
        content: content(text),
        message: None,
        deleted_ts: None,
    }
}

fn translate(message: NativeMessage) -> Result<Option<BridgeEvent>, TranslationError> {
    create_bridge_event(message, "T1".to_string(), "Ada".to_string(), "https://a/ada.png".to_string())
}

#[test]
fn a_profile_gives_display_name_and_image() {
    let profile = UserProfile {
        display_name: Some("Ada".to_string()),
        real_name: Some("Ada Lovelace".to_string()),
        image_original: Some("https://a/ada.png".to_string()),
    };
    assert_eq!(get_user_info(Some(&profile)), ("Ada".to_string(), "https://a/ada.png".to_string()));
}

#[test]
fn the_real_name_stands_in_for_a_missing_display_name() {
    let profile = UserProfile {
        display_name: None,
        real_name: Some("Ada Lovelace".to_string()),
        image_original: None,
    };
    assert_eq!(get_user_info(Some(&profile)), ("Ada Lovelace".to_string(), String::new()));
}

#[test]
fn an_empty_display_name_is_kept() {
    let profile = UserProfile {
        display_name: Some(String::new()),
        real_name: Some("Ada Lovelace".to_string()),
        image_original: None,
    };
    assert_eq!(get_user_info(Some(&profile)), (String::new(), String::new()));
}

#[test]
fn an_author_without_names_is_unknown() {
    let profile = UserProfile { display_name: None, real_name: None, image_original: None };
    assert_eq!(get_user_info(Some(&profile)), ("Unknown User".to_string(), String::new()));
    assert_eq!(get_user_info(None), ("Unknown User".to_string(), String::new()));
}

#[test]
fn a_plain_message_is_a_sent_message() {
    assert_eq!(
        translate(plain(Some("hello"))),
        Ok(Some(BridgeEvent {
            event_type: EventType::MessageSent {
                message_id: "1700000000.000100".to_string(),
                content: "hello".to_string(),
            },
            author_name: "Ada".to_string(),
            author_avatar: "https://a/ada.png".to_string(),
            channel_id: "C1".to_string(),
            workspace_id: "T1".to_string(),
        }))
    );
}

#[test]
fn a_message_without_text_gets_the_placeholder() {
    let event = translate(plain(None)).unwrap().unwrap();
    assert_eq!(
        event.event_type,
        EventType::MessageSent {
            message_id: "1700000000.000100".to_string(),
            content: "Failed to get message content".to_string(),
        }
    );
}

#[test]
fn an_empty_text_is_relayed_as_it_is() {
    let event = translate(plain(Some(""))).unwrap().unwrap();
    assert_eq!(event.event_type.content(), "");
}

#[test]
fn a_message_without_content_gets_the_placeholder() {
    let mut message = plain(None);
    message.content = None;
    let event = translate(message).unwrap().unwrap();
    assert_eq!(
        event.event_type,
        EventType::MessageSent {
            message_id: "1700000000.000100".to_string(),
            content: "Failed to get message content".to_string(),
        }
    );
    assert_eq!(event.channel_id, "C1");
}

#[test]
fn a_message_without_channel_is_not_relayed() {
    let mut message = plain(Some("hello"));
    message.channel = None;
    assert_eq!(translate(message), Ok(None));
    let mut deletion = plain(None);
    deletion.channel = None;
    deletion.subtype = Some(MessageSubtype::MessageDeleted);
    assert_eq!(translate(deletion), Ok(None));
}

fn edit_of(ts: &str, text: Option<MessageContent>) -> NativeMessage {
    let mut message = plain(Some("outer"));
    message.ts = "1700000099.000900".to_string();
    message.subtype = Some(MessageSubtype::MessageChanged);
    message.message = Some(EditedMessage { ts: ts.to_string(), content: text });
    message
}

#[test]
fn an_edit_takes_its_text_from_the_nested_message() {
    let event = translate(edit_of("1700000000.000100", content(Some("edited")))).unwrap().unwrap();
    assert_eq!(
        event.event_type,
        EventType::MessageEdited {
            message_id: "1700000000.000100".to_string(),
            new_content: "edited".to_string(),
        }
    );
}

#[test]
fn an_edit_names_the_message_that_was_sent() {
    let sent = translate(plain(Some("hello"))).unwrap().unwrap();
    let edit = translate(edit_of("1700000000.000100", content(Some("hello!")))).unwrap().unwrap();
    assert_eq!(edit.event_type.message_id(), sent.event_type.message_id());
    assert_ne!(edit.event_type.message_id(), "1700000099.000900");
}

#[test]
fn an_edit_without_nested_text_gets_the_placeholder() {
    let event = translate(edit_of("1700000000.000100", content(None))).unwrap().unwrap();
    assert_eq!(event.event_type.content(), "Failed to get message content");
    let event = translate(edit_of("1700000000.000100", None)).unwrap().unwrap();
    assert_eq!(
        event.event_type,
        EventType::MessageEdited {
            message_id: "1700000000.000100".to_string(),
            new_content: "Failed to get message content".to_string(),
        }
    );
}

#[test]
fn an_edit_without_nested_message_is_not_relayed() {
    let mut message = plain(Some("outer"));
    message.subtype = Some(MessageSubtype::MessageChanged);
    assert_eq!(translate(message), Ok(None));
}

#[test]
fn the_sender_of_a_message_with_a_channel_is_looked_up() {
    let pushed = PushEvent::Message { message: plain(Some("hello")), team_id: "T1".to_string() };
    assert_eq!(author_lookup(&pushed), Some("U1"));
    let mut pin = plain(Some("x"));
    pin.subtype = Some(MessageSubtype::PinnedItem);
    let pushed = PushEvent::Message { message: pin, team_id: "T1".to_string() };
    assert_eq!(author_lookup(&pushed), Some("U1"));
}

#[test]
fn nobody_is_looked_up_for_other_pushes() {
    let mut anonymous = plain(Some("hello"));
    anonymous.user = None;
    let pushed = PushEvent::Message { message: anonymous, team_id: "T1".to_string() };
    assert_eq!(author_lookup(&pushed), None);
    let mut nowhere = plain(Some("hello"));
    nowhere.channel = None;
    let pushed = PushEvent::Message { message: nowhere, team_id: "T1".to_string() };
    assert_eq!(author_lookup(&pushed), None);
    assert_eq!(author_lookup(&PushEvent::Other), None);
    let challenge = PushEvent::UrlVerification { challenge: "abc".to_string() };
    assert_eq!(author_lookup(&challenge), None);
}

#[test]
fn a_deletion_names_the_deleted_message() {
    let mut message = plain(None);
    message.content = None;
    message.subtype = Some(MessageSubtype::MessageDeleted);
    message.deleted_ts = Some("1690000000.000200".to_string());
    let event = translate(message).unwrap().unwrap();
    assert_eq!(
        event.event_type,
        EventType::MessageDeleted { message_id: "1690000000.000200".to_string() }
    );
    assert_eq!(event.event_type.message_id(), "1690000000.000200");
    assert_eq!(event.event_type.content(), "");
}

#[test]
fn a_deletion_without_timestamp_is_an_error() {
    let mut message = plain(None);
    message.subtype = Some(MessageSubtype::MessageDeleted);
    assert_eq!(translate(message), Err(TranslationError::MissingDeletedTs));
}

#[test]
fn pins_and_other_kinds_are_filtered() {
    let mut message = plain(Some("pinned"));
    message.subtype = Some(MessageSubtype::PinnedItem);
    assert_eq!(translate(message.clone()), Ok(None));
    message.subtype = Some(MessageSubtype::Other);
    assert_eq!(translate(message), Ok(None));
}

#[test]
fn a_challenge_is_echoed_letter_for_letter() {
    let outcome = push_event(
        PushEvent::UrlVerification { challenge: "3eZbrw1aBm2rZgRNFdxV2595E9CY3gmdALWMmHkvFXO7tYXAYM8P".to_string() },
        String::new(),
        String::new(),
    );
    assert_eq!(
        outcome,
        PushOutcome::Challenge("3eZbrw1aBm2rZgRNFdxV2595E9CY3gmdALWMmHkvFXO7tYXAYM8P".to_string())
    );
}

#[test]
fn a_pushed_message_is_forwarded() {
    let outcome = push_event(
        PushEvent::Message { message: plain(Some("hello")), team_id: "T1".to_string() },
        "Ada".to_string(),
        String::new(),
    );
    match outcome {
        PushOutcome::Forward(event) => {
            assert_eq!(event.author_name, "Ada");
            assert_eq!(event.channel_id, "C1");
            assert_eq!(event.workspace_id, "T1");
            assert_eq!(event.event_type.content(), "hello");
        }
        other => panic!("not forwarded: {:?}", other),
    }
}

#[test]
fn other_pushes_are_ignored_or_rejected() {
    assert_eq!(push_event(PushEvent::Other, String::new(), String::new()), PushOutcome::Ignored);
    let mut pin = plain(Some("x"));
    pin.subtype = Some(MessageSubtype::PinnedItem);
    assert_eq!(
        push_event(PushEvent::Message { message: pin, team_id: "T1".to_string() }, String::new(), String::new()),
        PushOutcome::Ignored
    );
    let mut deletion = plain(None);
    deletion.subtype = Some(MessageSubtype::MessageDeleted);
    assert_eq!(
        push_event(
            PushEvent::Message { message: deletion, team_id: "T1".to_string() },
            String::new(),
            String::new()
        ),
        PushOutcome::Rejected(TranslationError::MissingDeletedTs)
    );
}
