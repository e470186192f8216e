use chat_bridge::bridge::create_bridge;
use chat_bridge::commands::{handle_link_channel, handle_unlink_channel, LinkRequest, UnlinkRequest};
use chat_bridge::dispatch::{
    get_discord_channel_id, handle_bridge_event, message_target, DeliveredMessage, Dispatch,
    Effect, Outcome, Reply, Stage, Step,
};
use chat_bridge::event::{BridgeEvent, EventType};
use chat_bridge::identity::{get_or_create_webhook, relay_name, IdentityChoice, RelayIdentity};
use chat_bridge::ingest::{
    get_user_info, push_event, EditedMessage, MessageContent, MessageSubtype, NativeMessage,
    PushEvent, PushOutcome, UserProfile,
};
use chat_bridge::store::StoreCommand;
use std::collections::HashMap;

/// A Discord message as the stand-in platform keeps it.
#[derive(Debug, Clone, PartialEq)]
struct Posted {
    channel: u64,
    id: u64,
    username: String,
    avatar_url: String,
    content: String,
}

/// A store and a Discord that live in memory.
struct World {
    table: HashMap<String, String>,
    identities: Vec<(u64, RelayIdentity)>,
    messages: Vec<Posted>,
    next_id: u64,
    effects: Vec<Effect>,
    store_down: bool,
    platform_down: bool,
}

impl World {
    fn new() -> World {
        World {
            table: HashMap::new(),
            identities: Vec::new(),
            messages: Vec::new(),
            next_id: 9000,
            effects: Vec::new(),
            store_down: false,
            platform_down: false,
        }
    }

    fn fresh_id(&mut self) -> u64 {
        self.next_id += 1;
        self.next_id
    }

    fn store(&mut self, command: &StoreCommand) -> Reply {
        if self.store_down {
            return Reply::Failed;
        }
        match command {
            StoreCommand::Get { key } => Reply::Value(self.table.get(key).cloned()),
            StoreCommand::Put { key, value } => {
                self.table.insert(key.clone(), value.clone());
                Reply::Applied
            }
            StoreCommand::Del { key } => {
                self.table.remove(key);
                Reply::Applied
            }
        }
    }

    fn perform(&mut self, effect: &Effect) -> Reply {
        self.effects.push(effect.clone());
        match effect {
            Effect::Store(command) => self.store(command),
            _ if self.platform_down => Reply::Failed,
            Effect::ListIdentities { channel } => Reply::Identities(
                self.identities
                    .iter()
                    .filter(|(c, _)| c == channel)
                    .map(|(_, identity)| identity.clone())
                    .collect(),
            ),
            Effect::CreateIdentity { channel, name } => {
                let identity = RelayIdentity { id: self.fresh_id(), name: Some(name.clone()) };
                self.identities.push((*channel, identity.clone()));
                Reply::Identity(identity)
            }
            Effect::Deliver { identity, username, avatar_url, content } => {
                let channel = self.identities.iter().find(|(_, i)| i.id == *identity).unwrap().0;
                let id = self.fresh_id();
                self.messages.push(Posted {
                    channel,
                    id,
                    username: username.clone(),
                    avatar_url: avatar_url.clone(),
                    content: content.clone(),
                });
                Reply::Delivered(Some(DeliveredMessage { channel_id: channel, id }))
            }
            Effect::EditMessage { identity, message, content } => {
                assert!(self.identities.iter().any(|(_, i)| i.id == *identity));
                match self.messages.iter_mut().find(|m| m.id == *message) {
                    Some(posted) => {
                        posted.content = content.clone();
                        Reply::Done
                    }
                    None => Reply::Failed,
                }
            }
            Effect::DeleteMessage { channel, message } => {
                let before = self.messages.len();
                self.messages.retain(|m| !(m.channel == *channel && m.id == *message));
                if self.messages.len() < before {
                    Reply::Done
                } else {
                    Reply::Failed
                }
            }
        }
    }

    fn run_plan(&mut self, plan: &[StoreCommand]) {
        for command in plan {
            self.store(command);
        }
    }

    fn dispatch(&mut self, team_id: &str, event: BridgeEvent) -> Outcome {
        let (mut dispatch, mut step) = handle_bridge_event(team_id, event);
        loop {
            match step {
                Step::Finish(outcome) => {
                    assert!(dispatch.is_finished());
                    return outcome;
                }
                Step::Perform(effect) => {
                    assert!(!dispatch.is_finished());
                    let reply = self.perform(&effect);
                    let (next, next_step) = dispatch.advance(reply);
                    dispatch = next;
                    step = next_step;
                }
            }
        }
    }

    fn deliveries(&self) -> usize {
        self.effects.iter().filter(|e| matches!(e, Effect::Deliver { .. })).count()
    }

    fn store_changes(&self) -> usize {
        self.effects
            .iter()
            .filter(|e| {
                matches!(e, Effect::Store(StoreCommand::Put { .. }) | Effect::Store(StoreCommand::Del { .. }))
            })
            .count()
    }
}

fn event(event_type: EventType) -> BridgeEvent {
    BridgeEvent {
        event_type,
        author_name: "Ada".to_string(),
        author_avatar: "https://a/ada.png".to_string(),
        channel_id: "C1".to_string(),
        workspace_id: "T1".to_string(),
    }
}

fn sent(ts: &str, content: &str) -> BridgeEvent {
    event(EventType::MessageSent { message_id: ts.to_string(), content: content.to_string() })
}

fn edited(ts: &str, content: &str) -> BridgeEvent {
    event(EventType::MessageEdited { message_id: ts.to_string(), new_content: content.to_string() })
}

fn deleted(ts: &str) -> BridgeEvent {
    event(EventType::MessageDeleted { message_id: ts.to_string() })
}

fn linked_world() -> World {
    let mut world = World::new();
    match handle_link_channel(Some("100"), "C1") {
        LinkRequest::Link { plan, .. } => world.run_plan(&plan),
        other => panic!("rejected: {:?}", other),
    }
    world
}

#[test]
fn a_message_from_slack_reaches_the_linked_discord_channel() {
    let mut world = linked_world();
    let profile = UserProfile {
        display_name: Some("Ada".to_string()),
        real_name: None,
        image_original: None,
    };
    let (author_name, author_avatar) = get_user_info(Some(&profile));
    let pushed = PushEvent::Message {
        message: NativeMessage {
            ts: "1700000000.000100".to_string(),
            channel: Some("C1".to_string()),
            user: Some("U1".to_string()),
            subtype: None,
            content: Some(MessageContent { text: Some("hello".to_string()) }),
            message: None,
            deleted_ts: None,
        },
        team_id: "T1".to_string(),
    };
    let forwarded = match push_event(pushed, author_name, author_avatar) {
        PushOutcome::Forward(event) => event,
        other => panic!("not forwarded: {:?}", other),
    };
    let (channels, mut discord_rx, _slack_rx) = create_bridge();
    assert_eq!(channels.send_to_discord(forwarded), Ok(()));
    let queued = discord_rx.try_recv().unwrap();
    assert_eq!(world.dispatch("T1", queued), Outcome::Relayed);
    assert_eq!(world.messages.len(), 1);
    let posted = world.messages[0].clone();
    assert_eq!(posted.channel, 100);
    assert_eq!(posted.username, "Ada");
    assert_eq!(posted.content, "hello");
    assert_eq!(
        world.table.get(&format!("msgA:{}", posted.id)),
        Some(&"C1:1700000000.000100".to_string())
    );
    assert_eq!(
        world.table.get("msgB:1700000000.000100"),
        Some(&format!("100:{}", posted.id))
    );
}

#[test]
fn a_sent_message_is_delivered_once_and_mapped_once() {
    let mut world = linked_world();
    assert_eq!(world.dispatch("T1", sent("17.01", "hello")), Outcome::Relayed);
    assert_eq!(world.deliveries(), 1);
    assert_eq!(world.store_changes(), 2);
    assert_eq!(world.messages.len(), 1);
    assert_eq!(world.table.len(), 4);
    let id = world.messages[0].id;
    assert_eq!(
        world.effects,
        vec![
            Effect::Store(StoreCommand::Get { key: "channelB:C1:partner".to_string() }),
            Effect::ListIdentities { channel: 100 },
            Effect::CreateIdentity { channel: 100, name: "carmine".to_string() },
            Effect::Deliver {
                identity: world.identities[0].1.id,
                username: "Ada".to_string(),
                avatar_url: "https://a/ada.png".to_string(),
                content: "hello".to_string(),
            },
            Effect::Store(StoreCommand::Put {
                key: format!("msgA:{}", id),
                value: "C1:17.01".to_string(),
            }),
            Effect::Store(StoreCommand::Put {
                key: "msgB:17.01".to_string(),
                value: format!("100:{}", id),
            }),
        ]
    );
}

#[test]
fn an_edit_updates_the_delivered_message_and_maps_nothing() {
    let mut world = linked_world();
    world.dispatch("T1", sent("17.01", "hello"));
    let table = world.table.clone();
    let id = world.messages[0].id;
    world.effects.clear();
    assert_eq!(world.dispatch("T1", edited("17.01", "hello, world")), Outcome::Edited);
    assert_eq!(world.dispatch("T1", edited("17.01", "hello again")), Outcome::Edited);
    assert_eq!(world.messages.len(), 1);
    assert_eq!(world.messages[0].id, id);
    assert_eq!(world.messages[0].content, "hello again");
    assert_eq!(world.messages[0].username, "Ada");
    assert_eq!(world.table, table);
    assert_eq!(world.deliveries(), 0);
    assert_eq!(world.store_changes(), 0);
}

#[test]
fn a_deletion_removes_the_delivered_message_and_its_mapping() {
    let mut world = linked_world();
    world.dispatch("T1", sent("17.01", "hello"));
    world.dispatch("T1", sent("17.02", "second"));
    let second = world.messages[1].clone();
    assert_eq!(world.dispatch("T1", deleted("17.01")), Outcome::Deleted);
    assert_eq!(world.messages, vec![second.clone()]);
    assert_eq!(world.table.len(), 4);
    assert_eq!(world.table.get("msgB:17.01"), None);
    assert_eq!(world.table.get("msgB:17.02"), Some(&format!("100:{}", second.id)));
}

#[test]
fn a_deletion_without_mapping_does_nothing() {
    let mut world = linked_world();
    world.dispatch("T1", sent("17.01", "hello"));
    let table = world.table.clone();
    let messages = world.messages.clone();
    world.effects.clear();
    assert_eq!(world.dispatch("T1", deleted("16.00")), Outcome::NoMapping);
    assert_eq!(
        world.effects,
        vec![Effect::Store(StoreCommand::Get { key: "msgB:16.00".to_string() })]
    );
    assert_eq!(world.table, table);
    assert_eq!(world.messages, messages);
}

#[test]
fn an_edit_without_mapping_is_dropped() {
    let mut world = linked_world();
    assert_eq!(world.dispatch("T1", edited("16.00", "late")), Outcome::NoMapping);
    assert_eq!(world.effects.len(), 1);
    assert!(world.messages.is_empty());
}

#[test]
fn the_relay_identity_is_created_once_per_channel() {
    let mut world = linked_world();
    world.dispatch("T1", sent("17.01", "one"));
    world.dispatch("T1", sent("17.02", "two"));
    world.dispatch("T1", edited("17.01", "one!"));
    assert_eq!(world.identities.len(), 1);
    assert_eq!(world.identities[0].1.name, Some("carmine".to_string()));
    assert_eq!(world.messages.len(), 2);
}

#[test]
fn an_identity_that_is_there_is_reused() {
    let mut world = linked_world();
    world.identities.push((100, RelayIdentity { id: 1, name: None }));
    world.identities.push((100, RelayIdentity { id: 2, name: Some("other".to_string()) }));
    world.identities.push((100, RelayIdentity { id: 3, name: Some("carmine".to_string()) }));
    world.identities.push((100, RelayIdentity { id: 4, name: Some("carmine".to_string()) }));
    world.dispatch("T1", sent("17.01", "hello"));
    assert_eq!(world.identities.len(), 4);
    assert!(world.effects.iter().any(|e| matches!(e, Effect::Deliver { identity: 3, .. })));
}

#[test]
fn the_first_identity_with_the_relay_name_is_chosen() {
    assert_eq!(relay_name(), "carmine");
    assert_eq!(get_or_create_webhook(&vec![]), IdentityChoice::Create);
    let identities = vec![
        RelayIdentity { id: 1, name: None },
        RelayIdentity { id: 2, name: Some("Carmine".to_string()) },
        RelayIdentity { id: 3, name: Some("carmine".to_string()) },
        RelayIdentity { id: 4, name: Some("carmine".to_string()) },
    ];
    assert_eq!(get_or_create_webhook(&identities), IdentityChoice::Reuse(3));
    assert_eq!(get_or_create_webhook(&identities[..2].to_vec()), IdentityChoice::Create);
    let mut after = identities[..2].to_vec();
    after.push(RelayIdentity { id: 9, name: Some(relay_name().to_string()) });
    assert_eq!(get_or_create_webhook(&after), IdentityChoice::Reuse(9));
}

#[test]
fn events_of_other_workspaces_are_dropped() {
    let mut world = linked_world();
    assert_eq!(world.dispatch("T2", sent("17.01", "hello")), Outcome::OtherWorkspace);
    assert!(world.effects.is_empty());
    assert!(world.messages.is_empty());
}

#[test]
fn pins_are_not_relayed() {
    let mut world = linked_world();
    let pinned = event(EventType::MessagePinned {
        message_id: "17.01".to_string(),
        content: "x".to_string(),
    });
    let unpinned = event(EventType::MessageUnpinned {
        message_id: "17.01".to_string(),
        content: "x".to_string(),
    });
    assert_eq!(world.dispatch("T1", pinned), Outcome::Unhandled);
    assert_eq!(world.dispatch("T1", unpinned), Outcome::Unhandled);
    assert!(world.effects.is_empty());
}

#[test]
fn a_message_in_an_unlinked_channel_is_dropped() {
    let mut world = World::new();
    assert_eq!(world.dispatch("T1", sent("17.01", "hello")), Outcome::NotLinked);
    assert_eq!(world.effects.len(), 1);
    world.table.insert("channelB:C1:partner".to_string(), "general".to_string());
    assert_eq!(world.dispatch("T1", sent("17.01", "hello")), Outcome::InvalidChannel);
    world.table.insert("channelB:C1:partner".to_string(), "0".to_string());
    assert_eq!(world.dispatch("T1", sent("17.01", "hello")), Outcome::InvalidChannel);
    assert_eq!(world.effects.len(), 3);
    assert!(world.messages.is_empty());
}

#[test]
fn a_message_is_dropped_after_unlinking() {
    let mut world = linked_world();
    let stored = world.table.get("channelB:C1:partner").cloned();
    match handle_unlink_channel("C1", Ok(stored.as_deref())) {
        UnlinkRequest::Unlink { discord_channel_id, plan } => {
            assert_eq!(discord_channel_id, 100);
            world.run_plan(&plan);
        }
        other => panic!("not linked: {:?}", other),
    }
    assert!(world.table.is_empty());
    assert_eq!(world.dispatch("T1", sent("17.01", "hello")), Outcome::NotLinked);
}

#[test]
fn failures_end_the_handling() {
    let mut world = linked_world();
    world.store_down = true;
    assert_eq!(world.dispatch("T1", sent("17.01", "hello")), Outcome::StoreFailed);
    assert_eq!(world.dispatch("T1", edited("17.01", "hello")), Outcome::StoreFailed);
    assert_eq!(world.dispatch("T1", deleted("17.01")), Outcome::StoreFailed);
    world.store_down = false;
    world.platform_down = true;
    assert_eq!(world.dispatch("T1", sent("17.01", "hello")), Outcome::PlatformFailed);
    assert!(world.messages.is_empty());
    assert_eq!(world.table.len(), 2);
}

#[test]
fn a_failed_deletion_still_removes_the_mapping() {
    let mut world = linked_world();
    world.dispatch("T1", sent("17.01", "hello"));
    world.messages.clear();
    assert_eq!(world.dispatch("T1", deleted("17.01")), Outcome::Deleted);
    assert_eq!(world.table.len(), 2);
}

#[test]
fn a_delivery_that_hands_back_no_message_is_not_mapped() {
    let (dispatch, step) = handle_bridge_event("T1", sent("17.01", "hello"));
    assert!(matches!(step, Step::Perform(Effect::Store(StoreCommand::Get { .. }))));
    let (dispatch, step) = dispatch.advance(Reply::Value(Some("100".to_string())));
    assert_eq!(step, Step::Perform(Effect::ListIdentities { channel: 100 }));
    assert_eq!(dispatch.stage, Stage::Listing { channel: 100 });
    let (dispatch, _) = dispatch.advance(Reply::Identities(vec![RelayIdentity {
        id: 3,
        name: Some("carmine".to_string()),
    }]));
    assert_eq!(dispatch.stage, Stage::Delivering);
    let (finished, step) = dispatch.clone().advance(Reply::Delivered(None));
    assert_eq!(step, Step::Finish(Outcome::PlatformFailed));
    assert!(finished.is_finished());
    for (channel_id, id) in [(0, 9001), (100, 0), (0, 0)] {
        let (finished, step) = dispatch
            .clone()
            .advance(Reply::Delivered(Some(DeliveredMessage { channel_id, id })));
        assert_eq!(step, Step::Finish(Outcome::PlatformFailed));
        assert!(finished.is_finished());
    }
}

#[test]
fn an_edit_pushed_by_slack_reaches_the_message_that_was_delivered() {
    let mut world = linked_world();
    let push = |message: NativeMessage| {
        let pushed = PushEvent::Message { message, team_id: "T1".to_string() };
        match push_event(pushed, "Ada".to_string(), String::new()) {
            PushOutcome::Forward(event) => event,
            other => panic!("not forwarded: {:?}", other),
        }
    };
    let sent = push(NativeMessage {
        ts: "1700000000.000100".to_string(),
        channel: Some("C1".to_string()),
        user: Some("U1".to_string()),
        subtype: None,
        content: Some(MessageContent { text: Some("hello".to_string()) }),
        message: None,
        deleted_ts: None,
    });
    assert_eq!(world.dispatch("T1", sent), Outcome::Relayed);
    let edit = push(NativeMessage {
        ts: "1700000099.000900".to_string(),
        channel: Some("C1".to_string()),
        user: None,
        subtype: Some(MessageSubtype::MessageChanged),
        content: None,
        message: Some(EditedMessage {
            ts: "1700000000.000100".to_string(),
            content: Some(MessageContent { text: Some("hello, world".to_string()) }),
        }),
        deleted_ts: None,
    });
    assert_eq!(world.dispatch("T1", edit), Outcome::Edited);
    assert_eq!(world.messages.len(), 1);
    assert_eq!(world.messages[0].content, "hello, world");
    let deletion = push(NativeMessage {
        ts: "1700000199.000900".to_string(),
        channel: Some("C1".to_string()),
        user: None,
        subtype: Some(MessageSubtype::MessageDeleted),
        content: None,
        message: None,
        deleted_ts: Some("1700000000.000100".to_string()),
    });
    assert_eq!(world.dispatch("T1", deletion), Outcome::Deleted);
    assert!(world.messages.is_empty());
    assert_eq!(world.table.len(), 2);
}

#[test]
fn a_reply_that_answers_something_else_ends_the_handling() {
    let (dispatch, _) = handle_bridge_event("T1", sent("17.01", "hello"));
    let (dispatch, step) = dispatch.advance(Reply::Done);
    assert_eq!(step, Step::Finish(Outcome::UnexpectedReply));
    let (dispatch, step) = dispatch.advance(Reply::Value(Some("100".to_string())));
    assert_eq!(step, Step::Finish(Outcome::UnexpectedReply));
    assert_eq!(dispatch.stage, Stage::Finished);
}

#[test]
fn a_mapping_that_names_no_message_is_invalid() {
    for stored in ["100", "100:", "a:b", "100:200:300", "C1:17.01", "0:200", "100:0", "0:0"] {
        let (dispatch, _) = handle_bridge_event("T1", edited("17.01", "x"));
        let (_, step) = dispatch.advance(Reply::Value(Some(stored.to_string())));
        assert_eq!(step, Step::Finish(Outcome::InvalidMapping), "on {:?}", stored);
        let (dispatch, _) = handle_bridge_event("T1", deleted("17.01"));
        let (_, step) = dispatch.advance(Reply::Value(Some(stored.to_string())));
        assert_eq!(step, Step::Finish(Outcome::InvalidMapping), "on {:?}", stored);
    }
}

#[test]
fn stored_values_are_read_as_numbers() {
    assert_eq!(get_discord_channel_id(Some("100")), Some(100));
    assert_eq!(get_discord_channel_id(Some("0")), Some(0));
    assert_eq!(get_discord_channel_id(Some("+7")), Some(7));
    assert_eq!(message_target("0:9001"), None);
    assert_eq!(message_target("100:0"), None);
    assert_eq!(get_discord_channel_id(Some(" 100")), None);
    assert_eq!(get_discord_channel_id(Some("C1")), None);
    assert_eq!(get_discord_channel_id(None), None);
    assert_eq!(message_target("100:9001"), Some((100, 9001)));
    assert_eq!(message_target("100:9001:1"), None);
    assert_eq!(message_target("100"), None);
    assert_eq!(message_target("100:x"), None);
    assert_eq!(message_target(":"), None);
}

#[test]
fn a_dispatch_can_be_put_aside_and_taken_up_again() {
    let (dispatch, _) = handle_bridge_event("T1", sent("17.01", "hello"));
    let kept: Dispatch = dispatch.clone();
    let (a, step_a) = dispatch.advance(Reply::Value(None));
    let (b, step_b) = kept.advance(Reply::Value(None));
    assert_eq!(a, b);
    assert_eq!(step_a, step_b);
    assert_eq!(step_a, Step::Finish(Outcome::NotLinked));
}

#[test]
fn a_subtype_other_than_edit_and_deletion_is_filtered_before_dispatch() {
    let pushed = PushEvent::Message {
        message: NativeMessage {
            ts: "17.01".to_string(),
            channel: Some("C1".to_string()),
            user: None,
            subtype: Some(MessageSubtype::Other),
            content: None,
            message: None,
            deleted_ts: None,
        },
        team_id: "T1".to_string(),
    };
    assert_eq!(push_event(pushed, String::new(), String::new()), PushOutcome::Ignored);
}

#[test]
fn a_link_to_channel_zero_relays_nothing_and_can_be_unlinked() {
    let mut world = World::new();
    match handle_link_channel(Some("0"), "C1") {
        LinkRequest::Link { discord_channel_id, plan } => {
            assert_eq!(discord_channel_id, 0);
            world.run_plan(&plan);
        }
        other => panic!("rejected: {:?}", other),
    }
    assert_eq!(world.table.len(), 2);
    assert_eq!(world.dispatch("T1", sent("17.01", "hello")), Outcome::InvalidChannel);
    assert_eq!(
        world.effects,
        vec![Effect::Store(StoreCommand::Get { key: "channelB:C1:partner".to_string() })]
    );
    let stored = world.table.get("channelB:C1:partner").cloned();
    match handle_unlink_channel("C1", Ok(stored.as_deref())) {
        UnlinkRequest::Unlink { discord_channel_id, plan } => {
            assert_eq!(discord_channel_id, 0);
            world.run_plan(&plan);
        }
        other => panic!("not unlinked: {:?}", other),
    }
    assert!(world.table.is_empty());
}
