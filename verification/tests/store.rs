use chat_bridge::store::{
    discord_channel_key, discord_message_key, message_ref, slack_channel_key, slack_message_key,
    RedisClient, StoreCommand, StoreError,
};
use std::collections::HashMap;

fn put(key: &str, value: &str) -> StoreCommand {
    StoreCommand::Put { key: key.to_string(), value: value.to_string() }
}

fn del(key: &str) -> StoreCommand {
    StoreCommand::Del { key: key.to_string() }
}

fn get(key: &str) -> StoreCommand {
    StoreCommand::Get { key: key.to_string() }
}

fn run(table: &mut HashMap<String, String>, command: &StoreCommand) -> Option<String> {
    match command {
        StoreCommand::Get { key } => table.get(key).cloned(),
        StoreCommand::Put { key, value } => {
            table.insert(key.clone(), value.clone());
            None
        }
        StoreCommand::Del { key } => {
            table.remove(key);
            None
        }
    }
}

fn run_all(table: &mut HashMap<String, String>, plan: &[StoreCommand]) {
    for command in plan {
        run(table, command);
    }
}

#[test]
fn keys_are_built_from_their_families() {
    assert_eq!(discord_channel_key(100), "channelA:100:partner");
    assert_eq!(slack_channel_key("C1"), "channelB:C1:partner");
    assert_eq!(discord_message_key("555"), "msgA:555");
    assert_eq!(slack_message_key("1700000000.000100"), "msgB:1700000000.000100");
    assert_eq!(message_ref("C1", "1700000000.000100"), "C1:1700000000.000100");
}

#[test]
fn linking_writes_both_sides() {
    let plan = RedisClient::new().link_channels(100, "C1");
    assert_eq!(
        plan,
        vec![put("channelA:100:partner", "C1"), put("channelB:C1:partner", "100")]
    );
}

#[test]
fn unlinking_removes_both_sides() {
    let plan = RedisClient::new().unlink_channels(100, "C1");
    assert_eq!(plan, vec![del("channelA:100:partner"), del("channelB:C1:partner")]);
}

#[test]
fn lookups_read_the_key_of_their_side() {
    let client = RedisClient::new();
    assert_eq!(client.get_linked_slack_channel(100), get("channelA:100:partner"));
    assert_eq!(client.get_linked_discord_channel("C1"), get("channelB:C1:partner"));
    assert_eq!(client.get_slack_message(555), get("msgA:555"));
    assert_eq!(client.get_discord_message("17.01"), get("msgB:17.01"));
}

#[test]
fn a_mapping_writes_each_reference_under_the_other_key() {
    let plan = RedisClient::new().store_message_mapping(100, 555, "C1", "17.01");
    assert_eq!(plan, vec![put("msgA:555", "C1:17.01"), put("msgB:17.01", "100:555")]);
}

#[test]
fn linked_channels_resolve_to_each_other() {
    let client = RedisClient::new();
    let mut table = HashMap::new();
    table.insert("channelA:100:partner".to_string(), "C0".to_string());
    run_all(&mut table, &client.link_channels(100, "C1"));
    assert_eq!(run(&mut table, &client.get_linked_slack_channel(100)), Some("C1".to_string()));
    assert_eq!(run(&mut table, &client.get_linked_discord_channel("C1")), Some("100".to_string()));
    run_all(&mut table, &client.unlink_channels(100, "C1"));
    assert_eq!(run(&mut table, &client.get_linked_slack_channel(100)), None);
    assert_eq!(run(&mut table, &client.get_linked_discord_channel("C1")), None);
}

#[test]
fn unlinking_what_is_not_linked_changes_nothing() {
    let client = RedisClient::new();
    let mut table = HashMap::new();
    table.insert("channelA:7:partner".to_string(), "C7".to_string());
    let before = table.clone();
    run_all(&mut table, &client.unlink_channels(100, "C1"));
    assert_eq!(table, before);
}

#[test]
fn the_last_link_wins() {
    let client = RedisClient::new();
    let mut table = HashMap::new();
    run_all(&mut table, &client.link_channels(100, "C1"));
    run_all(&mut table, &client.link_channels(100, "C2"));
    assert_eq!(run(&mut table, &client.get_linked_slack_channel(100)), Some("C2".to_string()));
    assert_eq!(run(&mut table, &client.get_linked_discord_channel("C2")), Some("100".to_string()));
}

#[test]
fn mapped_messages_resolve_to_each_other() {
    let client = RedisClient::new();
    let mut table = HashMap::new();
    run_all(&mut table, &client.store_message_mapping(100, 555, "C1", "17.01"));
    assert_eq!(run(&mut table, &client.get_slack_message(555)), Some("C1:17.01".to_string()));
    assert_eq!(run(&mut table, &client.get_discord_message("17.01")), Some("100:555".to_string()));
}

#[test]
fn deleting_from_the_slack_side_removes_both_entries() {
    let client = RedisClient::new();
    let mut table = HashMap::new();
    run_all(&mut table, &client.store_message_mapping(100, 555, "C1", "17.01"));
    let stored = run(&mut table, &client.get_discord_message("17.01"));
    let plan = client.delete_message_mapping_from_slack("17.01", stored.as_deref()).unwrap();
    assert_eq!(plan, vec![del("msgA:555"), del("msgB:17.01")]);
    run_all(&mut table, &plan);
    assert!(table.is_empty());
}

#[test]
fn deleting_from_the_discord_side_removes_both_entries() {
    let client = RedisClient::new();
    let mut table = HashMap::new();
    run_all(&mut table, &client.store_message_mapping(100, 555, "C1", "17.01"));
    let stored = run(&mut table, &client.get_slack_message(555));
    let plan = client.delete_message_mapping_from_discord(555, stored.as_deref()).unwrap();
    assert_eq!(plan, vec![del("msgB:17.01"), del("msgA:555")]);
    run_all(&mut table, &plan);
    assert!(table.is_empty());
}

#[test]
fn deleting_an_absent_mapping_removes_its_own_key_only() {
    let client = RedisClient::new();
    assert_eq!(client.delete_message_mapping_from_slack("17.01", None), Ok(vec![del("msgB:17.01")]));
    assert_eq!(client.delete_message_mapping_from_discord(555, None), Ok(vec![del("msgA:555")]));
}

#[test]
fn a_reference_that_is_not_two_fields_is_an_error() {
    let client = RedisClient::new();
    assert_eq!(
        client.delete_message_mapping_from_slack("17.01", Some("100")),
        Err(StoreError::InvalidMapping)
    );
    assert_eq!(
        client.delete_message_mapping_from_slack("17.01", Some("1:2:3")),
        Err(StoreError::InvalidMapping)
    );
    assert_eq!(
        client.delete_message_mapping_from_discord(555, Some("")),
        Err(StoreError::InvalidMapping)
    );
    assert_eq!(
        client.delete_message_mapping_from_discord(555, Some("C:1:17.01")),
        Err(StoreError::InvalidMapping)
    );
}

#[test]
fn a_slack_channel_id_with_a_colon_cannot_be_deleted_from_the_discord_side() {
    let client = RedisClient::new();
    let mut table = HashMap::new();
    run_all(&mut table, &client.store_message_mapping(100, 555, "C:1", "17.01"));
    let stored = run(&mut table, &client.get_slack_message(555));
    assert_eq!(stored, Some("C:1:17.01".to_string()));
    assert_eq!(
        client.delete_message_mapping_from_discord(555, stored.as_deref()),
        Err(StoreError::InvalidMapping)
    );
}
