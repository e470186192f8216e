use crate::store::{
    apply_all, discord_channel_key_spec, law_link_resolves, law_unlink_clears, link_plan, lookup,
    plan_view, slack_channel_key_spec, text_of, unlink_plan, RedisClient, StoreCommand,
    StoreCommandView, Table,
};
use crate::text::{
    decimal, format_u64, is_digit, is_white_space, lemma_decimal_digits, parse_u64, parse_u64_spec,
    same_text, trim, trim_spec,
};
use vstd::prelude::*;

verus! {

/// The commands that Slack users can give the bridge.
#[derive(Debug, Clone, Copy, PartialEq, Eq)]
pub enum Command {
    LinkChannel,
    UnlinkChannel,
    Help,
    Unknown,
}

/// Which command a Slack command name stands for.
pub open spec fn command_spec(name: Seq<char>) -> Command {
    if name == "/link-channel"@ {
        Command::LinkChannel
    } else if name == "/unlink-channel"@ {
        Command::UnlinkChannel
    } else if name == "/help"@ {
        Command::Help
    } else {
        Command::Unknown
    }
}

/// Tells which command Slack sent.
pub fn command_event(name: &str) -> (command: Command)
    ensures
        command == command_spec(name@),
{
    if same_text(name, "/link-channel") {
        Command::LinkChannel
    } else if same_text(name, "/unlink-channel") {
        Command::UnlinkChannel
    } else if same_text(name, "/help") {
        Command::Help
    } else {
        Command::Unknown
    }
}

/// What the help command answers.
pub fn help_reply() -> (reply: String)
    ensures
        reply@ == "Available commands: /link-channel, /unlink-channel, /help"@,
{
    String::from_str("Available commands: /link-channel, /unlink-channel, /help")
}

/// What a command that the bridge does not know is answered with.
pub fn unknown_reply() -> (reply: String)
    ensures
        reply@ == "Unknown command"@,
{
    String::from_str("Unknown command")
}

/// The Discord channel that a text names: the text without the white
/// space around it, read as a number.
pub open spec fn named_channel(text: Option<Seq<char>>) -> Option<u64> {
    match text {
        Some(text) => parse_u64_spec(trim_spec(text)),
        None => None,
    }
}

fn read_channel(text: Option<&str>) -> (channel: Option<u64>)
    ensures
        channel == named_channel(text_of(text)),
{
    match text {
        Some(text) => {
            let trimmed = trim(text);
            parse_u64(trimmed.as_str())
        },
        None => None,
    }
}

/// What a link command from Slack calls for.
#[derive(Debug, Clone, PartialEq, Eq)]
pub enum LinkRequest {
    /// The text names no Discord channel: answer with `reply`.
    Rejected { reply: String },
    /// Run `plan` against the store, then answer with [`link_reply`].
    Link { discord_channel_id: u64, plan: Vec<StoreCommand> },
}

/// Handles the link command of Slack: `text` is what the user typed after
/// it, `channel_id` the Slack channel it was typed in.
pub fn handle_link_channel(text: Option<&str>, channel_id: &str) -> (request: LinkRequest)
    ensures
        match named_channel(text_of(text)) {
            Some(id) => request matches LinkRequest::Link { discord_channel_id, plan }
                && discord_channel_id == id && plan_view(plan@) == link_plan(id, channel_id@),
            None => request matches LinkRequest::Rejected { reply } && reply@
                == "Please provide a valid Discord channel ID"@,
        },
{
    match read_channel(text) {
        Some(discord_channel_id) => LinkRequest::Link {
            discord_channel_id,
            plan: RedisClient::new().link_channels(discord_channel_id, channel_id),
        },
        None => LinkRequest::Rejected {
            reply: String::from_str("Please provide a valid Discord channel ID"),
        },
    }
}

/// The answer to a link command from Slack once its plan was run:
/// `outcome` is how the store took it, with the failure's text if it failed.
pub fn link_reply(discord_channel_id: u64, outcome: Result<(), &str>) -> (reply: String)
    ensures
        reply@ == match outcome {
            Ok(_) => "Successfully linked Discord channel `"@ + decimal(discord_channel_id as nat)
                + "` to this Slack channel"@,
            Err(error) => "Error linking Discord channel: "@ + error@,
        },
{
    match outcome {
        Ok(_) => {
            let id = format_u64(discord_channel_id);
            String::from_str("Successfully linked Discord channel `").concat(id.as_str()).concat(
                "` to this Slack channel",
            )
        },
        Err(error) => String::from_str("Error linking Discord channel: ").concat(error),
    }
}

/// What a command from Slack calls for first.
#[derive(Debug, Clone, PartialEq, Eq)]
pub enum CommandStep {
    /// Answer with this text; nothing else is to be done.
    Reply(String),
    /// Run `plan` against the store, then answer with [`link_reply`].
    Link { discord_channel_id: u64, plan: Vec<StoreCommand> },
    /// Run `query` against the store, then go on with
    /// [`handle_unlink_channel`].
    FindLink { query: StoreCommand },
}

/// Takes up a command from Slack: `name` is the command, `text` what the
/// user typed after it, `channel_id` the Slack channel it was typed in.
/// The help command and a command that the bridge does not know are
/// answered at once. So is a link command that names no Discord channel;
/// one that does links it to the Slack channel. An unlink command first
/// looks up what the Slack channel is linked to.
pub fn command_step(name: &str, text: Option<&str>, channel_id: &str) -> (step: CommandStep)
    ensures
        match command_spec(name@) {
            Command::Help => step matches CommandStep::Reply(reply) && reply@
                == "Available commands: /link-channel, /unlink-channel, /help"@,
            Command::Unknown => step matches CommandStep::Reply(reply) && reply@
                == "Unknown command"@,
            Command::LinkChannel => match named_channel(text_of(text)) {
                Some(id) => step matches CommandStep::Link { discord_channel_id, plan }
                    && discord_channel_id == id && plan_view(plan@) == link_plan(id, channel_id@),
                None => step matches CommandStep::Reply(reply) && reply@
                    == "Please provide a valid Discord channel ID"@,
            },
            Command::UnlinkChannel => step matches CommandStep::FindLink { query } && query@ == (
            StoreCommandView::Get { key: slack_channel_key_spec(channel_id@) }),
        },
{
    match command_event(name) {
        Command::Help => CommandStep::Reply(help_reply()),
        Command::Unknown => CommandStep::Reply(unknown_reply()),
        Command::LinkChannel => match handle_link_channel(text, channel_id) {
            LinkRequest::Link { discord_channel_id, plan } => CommandStep::Link {
                discord_channel_id,
                plan,
            },
            LinkRequest::Rejected { reply } => CommandStep::Reply(reply),
        },
        Command::UnlinkChannel => CommandStep::FindLink {
            query: RedisClient::new().get_linked_discord_channel(channel_id),
        },
    }
}

/// What an unlink command from Slack calls for.
#[derive(Debug, Clone, PartialEq, Eq)]
pub enum UnlinkRequest {
    /// The store could not say whether the channel is linked: answer with
    /// `reply`, which holds the failure.
    Failed { reply: String },
    /// The channel is linked to no Discord channel: answer with `reply`.
    NotLinked { reply: String },
    /// Run `plan` against the store, then answer with [`unlink_reply`].
    Unlink { discord_channel_id: u64, plan: Vec<StoreCommand> },
}

/// An [`UnlinkRequest`] as plain text.
pub enum UnlinkRequestView {
    Failed { reply: Seq<char> },
    NotLinked { reply: Seq<char> },
    Unlink { discord_channel_id: u64, plan: Seq<StoreCommandView> },
}

impl View for UnlinkRequest {
    type V = UnlinkRequestView;

    open spec fn view(&self) -> UnlinkRequestView {
        match self {
            UnlinkRequest::Failed { reply } => UnlinkRequestView::Failed { reply: reply@ },
            UnlinkRequest::NotLinked { reply } => UnlinkRequestView::NotLinked { reply: reply@ },
            UnlinkRequest::Unlink { discord_channel_id, plan } => UnlinkRequestView::Unlink {
                discord_channel_id: *discord_channel_id,
                plan: plan_view(plan@),
            },
        }
    }
}

/// What a lookup in the store gave, as plain text: the value, if there is
/// one, or the failure.
pub open spec fn lookup_of(stored: Result<Option<&str>, &str>) -> Result<
    Option<Seq<char>>,
    Seq<char>,
> {
    match stored {
        Ok(value) => Ok(text_of(value)),
        Err(error) => Err(error@),
    }
}

/// What an unlink command from Slack calls for, given in the Slack channel
/// `channel_id`, by what the lookup of its link gave. A lookup that failed
/// is answered with the failure, and nothing is unlinked. A channel whose
/// link names a Discord channel is unlinked from it. Any other channel is
/// told that it is not linked.
pub open spec fn unlink_request_spec(
    channel_id: Seq<char>,
    stored: Result<Option<Seq<char>>, Seq<char>>,
) -> UnlinkRequestView {
    match stored {
        Err(error) => UnlinkRequestView::Failed {
            reply: "Error unlinking Discord channel: "@ + error,
        },
        Ok(value) => match named_channel(value) {
            Some(id) => UnlinkRequestView::Unlink {
                discord_channel_id: id,
                plan: unlink_plan(id, channel_id),
            },
            None => UnlinkRequestView::NotLinked {
                reply: "This Slack channel is not linked to any Discord channel"@,
            },
        },
    }
}

/// Handles the unlink command of Slack, typed in the Slack channel
/// `channel_id`. `stored` is what the store answers to
/// [`RedisClient::get_linked_discord_channel`] for that channel, or the
/// text of its failure.
pub fn handle_unlink_channel(channel_id: &str, stored: Result<Option<&str>, &str>) -> (request:
    UnlinkRequest)
    ensures
        request@ == unlink_request_spec(channel_id@, lookup_of(stored)),
{
    match stored {
        Err(error) => UnlinkRequest::Failed { reply: unlink_failure(error) },
        Ok(value) => match read_channel(value) {
            Some(discord_channel_id) => UnlinkRequest::Unlink {
                discord_channel_id,
                plan: RedisClient::new().unlink_channels(discord_channel_id, channel_id),
            },
            None => UnlinkRequest::NotLinked {
                reply: String::from_str("This Slack channel is not linked to any Discord channel"),
            },
        },
    }
}

/// The answer to an unlink command from Slack on which the store failed,
/// while the link was looked up or while it was removed.
pub fn unlink_failure(error: &str) -> (reply: String)
    ensures
        reply@ == "Error unlinking Discord channel: "@ + error@,
{
    String::from_str("Error unlinking Discord channel: ").concat(error)
}

/// The answer to an unlink command from Slack once its plan was run:
/// `outcome` is how the store took it, with the failure's text if it failed.
pub fn unlink_reply(discord_channel_id: u64, outcome: Result<(), &str>) -> (reply: String)
    ensures
        reply@ == match outcome {
            Ok(_) => "Successfully unlinked Discord channel `"@ + decimal(
                discord_channel_id as nat,
            ) + "` from this Slack channel"@,
            Err(error) => "Error unlinking Discord channel: "@ + error@,
        },
{
    match outcome {
        Ok(_) => {
            let id = format_u64(discord_channel_id);
            String::from_str("Successfully unlinked Discord channel `").concat(
                id.as_str(),
            ).concat("` from this Slack channel")
        },
        Err(error) => unlink_failure(error),
    }
}

/// What Slack knows of a channel, as far as linking needs it.
#[derive(Debug, Clone, PartialEq, Eq)]
pub struct ChannelInfo {
    pub name: Option<String>,
    pub is_member: Option<bool>,
}

/// Where the bridge stands with a Slack channel that is to be linked.
#[derive(Debug, Clone, PartialEq, Eq)]
pub enum Membership {
    /// The channel could not be looked up; `error` says why.
    Unknown { error: String },
    /// The bridge is a member of the channel `name`.
    Member { name: String },
    /// The bridge must join the channel `name` first.
    Outsider { name: String },
}

/// The name of a channel, or a placeholder where Slack gives none.
pub open spec fn channel_name(info: ChannelInfo) -> Seq<char> {
    match info.name {
        Some(name) => name@,
        None => "Unknown"@,
    }
}

/// Checks a Slack channel before it is linked. `info` is what the lookup of
/// the channel gave, or the failure's text. The bridge counts as a member
/// only where Slack says so.
pub fn verify_and_join_slack_channel(info: Result<ChannelInfo, String>) -> (membership: Membership)
    ensures
        match info {
            Ok(info) => if info.is_member == Some(true) {
                membership matches Membership::Member { name } && name@ == channel_name(info)
            } else {
                membership matches Membership::Outsider { name } && name@ == channel_name(info)
            },
            Err(e) => membership matches Membership::Unknown { error } && error@
                == "Failed to get channel info: "@ + e@,
        },
{
    match info {
        Ok(info) => {
            let name = match info.name {
                Some(name) => name,
                None => String::from_str("Unknown"),
            };
            match info.is_member {
                Some(true) => Membership::Member { name },
                _ => Membership::Outsider { name },
            }
        },
        Err(e) => Membership::Unknown {
            error: String::from_str("Failed to get channel info: ").concat(e.as_str()),
        },
    }
}

/// What came of joining the channel `name`: the channel's name once the
/// bridge is a member, or a report of why it could not join. `outcome` is
/// how Slack took the join, with the failure's text if it failed.
pub fn join_reply(name: &str, outcome: Result<(), &str>) -> (verified: Result<String, String>)
    ensures
        match outcome {
            Ok(_) => verified matches Ok(joined) && joined@ == name@,
            Err(error) => verified matches Err(report) && report@ == "Failed to join channel '"@
                + name@ + "': "@ + error@,
        },
{
    match outcome {
        Ok(_) => Ok(String::from_str(name)),
        Err(error) => Err(
            String::from_str("Failed to join channel '").concat(name).concat("': ").concat(error),
        ),
    }
}

/// What a command from Discord calls for: commands for the store, to be
/// run first, and the answer to the user.
#[derive(Debug, Clone, PartialEq, Eq)]
pub struct CommandPlan {
    pub plan: Vec<StoreCommand>,
    pub reply: String,
}

/// Handles the link command of Discord, given in the Discord channel
/// `discord_channel_id` for the Slack channel `slack_channel_id`.
/// `verified` is the name of the Slack channel once the bridge is a member
/// of it, or what went wrong on the way; then nothing is linked.
pub fn link_channel(
    discord_channel_id: u64,
    slack_channel_id: &str,
    verified: Result<&str, &str>,
) -> (r: CommandPlan)
    ensures
        match verified {
            Ok(name) => plan_view(r.plan@) == link_plan(discord_channel_id, slack_channel_id@)
                && r.reply@ == "Successfully linked Slack channel **`"@ + name@
                + "`** to this Discord channel"@,
            Err(e) => r.plan@.len() == 0 && r.reply@ == "Error linking Slack channel: "@ + e@,
        },
{
    match verified {
        Ok(name) => CommandPlan {
            plan: RedisClient::new().link_channels(discord_channel_id, slack_channel_id),
            reply: String::from_str("Successfully linked Slack channel **`").concat(name).concat(
                "`** to this Discord channel",
            ),
        },
        Err(e) => CommandPlan {
            plan: Vec::new(),
            reply: String::from_str("Error linking Slack channel: ").concat(e),
        },
    }
}

/// Handles the unlink command of Discord, given in the Discord channel
/// `discord_channel_id`. `stored` is what the store answers to
/// [`RedisClient::get_linked_slack_channel`] for that channel.
pub fn unlink_channel(discord_channel_id: u64, stored: Option<&str>) -> (r: CommandPlan)
    ensures
        match stored {
            Some(slack_channel_id) => plan_view(r.plan@) == unlink_plan(
                discord_channel_id,
                slack_channel_id@,
            ) && r.reply@ == "Successfully unlinked Slack channel **`"@ + slack_channel_id@
                + "`** from this Discord channel"@,
            None => r.plan@.len() == 0 && r.reply@
                == "This Discord channel is not linked to any Slack channel"@,
        },
{
    match stored {
        Some(slack_channel_id) => CommandPlan {
            plan: RedisClient::new().unlink_channels(discord_channel_id, slack_channel_id),
            reply: String::from_str("Successfully unlinked Slack channel **`").concat(
                slack_channel_id,
            ).concat("`** from this Discord channel"),
        },
        None => CommandPlan {
            plan: Vec::new(),
            reply: String::from_str("This Discord channel is not linked to any Slack channel"),
        },
    }
}

/// A written number has no white space around it.
pub proof fn lemma_decimal_is_trimmed(n: nat)
    ensures
        trim_spec(decimal(n)) == decimal(n),
{
    lemma_decimal_digits(n);
    let s = decimal(n);
    assert(is_digit(s[0]));
    assert(is_digit(s[s.len() - 1]));
    assert(!is_white_space(s[0]));
    assert(!is_white_space(s.last()));
}

/// An unlink command from Slack undoes a link: once the plan that links
/// a Discord channel is run, whatever the store held, the unlink command
/// of the same Slack channel finds the Discord channel that was linked,
/// and once its plan is run neither channel resolves to anything.
pub proof fn law_unlink_undoes_link(
    table: Table,
    discord_channel_id: u64,
    slack_channel_id: Seq<char>,
)
    ensures
        ({
            let linked = apply_all(table, link_plan(discord_channel_id, slack_channel_id));
            let stored = lookup(linked, slack_channel_key_spec(slack_channel_id));
            let unlinked = apply_all(linked, unlink_plan(discord_channel_id, slack_channel_id));
            &&& named_channel(stored) == Some(discord_channel_id)
            &&& unlink_request_spec(slack_channel_id, Ok(stored)) == (UnlinkRequestView::Unlink {
                discord_channel_id,
                plan: unlink_plan(discord_channel_id, slack_channel_id),
            })
            &&& lookup(unlinked, discord_channel_key_spec(discord_channel_id)) is None
            &&& lookup(unlinked, slack_channel_key_spec(slack_channel_id)) is None
        }),
{
    law_link_resolves(table, discord_channel_id, slack_channel_id);
    lemma_decimal_is_trimmed(discord_channel_id as nat);
    law_unlink_clears(
        apply_all(table, link_plan(discord_channel_id, slack_channel_id)),
        discord_channel_id,
        slack_channel_id,
    );
}

} // verus!
