use crate::text::{
    colon_free, decimal, format_u64, is_digit, join_pair, lemma_decimal_digits, lemma_parse_decimal,
    lemma_split_join, parse_u64, parse_u64_spec, split_pair, split_pair_spec,
};
use vstd::prelude::*;

verus! {

/// One command for the key-value server that keeps the correlations.
#[derive(Debug, Clone, PartialEq, Eq)]
pub enum StoreCommand {
    /// Read the value under `key`.
    Get { key: String },
    /// Write `value` under `key`, over whatever was there.
    Put { key: String, value: String },
    /// Remove `key`; removing an absent key changes nothing.
    Del { key: String },
}

/// A [`StoreCommand`] as plain text.
pub enum StoreCommandView {
    Get { key: Seq<char> },
    Put { key: Seq<char>, value: Seq<char> },
    Del { key: Seq<char> },
}

impl View for StoreCommand {
    type V = StoreCommandView;

    open spec fn view(&self) -> StoreCommandView {
        match self {
            StoreCommand::Get { key } => StoreCommandView::Get { key: key@ },
            StoreCommand::Put { key, value } => StoreCommandView::Put { key: key@, value: value@ },
            StoreCommand::Del { key } => StoreCommandView::Del { key: key@ },
        }
    }
}

/// Why a store operation could not be worked out.
#[derive(Debug, Clone, Copy, PartialEq, Eq)]
pub enum StoreError {
    /// A stored message reference is not two fields joined by one colon.
    InvalidMapping,
}

/// What the server holds: each key with its value.
pub type Table = Map<Seq<char>, Seq<char>>;

/// The table after one command.
pub open spec fn apply(table: Table, command: StoreCommandView) -> Table {
    match command {
        StoreCommandView::Get { key } => table,
        StoreCommandView::Put { key, value } => table.insert(key, value),
        StoreCommandView::Del { key } => table.remove(key),
    }
}

/// The table after a run of commands, first to last.
pub open spec fn apply_all(table: Table, commands: Seq<StoreCommandView>) -> Table
    decreases commands.len(),
{
    if commands.len() == 0 {
        table
    } else {
        apply(apply_all(table, commands.drop_last()), commands.last())
    }
}

/// What a read of `key` answers.
pub open spec fn lookup(table: Table, key: Seq<char>) -> Option<Seq<char>> {
    if table.dom().contains(key) {
        Some(table[key])
    } else {
        None
    }
}

/// The commands of a plan as plain text.
pub open spec fn plan_view(plan: Seq<StoreCommand>) -> Seq<StoreCommandView> {
    Seq::new(plan.len(), |i: int| plan[i]@)
}

/// The id of something on Discord that a text stands for: an unsigned
/// decimal numeral other than zero. Discord gives no channel and no message
/// the id zero, so nothing can be asked of it under that id.
pub open spec fn discord_id_spec(text: Seq<char>) -> Option<u64> {
    match parse_u64_spec(text) {
        Some(id) => if id != 0 {
            Some(id)
        } else {
            None
        },
        None => None,
    }
}

/// Reads a Discord id.
pub fn discord_id(text: &str) -> (id: Option<u64>)
    ensures
        id == discord_id_spec(text@),
{
    match parse_u64(text) {
        Some(id) => if id != 0 {
            Some(id)
        } else {
            None
        },
        None => None,
    }
}

/// Key under which a Discord channel keeps the Slack channel it is linked to.
pub open spec fn discord_channel_key_spec(discord_channel_id: u64) -> Seq<char> {
    "channelA:"@ + decimal(discord_channel_id as nat) + ":partner"@
}

/// Key under which a Slack channel keeps the Discord channel it is linked to.
pub open spec fn slack_channel_key_spec(slack_channel_id: Seq<char>) -> Seq<char> {
    "channelB:"@ + slack_channel_id + ":partner"@
}

/// Key under which a Discord message keeps its Slack counterpart.
pub open spec fn discord_message_key_spec(discord_message_id: Seq<char>) -> Seq<char> {
    "msgA:"@ + discord_message_id
}

/// Key under which a Slack message keeps its Discord counterpart.
pub open spec fn slack_message_key_spec(slack_message_ts: Seq<char>) -> Seq<char> {
    "msgB:"@ + slack_message_ts
}

/// A message reference as it is stored: channel, colon, message.
pub open spec fn message_ref_spec(channel: Seq<char>, message: Seq<char>) -> Seq<char> {
    join_pair(channel, message)
}

pub fn discord_channel_key(discord_channel_id: u64) -> (key: String)
    ensures
        key@ == discord_channel_key_spec(discord_channel_id),
{
    let id = format_u64(discord_channel_id);
    String::from_str("channelA:").concat(id.as_str()).concat(":partner")
}

pub fn slack_channel_key(slack_channel_id: &str) -> (key: String)
    ensures
        key@ == slack_channel_key_spec(slack_channel_id@),
{
    String::from_str("channelB:").concat(slack_channel_id).concat(":partner")
}

pub fn discord_message_key(discord_message_id: &str) -> (key: String)
    ensures
        key@ == discord_message_key_spec(discord_message_id@),
{
    String::from_str("msgA:").concat(discord_message_id)
}

pub fn slack_message_key(slack_message_ts: &str) -> (key: String)
    ensures
        key@ == slack_message_key_spec(slack_message_ts@),
{
    String::from_str("msgB:").concat(slack_message_ts)
}

/// Writes a message reference: channel, colon, message.
pub fn message_ref(channel: &str, message: &str) -> (composite: String)
    ensures
        composite@ == message_ref_spec(channel@, message@),
{
    proof {
        reveal_strlit(":");
    }
    let composite = String::from_str(channel).concat(":").concat(message);
    assert(composite@ =~= message_ref_spec(channel@, message@));
    composite
}

/// The text behind an optional borrowed string.
pub open spec fn text_of(value: Option<&str>) -> Option<Seq<char>> {
    match value {
        Some(s) => Some(s@),
        None => None,
    }
}

/// Commands that link a Discord channel and a Slack channel: each side's key
/// gets the other side's id, over whatever link either had.
pub open spec fn link_plan(discord_channel_id: u64, slack_channel_id: Seq<char>) -> Seq<
    StoreCommandView,
> {
    seq![
        StoreCommandView::Put {
            key: discord_channel_key_spec(discord_channel_id),
            value: slack_channel_id,
        },
        StoreCommandView::Put {
            key: slack_channel_key_spec(slack_channel_id),
            value: decimal(discord_channel_id as nat),
        },
    ]
}

/// Commands that remove the link between a Discord channel and a Slack channel.
pub open spec fn unlink_plan(discord_channel_id: u64, slack_channel_id: Seq<char>) -> Seq<
    StoreCommandView,
> {
    seq![
        StoreCommandView::Del { key: discord_channel_key_spec(discord_channel_id) },
        StoreCommandView::Del { key: slack_channel_key_spec(slack_channel_id) },
    ]
}

/// Commands that record that a Discord message and a Slack message are one
/// message: each message's key gets the reference of the other.
pub open spec fn mapping_plan(
    discord_channel_id: u64,
    discord_message_id: u64,
    slack_channel_id: Seq<char>,
    slack_message_ts: Seq<char>,
) -> Seq<StoreCommandView> {
    seq![
        StoreCommandView::Put {
            key: discord_message_key_spec(decimal(discord_message_id as nat)),
            value: message_ref_spec(slack_channel_id, slack_message_ts),
        },
        StoreCommandView::Put {
            key: slack_message_key_spec(slack_message_ts),
            value: message_ref_spec(
                decimal(discord_channel_id as nat),
                decimal(discord_message_id as nat),
            ),
        },
    ]
}

/// Commands that forget a message mapping, found from its Slack side.
/// `stored` is what the store holds under the Slack message's key. Where
/// it names a Discord message, that message's key goes first. A reference
/// that is not two fields is an error, and nothing is removed.
pub open spec fn unmap_from_slack_plan(slack_message_ts: Seq<char>, stored: Option<Seq<char>>)
    -> Result<Seq<StoreCommandView>, StoreError> {
    let own = StoreCommandView::Del { key: slack_message_key_spec(slack_message_ts) };
    match stored {
        None => Ok(seq![own]),
        Some(reference) => match split_pair_spec(reference) {
            Some((channel, message)) => Ok(
                seq![StoreCommandView::Del { key: discord_message_key_spec(message) }, own],
            ),
            None => Err(StoreError::InvalidMapping),
        },
    }
}

/// Commands that forget a message mapping, found from its Discord side.
/// `stored` is what the store holds under the Discord message's key.
pub open spec fn unmap_from_discord_plan(discord_message_id: u64, stored: Option<Seq<char>>)
    -> Result<Seq<StoreCommandView>, StoreError> {
    let own = StoreCommandView::Del {
        key: discord_message_key_spec(decimal(discord_message_id as nat)),
    };
    match stored {
        None => Ok(seq![own]),
        Some(reference) => match split_pair_spec(reference) {
            Some((channel, message)) => Ok(
                seq![StoreCommandView::Del { key: slack_message_key_spec(message) }, own],
            ),
            None => Err(StoreError::InvalidMapping),
        },
    }
}

/// The client side of the correlation store. It keeps no state of its own:
/// each operation is worked out as the commands to run against the
/// key-value server, in order, and the caller runs them.
#[derive(Debug, Clone, Copy)]
pub struct RedisClient {}

impl RedisClient {
    pub fn new() -> (client: RedisClient) {
        RedisClient {  }
    }

    /// Links the two channels, whatever either was linked to before.
    pub fn link_channels(&self, discord_channel_id: u64, slack_channel_id: &str) -> (plan: Vec<
        StoreCommand,
    >)
        ensures
            plan_view(plan@) == link_plan(discord_channel_id, slack_channel_id@),
    {
        let mut plan: Vec<StoreCommand> = Vec::new();
        plan.push(
            StoreCommand::Put {
                key: discord_channel_key(discord_channel_id),
                value: String::from_str(slack_channel_id),
            },
        );
        plan.push(
            StoreCommand::Put {
                key: slack_channel_key(slack_channel_id),
                value: format_u64(discord_channel_id),
            },
        );
        assert(plan_view(plan@) =~= link_plan(discord_channel_id, slack_channel_id@));
        plan
    }

    /// Removes the link between the two channels.
    pub fn unlink_channels(&self, discord_channel_id: u64, slack_channel_id: &str) -> (plan: Vec<
        StoreCommand,
    >)
        ensures
            plan_view(plan@) == unlink_plan(discord_channel_id, slack_channel_id@),
    {
        let mut plan: Vec<StoreCommand> = Vec::new();
        plan.push(StoreCommand::Del { key: discord_channel_key(discord_channel_id) });
        plan.push(StoreCommand::Del { key: slack_channel_key(slack_channel_id) });
        assert(plan_view(plan@) =~= unlink_plan(discord_channel_id, slack_channel_id@));
        plan
    }

    /// The read that answers with the Slack channel a Discord channel is
    /// linked to.
    pub fn get_linked_slack_channel(&self, discord_channel_id: u64) -> (query: StoreCommand)
        ensures
            query@ == (StoreCommandView::Get { key: discord_channel_key_spec(discord_channel_id) }),
    {
        StoreCommand::Get { key: discord_channel_key(discord_channel_id) }
    }

    /// The read that answers with the Discord channel a Slack channel is
    /// linked to, as a decimal numeral.
    pub fn get_linked_discord_channel(&self, slack_channel_id: &str) -> (query: StoreCommand)
        ensures
            query@ == (StoreCommandView::Get { key: slack_channel_key_spec(slack_channel_id@) }),
    {
        StoreCommand::Get { key: slack_channel_key(slack_channel_id) }
    }

    /// Records that the Discord message and the Slack message are one message.
    pub fn store_message_mapping(
        &self,
        discord_channel_id: u64,
        discord_message_id: u64,
        slack_channel_id: &str,
        slack_message_ts: &str,
    ) -> (plan: Vec<StoreCommand>)
        ensures
            plan_view(plan@) == mapping_plan(
                discord_channel_id,
                discord_message_id,
                slack_channel_id@,
                slack_message_ts@,
            ),
    {
        let discord_channel = format_u64(discord_channel_id);
        let discord_message = format_u64(discord_message_id);
        let mut plan: Vec<StoreCommand> = Vec::new();
        plan.push(
            StoreCommand::Put {
                key: discord_message_key(discord_message.as_str()),
                value: message_ref(slack_channel_id, slack_message_ts),
            },
        );
        plan.push(
            StoreCommand::Put {
                key: slack_message_key(slack_message_ts),
                value: message_ref(discord_channel.as_str(), discord_message.as_str()),
            },
        );
        assert(plan_view(plan@) =~= mapping_plan(
            discord_channel_id,
            discord_message_id,
            slack_channel_id@,
            slack_message_ts@,
        ));
        plan
    }

    /// The read that answers with the Slack reference of a Discord message.
    pub fn get_slack_message(&self, discord_message_id: u64) -> (query: StoreCommand)
        ensures
            query@ == (StoreCommandView::Get {
                key: discord_message_key_spec(decimal(discord_message_id as nat)),
            }),
    {
        let id = format_u64(discord_message_id);
        StoreCommand::Get { key: discord_message_key(id.as_str()) }
    }

    /// The read that answers with the Discord reference of a Slack message.
    pub fn get_discord_message(&self, slack_message_ts: &str) -> (query: StoreCommand)
        ensures
            query@ == (StoreCommandView::Get { key: slack_message_key_spec(slack_message_ts@) }),
    {
        StoreCommand::Get { key: slack_message_key(slack_message_ts) }
    }

    /// Forgets the mapping of a Slack message. `stored` is the answer to
    /// [`RedisClient::get_discord_message`] for it.
    pub fn delete_message_mapping_from_slack(
        &self,
        slack_message_ts: &str,
        stored: Option<&str>,
    ) -> (r: Result<Vec<StoreCommand>, StoreError>)
        ensures
            match r {
                Ok(plan) => unmap_from_slack_plan(slack_message_ts@, text_of(stored)) == Ok::<
                    Seq<StoreCommandView>,
                    StoreError,
                >(plan_view(plan@)),
                Err(e) => unmap_from_slack_plan(slack_message_ts@, text_of(stored)) == Err::<
                    Seq<StoreCommandView>,
                    StoreError,
                >(e),
            },
    {
        let mut plan: Vec<StoreCommand> = Vec::new();
        if let Some(reference) = stored {
            match split_pair(reference) {
                Some((channel, message)) => {
                    plan.push(StoreCommand::Del { key: discord_message_key(message.as_str()) });
                },
                None => {
                    return Err(StoreError::InvalidMapping);
                },
            }
        }
        plan.push(StoreCommand::Del { key: slack_message_key(slack_message_ts) });
        assert(unmap_from_slack_plan(slack_message_ts@, text_of(stored)) is Ok);
        assert(plan_view(plan@) =~= unmap_from_slack_plan(
            slack_message_ts@,
            text_of(stored),
        )->Ok_0);
        Ok(plan)
    }

    /// Forgets the mapping of a Discord message. `stored` is the answer to
    /// [`RedisClient::get_slack_message`] for it.
    pub fn delete_message_mapping_from_discord(
        &self,
        discord_message_id: u64,
        stored: Option<&str>,
    ) -> (r: Result<Vec<StoreCommand>, StoreError>)
        ensures
            match r {
                Ok(plan) => unmap_from_discord_plan(discord_message_id, text_of(stored)) == Ok::<
                    Seq<StoreCommandView>,
                    StoreError,
                >(plan_view(plan@)),
                Err(e) => unmap_from_discord_plan(discord_message_id, text_of(stored)) == Err::<
                    Seq<StoreCommandView>,
                    StoreError,
                >(e),
            },
    {
        let mut plan: Vec<StoreCommand> = Vec::new();
        if let Some(reference) = stored {
            match split_pair(reference) {
                Some((channel, message)) => {
                    plan.push(StoreCommand::Del { key: slack_message_key(message.as_str()) });
                },
                None => {
                    return Err(StoreError::InvalidMapping);
                },
            }
        }
        let id = format_u64(discord_message_id);
        plan.push(StoreCommand::Del { key: discord_message_key(id.as_str()) });
        assert(unmap_from_discord_plan(discord_message_id, text_of(stored)) is Ok);
        assert(plan_view(plan@) =~= unmap_from_discord_plan(
            discord_message_id,
            text_of(stored),
        )->Ok_0);
        Ok(plan)
    }
}

/// No Discord channel's key is a Slack channel's key, and no Discord
/// message's key is a Slack message's key.
pub proof fn lemma_sides_keep_apart(
    discord_channel_id: u64,
    slack_channel_id: Seq<char>,
    discord_message_id: Seq<char>,
    slack_message_ts: Seq<char>,
)
    ensures
        discord_channel_key_spec(discord_channel_id) != slack_channel_key_spec(slack_channel_id),
        discord_message_key_spec(discord_message_id) != slack_message_key_spec(slack_message_ts),
{
    reveal_strlit("channelA:");
    reveal_strlit("channelB:");
    reveal_strlit("msgA:");
    reveal_strlit("msgB:");
    assert(discord_channel_key_spec(discord_channel_id)[7] == 'A');
    assert(slack_channel_key_spec(slack_channel_id)[7] == 'B');
    assert(discord_message_key_spec(discord_message_id)[3] == 'A');
    assert(slack_message_key_spec(slack_message_ts)[3] == 'B');
}

/// A decimal numeral holds no colon.
pub proof fn lemma_decimal_colon_free(n: nat)
    ensures
        colon_free(decimal(n)),
{
    lemma_decimal_digits(n);
    assert forall|i: int| 0 <= i < decimal(n).len() implies #[trigger] decimal(n)[i] != ':' by {
        assert(is_digit(decimal(n)[i]));
    }
}

/// The table after a plan of two commands.
pub proof fn lemma_apply_two(table: Table, first: StoreCommandView, second: StoreCommandView)
    ensures
        apply_all(table, seq![first, second]) == apply(apply(table, first), second),
{
    let plan = seq![first, second];
    assert(plan.drop_last() =~= seq![first]);
    assert(plan.drop_last().drop_last() =~= Seq::<StoreCommandView>::empty());
    assert(apply_all(table, plan.drop_last().drop_last()) == table);
    assert(apply_all(table, plan.drop_last()) == apply(table, first));
}

/// After two channels are linked, each resolves to the other, whatever the
/// store held before; and what the Slack channel resolves to reads back as
/// the number that was linked.
pub proof fn law_link_resolves(table: Table, discord_channel_id: u64, slack_channel_id: Seq<char>)
    ensures
        ({
            let linked = apply_all(table, link_plan(discord_channel_id, slack_channel_id));
            &&& lookup(linked, discord_channel_key_spec(discord_channel_id)) == Some(
                slack_channel_id,
            )
            &&& lookup(linked, slack_channel_key_spec(slack_channel_id)) == Some(
                decimal(discord_channel_id as nat),
            )
            &&& parse_u64_spec(decimal(discord_channel_id as nat)) == Some(discord_channel_id)
        }),
{
    let plan = link_plan(discord_channel_id, slack_channel_id);
    lemma_apply_two(table, plan[0], plan[1]);
    assert(plan =~= seq![plan[0], plan[1]]);
    lemma_sides_keep_apart(discord_channel_id, slack_channel_id, seq![], seq![]);
    lemma_parse_decimal(discord_channel_id);
}

/// After two channels are unlinked, neither resolves to anything, whatever
/// the store held before.
pub proof fn law_unlink_clears(table: Table, discord_channel_id: u64, slack_channel_id: Seq<char>)
    ensures
        ({
            let unlinked = apply_all(table, unlink_plan(discord_channel_id, slack_channel_id));
            &&& lookup(unlinked, discord_channel_key_spec(discord_channel_id)) is None
            &&& lookup(unlinked, slack_channel_key_spec(slack_channel_id)) is None
        }),
{
    let plan = unlink_plan(discord_channel_id, slack_channel_id);
    lemma_apply_two(table, plan[0], plan[1]);
    assert(plan =~= seq![plan[0], plan[1]]);
}

/// After a message mapping is stored, each message's key holds the
/// reference of the other, whatever the store held before.
pub proof fn law_mapping_resolves(
    table: Table,
    discord_channel_id: u64,
    discord_message_id: u64,
    slack_channel_id: Seq<char>,
    slack_message_ts: Seq<char>,
)
    ensures
        ({
            let mapped = apply_all(
                table,
                mapping_plan(
                    discord_channel_id,
                    discord_message_id,
                    slack_channel_id,
                    slack_message_ts,
                ),
            );
            &&& lookup(mapped, discord_message_key_spec(decimal(discord_message_id as nat)))
                == Some(message_ref_spec(slack_channel_id, slack_message_ts))
            &&& lookup(mapped, slack_message_key_spec(slack_message_ts)) == Some(
                message_ref_spec(
                    decimal(discord_channel_id as nat),
                    decimal(discord_message_id as nat),
                ),
            )
        }),
{
    let plan = mapping_plan(
        discord_channel_id,
        discord_message_id,
        slack_channel_id,
        slack_message_ts,
    );
    lemma_apply_two(table, plan[0], plan[1]);
    assert(plan =~= seq![plan[0], plan[1]]);
    lemma_sides_keep_apart(
        discord_channel_id,
        slack_channel_id,
        decimal(discord_message_id as nat),
        slack_message_ts,
    );
}

/// A stored Discord reference reads back as the channel and the message it
/// was written from; a stored Slack reference does so where neither the
/// Slack channel id nor the Slack timestamp holds a colon.
pub proof fn law_reference_reads_back(
    discord_channel_id: u64,
    discord_message_id: u64,
    slack_channel_id: Seq<char>,
    slack_message_ts: Seq<char>,
)
    ensures
        split_pair_spec(
            message_ref_spec(
                decimal(discord_channel_id as nat),
                decimal(discord_message_id as nat),
            ),
        ) == Some((decimal(discord_channel_id as nat), decimal(discord_message_id as nat))),
        discord_channel_id != 0 ==> discord_id_spec(decimal(discord_channel_id as nat)) == Some(
            discord_channel_id,
        ),
        discord_message_id != 0 ==> discord_id_spec(decimal(discord_message_id as nat)) == Some(
            discord_message_id,
        ),
        colon_free(slack_channel_id) && colon_free(slack_message_ts) ==> split_pair_spec(
            message_ref_spec(slack_channel_id, slack_message_ts),
        ) == Some((slack_channel_id, slack_message_ts)),
{
    lemma_decimal_colon_free(discord_channel_id as nat);
    lemma_decimal_colon_free(discord_message_id as nat);
    lemma_split_join(decimal(discord_channel_id as nat), decimal(discord_message_id as nat));
    lemma_parse_decimal(discord_channel_id);
    lemma_parse_decimal(discord_message_id);
    if colon_free(slack_channel_id) && colon_free(slack_message_ts) {
        lemma_split_join(slack_channel_id, slack_message_ts);
    }
}

/// After a stored mapping is deleted from its Slack side, neither message
/// resolves to anything.
pub proof fn law_delete_from_slack_clears(
    table: Table,
    discord_channel_id: u64,
    discord_message_id: u64,
    slack_channel_id: Seq<char>,
    slack_message_ts: Seq<char>,
)
    ensures
        ({
            let mapped = apply_all(
                table,
                mapping_plan(
                    discord_channel_id,
                    discord_message_id,
                    slack_channel_id,
                    slack_message_ts,
                ),
            );
            let plan = unmap_from_slack_plan(
                slack_message_ts,
                lookup(mapped, slack_message_key_spec(slack_message_ts)),
            );
            &&& plan is Ok
            &&& lookup(
                apply_all(mapped, plan->Ok_0),
                discord_message_key_spec(decimal(discord_message_id as nat)),
            ) is None
            &&& lookup(apply_all(mapped, plan->Ok_0), slack_message_key_spec(slack_message_ts))
                is None
        }),
{
    let mapped = apply_all(
        table,
        mapping_plan(discord_channel_id, discord_message_id, slack_channel_id, slack_message_ts),
    );
    law_mapping_resolves(
        table,
        discord_channel_id,
        discord_message_id,
        slack_channel_id,
        slack_message_ts,
    );
    law_reference_reads_back(
        discord_channel_id,
        discord_message_id,
        slack_channel_id,
        slack_message_ts,
    );
    let plan = unmap_from_slack_plan(
        slack_message_ts,
        lookup(mapped, slack_message_key_spec(slack_message_ts)),
    )->Ok_0;
    lemma_apply_two(mapped, plan[0], plan[1]);
    assert(plan =~= seq![plan[0], plan[1]]);
}

/// After a stored mapping is deleted from its Discord side, neither message
/// resolves to anything, where neither the Slack channel id nor the Slack
/// timestamp holds a colon.
pub proof fn law_delete_from_discord_clears(
    table: Table,
    discord_channel_id: u64,
    discord_message_id: u64,
    slack_channel_id: Seq<char>,
    slack_message_ts: Seq<char>,
)
    requires
        colon_free(slack_channel_id),
        colon_free(slack_message_ts),
    ensures
        ({
            let mapped = apply_all(
                table,
                mapping_plan(
                    discord_channel_id,
                    discord_message_id,
                    slack_channel_id,
                    slack_message_ts,
                ),
            );
            let plan = unmap_from_discord_plan(
                discord_message_id,
                lookup(mapped, discord_message_key_spec(decimal(discord_message_id as nat))),
            );
            &&& plan is Ok
            &&& lookup(
                apply_all(mapped, plan->Ok_0),
                discord_message_key_spec(decimal(discord_message_id as nat)),
            ) is None
            &&& lookup(apply_all(mapped, plan->Ok_0), slack_message_key_spec(slack_message_ts))
                is None
        }),
{
    let mapped = apply_all(
        table,
        mapping_plan(discord_channel_id, discord_message_id, slack_channel_id, slack_message_ts),
    );
    law_mapping_resolves(
        table,
        discord_channel_id,
        discord_message_id,
        slack_channel_id,
        slack_message_ts,
    );
    law_reference_reads_back(
        discord_channel_id,
        discord_message_id,
        slack_channel_id,
        slack_message_ts,
    );
    let plan = unmap_from_discord_plan(
        discord_message_id,
        lookup(mapped, discord_message_key_spec(decimal(discord_message_id as nat))),
    )->Ok_0;
    lemma_apply_two(mapped, plan[0], plan[1]);
    assert(plan =~= seq![plan[0], plan[1]]);
}

} // verus!
