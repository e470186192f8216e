use crate::dispatch::{
    creation_spec, delivery_spec, edit_spec, mapping_query_spec, message_target_spec, next_spec,
    recording_spec, start_spec, DeliveredMessage, EffectView, Outcome, ReplyView, Stage, StepView,
};
use crate::event::BridgeEventView;
use crate::identity::{first_named, relay_name_spec, RelayIdentityView};
use crate::store::{
    law_reference_reads_back, message_ref_spec, slack_channel_key_spec, StoreCommandView,
};
use crate::text::{decimal, lemma_parse_decimal};
use vstd::prelude::*;

verus! {

/// The effects that the handling of an event asks for, in order, when it
/// stands at `stage` with `step` asked and the replies come in as given.
/// Replies past the end of the handling are left unread; where the replies
/// run out first, the effect that is then asked for is the last.
pub open spec fn effects_from(
    event: BridgeEventView,
    stage: Stage,
    step: StepView,
    replies: Seq<ReplyView>,
) -> Seq<EffectView>
    decreases replies.len(),
{
    match step {
        StepView::Finish(outcome) => Seq::empty(),
        StepView::Perform(effect) => if replies.len() == 0 {
            seq![effect]
        } else {
            let (stage, step) = next_spec(event, stage, replies[0]);
            seq![effect] + effects_from(event, stage, step, replies.drop_first())
        },
    }
}

/// How the handling ends on the replies given, if they take it to its end.
pub open spec fn outcome_from(
    event: BridgeEventView,
    stage: Stage,
    step: StepView,
    replies: Seq<ReplyView>,
) -> Option<Outcome>
    decreases replies.len(),
{
    match step {
        StepView::Finish(outcome) => Some(outcome),
        StepView::Perform(effect) => if replies.len() == 0 {
            None
        } else {
            let (stage, step) = next_spec(event, stage, replies[0]);
            outcome_from(event, stage, step, replies.drop_first())
        },
    }
}

/// The effects of the whole handling of an event.
pub open spec fn run(workspace_id: Seq<char>, event: BridgeEventView, replies: Seq<ReplyView>)
    -> Seq<EffectView> {
    let (stage, step) = start_spec(workspace_id, event);
    effects_from(event, stage, step, replies)
}

/// The outcome of the whole handling of an event.
pub open spec fn run_outcome(
    workspace_id: Seq<char>,
    event: BridgeEventView,
    replies: Seq<ReplyView>,
) -> Option<Outcome> {
    let (stage, step) = start_spec(workspace_id, event);
    outcome_from(event, stage, step, replies)
}

/// Whether the effect posts a message.
pub open spec fn is_delivery(effect: EffectView) -> bool {
    effect is Deliver
}

/// Whether the effect changes what the correlation store holds.
pub open spec fn is_store_change(effect: EffectView) -> bool {
    match effect {
        EffectView::Store(StoreCommandView::Put { key, value }) => true,
        EffectView::Store(StoreCommandView::Del { key }) => true,
        _ => false,
    }
}

/// Whether the effect changes anything on the delivery platform.
pub open spec fn is_platform_change(effect: EffectView) -> bool {
    match effect {
        EffectView::CreateIdentity { channel, name } => true,
        EffectView::Deliver { identity, username, avatar_url, content } => true,
        EffectView::EditMessage { identity, message, content } => true,
        EffectView::DeleteMessage { channel, message } => true,
        _ => false,
    }
}

/// How many of the effects post a message.
pub open spec fn deliveries(effects: Seq<EffectView>) -> nat
    decreases effects.len(),
{
    if effects.len() == 0 {
        0
    } else {
        (if is_delivery(effects[0]) {
            1nat
        } else {
            0nat
        }) + deliveries(effects.drop_first())
    }
}

/// How many deliveries can still come at a stage with a step asked.
pub open spec fn deliveries_ahead(stage: Stage, step: StepView) -> nat {
    (match step {
        StepView::Perform(effect) => if is_delivery(effect) {
            1nat
        } else {
            0nat
        },
        StepView::Finish(outcome) => 0nat,
    }) + (match stage {
        Stage::Resolving => 1nat,
        Stage::Listing { channel } => 1nat,
        Stage::Creating { channel } => 1nat,
        _ => 0nat,
    })
}

proof fn lemma_deliveries_from(
    event: BridgeEventView,
    stage: Stage,
    step: StepView,
    replies: Seq<ReplyView>,
)
    ensures
        deliveries(effects_from(event, stage, step, replies)) <= deliveries_ahead(stage, step),
    decreases replies.len(),
{
    match step {
        StepView::Finish(outcome) => {},
        StepView::Perform(effect) => {
            if replies.len() == 0 {
                assert(seq![effect].drop_first().len() == 0);
                assert(deliveries(seq![effect].drop_first()) == 0);
            } else {
                let (stage2, step2) = next_spec(event, stage, replies[0]);
                let rest = effects_from(event, stage2, step2, replies.drop_first());
                lemma_deliveries_from(event, stage2, step2, replies.drop_first());
                assert((seq![effect] + rest).drop_first() =~= rest);
                assert((seq![effect] + rest)[0] == effect);
            }
        },
    }
}

/// Whatever the replies, the handling of one event posts at most one
/// message.
pub proof fn law_at_most_one_delivery(
    workspace_id: Seq<char>,
    event: BridgeEventView,
    replies: Seq<ReplyView>,
)
    ensures
        deliveries(run(workspace_id, event, replies)) <= 1,
{
    let (stage, step) = start_spec(workspace_id, event);
    lemma_deliveries_from(event, stage, step, replies);
}

/// One reply takes the effects one step on.
pub proof fn lemma_effects_step(
    event: BridgeEventView,
    stage: Stage,
    effect: EffectView,
    reply: ReplyView,
    rest: Seq<ReplyView>,
)
    ensures
        effects_from(event, stage, StepView::Perform(effect), seq![reply] + rest) == seq![effect]
            + effects_from(
            event,
            next_spec(event, stage, reply).0,
            next_spec(event, stage, reply).1,
            rest,
        ),
        outcome_from(event, stage, StepView::Perform(effect), seq![reply] + rest) == outcome_from(
            event,
            next_spec(event, stage, reply).0,
            next_spec(event, stage, reply).1,
            rest,
        ),
{
    let replies = seq![reply] + rest;
    assert(replies[0] == reply);
    assert(replies.drop_first() =~= rest);
}

/// The replies of a handling in which nothing fails, up to the delivery or
/// the edit: the stored value, the identities of the channel and, where
/// none of them goes by the relay name, the identity that is created.
pub open spec fn replies_to_identity(
    stored: Seq<char>,
    identities: Seq<RelayIdentityView>,
    created: RelayIdentityView,
) -> Seq<ReplyView> {
    if first_named(identities, relay_name_spec()) is Some {
        seq![ReplyView::Value(Some(stored)), ReplyView::Identities(identities)]
    } else {
        seq![
            ReplyView::Value(Some(stored)),
            ReplyView::Identities(identities),
            ReplyView::Identity(created),
        ]
    }
}

/// The effects that find the relay identity of a channel: the list of its
/// identities and, where none of them goes by the relay name, a creation.
pub open spec fn effects_to_identity(channel: u64, identities: Seq<RelayIdentityView>) -> Seq<
    EffectView,
> {
    if first_named(identities, relay_name_spec()) is Some {
        seq![EffectView::ListIdentities { channel }]
    } else {
        seq![EffectView::ListIdentities { channel }, creation_spec(channel)]
    }
}

/// The identity that is used: the first of the channel that goes by the
/// relay name, else the one that is created.
pub open spec fn identity_used(identities: Seq<RelayIdentityView>, created: RelayIdentityView)
    -> u64 {
    match first_named(identities, relay_name_spec()) {
        Some(identity) => identity,
        None => created.id,
    }
}

/// A new message in a linked channel, with nothing failing, is delivered
/// once, under its author's name, to the channel that the link names, and
/// its mapping is stored once: the two writes of the mapping of the
/// delivered message are the only changes to the store. The channel and
/// the delivered message are Discord's, so none of their ids is zero.
pub proof fn law_sent_is_relayed_once(
    event: BridgeEventView,
    channel: u64,
    identities: Seq<RelayIdentityView>,
    created: RelayIdentityView,
    delivered: DeliveredMessage,
)
    requires
        event.event_type is MessageSent,
        channel != 0,
        delivered.is_valid(),
    ensures
        ({
            let replies = replies_to_identity(decimal(channel as nat), identities, created)
                + seq![
                ReplyView::Delivered(Some(delivered)),
                ReplyView::Applied,
                ReplyView::Applied,
            ];
            let mapping = recording_spec(event, delivered);
            &&& run(event.workspace_id, event, replies) == seq![
                EffectView::Store(
                    StoreCommandView::Get { key: slack_channel_key_spec(event.channel_id) },
                ),
            ] + effects_to_identity(channel, identities) + seq![
                delivery_spec(event, identity_used(identities, created)),
                EffectView::Store(mapping[0]),
                EffectView::Store(mapping[1]),
            ]
            &&& run_outcome(event.workspace_id, event, replies) == Some(Outcome::Relayed)
            &&& deliveries(run(event.workspace_id, event, replies)) == 1
        }),
{
    let stored = decimal(channel as nat);
    lemma_parse_decimal(channel);
    let tail = seq![
        ReplyView::Delivered(Some(delivered)),
        ReplyView::Applied,
        ReplyView::Applied,
    ];
    let replies = replies_to_identity(stored, identities, created) + tail;
    let mapping = recording_spec(event, delivered);
    let query = EffectView::Store(
        StoreCommandView::Get { key: slack_channel_key_spec(event.channel_id) },
    );
    let list = EffectView::ListIdentities { channel };
    let deliver = delivery_spec(event, identity_used(identities, created));
    let empty = Seq::<ReplyView>::empty();
    // The last three steps are the same on both paths.
    let t3 = seq![ReplyView::Applied];
    let t2 = seq![ReplyView::Applied] + t3;
    let t1 = seq![ReplyView::Delivered(Some(delivered))] + t2;
    assert(t1 =~= tail);
    lemma_effects_step(
        event,
        Stage::RecordingSecond,
        EffectView::Store(mapping[1]),
        ReplyView::Applied,
        empty,
    );
    assert(t3 =~= seq![ReplyView::Applied] + empty);
    lemma_effects_step(
        event,
        Stage::RecordingFirst { delivered },
        EffectView::Store(mapping[0]),
        ReplyView::Applied,
        t3,
    );
    lemma_effects_step(
        event,
        Stage::Delivering,
        deliver,
        ReplyView::Delivered(Some(delivered)),
        t2,
    );
    let end = effects_from(event, Stage::Delivering, StepView::Perform(deliver), t1);
    assert(end =~= seq![deliver, EffectView::Store(mapping[0]), EffectView::Store(mapping[1])]);
    assert(outcome_from(event, Stage::Delivering, StepView::Perform(deliver), t1) == Some(
        Outcome::Relayed,
    ));
    if first_named(identities, relay_name_spec()) is Some {
        let r1 = seq![ReplyView::Identities(identities)] + t1;
        lemma_effects_step(event, Stage::Listing { channel }, list, ReplyView::Identities(identities), t1);
        lemma_effects_step(event, Stage::Resolving, query, ReplyView::Value(Some(stored)), r1);
        assert(replies =~= seq![ReplyView::Value(Some(stored))] + r1);
        assert(run(event.workspace_id, event, replies) =~= seq![query] + effects_to_identity(
            channel,
            identities,
        ) + seq![deliver, EffectView::Store(mapping[0]), EffectView::Store(mapping[1])]);
    } else {
        let r2 = seq![ReplyView::Identity(created)] + t1;
        let r1 = seq![ReplyView::Identities(identities)] + r2;
        lemma_effects_step(
            event,
            Stage::Creating { channel },
            creation_spec(channel),
            ReplyView::Identity(created),
            t1,
        );
        lemma_effects_step(event, Stage::Listing { channel }, list, ReplyView::Identities(identities), r2);
        lemma_effects_step(event, Stage::Resolving, query, ReplyView::Value(Some(stored)), r1);
        assert(replies =~= seq![ReplyView::Value(Some(stored))] + r1);
        assert(run(event.workspace_id, event, replies) =~= seq![query] + effects_to_identity(
            channel,
            identities,
        ) + seq![deliver, EffectView::Store(mapping[0]), EffectView::Store(mapping[1])]);
    }
    law_at_most_one_delivery(event.workspace_id, event, replies);
    lemma_one_delivery(
        seq![query] + effects_to_identity(channel, identities),
        deliver,
        seq![EffectView::Store(mapping[0]), EffectView::Store(mapping[1])],
    );
    assert(seq![query] + effects_to_identity(channel, identities) + seq![deliver] + seq![
        EffectView::Store(mapping[0]),
        EffectView::Store(mapping[1]),
    ] =~= seq![query] + effects_to_identity(channel, identities) + seq![
        deliver,
        EffectView::Store(mapping[0]),
        EffectView::Store(mapping[1]),
    ]);
}

/// Effects that hold a delivery hold at least one.
proof fn lemma_one_delivery(before: Seq<EffectView>, delivery: EffectView, after: Seq<EffectView>)
    requires
        is_delivery(delivery),
    ensures
        deliveries(before + seq![delivery] + after) >= 1,
    decreases before.len(),
{
    let all = before + seq![delivery] + after;
    if before.len() == 0 {
        assert(all[0] == delivery);
    } else {
        assert(all.drop_first() =~= before.drop_first() + seq![delivery] + after);
        lemma_one_delivery(before.drop_first(), delivery, after);
    }
}

/// An edit of a message that was relayed, with nothing failing, edits the
/// message that was delivered for it: the mapping that the delivery stored
/// leads to that message, in its channel. The delivered message is
/// Discord's, so neither of its ids is zero.
pub proof fn law_edit_reaches_delivered_message(
    event: BridgeEventView,
    identities: Seq<RelayIdentityView>,
    created: RelayIdentityView,
    delivered: DeliveredMessage,
)
    requires
        event.event_type is MessageEdited,
        delivered.is_valid(),
    ensures
        ({
            let stored = message_ref_spec(
                decimal(delivered.channel_id as nat),
                decimal(delivered.id as nat),
            );
            let replies = replies_to_identity(stored, identities, created) + seq![ReplyView::Done];
            &&& recording_spec(event, delivered)[1] == (StoreCommandView::Put {
                key: mapping_query_spec(event)->Store_0->Get_key,
                value: stored,
            })
            &&& run(event.workspace_id, event, replies) == seq![mapping_query_spec(event)]
                + effects_to_identity(delivered.channel_id, identities) + seq![
                edit_spec(event, identity_used(identities, created), delivered.id),
            ]
            &&& run_outcome(event.workspace_id, event, replies) == Some(Outcome::Edited)
        }),
{
    let channel = delivered.channel_id;
    let stored = message_ref_spec(decimal(channel as nat), decimal(delivered.id as nat));
    law_reference_reads_back(channel, delivered.id, seq![], seq![]);
    assert(message_target_spec(stored) == Some((channel, delivered.id)));
    let replies = replies_to_identity(stored, identities, created) + seq![ReplyView::Done];
    let query = mapping_query_spec(event);
    let list = EffectView::ListIdentities { channel };
    let edit = edit_spec(event, identity_used(identities, created), delivered.id);
    let empty = Seq::<ReplyView>::empty();
    let t1 = seq![ReplyView::Done] + empty;
    assert(t1 =~= seq![ReplyView::Done]);
    lemma_effects_step(event, Stage::Editing, edit, ReplyView::Done, empty);
    if first_named(identities, relay_name_spec()) is Some {
        let r1 = seq![ReplyView::Identities(identities)] + t1;
        lemma_effects_step(
            event,
            Stage::ListingForEdit { channel, message: delivered.id },
            list,
            ReplyView::Identities(identities),
            t1,
        );
        lemma_effects_step(event, Stage::FindingEdited, query, ReplyView::Value(Some(stored)), r1);
        assert(replies =~= seq![ReplyView::Value(Some(stored))] + r1);
        assert(run(event.workspace_id, event, replies) =~= seq![query] + effects_to_identity(
            channel,
            identities,
        ) + seq![edit]);
    } else {
        let r2 = seq![ReplyView::Identity(created)] + t1;
        let r1 = seq![ReplyView::Identities(identities)] + r2;
        lemma_effects_step(
            event,
            Stage::CreatingForEdit { message: delivered.id },
            creation_spec(channel),
            ReplyView::Identity(created),
            t1,
        );
        lemma_effects_step(
            event,
            Stage::ListingForEdit { channel, message: delivered.id },
            list,
            ReplyView::Identities(identities),
            r2,
        );
        lemma_effects_step(event, Stage::FindingEdited, query, ReplyView::Value(Some(stored)), r1);
        assert(replies =~= seq![ReplyView::Value(Some(stored))] + r1);
        assert(run(event.workspace_id, event, replies) =~= seq![query] + effects_to_identity(
            channel,
            identities,
        ) + seq![edit]);
    }
}

/// Whether a stage with a step asked belongs to the handling of an edit,
/// with nothing asked that posts a message or changes the store.
pub open spec fn editing_quietly(stage: Stage, step: StepView) -> bool {
    &&& match stage {
        Stage::FindingEdited => true,
        Stage::ListingForEdit { channel, message } => true,
        Stage::CreatingForEdit { message } => true,
        Stage::Editing => true,
        Stage::Finished => true,
        _ => false,
    }
    &&& match step {
        StepView::Perform(effect) => !is_delivery(effect) && !is_store_change(effect),
        StepView::Finish(outcome) => true,
    }
}

proof fn lemma_edit_stays_quiet(
    event: BridgeEventView,
    stage: Stage,
    step: StepView,
    replies: Seq<ReplyView>,
)
    requires
        editing_quietly(stage, step),
    ensures
        forall|i: int|
            0 <= i < effects_from(event, stage, step, replies).len() ==> {
                let effect = #[trigger] effects_from(event, stage, step, replies)[i];
                !is_delivery(effect) && !is_store_change(effect)
            },
    decreases replies.len(),
{
    match step {
        StepView::Finish(outcome) => {},
        StepView::Perform(effect) => {
            if replies.len() > 0 {
                let (stage2, step2) = next_spec(event, stage, replies[0]);
                lemma_edit_stays_quiet(event, stage2, step2, replies.drop_first());
                let rest = effects_from(event, stage2, step2, replies.drop_first());
                let all = effects_from(event, stage, step, replies);
                assert forall|i: int| 0 <= i < all.len() implies {
                    let effect = #[trigger] all[i];
                    !is_delivery(effect) && !is_store_change(effect)
                } by {
                    if i > 0 {
                        assert(all[i] == rest[i - 1]);
                    }
                }
            }
        },
    }
}

/// Whatever the replies, the handling of an edit posts no message and
/// changes nothing in the store: no mapping is made for it.
pub proof fn law_edit_makes_no_mapping(
    workspace_id: Seq<char>,
    event: BridgeEventView,
    replies: Seq<ReplyView>,
)
    requires
        event.event_type is MessageEdited,
    ensures
        forall|i: int|
            0 <= i < run(workspace_id, event, replies).len() ==> {
                let effect = #[trigger] run(workspace_id, event, replies)[i];
                !is_delivery(effect) && !is_store_change(effect)
            },
{
    let (stage, step) = start_spec(workspace_id, event);
    lemma_edit_stays_quiet(event, stage, step, replies);
}

/// A deletion of a message that has no stored mapping does nothing: the
/// read that finds no mapping is its only effect, whatever replies follow.
pub proof fn law_unmapped_deletion_is_silent(event: BridgeEventView, later: Seq<ReplyView>)
    requires
        event.event_type is MessageDeleted,
    ensures
        ({
            let replies = seq![ReplyView::Value(None)] + later;
            &&& run(event.workspace_id, event, replies) == seq![mapping_query_spec(event)]
            &&& !is_store_change(mapping_query_spec(event))
            &&& !is_platform_change(mapping_query_spec(event))
            &&& run_outcome(event.workspace_id, event, replies) == Some(Outcome::NoMapping)
        }),
{
    let query = mapping_query_spec(event);
    lemma_effects_step(event, Stage::FindingDeleted, query, ReplyView::Value(None), later);
    assert(seq![query] + Seq::<EffectView>::empty() =~= seq![query]);
}

/// An event from another workspace has no effect at all.
pub proof fn law_other_workspace_is_dropped(
    workspace_id: Seq<char>,
    event: BridgeEventView,
    replies: Seq<ReplyView>,
)
    requires
        event.workspace_id != workspace_id,
    ensures
        run(workspace_id, event, replies) == Seq::<EffectView>::empty(),
        run_outcome(workspace_id, event, replies) == Some(Outcome::OtherWorkspace),
{
}

/// Whether every channel and every message that the effect names can be
/// Discord's: none has the id zero.
pub open spec fn names_real_ids(effect: EffectView) -> bool {
    match effect {
        EffectView::ListIdentities { channel } => channel != 0,
        EffectView::CreateIdentity { channel, name } => channel != 0,
        EffectView::EditMessage { identity, message, content } => message != 0,
        EffectView::DeleteMessage { channel, message } => channel != 0 && message != 0,
        _ => true,
    }
}

/// Whether every channel and every message that a stage keeps, and the
/// step asked at it names, can be Discord's.
pub open spec fn keeps_real_ids(stage: Stage, step: StepView) -> bool {
    &&& match stage {
        Stage::Listing { channel } => channel != 0,
        Stage::Creating { channel } => channel != 0,
        Stage::RecordingFirst { delivered } => delivered.is_valid(),
        Stage::ListingForEdit { channel, message } => channel != 0 && message != 0,
        Stage::CreatingForEdit { message } => message != 0,
        _ => true,
    }
    &&& match step {
        StepView::Perform(effect) => names_real_ids(effect),
        StepView::Finish(outcome) => true,
    }
}

proof fn lemma_real_ids_are_kept(
    event: BridgeEventView,
    stage: Stage,
    step: StepView,
    replies: Seq<ReplyView>,
)
    requires
        keeps_real_ids(stage, step),
    ensures
        forall|i: int|
            0 <= i < effects_from(event, stage, step, replies).len() ==> names_real_ids(
                #[trigger] effects_from(event, stage, step, replies)[i],
            ),
    decreases replies.len(),
{
    match step {
        StepView::Finish(outcome) => {},
        StepView::Perform(effect) => {
            if replies.len() > 0 {
                let (stage2, step2) = next_spec(event, stage, replies[0]);
                lemma_real_ids_are_kept(event, stage2, step2, replies.drop_first());
                let rest = effects_from(event, stage2, step2, replies.drop_first());
                let all = effects_from(event, stage, step, replies);
                assert forall|i: int| 0 <= i < all.len() implies names_real_ids(
                    #[trigger] all[i],
                ) by {
                    if i > 0 {
                        assert(all[i] == rest[i - 1]);
                    }
                }
            }
        },
    }
}

/// Whatever the event and the replies, the handling asks for nothing on a
/// channel or a message with the id zero: a link to channel zero, and a
/// mapping that names channel or message zero, end the handling.
pub proof fn law_effects_name_real_ids(
    workspace_id: Seq<char>,
    event: BridgeEventView,
    replies: Seq<ReplyView>,
)
    ensures
        forall|i: int|
            0 <= i < run(workspace_id, event, replies).len() ==> names_real_ids(
                #[trigger] run(workspace_id, event, replies)[i],
            ),
{
    let (stage, step) = start_spec(workspace_id, event);
    lemma_real_ids_are_kept(event, stage, step, replies);
}

} // verus!
