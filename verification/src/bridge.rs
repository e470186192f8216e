use crate::event::BridgeEvent;
use tokio::sync::mpsc::{UnboundedReceiver, UnboundedSender};
use vstd::prelude::*;

verus! {

#[verifier::external_type_specification]
#[verifier::external_body]
#[verifier::reject_recursive_types(T)]
pub struct ExUnboundedSender<T>(UnboundedSender<T>);

#[verifier::external_type_specification]
#[verifier::external_body]
#[verifier::reject_recursive_types(T)]
pub struct ExUnboundedReceiver<T>(UnboundedReceiver<T>);

/// `UnboundedSender::clone`: one more sending end of the same queue. Nothing
/// is claimed of it.
pub assume_specification<T>[ <UnboundedSender<T> as Clone>::clone ](
    sender: &UnboundedSender<T>,
) -> (other: UnboundedSender<T>)
;

/// The sending ends of the two queues of the bridge, one for each
/// direction. Each queue has any number of senders and one receiver, keeps
/// the events in the order they were sent, and has no bound.
#[derive(Clone)]
pub struct BridgeChannels {
    pub to_discord: UnboundedSender<BridgeEvent>,
    pub to_slack: UnboundedSender<BridgeEvent>,
}

/// `tokio::sync::mpsc::unbounded_channel`: a new queue without bound, as
/// its sending and its receiving end. Nothing is claimed of either.
#[verifier::external_body]
fn open_queue() -> (ends: (UnboundedSender<BridgeEvent>, UnboundedReceiver<BridgeEvent>)) {
    tokio::sync::mpsc::unbounded_channel()
}

/// `UnboundedSender::send`: puts the event on the queue without waiting.
/// Whether that succeeds depends on the receiving end, so all that is
/// claimed is what tokio says of a failure: the error holds the very event
/// that was given.
#[verifier::external_body]
fn enqueue(queue: &UnboundedSender<BridgeEvent>, event: BridgeEvent) -> (r: Result<
    (),
    BridgeEvent,
>)
    ensures
        r matches Err(returned) ==> returned == event,
{
    match queue.send(event) {
        Ok(()) => Ok(()),
        Err(error) => Err(error.0),
    }
}

/// Opens the two queues: the channels to send on, then the receiving end
/// of the queue to Discord, then that of the queue to Slack.
pub fn create_bridge() -> (
    BridgeChannels,
    UnboundedReceiver<BridgeEvent>,
    UnboundedReceiver<BridgeEvent>,
) {
    let (discord_tx, discord_rx) = open_queue();
    let (slack_tx, slack_rx) = open_queue();
    (BridgeChannels { to_discord: discord_tx, to_slack: slack_tx }, discord_rx, slack_rx)
}

impl BridgeChannels {
    /// Queues an event for delivery to Discord. This never waits. It fails
    /// only where nothing receives from the queue any more; the event is
    /// then dropped from the relay and handed back for the report.
    pub fn send_to_discord(&self, event: BridgeEvent) -> (r: Result<(), BridgeEvent>)
        ensures
            r matches Err(dropped) ==> dropped == event,
    {
        enqueue(&self.to_discord, event)
    }

    /// Queues an event for delivery to Slack, as
    /// [`BridgeChannels::send_to_discord`] does for Discord.
    pub fn send_to_slack(&self, event: BridgeEvent) -> (r: Result<(), BridgeEvent>)
        ensures
            r matches Err(dropped) ==> dropped == event,
    {
        enqueue(&self.to_slack, event)
    }
}

} // verus!
