//! The payload forwarder: it takes the chunks of a request body one at a
//! time and hands each to a channel of capacity one before it takes the next.
//!
//! The forwarder decides; receiving from the body and sending into the
//! channel are the caller's part, which reports each outcome as an event.

use vstd::prelude::*;

verus! {

/// Number of chunks that the channel between forwarder and consumer holds.
pub const CHANNEL_CAPACITY: usize = 1;

/// A failure of the transport while the body was read.
#[derive(Debug)]
pub struct TransportError {
    pub message: String,
}

/// What the body yields: a chunk of bytes, or a failure of the transport,
/// which is forwarded like a chunk.
pub type StreamItem = Result<Vec<u8>, TransportError>;

/// Where the forwarder stands.
#[derive(Clone, Copy, Debug, PartialEq, Eq, Structural)]
pub enum ForwarderState {
    /// It holds nothing and waits for the body.
    Receiving,
    /// It handed an item to the channel and waits for it to be taken.
    Sending,
    /// It has stopped for good.
    Stopped,
}

/// What the caller reports.
#[derive(Debug)]
pub enum ForwarderEvent {
    /// The body yielded an item.
    Received(StreamItem),
    /// The body is exhausted.
    Exhausted,
    /// The channel took the item.
    Sent,
    /// The consumer is gone: the send failed.
    ConsumerGone,
}

/// What the caller does next.
#[derive(Debug)]
pub enum ForwarderAction {
    /// Wait for the body's next item.
    Receive,
    /// Send this item into the channel.
    Send(StreamItem),
    /// End the task.
    Stop,
}

/// The forwarder's rule. It receives, sends what it received, and receives
/// again once the channel took the item; it stops when the body is exhausted
/// or the consumer is gone. A report that does not fit the state stops it.
pub open spec fn transition(state: ForwarderState, event: ForwarderEvent) -> (
    ForwarderState,
    ForwarderAction,
) {
    match (state, event) {
        (ForwarderState::Receiving, ForwarderEvent::Received(item)) => (
            ForwarderState::Sending,
            ForwarderAction::Send(item),
        ),
        (ForwarderState::Sending, ForwarderEvent::Sent) => (
            ForwarderState::Receiving,
            ForwarderAction::Receive,
        ),
        _ => (ForwarderState::Stopped, ForwarderAction::Stop),
    }
}

/// Number of items that the forwarder has taken from the body and that the
/// channel has not yet taken from it.
pub open spec fn in_flight(state: ForwarderState) -> nat {
    match state {
        ForwarderState::Sending => 1,
        _ => 0,
    }
}

/// The state in which a forwarder starts, and its first action.
pub fn start() -> (r: (ForwarderState, ForwarderAction))
    ensures
        r.0 == ForwarderState::Receiving,
        r.1 == ForwarderAction::Receive,
{
    (ForwarderState::Receiving, ForwarderAction::Receive)
}

/// One step of the forwarder.
pub fn step(state: ForwarderState, event: ForwarderEvent) -> (r: (ForwarderState, ForwarderAction))
    ensures
        r == transition(state, event),
{
    match state {
        ForwarderState::Receiving => match event {
            ForwarderEvent::Received(item) => (ForwarderState::Sending, ForwarderAction::Send(item)),
            _ => (ForwarderState::Stopped, ForwarderAction::Stop),
        },
        ForwarderState::Sending => match event {
            ForwarderEvent::Sent => (ForwarderState::Receiving, ForwarderAction::Receive),
            _ => (ForwarderState::Stopped, ForwarderAction::Stop),
        },
        ForwarderState::Stopped => (ForwarderState::Stopped, ForwarderAction::Stop),
    }
}

/// The forwarder never has more items in flight than the channel holds, and
/// it asks the body for an item only while it has none in flight: each item
/// it sends is the one it has just received.
pub proof fn forwarder_holds_one_item_at_most(state: ForwarderState, event: ForwarderEvent)
    ensures
        in_flight(state) <= CHANNEL_CAPACITY,
        in_flight(transition(state, event).0) <= CHANNEL_CAPACITY,
        transition(state, event).1 is Receive ==> in_flight(transition(state, event).0) == 0,
        transition(state, event).1 matches ForwarderAction::Send(item) ==> {
            &&& event == ForwarderEvent::Received(item)
            &&& in_flight(state) == 0
            &&& in_flight(transition(state, event).0) == 1
        },
        state == ForwarderState::Stopped ==> transition(state, event).0 == ForwarderState::Stopped,
{
}

/// What reaches a consumer that takes `accepted` items before it goes away:
/// the first items of the body, in the body's order.
pub open spec fn forwarded(source: Seq<StreamItem>, accepted: nat) -> Seq<StreamItem> {
    if accepted < source.len() {
        source.take(accepted as int)
    } else {
        source
    }
}

/// Runs a forwarder over a body held in memory, towards a consumer that
/// takes `accepted` items and then goes away. Returns what the consumer took.
pub fn forward(source: Vec<StreamItem>, accepted: usize) -> (taken: Vec<StreamItem>)
    ensures
        taken@ == forwarded(source@, accepted as nat),
{
    let mut source = source;
    let ghost all = source@;
    let ghost mut received: int = 0;
    let mut taken: Vec<StreamItem> = Vec::new();
    let (mut state, mut action) = start();
    let mut done: bool = false;
    assert(all.skip(0) =~= all);
    assert(all.take(0) =~= taken@);
    while !done
        invariant
            0 <= received <= all.len(),
            source@ == all.skip(received),
            taken.len() <= accepted,
            taken.len() <= received,
            taken@ == all.take(taken.len() as int),
            in_flight(state) == 0,
            done ==> taken.len() == accepted || (source.len() == 0 && taken.len() == received),
            !done ==> taken.len() == received && state == ForwarderState::Receiving && action
                == ForwarderAction::Receive,
        decreases source.len() + (if done { 0int } else { 1int }),
    {
        let event = if source.len() == 0 {
            ForwarderEvent::Exhausted
        } else {
            let item = source.remove(0);
            proof {
                assert(item == all[received]);
                assert(source@ =~= all.skip(received + 1));
                received = received + 1;
            }
            ForwarderEvent::Received(item)
        };
        let (after_receive, next_action) = step(state, event);
        match next_action {
            ForwarderAction::Send(item) => {
                if taken.len() < accepted {
                    taken.push(item);
                    assert(taken@ =~= all.take(taken.len() as int));
                    let (after_send, a) = step(after_receive, ForwarderEvent::Sent);
                    state = after_send;
                    action = a;
                } else {
                    let (after_send, a) = step(after_receive, ForwarderEvent::ConsumerGone);
                    state = after_send;
                    action = a;
                    done = true;
                }
            },
            _ => {
                state = after_receive;
                action = next_action;
                done = true;
            },
        }
    }
    proof {
        if accepted >= all.len() {
            assert(taken.len() == all.len());
            assert(all.take(all.len() as int) =~= all);
        }
    }
    taken
}

} // verus!
