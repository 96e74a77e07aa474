//! The broadcast channel on which the store announces its changes.

use crate::types::{Task, TaskView};
use tokio::sync::broadcast::{Receiver, Sender};
use vstd::prelude::*;

verus! {

/// `tokio::sync::broadcast::Sender`, the sending half of a broadcast
/// channel, as a value of which nothing is known.
#[verifier::external_type_specification]
#[verifier::external_body]
#[verifier::reject_recursive_types(T)]
pub struct ExSender<T>(Sender<T>);

/// `tokio::sync::broadcast::Receiver`, one receiving half of a broadcast
/// channel, as a value of which nothing is known.
#[verifier::external_type_specification]
#[verifier::external_body]
#[verifier::reject_recursive_types(T)]
pub struct ExReceiver<T>(Receiver<T>);

/// How many snapshots the channel holds for a subscriber that has not read
/// them yet; older ones are then overwritten.
pub const UPDATE_BUFFER: usize = 100;

/// Opens a broadcast channel with `tokio::sync::broadcast::channel` and
/// keeps its sending half; the first receiver is dropped at once, so the
/// channel starts without subscribers. `channel` gives up on a capacity of
/// zero or above half of `usize::MAX`.
#[verifier::external_body]
fn open_channel(capacity: usize) -> (tx: Sender<Task>)
    requires
        0 < capacity <= usize::MAX / 2,
{
    tokio::sync::broadcast::channel(capacity).0
}

/// Hands a snapshot to `tokio::sync::broadcast::Sender::send`, which stores
/// it for the receivers that exist at that moment and gives their number,
/// or gives the value back when there is none: then the result is `None`.
#[verifier::external_body]
fn send_snapshot(tx: &Sender<Task>, snapshot: Task) -> (receivers: Option<usize>) {
    tx.send(snapshot).ok()
}

/// Registers a new receiver with `tokio::sync::broadcast::Sender::subscribe`;
/// it sees the values sent after this call.
#[verifier::external_body]
fn new_receiver(tx: &Sender<Task>) -> (rx: Receiver<Task>) {
    tx.subscribe()
}

/// The sending side of the fan-out of task snapshots, together with the
/// record of what was handed to it.
///
/// Delivery is best effort: a subscriber that falls more than
/// [`UPDATE_BUFFER`] snapshots behind misses the oldest ones, and with no
/// subscriber a snapshot is dropped.
pub struct UpdateChannel {
    tx: Sender<Task>,
    id: Ghost<int>,
    sent: Ghost<Seq<TaskView>>,
}

/// A receiver of the snapshots of one channel, with the record of which
/// channel that is and of how much the channel had been handed when the
/// receiver was made. The snapshots handed to the channel from then on are
/// due to it, and none from before: the channel replays nothing. What of
/// them the receiver reads is up to the channel, which overwrites the oldest
/// snapshots of a receiver that falls behind.
pub struct Subscription {
    rx: Receiver<Task>,
    channel: Ghost<int>,
    start: Ghost<nat>,
}

impl Subscription {
    /// The channel that the subscription listens to.
    pub closed spec fn channel(&self) -> int {
        self.channel@
    }

    /// How many snapshots the channel had been handed when the
    /// subscription was made: the place in [`UpdateChannel::sent`] from
    /// which on the snapshots are due to it.
    pub closed spec fn start(&self) -> nat {
        self.start@
    }

    /// What is due to the subscription of all that its channel was handed.
    pub open spec fn due(&self, sent: Seq<TaskView>) -> Seq<TaskView> {
        sent.skip(self.start() as int)
    }

    /// The receiving half that the subscription holds.
    pub closed spec fn receiver(&self) -> Receiver<Task> {
        self.rx
    }

    /// Gives up the subscription for its receiving half, on which the
    /// snapshots are read.
    pub fn into_receiver(self) -> (rx: Receiver<Task>)
        ensures
            rx == self.receiver(),
    {
        self.rx
    }
}

impl UpdateChannel {
    /// Which channel this is. The channel of a store stays the same for as
    /// long as the store lives.
    pub closed spec fn id(&self) -> int {
        self.id@
    }

    /// The snapshots handed to the channel so far, oldest first.
    pub closed spec fn sent(&self) -> Seq<TaskView> {
        self.sent@
    }

    /// A channel without subscribers to which nothing was handed yet.
    pub fn new() -> (channel: Self)
        ensures
            channel.sent() == Seq::<TaskView>::empty(),
    {
        UpdateChannel {
            tx: open_channel(UPDATE_BUFFER),
            id: Ghost(arbitrary()),
            sent: Ghost(Seq::empty()),
        }
    }

    /// Hands one snapshot to every current subscriber and returns how many
    /// there are, or `None` if there is none.
    pub fn publish(&mut self, snapshot: Task) -> (receivers: Option<usize>)
        ensures
            final(self).id() == old(self).id(),
            final(self).sent() == old(self).sent().push(snapshot@),
    {
        self.sent = Ghost(self.sent@.push(snapshot@));
        send_snapshot(&self.tx, snapshot)
    }

    /// A new subscriber to this channel, to which the snapshots published
    /// from now on are due, and none of those published so far.
    pub fn subscribe(&self) -> (sub: Subscription)
        ensures
            sub.channel() == self.id(),
            sub.start() == self.sent().len(),
    {
        Subscription {
            rx: new_receiver(&self.tx),
            channel: Ghost(self.id@),
            start: Ghost(self.sent@.len()),
        }
    }
}

} // verus!
