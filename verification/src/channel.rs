//! The two channels between the acquisition loop and its controller.
//!
//! Commands travel through an unbounded first-in first-out queue; snapshots
//! travel through a slot that holds at most one value and refuses a second
//! one until the first has been taken. No operation ever waits.

use std::collections::VecDeque;
use vstd::prelude::*;

verus! {

/// A lifecycle signal from the controller to the acquisition loop.
#[derive(Clone, Copy, Debug, PartialEq, Eq, Structural)]
pub enum Cmd {
    /// Leave the loop.
    Exit,
    /// Drop the accumulators and start over.
    Reset,
}

/// What a receive that does not wait has found.
#[derive(Debug, PartialEq, Eq)]
pub enum TryRecv<T> {
    /// The oldest pending value.
    Item(T),
    /// Nothing is pending, but the sending side is still there.
    Empty,
    /// Nothing is pending and nothing will come any more.
    Disconnected,
}

/// What became of a value offered to the handoff slot.
#[derive(Debug, PartialEq, Eq)]
pub enum TrySend<T> {
    /// The slot was free and now holds the value.
    Sent,
    /// The slot was taken; the value comes back.
    Full(T),
    /// Nobody will ever take the value; it comes back.
    Disconnected(T),
}

/// What became of a value offered to the handoff slot, without the value.
#[derive(Clone, Copy, Debug, PartialEq, Eq, Structural)]
pub enum Delivery {
    /// The slot took it.
    Sent,
    /// The slot was taken; the value was dropped.
    Full,
    /// The receiver is gone; the value was dropped.
    Disconnected,
}

impl<T> TrySend<T> {
    /// The outcome without the value.
    pub open spec fn spec_delivery(&self) -> Delivery {
        match self {
            TrySend::Sent => Delivery::Sent,
            TrySend::Full(_) => Delivery::Full,
            TrySend::Disconnected(_) => Delivery::Disconnected,
        }
    }

    /// Forgets the value that came back.
    #[verifier::when_used_as_spec(spec_delivery)]
    pub fn delivery(&self) -> (delivery: Delivery)
        ensures
            delivery == self.spec_delivery(),
    {
        match self {
            TrySend::Sent => Delivery::Sent,
            TrySend::Full(_) => Delivery::Full,
            TrySend::Disconnected(_) => Delivery::Disconnected,
        }
    }
}

/// Number of snapshots the handoff slot can hold.
pub const HANDOFF_CAPACITY: usize = 1;

/// A channel from end to end: what is pending, oldest first, and which
/// sides are still attached.
pub struct ChannelView<T> {
    /// The values sent and not yet received, oldest first.
    pub pending: Seq<T>,
    /// Whether the sending side is attached.
    pub sender: bool,
    /// Whether the receiving side is attached.
    pub receiver: bool,
}

impl<T> ChannelView<T> {
    /// A channel with nothing pending and both sides attached.
    pub open spec fn fresh() -> Self {
        ChannelView { pending: Seq::empty(), sender: true, receiver: true }
    }

    /// Whether a value offered to a channel of `capacity` values is taken.
    pub open spec fn takes(self, capacity: nat) -> bool {
        self.receiver && self.pending.len() < capacity
    }

    /// The channel after `value` was offered: it joins the pending values
    /// if there is room and a receiver, and else nothing changes.
    pub open spec fn offered(self, value: T, capacity: nat) -> Self {
        if self.takes(capacity) {
            ChannelView { pending: self.pending.push(value), ..self }
        } else {
            self
        }
    }

    /// What a receive finds.
    pub open spec fn found(self) -> TryRecv<T> {
        if self.pending.len() > 0 {
            TryRecv::Item(self.pending[0])
        } else if self.sender {
            TryRecv::Empty
        } else {
            TryRecv::Disconnected
        }
    }

    /// The channel after a receive: the oldest pending value is gone.
    pub open spec fn received(self) -> Self {
        if self.pending.len() > 0 {
            ChannelView { pending: self.pending.drop_first(), ..self }
        } else {
            self
        }
    }

    /// The channel after the sending side left. What is pending stays.
    pub open spec fn without_sender(self) -> Self {
        ChannelView { sender: false, ..self }
    }

    /// The channel after the receiving side left. What was pending is lost.
    pub open spec fn without_receiver(self) -> Self {
        ChannelView { pending: Seq::empty(), receiver: false, ..self }
    }
}

/// Single-slot channel for snapshots: a value offered while another is
/// pending is refused, and the pending one stays.
pub struct Handoff<T> {
    slot: Option<T>,
    sender: bool,
    receiver: bool,
}

impl<T> View for Handoff<T> {
    type V = ChannelView<T>;

    closed spec fn view(&self) -> ChannelView<T> {
        ChannelView {
            pending: match self.slot {
                Some(value) => seq![value],
                None => Seq::empty(),
            },
            sender: self.sender,
            receiver: self.receiver,
        }
    }
}

impl<T> Handoff<T> {
    /// An empty slot with both sides attached.
    pub fn new() -> (channel: Self)
        ensures
            channel@ == ChannelView::<T>::fresh(),
    {
        Handoff { slot: None, sender: true, receiver: true }
    }

    /// Whether a value is pending.
    pub fn is_full(&self) -> (full: bool)
        ensures
            full == (self@.pending.len() == HANDOFF_CAPACITY),
            self@.pending.len() <= HANDOFF_CAPACITY,
    {
        self.slot.is_some()
    }

    /// Offers `value` without waiting.
    ///
    /// With the receiver gone the value comes back as `Disconnected`; with
    /// the slot taken it comes back as `Full` and the pending value stays as
    /// it was; otherwise the slot takes it.
    pub fn try_send(&mut self, value: T) -> (outcome: TrySend<T>)
        ensures
            final(self)@ == old(self)@.offered(value, HANDOFF_CAPACITY as nat),
            final(self)@.pending.len() <= HANDOFF_CAPACITY,
            outcome == if !old(self)@.receiver {
                TrySend::Disconnected(value)
            } else if old(self)@.pending.len() > 0 {
                TrySend::Full(value)
            } else {
                TrySend::Sent
            },
    {
        if !self.receiver {
            TrySend::Disconnected(value)
        } else if self.slot.is_some() {
            TrySend::Full(value)
        } else {
            self.slot = Some(value);
            TrySend::Sent
        }
    }

    /// Takes the pending value, if there is one, without waiting.
    pub fn try_recv(&mut self) -> (outcome: TryRecv<T>)
        ensures
            outcome == old(self)@.found(),
            final(self)@ == old(self)@.received(),
            final(self)@.pending.len() == 0,
    {
        match self.slot.take() {
            Some(value) => {
                assert(self@.pending =~= old(self)@.pending.drop_first());
                TryRecv::Item(value)
            },
            None => if self.sender {
                TryRecv::Empty
            } else {
                TryRecv::Disconnected
            },
        }
    }

    /// Detaches the sending side. A pending value can still be taken.
    pub fn disconnect_sender(&mut self)
        ensures
            final(self)@ == old(self)@.without_sender(),
    {
        self.sender = false;
    }

    /// Detaches the receiving side and drops the pending value.
    pub fn disconnect_receiver(&mut self)
        ensures
            final(self)@ == old(self)@.without_receiver(),
    {
        self.slot = None;
        self.receiver = false;
    }
}

/// Unbounded queue of commands, first in, first out.
pub struct CommandChannel {
    queue: VecDeque<Cmd>,
    sender: bool,
    receiver: bool,
}

impl View for CommandChannel {
    type V = ChannelView<Cmd>;

    closed spec fn view(&self) -> ChannelView<Cmd> {
        ChannelView { pending: self.queue@, sender: self.sender, receiver: self.receiver }
    }
}

impl CommandChannel {
    /// An empty queue with both sides attached.
    pub fn new() -> (channel: Self)
        ensures
            channel@ == ChannelView::<Cmd>::fresh(),
    {
        CommandChannel { queue: VecDeque::new(), sender: true, receiver: true }
    }

    /// Queues `cmd` behind all pending commands, unless the receiver is
    /// gone: then the command comes back.
    pub fn send(&mut self, cmd: Cmd) -> (outcome: Result<(), Cmd>)
        ensures
            old(self)@.receiver ==> outcome == Ok::<(), Cmd>(()) && final(self)@ == (ChannelView {
                pending: old(self)@.pending.push(cmd),
                ..old(self)@
            }),
            !old(self)@.receiver ==> outcome == Err::<(), Cmd>(cmd) && final(self)@ == old(self)@,
    {
        if self.receiver {
            self.queue.push_back(cmd);
            Ok(())
        } else {
            Err(cmd)
        }
    }

    /// Takes the oldest pending command, if there is one, without waiting.
    pub fn try_recv(&mut self) -> (outcome: TryRecv<Cmd>)
        ensures
            outcome == old(self)@.found(),
            final(self)@ == old(self)@.received(),
    {
        match self.queue.pop_front() {
            Some(cmd) => {
                assert(self@.pending =~= old(self)@.pending.drop_first());
                TryRecv::Item(cmd)
            },
            None => if self.sender {
                TryRecv::Empty
            } else {
                TryRecv::Disconnected
            },
        }
    }

    /// Detaches the sending side. Pending commands can still be taken.
    pub fn disconnect_sender(&mut self)
        ensures
            final(self)@ == old(self)@.without_sender(),
    {
        self.sender = false;
    }

    /// Detaches the receiving side and drops the pending commands.
    pub fn disconnect_receiver(&mut self)
        ensures
            final(self)@ == old(self)@.without_receiver(),
    {
        self.queue.clear();
        self.receiver = false;
    }
}

/// What a consumer sees of a producer that numbers its snapshots.
///
/// The producer offers `next`, then `next + 1`, and so on, to a handoff
/// slot in state `channel`; the consumer takes what is pending. `turns`
/// says whose turn it is: `true` for an offer, `false` for a take. The
/// result lists the numbers taken, in order.
pub open spec fn observed(channel: ChannelView<nat>, next: nat, turns: Seq<bool>) -> Seq<nat>
    decreases turns.len(),
{
    if turns.len() == 0 {
        Seq::empty()
    } else if turns[0] {
        observed(channel.offered(next, HANDOFF_CAPACITY as nat), next + 1, turns.drop_first())
    } else {
        match channel.found() {
            TryRecv::Item(number) => seq![number] + observed(
                channel.received(),
                next,
                turns.drop_first(),
            ),
            _ => observed(channel.received(), next, turns.drop_first()),
        }
    }
}

/// The smallest number a consumer can still see: the pending one, or the
/// next to be offered.
pub open spec fn earliest(channel: ChannelView<nat>, next: nat) -> nat {
    if channel.pending.len() > 0 {
        channel.pending[0]
    } else {
        next
    }
}

/// However fast the producer and however slow the consumer, the numbers
/// the consumer sees rise strictly: a snapshot is never seen twice, and
/// never after a later one.
pub proof fn lemma_observed_rises(channel: ChannelView<nat>, next: nat, turns: Seq<bool>)
    requires
        channel.pending.len() <= HANDOFF_CAPACITY,
        channel.pending.len() > 0 ==> channel.pending[0] < next,
    ensures
        forall|i: int|
            0 <= i < observed(channel, next, turns).len() ==> earliest(channel, next) <= (
            #[trigger] observed(channel, next, turns)[i]),
        forall|i: int, j: int|
            0 <= i < j < observed(channel, next, turns).len() ==> observed(channel, next, turns)[i]
                < observed(channel, next, turns)[j],
    decreases turns.len(),
{
    let seen = observed(channel, next, turns);
    if turns.len() > 0 {
        let rest = turns.drop_first();
        if turns[0] {
            let offered = channel.offered(next, HANDOFF_CAPACITY as nat);
            lemma_observed_rises(offered, next + 1, rest);
            assert(seen == observed(offered, next + 1, rest));
        } else {
            let emptied = channel.received();
            lemma_observed_rises(emptied, next, rest);
            let later = observed(emptied, next, rest);
            if channel.pending.len() > 0 {
                assert(seen == seq![channel.pending[0]] + later);
                assert forall|i: int, j: int| 0 <= i < j < seen.len() implies seen[i] < seen[j] by {
                    assert(seen[j] == later[j - 1]);
                }
            }
        }
    }
}

} // verus!
