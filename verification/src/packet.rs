use crate::error::{SendError, TryRecvError, TrySendError};
use crate::queue::{PopResult, Queue};
use vstd::prelude::*;

verus! {

/// The state of a channel as a mathematical value.
pub ghost struct ChannelState<T> {
    /// The messages sent and not yet received, oldest first.
    pub queue: Seq<T>,
    /// `None` for an asynchronous channel; `Some(n)` for a synchronous
    /// channel whose buffer holds `n` messages (`n == 0`: rendezvous).
    pub bound: Option<nat>,
    /// The number of connected sending handles.
    pub senders: nat,
    /// Whether the receiving handle is still connected.
    pub receiver_alive: bool,
    /// Whether the receiver has announced that it is blocked waiting for a
    /// message.
    pub receiver_waiting: bool,
    /// The number of rendezvous hand-offs started so far; hand-off `k` is the
    /// `k`-th (from 0) blocking rendezvous send that had to wait for the
    /// receiver.
    pub handoffs_started: nat,
    /// The number of those hand-offs whose message the receiver took.
    pub handoffs_taken: nat,
    /// Whether the message of the latest hand-off is queued, not yet taken.
    pub handoff_queued: bool,
    /// The message of the latest hand-off, kept to be handed back to its
    /// sender when the receiver went away before taking it.
    pub canceled: Option<T>,
}

/// The number of messages that a synchronous channel with the given bound
/// can hold at once: a rendezvous channel holds the one message being handed
/// over.
pub open spec fn capacity(bound: nat) -> nat {
    if bound == 0 {
        1
    } else {
        bound
    }
}

/// The bound of a channel, taken as a mathematical value.
pub open spec fn bound_view(bound: Option<usize>) -> Option<nat> {
    match bound {
        Some(n) => Some(n as nat),
        None => None,
    }
}

/// What a receiver learns when it announces that it is about to block.
#[derive(PartialEq, Eq, Clone, Copy, Debug)]
pub enum StartResult {
    /// Nothing can be received yet; the receiver is now registered as waiting.
    Installed,
    /// A receive would succeed (or report disconnection) right away, so the
    /// receiver did not register.
    Abort,
}

/// Proof that its holder started rendezvous hand-off number `seq()` and has
/// not learnt how it ended. Only `Packet::start_send` makes one, and
/// `Packet::finish_send` takes it back.
pub struct HandoffTicket {
    seq: u64,
}

impl HandoffTicket {
    /// The number of the hand-off this ticket stands for.
    pub closed spec fn seq(&self) -> nat {
        self.seq as nat
    }
}

/// Where a blocking send stands after one attempt. `K` is the ticket that
/// stands for a pending rendezvous hand-off.
pub enum SendPoll<T, K> {
    /// The send is over, with this result.
    Done(Result<(), SendError<T>>),
    /// The buffer had no room: the message comes back, to be sent again
    /// later.
    Wait(T),
    /// The message of a rendezvous send is queued and no receiver was
    /// waiting for it; the send is over once the receiver has taken it.
    Pending(K),
}

/// Where a rendezvous hand-off stands when its sender asks.
pub enum HandoffPoll<T, K> {
    /// The send is over: `Ok` once the receiver took the message, or the
    /// message back if the receiver went away first.
    Done(Result<(), SendError<T>>),
    /// The receiver has not taken the message yet; the ticket comes back.
    Waiting(K),
}

impl<T> ChannelState<T> {
    /// The state of a channel right after it was created.
    pub open spec fn fresh(bound: Option<nat>) -> Self {
        ChannelState {
            queue: Seq::empty(),
            bound,
            senders: 1,
            receiver_alive: true,
            receiver_waiting: false,
            handoffs_started: 0,
            handoffs_taken: 0,
            handoff_queued: false,
            canceled: None,
        }
    }

    /// What every reachable state satisfies: a synchronous channel never
    /// holds more than its capacity; a channel without a receiver holds
    /// nothing; a hand-off under way is the one queued message of a
    /// rendezvous channel; and while the receiver is connected, every
    /// hand-off started was taken, except the one queued.
    pub open spec fn wf(self) -> bool {
        &&& (self.bound matches Some(n) ==> self.queue.len() <= capacity(n))
        &&& (!self.receiver_alive ==> self.queue.len() == 0 && !self.receiver_waiting)
        &&& (self.bound != Some(0nat) ==> self.handoffs_started == 0 && !self.handoff_queued
            && self.canceled is None)
        &&& (self.handoff_queued ==> self.receiver_alive && self.queue.len() == 1)
        &&& (self.canceled is Some ==> !self.receiver_alive && !self.handoff_queued
            && self.handoffs_started > 0)
        &&& self.handoffs_taken + (if self.handoff_queued { 1int } else { 0int })
            <= self.handoffs_started
        &&& (self.receiver_alive ==> self.handoffs_taken + (if self.handoff_queued {
            1int
        } else {
            0int
        }) == self.handoffs_started)
        &&& self.handoffs_started <= u64::MAX
    }

    /// Whether a send that never waits finds no room. A rendezvous channel
    /// has room only while the receiver waits and the slot is empty.
    pub open spec fn is_full(self) -> bool {
        match self.bound {
            None => false,
            Some(n) => if n == 0 {
                !(self.receiver_waiting && self.queue.len() == 0)
            } else {
                self.queue.len() >= n
            },
        }
    }

    /// Whether a blocking send now finds a free slot: a bounded channel needs
    /// room in its buffer; a rendezvous channel needs its one slot empty,
    /// whether or not the receiver waits yet.
    pub open spec fn has_slot(self) -> bool {
        match self.bound {
            None => true,
            Some(n) => self.queue.len() < capacity(n),
        }
    }

    /// Whether a receive now returns without waiting: a message is queued,
    /// or no sender is left to send one.
    pub open spec fn can_recv(self) -> bool {
        self.queue.len() > 0 || self.senders == 0
    }

    /// The state after `t` joined the queue; a waiting receiver is woken.
    pub open spec fn pushed(self, t: T) -> Self {
        ChannelState { queue: self.queue.push(t), receiver_waiting: false, ..self }
    }

    /// The state after the oldest message left the queue; the message of a
    /// hand-off under way is then taken.
    pub open spec fn popped(self) -> Self {
        ChannelState {
            queue: self.queue.drop_first(),
            receiver_waiting: false,
            handoffs_taken: if self.handoff_queued {
                self.handoffs_taken + 1
            } else {
                self.handoffs_taken
            },
            handoff_queued: false,
            ..self
        }
    }

    /// The state with the receiver's waiting flag set to `w`.
    pub open spec fn with_waiting(self, w: bool) -> Self {
        ChannelState { receiver_waiting: w, ..self }
    }

    /// The state after one more sending handle was made. The count stops at
    /// `usize::MAX`, a number of handles that cannot exist at once.
    pub open spec fn sender_added(self) -> Self {
        ChannelState {
            senders: if self.senders < usize::MAX { self.senders + 1 } else { self.senders },
            ..self
        }
    }

    /// The state after one sending handle was closed.
    pub open spec fn sender_removed(self) -> Self {
        ChannelState {
            senders: if self.senders > 0 { (self.senders - 1) as nat } else { 0 },
            ..self
        }
    }

    /// The state after the receiver was closed: what was queued is dropped,
    /// except the message of a hand-off under way, which is kept to be
    /// handed back to its sender.
    pub open spec fn receiver_closed(self) -> Self {
        ChannelState {
            queue: Seq::empty(),
            receiver_alive: false,
            receiver_waiting: false,
            handoff_queued: false,
            canceled: if self.handoff_queued {
                Some(self.queue[0])
            } else {
                self.canceled
            },
            ..self
        }
    }

    /// What a send that never waits returns.
    pub open spec fn try_send_result(self, t: T) -> Result<(), TrySendError<T>> {
        if !self.receiver_alive {
            Err(TrySendError::Disconnected(t))
        } else if self.is_full() {
            Err(TrySendError::Full(t))
        } else {
            Ok(())
        }
    }

    /// The state after a send that never waits.
    pub open spec fn after_try_send(self, t: T) -> Self {
        if self.receiver_alive && !self.is_full() {
            self.pushed(t)
        } else {
            self
        }
    }

    /// Whether a blocking send of `t` now starts a hand-off that waits for
    /// the receiver: on a rendezvous channel with its slot free and no
    /// receiver waiting (and hand-off numbers left).
    pub open spec fn starts_handoff(self) -> bool {
        &&& self.receiver_alive
        &&& self.has_slot()
        &&& self.bound == Some(0nat)
        &&& !self.receiver_waiting
        &&& self.handoffs_started < u64::MAX
    }

    /// Whether `r` is what one attempt of a blocking send of `t` returns,
    /// given `seq`, the number that a ticket in `r` stands for.
    pub open spec fn start_send_outcome<K>(self, t: T, r: SendPoll<T, K>, seq: spec_fn(K) -> nat) -> bool {
        if !self.receiver_alive {
            r == SendPoll::<T, K>::Done(Err(SendError(t)))
        } else if !self.has_slot() {
            r == SendPoll::<T, K>::Wait(t)
        } else if self.bound == Some(0nat) && !self.receiver_waiting {
            if self.handoffs_started < u64::MAX {
                r matches SendPoll::Pending(k) && seq(k) == self.handoffs_started
            } else {
                r == SendPoll::<T, K>::Wait(t)
            }
        } else {
            r == SendPoll::<T, K>::Done(Ok(()))
        }
    }

    /// Whether one attempt of a blocking send now queues its message.
    pub open spec fn start_send_queues(self) -> bool {
        &&& self.receiver_alive
        &&& self.has_slot()
        &&& !(self.bound == Some(0nat) && !self.receiver_waiting && self.handoffs_started
            >= u64::MAX)
    }

    /// The state after one attempt of a blocking send of `t`.
    pub open spec fn after_start_send(self, t: T) -> Self {
        if self.starts_handoff() {
            ChannelState {
                handoffs_started: self.handoffs_started + 1,
                handoff_queued: true,
                ..self.pushed(t)
            }
        } else if self.start_send_queues() {
            self.pushed(t)
        } else {
            self
        }
    }

    /// Whether `r` is what the sender of hand-off `seq` learns when it asks:
    /// `Ok` once the receiver took the message; the message back once the
    /// receiver went away first; otherwise that it must wait.
    pub open spec fn finish_send_outcome<K>(self, seq: nat, r: HandoffPoll<T, K>) -> bool {
        if seq < self.handoffs_taken {
            r == HandoffPoll::<T, K>::Done(Ok(()))
        } else {
            match self.canceled {
                Some(t) => if seq + 1 == self.handoffs_started {
                    r == HandoffPoll::<T, K>::Done(Err(SendError(t)))
                } else {
                    r is Waiting
                },
                None => r is Waiting,
            }
        }
    }

    /// The state after the sender of hand-off `seq` asked.
    pub open spec fn after_finish_send(self, seq: nat) -> Self {
        if seq >= self.handoffs_taken && self.canceled is Some && seq + 1
            == self.handoffs_started {
            ChannelState { canceled: None, ..self }
        } else {
            self
        }
    }

    /// What a receive that never waits returns.
    pub open spec fn try_recv_result(self) -> Result<T, TryRecvError> {
        if self.queue.len() > 0 {
            Ok(self.queue[0])
        } else if self.senders == 0 {
            Err(TryRecvError::Disconnected)
        } else {
            Err(TryRecvError::Empty)
        }
    }

    /// The state after a receive that never waits.
    pub open spec fn after_try_recv(self) -> Self {
        if self.queue.len() > 0 {
            self.popped()
        } else {
            self
        }
    }
}

/// The shared part of a channel: the buffered messages and the bookkeeping
/// of who is connected.
pub struct Packet<T> {
    buf: Queue<T>,
    bound: Option<usize>,
    senders: usize,
    receiver_alive: bool,
    receiver_waiting: bool,
    handoffs_started: u64,
    handoffs_taken: u64,
    handoff_queued: bool,
    canceled: Option<T>,
}

impl<T> View for Packet<T> {
    type V = ChannelState<T>;

    closed spec fn view(&self) -> ChannelState<T> {
        ChannelState {
            queue: self.buf@,
            bound: bound_view(self.bound),
            senders: self.senders as nat,
            receiver_alive: self.receiver_alive,
            receiver_waiting: self.receiver_waiting,
            handoffs_started: self.handoffs_started as nat,
            handoffs_taken: self.handoffs_taken as nat,
            handoff_queued: self.handoff_queued,
            canceled: self.canceled,
        }
    }
}

impl<T> Packet<T> {
    /// Whether the packet is in a reachable state.
    pub open spec fn wf(&self) -> bool {
        self@.wf()
    }

    /// A packet with one sender, a receiver and no message. `bound` is `None`
    /// for an asynchronous channel.
    pub fn new(bound: Option<usize>) -> (p: Self)
        ensures
            p@ == ChannelState::<T>::fresh(bound_view(bound)),
            p.wf(),
    {
        Packet {
            buf: Queue::new(),
            bound,
            senders: 1,
            receiver_alive: true,
            receiver_waiting: false,
            handoffs_started: 0,
            handoffs_taken: 0,
            handoff_queued: false,
            canceled: None,
        }
    }

    /// The bound the packet was made with.
    pub fn bound(&self) -> (b: Option<usize>)
        ensures
            bound_view(b) == self@.bound,
    {
        self.bound
    }

    /// The number of queued messages.
    pub fn len(&self) -> (n: usize)
        ensures
            n == self@.queue.len(),
    {
        self.buf.len()
    }

    /// Whether a receive now returns without waiting.
    pub fn can_recv(&self) -> (b: bool)
        ensures
            b == self@.can_recv(),
    {
        self.buf.len() > 0 || self.senders == 0
    }

    /// Whether room is lacking for a message sent without waiting.
    pub fn is_full(&self) -> (b: bool)
        ensures
            b == self@.is_full(),
    {
        match self.bound {
            None => false,
            Some(n) => if n == 0 {
                !(self.receiver_waiting && self.buf.len() == 0)
            } else {
                self.buf.len() >= n
            },
        }
    }

    /// Whether a blocking send now finds a free slot.
    pub fn has_slot(&self) -> (b: bool)
        ensures
            b == self@.has_slot(),
    {
        match self.bound {
            None => true,
            Some(n) => if n == 0 {
                self.buf.len() == 0
            } else {
                self.buf.len() < n
            },
        }
    }

    /// Queues `t` unless the receiver is gone, in which case `t` comes back.
    /// Only for asynchronous channels, which never run out of room.
    pub fn send(&mut self, t: T) -> (r: Result<(), T>)
        requires
            old(self).wf(),
            old(self)@.bound is None,
        ensures
            final(self).wf(),
            old(self)@.receiver_alive ==> r is Ok && final(self)@ == old(self)@.pushed(t),
            !old(self)@.receiver_alive ==> r == Err::<(), T>(t) && final(self)@ == old(self)@,
    {
        if self.receiver_alive {
            self.buf.push(t);
            self.receiver_waiting = false;
            Ok(())
        } else {
            Err(t)
        }
    }

    /// Queues `t` if the receiver is connected and there is room; otherwise
    /// hands `t` back with the reason.
    pub fn try_send(&mut self, t: T) -> (r: Result<(), TrySendError<T>>)
        requires
            old(self).wf(),
        ensures
            final(self).wf(),
            r == old(self)@.try_send_result(t),
            final(self)@ == old(self)@.after_try_send(t),
    {
        if !self.receiver_alive {
            Err(TrySendError::Disconnected(t))
        } else if self.is_full() {
            Err(TrySendError::Full(t))
        } else {
            self.buf.push(t);
            self.receiver_waiting = false;
            Ok(())
        }
    }

    /// One attempt of a blocking send of `t`. Without a receiver, `t` comes
    /// back inside the error; without a free slot, `t` comes back to be sent
    /// again. Otherwise `t` is queued and the send is over, except on a
    /// rendezvous channel whose receiver is not waiting yet: the send is then
    /// pending until the receiver takes `t` (see `finish_send`).
    pub fn start_send(&mut self, t: T) -> (r: SendPoll<T, HandoffTicket>)
        requires
            old(self).wf(),
        ensures
            final(self).wf(),
            old(self)@.start_send_outcome(t, r, |k: HandoffTicket| k.seq()),
            final(self)@ == old(self)@.after_start_send(t),
    {
        if !self.receiver_alive {
            SendPoll::Done(Err(SendError(t)))
        } else if !self.has_slot() {
            SendPoll::Wait(t)
        } else {
            let rendezvous = match self.bound {
                Some(n) => n == 0,
                None => false,
            };
            if rendezvous && !self.receiver_waiting {
                if self.handoffs_started < u64::MAX {
                    let seq = self.handoffs_started;
                    self.buf.push(t);
                    self.receiver_waiting = false;
                    self.handoffs_started = seq + 1;
                    self.handoff_queued = true;
                    SendPoll::Pending(HandoffTicket { seq })
                } else {
                    SendPoll::Wait(t)
                }
            } else {
                self.buf.push(t);
                self.receiver_waiting = false;
                SendPoll::Done(Ok(()))
            }
        }
    }

    /// Asks after the hand-off that `ticket` stands for: over with `Ok` once
    /// the receiver took the message, over with the message handed back once
    /// the receiver went away first; otherwise the ticket comes back.
    pub fn finish_send(&mut self, ticket: HandoffTicket) -> (r: HandoffPoll<T, HandoffTicket>)
        requires
            old(self).wf(),
        ensures
            final(self).wf(),
            old(self)@.finish_send_outcome(ticket.seq(), r),
            r matches HandoffPoll::Waiting(k) ==> k == ticket,
            final(self)@ == old(self)@.after_finish_send(ticket.seq()),
    {
        if ticket.seq < self.handoffs_taken {
            HandoffPoll::Done(Ok(()))
        } else if self.canceled.is_some() && ticket.seq as u128 + 1 == self.handoffs_started as u128 {
            match self.canceled.take() {
                Some(t) => HandoffPoll::Done(Err(SendError(t))),
                None => HandoffPoll::Waiting(ticket),
            }
        } else {
            HandoffPoll::Waiting(ticket)
        }
    }

    /// Takes the oldest message, or says why there is none.
    pub fn try_recv(&mut self) -> (r: Result<T, TryRecvError>)
        requires
            old(self).wf(),
        ensures
            final(self).wf(),
            r == old(self)@.try_recv_result(),
            final(self)@ == old(self)@.after_try_recv(),
    {
        match self.buf.pop() {
            PopResult::Data(t) => {
                self.receiver_waiting = false;
                if self.handoff_queued {
                    self.handoffs_taken = self.handoffs_taken + 1;
                    self.handoff_queued = false;
                }
                Ok(t)
            },
            _ => {
                if self.senders == 0 {
                    Err(TryRecvError::Disconnected)
                } else {
                    Err(TryRecvError::Empty)
                }
            },
        }
    }

    /// Registers the receiver as waiting, unless a receive would return
    /// right away.
    pub fn start_selection(&mut self) -> (r: StartResult)
        requires
            old(self).wf(),
        ensures
            final(self).wf(),
            old(self)@.can_recv() ==> r == StartResult::Abort && final(self)@ == old(self)@,
            !old(self)@.can_recv() ==> r == StartResult::Installed
                && final(self)@ == old(self)@.with_waiting(old(self)@.receiver_alive),
    {
        if self.can_recv() {
            StartResult::Abort
        } else {
            self.receiver_waiting = self.receiver_alive;
            StartResult::Installed
        }
    }

    /// Withdraws the receiver's registration as waiting, and says whether a
    /// receive would now return right away.
    pub fn abort_selection(&mut self) -> (b: bool)
        requires
            old(self).wf(),
        ensures
            final(self).wf(),
            b == old(self)@.can_recv(),
            final(self)@ == old(self)@.with_waiting(false),
    {
        self.receiver_waiting = false;
        self.can_recv()
    }

    /// Counts one more sending handle.
    pub fn add_sender(&mut self)
        requires
            old(self).wf(),
        ensures
            final(self).wf(),
            final(self)@ == old(self)@.sender_added(),
    {
        if self.senders < usize::MAX {
            self.senders = self.senders + 1;
        }
    }

    /// Counts one sending handle less.
    pub fn remove_sender(&mut self)
        requires
            old(self).wf(),
        ensures
            final(self).wf(),
            final(self)@ == old(self)@.sender_removed(),
    {
        if self.senders > 0 {
            self.senders = self.senders - 1;
        }
    }

    /// Disconnects the receiver and drops every queued message, except the
    /// message of a hand-off under way, which is kept for its sender.
    pub fn close_receiver(&mut self)
        requires
            old(self).wf(),
        ensures
            final(self).wf(),
            final(self)@ == old(self)@.receiver_closed(),
    {
        if self.handoff_queued {
            if let PopResult::Data(t) = self.buf.pop() {
                self.canceled = Some(t);
            }
        }
        self.buf = Queue::new();
        self.receiver_alive = false;
        self.receiver_waiting = false;
        self.handoff_queued = false;
    }
}

} // verus!
