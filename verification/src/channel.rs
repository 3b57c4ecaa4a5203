use crate::error::{RecvError, RecvTimeoutError, SendError, TryRecvError, TrySendError};
use crate::packet::{
    bound_view, ChannelState, HandoffPoll, HandoffTicket, Packet, SendPoll, StartResult,
};
use std::sync::Arc;
use vstd::prelude::*;
use vstd::rwlock::{RwLock, RwLockPredicate};

verus! {

/// What the lock of a channel keeps true of the packet inside it: the packet
/// is in a reachable state and keeps the bound the channel was made with.
pub struct PacketInv {
    pub bound: Option<usize>,
}

impl<T> RwLockPredicate<Packet<T>> for PacketInv {
    open spec fn inv(self, p: Packet<T>) -> bool {
        p.wf() && p@.bound == bound_view(self.bound)
    }
}

/// The shared, locked packet behind the handles of one channel.
pub type Shared<T> = RwLock<Packet<T>, PacketInv>;

/// The sending half of an asynchronous channel. Sends never wait.
pub struct Sender<T> {
    inner: Arc<Shared<T>>,
}

/// The sending half of a synchronous channel, whose buffer is bounded.
pub struct SyncSender<T> {
    inner: Arc<Shared<T>>,
}

/// The receiving half of a channel.
pub struct Receiver<T> {
    inner: Arc<Shared<T>>,
}

/// The ticket of a pending rendezvous send on one channel: it stands for the
/// hand-off of its message and for the channel the send was made on.
pub struct SendTicket<T> {
    ticket: HandoffTicket,
    chan: Ghost<Shared<T>>,
}

impl<T> SendTicket<T> {
    /// The channel the send was made on.
    pub closed spec fn channel(&self) -> Shared<T> {
        self.chan@
    }

    /// The number of the hand-off.
    pub closed spec fn seq(&self) -> nat {
        self.ticket.seq()
    }
}

/// A view of a receiver whose messages are taken by blocking receives.
pub struct Iter<'a, T> {
    rx: &'a Receiver<T>,
}

/// A view of a receiver whose messages are taken by receives that never
/// wait.
pub struct TryIter<'a, T> {
    rx: &'a Receiver<T>,
}

/// A receiver turned into a sequence of messages taken by blocking receives.
pub struct IntoIter<T> {
    rx: Receiver<T>,
}

/// Whether `s` is a state that the lock of a channel with this bound can
/// hold: the state a handle's operation acts on, whatever other handles did
/// before.
pub open spec fn lock_may_hold<T>(s: ChannelState<T>, bound: Option<usize>) -> bool {
    s.wf() && s.bound == bound_view(bound)
}

/// The outcome of a blocking receive, given the result of one attempt that
/// did not wait: `None` means the receiver must wait and try again.
pub open spec fn recv_poll_outcome<T>(r: Result<T, TryRecvError>) -> Option<Result<T, RecvError>> {
    match r {
        Ok(t) => Some(Ok(t)),
        Err(TryRecvError::Disconnected) => Some(Err(RecvError)),
        Err(TryRecvError::Empty) => None,
    }
}

/// The outcome of a receive with a deadline, given the result of one attempt
/// that did not wait and whether the deadline has passed: `None` means the
/// receiver must wait and try again.
pub open spec fn recv_timeout_poll_outcome<T>(r: Result<T, TryRecvError>, deadline_passed: bool) -> Option<
    Result<T, RecvTimeoutError>,
> {
    match r {
        Ok(t) => Some(Ok(t)),
        Err(TryRecvError::Disconnected) => Some(Err(RecvTimeoutError::Disconnected)),
        Err(TryRecvError::Empty) => if deadline_passed {
            Some(Err(RecvTimeoutError::Timeout))
        } else {
            None
        },
    }
}

/// The outcome of a blocking receive, given the result of one attempt that
/// did not wait: `None` means the receiver must wait and try again.
pub fn recv_poll_from<T>(r: Result<T, TryRecvError>) -> (p: Option<Result<T, RecvError>>)
    ensures
        p == recv_poll_outcome(r),
        r matches Ok(t) ==> p == Some(Ok::<T, RecvError>(t)),
        r == Err::<T, TryRecvError>(TryRecvError::Disconnected) ==> p == Some(
            Err::<T, RecvError>(RecvError),
        ),
        r == Err::<T, TryRecvError>(TryRecvError::Empty) ==> p is None,
{
    match r {
        Ok(t) => Some(Ok(t)),
        Err(TryRecvError::Disconnected) => Some(Err(RecvError)),
        Err(TryRecvError::Empty) => None,
    }
}

/// The outcome of a receive with a deadline, given the result of one attempt
/// that did not wait and whether the deadline has passed: `None` means the
/// receiver must wait and try again.
pub fn recv_timeout_poll_from<T>(r: Result<T, TryRecvError>, deadline_passed: bool) -> (p: Option<
    Result<T, RecvTimeoutError>,
>)
    ensures
        p == recv_timeout_poll_outcome(r, deadline_passed),
        r matches Ok(t) ==> p == Some(Ok::<T, RecvTimeoutError>(t)),
        r == Err::<T, TryRecvError>(TryRecvError::Disconnected) ==> p == Some(
            Err::<T, RecvTimeoutError>(RecvTimeoutError::Disconnected),
        ),
        r == Err::<T, TryRecvError>(TryRecvError::Empty) && deadline_passed ==> p == Some(
            Err::<T, RecvTimeoutError>(RecvTimeoutError::Timeout),
        ),
        r == Err::<T, TryRecvError>(TryRecvError::Empty) && !deadline_passed ==> p is None,
{
    match r {
        Ok(t) => Some(Ok(t)),
        Err(TryRecvError::Disconnected) => Some(Err(RecvTimeoutError::Disconnected)),
        Err(TryRecvError::Empty) => if deadline_passed {
            Some(Err(RecvTimeoutError::Timeout))
        } else {
            None
        },
    }
}

/// Creates an asynchronous channel: its buffer has no bound, so sends never
/// wait. Messages are received in the order they were sent.
pub fn channel<T>() -> (r: (Sender<T>, Receiver<T>))
    ensures
        r.0.shared() == r.1.shared(),
        r.0.bound() is None,
        r.1.bound() is None,
{
    let lock = RwLock::new(Packet::new(None), Ghost(PacketInv { bound: None }));
    let shared = Arc::new(lock);
    (Sender { inner: shared.clone() }, Receiver { inner: shared })
}

/// Creates a synchronous channel whose buffer holds `bound` messages; a
/// bound of 0 makes every blocking send a rendezvous with the receiver.
pub fn sync_channel<T>(bound: usize) -> (r: (SyncSender<T>, Receiver<T>))
    ensures
        r.0.shared() == r.1.shared(),
        r.0.bound() == Some(bound),
        r.1.bound() == Some(bound),
{
    let lock = RwLock::new(Packet::new(Some(bound)), Ghost(PacketInv { bound: Some(bound) }));
    let shared = Arc::new(lock);
    (SyncSender { inner: shared.clone() }, Receiver { inner: shared })
}

impl<T> Sender<T> {
    #[verifier::type_invariant]
    spec fn unbounded(self) -> bool {
        (*self.inner).pred().bound is None
    }

    /// The locked packet this handle shares with the others of its channel.
    pub closed spec fn shared(&self) -> Shared<T> {
        *self.inner
    }

    /// The bound of the channel: always `None`.
    pub closed spec fn bound(&self) -> Option<usize> {
        (*self.inner).pred().bound
    }

    /// Sends `t` unless the receiver is gone, in which case `t` comes back
    /// inside the error. Never waits.
    pub fn send(&self, t: T) -> (r: Result<(), SendError<T>>)
        ensures
            r matches Err(e) ==> e.0 == t,
            exists|s: ChannelState<T>|
                #[trigger] lock_may_hold(s, self.bound()) && s.bound is None && (if s.receiver_alive {
                    r is Ok
                } else {
                    r == Err::<(), SendError<T>>(SendError(t))
                }),
    {
        proof {
            use_type_invariant(self);
        }
        let (mut p, handle) = self.inner.acquire_write();
        let ghost s = p@;
        let r = p.send(t);
        handle.release_write(p);
        assert(lock_may_hold(s, self.bound()));
        match r {
            Ok(()) => Ok(()),
            Err(t) => Err(SendError(t)),
        }
    }

    /// Disconnects this sending handle. Once every sender is gone, the
    /// receiver reports disconnection after the queued messages. Dropping a
    /// handle without closing it leaves the channel connected for good.
    pub fn close(self) {
        let (mut p, handle) = self.inner.acquire_write();
        p.remove_sender();
        handle.release_write(p);
    }
}

impl<T> Clone for Sender<T> {
    /// Another sending handle of the same channel.
    fn clone(&self) -> (s: Self)
        ensures
            s.shared() == self.shared(),
    {
        proof {
            use_type_invariant(self);
        }
        let (mut p, handle) = self.inner.acquire_write();
        p.add_sender();
        handle.release_write(p);
        Sender { inner: self.inner.clone() }
    }
}

impl<T> SyncSender<T> {
    #[verifier::type_invariant]
    spec fn bounded(self) -> bool {
        (*self.inner).pred().bound is Some
    }

    /// The locked packet this handle shares with the others of its channel.
    pub closed spec fn shared(&self) -> Shared<T> {
        *self.inner
    }

    /// The bound of the channel.
    pub closed spec fn bound(&self) -> Option<usize> {
        (*self.inner).pred().bound
    }

    /// Sends `t` if the receiver is connected and the buffer has room (for a
    /// rendezvous channel: if the receiver is waiting and no hand-off is
    /// under way). Otherwise `t` comes back inside the error. Never waits.
    pub fn try_send(&self, t: T) -> (r: Result<(), TrySendError<T>>)
        ensures
            r matches Err(TrySendError::Full(u)) ==> u == t,
            r matches Err(TrySendError::Disconnected(u)) ==> u == t,
            exists|s: ChannelState<T>|
                #[trigger] lock_may_hold(s, self.bound()) && r == s.try_send_result(t),
    {
        let (mut p, handle) = self.inner.acquire_write();
        let ghost s = p@;
        let r = p.try_send(t);
        handle.release_write(p);
        assert(lock_may_hold(s, self.bound()));
        r
    }

    /// One attempt of a blocking send: it is over; or the buffer had no room
    /// and the message comes back to be sent again; or, on a rendezvous
    /// channel whose receiver is not waiting yet, the message is queued and
    /// the send is over only once the receiver has taken it (ask with
    /// `poll_handoff`, passing the ticket).
    pub fn poll_send(&self, t: T) -> (r: SendPoll<T, SendTicket<T>>)
        ensures
            r matches SendPoll::Wait(u) ==> u == t,
            r matches SendPoll::Done(Err(e)) ==> e.0 == t,
            r matches SendPoll::Pending(k) ==> k.channel() == self.shared(),
            exists|s: ChannelState<T>|
                #[trigger] lock_may_hold(s, self.bound()) && s.start_send_outcome(
                    t,
                    r,
                    |k: SendTicket<T>| k.seq(),
                ),
    {
        let (mut p, handle) = self.inner.acquire_write();
        let ghost s = p@;
        let r = p.start_send(t);
        handle.release_write(p);
        assert(lock_may_hold(s, self.bound()));
        match r {
            SendPoll::Done(x) => SendPoll::Done(x),
            SendPoll::Wait(u) => SendPoll::Wait(u),
            SendPoll::Pending(k) => {
                let ticket = SendTicket { ticket: k, chan: Ghost(self.shared()) };
                assert(ticket.seq() == k.seq());
                SendPoll::Pending(ticket)
            },
        }
    }

    /// Asks after the rendezvous send that `ticket` stands for: over with
    /// `Ok` once the receiver took the message, over with the message handed
    /// back if the receiver went away first, or not over yet (the ticket
    /// comes back).
    pub fn poll_handoff(&self, ticket: SendTicket<T>) -> (r: HandoffPoll<T, SendTicket<T>>)
        requires
            ticket.channel() == self.shared(),
        ensures
            r matches HandoffPoll::Waiting(k) ==> k == ticket,
            exists|s: ChannelState<T>|
                #[trigger] lock_may_hold(s, self.bound()) && s.finish_send_outcome(
                    ticket.seq(),
                    r,
                ),
    {
        let SendTicket { ticket: k, chan } = ticket;
        let (mut p, handle) = self.inner.acquire_write();
        let ghost s = p@;
        let r = p.finish_send(k);
        handle.release_write(p);
        assert(lock_may_hold(s, self.bound()));
        match r {
            HandoffPoll::Done(x) => HandoffPoll::Done(x),
            HandoffPoll::Waiting(k2) => HandoffPoll::Waiting(SendTicket { ticket: k2, chan }),
        }
    }

    /// Disconnects this sending handle. Dropping a handle without closing it
    /// leaves the channel connected for good.
    pub fn close(self) {
        let (mut p, handle) = self.inner.acquire_write();
        p.remove_sender();
        handle.release_write(p);
    }
}

impl<T> Clone for SyncSender<T> {
    /// Another sending handle of the same channel.
    fn clone(&self) -> (s: Self)
        ensures
            s.shared() == self.shared(),
    {
        proof {
            use_type_invariant(self);
        }
        let (mut p, handle) = self.inner.acquire_write();
        p.add_sender();
        handle.release_write(p);
        SyncSender { inner: self.inner.clone() }
    }
}

impl<T> Receiver<T> {
    /// The locked packet this handle shares with the senders of its channel.
    pub closed spec fn shared(&self) -> Shared<T> {
        *self.inner
    }

    /// The bound of the channel: `None` for an asynchronous one.
    pub closed spec fn bound(&self) -> Option<usize> {
        (*self.inner).pred().bound
    }

    /// Takes the oldest message, or says why there is none. Never waits.
    pub fn try_recv(&self) -> (r: Result<T, TryRecvError>)
        ensures
            exists|s: ChannelState<T>|
                #[trigger] lock_may_hold(s, self.bound()) && r == s.try_recv_result(),
    {
        let (mut p, handle) = self.inner.acquire_write();
        let ghost s = p@;
        let r = p.try_recv();
        handle.release_write(p);
        assert(lock_may_hold(s, self.bound()));
        r
    }

    /// Whether a receive now would return without waiting.
    pub fn can_recv(&self) -> (b: bool)
        ensures
            exists|s: ChannelState<T>|
                #[trigger] lock_may_hold(s, self.bound()) && b == s.can_recv(),
    {
        let (p, handle) = self.inner.acquire_write();
        let ghost s = p@;
        let b = p.can_recv();
        handle.release_write(p);
        assert(lock_may_hold(s, self.bound()));
        b
    }

    /// Registers the receiver as waiting, unless a receive would return
    /// right away.
    pub fn start_selection(&self) -> (r: StartResult)
        ensures
            exists|s: ChannelState<T>|
                #[trigger] lock_may_hold(s, self.bound()) && (r == StartResult::Abort
                    <==> s.can_recv()),
    {
        let (mut p, handle) = self.inner.acquire_write();
        let ghost s = p@;
        let r = p.start_selection();
        handle.release_write(p);
        assert(lock_may_hold(s, self.bound()));
        r
    }

    /// Withdraws the registration as waiting; says whether a receive would
    /// now return right away.
    pub fn abort_selection(&self) -> (b: bool)
        ensures
            exists|s: ChannelState<T>|
                #[trigger] lock_may_hold(s, self.bound()) && b == s.can_recv(),
    {
        let (mut p, handle) = self.inner.acquire_write();
        let ghost s = p@;
        let b = p.abort_selection();
        handle.release_write(p);
        assert(lock_may_hold(s, self.bound()));
        b
    }

    /// One attempt of a blocking receive: a message, the report that every
    /// sender is gone, or `None` with the receiver registered as waiting.
    pub fn poll_recv(&self) -> (r: Option<Result<T, RecvError>>)
        ensures
            exists|s: ChannelState<T>|
                #[trigger] lock_may_hold(s, self.bound()) && r == recv_poll_outcome(
                    s.try_recv_result(),
                ),
    {
        let (mut p, handle) = self.inner.acquire_write();
        let ghost s = p@;
        let r = p.try_recv();
        if let Err(_) = &r {
            let _ = p.start_selection();
        }
        handle.release_write(p);
        assert(lock_may_hold(s, self.bound()));
        recv_poll_from(r)
    }

    /// One attempt of a receive with a deadline: `None` means that nothing
    /// came and the deadline has not passed; the receiver is then
    /// registered as waiting.
    pub fn poll_recv_deadline(&self, deadline_passed: bool) -> (r: Option<
        Result<T, RecvTimeoutError>,
    >)
        ensures
            r == Some(Err::<T, RecvTimeoutError>(RecvTimeoutError::Timeout)) ==> deadline_passed,
            deadline_passed ==> r is Some,
            exists|s: ChannelState<T>|
                #[trigger] lock_may_hold(s, self.bound()) && r == recv_timeout_poll_outcome(
                    s.try_recv_result(),
                    deadline_passed,
                ),
    {
        let (mut p, handle) = self.inner.acquire_write();
        let ghost s = p@;
        let r = p.try_recv();
        if let Err(_) = &r {
            if deadline_passed {
                let _ = p.abort_selection();
            } else {
                let _ = p.start_selection();
            }
        }
        handle.release_write(p);
        assert(lock_may_hold(s, self.bound()));
        recv_timeout_poll_from(r, deadline_passed)
    }

    /// The messages of this receiver, taken by blocking receives.
    pub fn iter(&self) -> (it: Iter<'_, T>)
        ensures
            it.receiver() == *self,
    {
        Iter { rx: self }
    }

    /// The messages that are ready now, taken by receives that never wait.
    pub fn try_iter(&self) -> (it: TryIter<'_, T>)
        ensures
            it.receiver() == *self,
    {
        TryIter { rx: self }
    }

    /// This receiver turned into the sequence of its messages.
    pub fn into_iter(self) -> (it: IntoIter<T>)
        ensures
            it.receiver() == self,
    {
        IntoIter { rx: self }
    }

    /// Disconnects the receiver: queued messages are dropped, and every later
    /// send hands its message back. Dropping the receiver without closing it
    /// leaves the channel connected for good.
    pub fn close(self) {
        let (mut p, handle) = self.inner.acquire_write();
        p.close_receiver();
        handle.release_write(p);
    }
}

impl<'a, T> Iter<'a, T> {
    /// The receiver whose messages this yields.
    pub closed spec fn receiver(&self) -> Receiver<T> {
        *self.rx
    }

    /// The receiver whose messages this yields.
    pub fn rx(&self) -> (r: &'a Receiver<T>)
        ensures
            *r == self.receiver(),
    {
        self.rx
    }
}

impl<'a, T> TryIter<'a, T> {
    /// The receiver whose messages this yields.
    pub closed spec fn receiver(&self) -> Receiver<T> {
        *self.rx
    }

    /// The next message that is ready now; `None` when there is none, or
    /// when every sender is gone.
    pub fn next(&mut self) -> (r: Option<T>)
        ensures
            final(self).receiver() == old(self).receiver(),
            exists|s: ChannelState<T>|
                #[trigger] lock_may_hold(s, old(self).receiver().bound()) && r == (match s.try_recv_result() {
                    Ok(t) => Some(t),
                    Err(_) => None,
                }),
    {
        match self.rx.try_recv() {
            Ok(t) => Some(t),
            Err(_) => None,
        }
    }
}

impl<T> IntoIter<T> {
    /// The receiver whose messages this yields.
    pub closed spec fn receiver(&self) -> Receiver<T> {
        self.rx
    }

    /// The receiver whose messages this yields.
    pub fn rx(&self) -> (r: &Receiver<T>)
        ensures
            *r == self.receiver(),
    {
        &self.rx
    }
}

} // verus!
