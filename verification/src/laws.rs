use crate::channel::{recv_poll_outcome, recv_timeout_poll_outcome};
use crate::error::{RecvError, RecvTimeoutError, SendError, TryRecvError, TrySendError};
use crate::packet::{ChannelState, HandoffPoll, SendPoll};
use vstd::prelude::*;

verus! {

/// The state after sending every message of `xs`, in order, with sends that
/// never wait.
pub open spec fn send_all<T>(s: ChannelState<T>, xs: Seq<T>) -> ChannelState<T>
    decreases xs.len(),
{
    if xs.len() == 0 {
        s
    } else {
        send_all(s.after_try_send(xs[0]), xs.drop_first())
    }
}

/// The results of `n` receives that never wait, in order.
pub open spec fn recv_results<T>(s: ChannelState<T>, n: nat) -> Seq<Result<T, TryRecvError>>
    decreases n,
{
    if n == 0 {
        Seq::empty()
    } else {
        seq![s.try_recv_result()] + recv_results(s.after_try_recv(), (n - 1) as nat)
    }
}

/// Sends on an asynchronous channel whose receiver is connected append the
/// messages to the queue, in order.
pub proof fn law_async_sends_append<T>(s: ChannelState<T>, xs: Seq<T>)
    requires
        s.bound is None,
        s.receiver_alive,
    ensures
        send_all(s, xs).queue == s.queue + xs,
        send_all(s, xs).senders == s.senders,
        send_all(s, xs).receiver_alive,
        send_all(s, xs).bound is None,
    decreases xs.len(),
{
    if xs.len() == 0 {
        assert(s.queue + xs =~= s.queue);
    } else {
        let s1 = s.after_try_send(xs[0]);
        law_async_sends_append(s1, xs.drop_first());
        assert(s.queue.push(xs[0]) + xs.drop_first() =~= s.queue + xs);
    }
}

/// Receives take the queued messages oldest first.
pub proof fn law_receives_in_queue_order<T>(s: ChannelState<T>, n: nat)
    requires
        n <= s.queue.len(),
    ensures
        recv_results(s, n) == s.queue.take(n as int).map_values(|t: T| Ok::<T, TryRecvError>(t)),
    decreases n,
{
    if n == 0 {
        assert(recv_results(s, n) =~= s.queue.take(n as int).map_values(
            |t: T| Ok::<T, TryRecvError>(t),
        ));
    } else {
        let s1 = s.after_try_recv();
        law_receives_in_queue_order(s1, (n - 1) as nat);
        assert(s1.queue == s.queue.drop_first());
        assert(recv_results(s, n) =~= s.queue.take(n as int).map_values(
            |t: T| Ok::<T, TryRecvError>(t),
        ));
    }
}

/// Messages are received in the order they were sent: on an empty
/// asynchronous channel, sending `xs` and then receiving as many messages
/// gives back `xs`, in order.
pub proof fn law_fifo<T>(s: ChannelState<T>, xs: Seq<T>)
    requires
        s.bound is None,
        s.receiver_alive,
        s.queue.len() == 0,
    ensures
        recv_results(send_all(s, xs), xs.len()) == xs.map_values(|t: T| Ok::<T, TryRecvError>(t)),
{
    law_async_sends_append(s, xs);
    let s1 = send_all(s, xs);
    assert(s1.queue =~= xs);
    law_receives_in_queue_order(s1, xs.len());
    assert(s1.queue.take(xs.len() as int) =~= xs);
}

/// A message sent into an empty channel with room is the next one received,
/// and receiving it leaves the queue empty again.
pub proof fn law_send_then_recv<T>(s: ChannelState<T>, t: T)
    requires
        s.receiver_alive,
        !s.is_full(),
        s.queue.len() == 0,
    ensures
        s.try_send_result(t) == Ok::<(), TrySendError<T>>(()),
        s.after_try_send(t).try_recv_result() == Ok::<T, TryRecvError>(t),
        s.after_try_send(t).after_try_recv().queue == s.queue,
{
    assert(s.after_try_send(t).queue =~= seq![t]);
    assert(s.after_try_send(t).after_try_recv().queue =~= s.queue);
}

/// Every operation keeps a channel in a reachable state: in particular a
/// synchronous channel never holds more messages than its capacity.
pub proof fn law_operations_keep_wf<T>(s: ChannelState<T>, t: T, w: bool, seq: nat)
    requires
        s.wf(),
    ensures
        s.after_try_send(t).wf(),
        s.after_try_recv().wf(),
        s.sender_added().wf(),
        s.sender_removed().wf(),
        s.receiver_closed().wf(),
        s.after_start_send(t).wf(),
        s.after_finish_send(seq).wf(),
        s.receiver_alive ==> s.with_waiting(w).wf(),
        !s.receiver_alive ==> s.with_waiting(false).wf(),
{
}

/// Messages already queued are received before disconnection is reported:
/// a receive reports `Disconnected` only on an empty channel with no sender.
pub proof fn law_disconnect_only_when_drained<T>(s: ChannelState<T>)
    ensures
        s.try_recv_result() == Err::<T, TryRecvError>(TryRecvError::Disconnected) <==> (
        s.queue.len() == 0 && s.senders == 0),
        s.try_recv_result() == Err::<T, TryRecvError>(TryRecvError::Empty) <==> (s.queue.len()
            == 0 && s.senders > 0),
{
}

/// Disconnection is final: once the channel is empty and every sender is
/// gone, receives keep reporting `Disconnected`, whether or not the receiver
/// registers as waiting, and leave the channel as it was.
pub proof fn law_disconnection_is_final<T>(s: ChannelState<T>, w: bool)
    requires
        s.senders == 0,
        s.queue.len() == 0,
    ensures
        s.try_recv_result() == Err::<T, TryRecvError>(TryRecvError::Disconnected),
        s.after_try_recv() == s,
        s.with_waiting(w).try_recv_result() == Err::<T, TryRecvError>(TryRecvError::Disconnected),
        s.sender_removed() == s,
        s.can_recv(),
{
}

/// Once the receiver is closed, every send hands its message back as
/// `Disconnected` and leaves the channel as it was, whatever the senders do.
pub proof fn law_closed_receiver_refuses<T>(s: ChannelState<T>, t: T)
    ensures
        s.receiver_closed().try_send_result(t) == Err::<(), TrySendError<T>>(
            TrySendError::Disconnected(t),
        ),
        s.receiver_closed().after_try_send(t) == s.receiver_closed(),
        !s.receiver_closed().sender_added().receiver_alive,
        !s.receiver_closed().sender_removed().receiver_alive,
{
}

/// An asynchronous channel never reports that it is full.
pub proof fn law_async_never_full<T>(s: ChannelState<T>, t: T)
    requires
        s.bound is None,
        s.receiver_alive,
    ensures
        s.try_send_result(t) == Ok::<(), TrySendError<T>>(()),
{
}

/// A synchronous channel with bound `n > 0` accepts a message exactly while
/// it holds fewer than `n`.
pub proof fn law_bounded_room<T>(s: ChannelState<T>, n: nat, t: T)
    requires
        s.bound == Some(n),
        n > 0,
        s.receiver_alive,
    ensures
        s.try_send_result(t) is Ok <==> s.queue.len() < n,
        s.try_send_result(t) == Err::<(), TrySendError<T>>(TrySendError::Full(t)) <==> s.queue.len()
            >= n,
{
}

/// On a synchronous channel with bound `n > 0`, `n` messages sent into the
/// empty buffer are all accepted, and the next one finds it full.
pub proof fn law_bounded_buffers_exactly_bound<T>(s: ChannelState<T>, n: nat, xs: Seq<T>, t: T)
    requires
        s.bound == Some(n),
        n > 0,
        s.receiver_alive,
        s.queue.len() == 0,
        xs.len() == n,
    ensures
        send_all(s, xs).queue == xs,
        send_all(s, xs).try_send_result(t) == Err::<(), TrySendError<T>>(TrySendError::Full(t)),
{
    lemma_bounded_sends_fill(s, n, xs);
    assert(s.queue + xs =~= xs);
}

/// Sends that fit in the buffer of a synchronous channel are all accepted,
/// in order.
pub proof fn lemma_bounded_sends_fill<T>(s: ChannelState<T>, n: nat, xs: Seq<T>)
    requires
        s.bound == Some(n),
        n > 0,
        s.receiver_alive,
        s.queue.len() + xs.len() <= n,
    ensures
        send_all(s, xs).queue == s.queue + xs,
        send_all(s, xs).receiver_alive,
        send_all(s, xs).bound == Some(n),
    decreases xs.len(),
{
    if xs.len() == 0 {
        assert(s.queue + xs =~= s.queue);
    } else {
        let s1 = s.after_try_send(xs[0]);
        lemma_bounded_sends_fill(s1, n, xs.drop_first());
        assert(s.queue.push(xs[0]) + xs.drop_first() =~= s.queue + xs);
    }
}

/// A send that never waits succeeds on a rendezvous channel (bound 0)
/// exactly while the receiver waits and the slot is empty, whether or not
/// the sender of an earlier hand-off has learnt that it ended; the message
/// then fills the slot until the receiver takes it.
pub proof fn law_rendezvous<T>(s: ChannelState<T>, t: T, u: T)
    requires
        s.bound == Some(0nat),
        s.receiver_alive,
    ensures
        s.try_send_result(t) is Ok <==> (s.receiver_waiting && s.queue.len() == 0),
        s.try_send_result(t) is Ok ==> s.after_try_send(t).try_send_result(u) == Err::<
            (),
            TrySendError<T>,
        >(TrySendError::Full(u)),
{
}

/// A blocking send to a rendezvous channel whose receiver already waits is
/// over at once: the message is queued for the receiver, which takes it
/// next.
pub proof fn law_rendezvous_to_waiting_receiver<T, K>(
    s: ChannelState<T>,
    t: T,
    r: SendPoll<T, K>,
    seq: spec_fn(K) -> nat,
)
    requires
        s.wf(),
        s.bound == Some(0nat),
        s.receiver_alive,
        s.receiver_waiting,
        s.queue.len() == 0,
    ensures
        s.start_send_outcome(t, r, seq) <==> r == SendPoll::<T, K>::Done(Ok(())),
        s.after_start_send(t).try_recv_result() == Ok::<T, TryRecvError>(t),
{
}

/// A blocking send to a rendezvous channel whose receiver does not wait yet
/// is over only once the receiver has taken the message. The message is
/// queued (a receive sees it) and the send is pending: asking after it
/// reports `Waiting` until a receive took the message, then `Ok`; if the
/// receiver goes away first, the message comes back. Nothing a sender or the
/// receiver does without taking the message ends the send; and once the
/// message is taken the slot is free again for other senders, whether or not
/// the first sender has asked yet.
pub proof fn law_rendezvous_handoff<T, K>(
    s: ChannelState<T>,
    t: T,
    u: T,
    w: bool,
    r: HandoffPoll<T, K>,
    p: SendPoll<T, K>,
    seqf: spec_fn(K) -> nat,
)
    requires
        s.wf(),
        s.bound == Some(0nat),
        s.receiver_alive,
        !s.receiver_waiting,
        s.queue.len() == 0,
        s.handoffs_started < u64::MAX,
    ensures
        s.start_send_outcome(t, p, seqf) <==> (p matches SendPoll::Pending(k) && seqf(k)
            == s.handoffs_started),
        ({
            let seq = s.handoffs_started;
            let s1 = s.after_start_send(t);
            let s2 = s1.after_try_recv();
            let s3 = s1.receiver_closed();
            &&& s1.wf()
            &&& s1.queue == seq![t]
            &&& (s1.finish_send_outcome(seq, r) <==> r is Waiting)
            &&& s1.after_finish_send(seq) == s1
            &&& (s1.with_waiting(w).finish_send_outcome(seq, r) <==> r is Waiting)
            &&& (s1.sender_added().finish_send_outcome(seq, r) <==> r is Waiting)
            &&& (s1.sender_removed().finish_send_outcome(seq, r) <==> r is Waiting)
            &&& s1.try_send_result(u) == Err::<(), TrySendError<T>>(TrySendError::Full(u))
            &&& !s1.has_slot()
            &&& s1.try_recv_result() == Ok::<T, TryRecvError>(t)
            &&& (s2.finish_send_outcome(seq, r) <==> r == HandoffPoll::<T, K>::Done(Ok(())))
            &&& s2.has_slot()
            &&& s2.with_waiting(true).try_send_result(u) == Ok::<(), TrySendError<T>>(())
            &&& (s3.finish_send_outcome(seq, r) <==> r == HandoffPoll::<T, K>::Done(
                Err(SendError(t)),
            ))
            &&& s3.after_finish_send(seq).canceled is None
        }),
{
    let s1 = s.after_start_send(t);
    assert(s1.queue =~= seq![t]);
}

/// Registering as waiting and withdrawing on an empty channel with a
/// sender leaves it as before, apart from the flag: a receive still finds
/// it empty, and the next message a blocking send queues is the next one
/// received.
pub proof fn law_selection_round_trip<T>(s: ChannelState<T>, v: T)
    requires
        s.wf(),
        s.receiver_alive,
        !s.receiver_waiting,
        s.queue.len() == 0,
        s.senders > 0,
        s.handoffs_started < u64::MAX,
    ensures
        !s.can_recv(),
        s.with_waiting(true).with_waiting(false) == s,
        !s.with_waiting(true).can_recv(),
        s.try_recv_result() == Err::<T, TryRecvError>(TryRecvError::Empty),
        s.start_send_queues(),
        s.after_start_send(v).try_recv_result() == Ok::<T, TryRecvError>(v),
{
}

/// Making a sending handle and closing it again leaves the channel as it was.
pub proof fn law_clone_then_close_sender<T>(s: ChannelState<T>)
    requires
        s.senders < usize::MAX,
    ensures
        s.sender_added().sender_removed() == s,
{
}

/// A fresh channel is in a reachable state and reports `Empty` to a
/// receive; it is full from the start only when it is a rendezvous channel,
/// since no receiver waits yet.
pub proof fn law_fresh_channel<T>(bound: Option<nat>)
    ensures
        ChannelState::<T>::fresh(bound).wf(),
        ChannelState::<T>::fresh(bound).try_recv_result() == Err::<T, TryRecvError>(
            TryRecvError::Empty,
        ),
        ChannelState::<T>::fresh(bound).is_full() <==> bound == Some(0nat),
{
}

/// The state after `n` more sending handles were made.
pub open spec fn add_senders<T>(s: ChannelState<T>, n: nat) -> ChannelState<T>
    decreases n,
{
    if n == 0 {
        s
    } else {
        add_senders(s.sender_added(), (n - 1) as nat)
    }
}

/// The state after `n` sending handles were closed.
pub open spec fn remove_senders<T>(s: ChannelState<T>, n: nat) -> ChannelState<T>
    decreases n,
{
    if n == 0 {
        s
    } else {
        remove_senders(s.sender_removed(), (n - 1) as nat)
    }
}

/// Making `n` sending handles counts `n` more senders and changes nothing
/// else.
pub proof fn lemma_add_senders<T>(s: ChannelState<T>, n: nat)
    requires
        s.senders + n <= usize::MAX,
    ensures
        add_senders(s, n) == (ChannelState { senders: s.senders + n, ..s }),
    decreases n,
{
    if n > 0 {
        lemma_add_senders(s.sender_added(), (n - 1) as nat);
    }
}

/// Closing `m` sending handles counts `m` fewer senders and changes nothing
/// else.
pub proof fn lemma_remove_senders<T>(s: ChannelState<T>, m: nat)
    requires
        m <= s.senders,
    ensures
        remove_senders(s, m) == (ChannelState { senders: (s.senders - m) as nat, ..s }),
    decreases m,
{
    if m > 0 {
        lemma_remove_senders(s.sender_removed(), (m - 1) as nat);
    }
}

/// A channel stays connected while any of its sending handles lives: from
/// one sender, after `n` clones and `m` closes, an empty channel reports
/// `Empty` while `m <= n`, and `Disconnected` once all `n + 1` handles are
/// closed.
pub proof fn law_connected_until_every_sender_closed<T>(s: ChannelState<T>, n: nat, m: nat)
    requires
        s.senders == 1,
        s.queue.len() == 0,
        n < usize::MAX,
        m <= n + 1,
    ensures
        remove_senders(add_senders(s, n), m).senders == n + 1 - m,
        m <= n ==> remove_senders(add_senders(s, n), m).try_recv_result() == Err::<
            T,
            TryRecvError,
        >(TryRecvError::Empty),
        m == n + 1 ==> remove_senders(add_senders(s, n), m).try_recv_result() == Err::<
            T,
            TryRecvError,
        >(TryRecvError::Disconnected),
{
    lemma_add_senders(s, n);
    lemma_remove_senders(add_senders(s, n), m);
}

/// Only making and closing sending handles changes the sender count.
pub proof fn law_only_handles_change_sender_count<T>(s: ChannelState<T>, t: T, w: bool, seq: nat)
    ensures
        s.after_try_send(t).senders == s.senders,
        s.after_start_send(t).senders == s.senders,
        s.after_finish_send(seq).senders == s.senders,
        s.after_try_recv().senders == s.senders,
        s.with_waiting(w).senders == s.senders,
        s.receiver_closed().senders == s.senders,
{
}

/// One operation on a channel whose receiver stays connected, by any of its
/// handles.
pub enum Step<T> {
    /// A send that never waits (`Sender::send`, `SyncSender::try_send`).
    TrySend(T),
    /// One attempt of a blocking send (`SyncSender::poll_send`).
    StartSend(T),
    /// The sender of hand-off `seq` asking after it
    /// (`SyncSender::poll_handoff`).
    FinishSend(nat),
    /// A receive that never waits (`Receiver::try_recv`, and the attempts of
    /// blocking receives).
    Recv,
    /// The receiver registering as waiting, or withdrawing.
    Wait(bool),
    /// A sending handle made.
    AddSender,
    /// A sending handle closed.
    RemoveSender,
}

/// The state after one step.
pub open spec fn step<T>(s: ChannelState<T>, op: Step<T>) -> ChannelState<T> {
    match op {
        Step::TrySend(t) => s.after_try_send(t),
        Step::StartSend(t) => s.after_start_send(t),
        Step::FinishSend(seq) => s.after_finish_send(seq),
        Step::Recv => s.after_try_recv(),
        Step::Wait(w) => s.with_waiting(w),
        Step::AddSender => s.sender_added(),
        Step::RemoveSender => s.sender_removed(),
    }
}

/// The message that one step queued, if it queued one.
pub open spec fn step_sent<T>(s: ChannelState<T>, op: Step<T>) -> Seq<T> {
    match op {
        Step::TrySend(t) => if s.try_send_result(t) is Ok {
            seq![t]
        } else {
            Seq::empty()
        },
        Step::StartSend(t) => if s.start_send_queues() {
            seq![t]
        } else {
            Seq::empty()
        },
        _ => Seq::empty(),
    }
}

/// The message that one step received, if it received one.
pub open spec fn step_received<T>(s: ChannelState<T>, op: Step<T>) -> Seq<T> {
    match op {
        Step::Recv => match s.try_recv_result() {
            Ok(t) => seq![t],
            Err(_) => Seq::empty(),
        },
        _ => Seq::empty(),
    }
}

/// The state after a run of steps.
pub open spec fn run<T>(s: ChannelState<T>, ops: Seq<Step<T>>) -> ChannelState<T>
    decreases ops.len(),
{
    if ops.len() == 0 {
        s
    } else {
        run(step(s, ops[0]), ops.drop_first())
    }
}

/// The messages that a run of steps queued, in order.
pub open spec fn run_sent<T>(s: ChannelState<T>, ops: Seq<Step<T>>) -> Seq<T>
    decreases ops.len(),
{
    if ops.len() == 0 {
        Seq::empty()
    } else {
        step_sent(s, ops[0]) + run_sent(step(s, ops[0]), ops.drop_first())
    }
}

/// The messages that a run of steps received, in order.
pub open spec fn run_received<T>(s: ChannelState<T>, ops: Seq<Step<T>>) -> Seq<T>
    decreases ops.len(),
{
    if ops.len() == 0 {
        Seq::empty()
    } else {
        step_received(s, ops[0]) + run_received(step(s, ops[0]), ops.drop_first())
    }
}

/// FIFO delivery over any interleaving of sends, receives and handle
/// changes: what was queued before, followed by every message accepted
/// since, equals what was received, followed by what is still queued. No
/// message is lost, duplicated, reordered or invented.
pub proof fn law_fifo_interleaved<T>(s: ChannelState<T>, ops: Seq<Step<T>>)
    requires
        s.wf(),
        s.receiver_alive,
    ensures
        s.queue + run_sent(s, ops) == run_received(s, ops) + run(s, ops).queue,
        run(s, ops).receiver_alive,
        run(s, ops).wf(),
    decreases ops.len(),
{
    if ops.len() > 0 {
        let op = ops[0];
        let s1 = step(s, op);
        law_fifo_interleaved(s1, ops.drop_first());
        assert(s.queue + step_sent(s, op) == step_received(s, op) + s1.queue) by {
            match op {
                Step::Recv => {
                    if s.queue.len() > 0 {
                        assert(s.queue =~= seq![s.queue[0]] + s.queue.drop_first());
                    }
                },
                _ => {},
            }
        }
        assert(s.queue + run_sent(s, ops) =~= (s.queue + step_sent(s, op)) + run_sent(
            s1,
            ops.drop_first(),
        ));
        assert(run_received(s, ops) + run(s, ops).queue =~= step_received(s, op) + (
        run_received(s1, ops.drop_first()) + run(s1, ops.drop_first()).queue));
    }
}

/// Messages are received in the order they were accepted, also per sending
/// handle: for any selection `f` of messages (for instance those tagged with
/// one handle's name), the selected received messages are a prefix of the
/// selected accepted ones.
pub proof fn law_fifo_per_sender<T>(s: ChannelState<T>, ops: Seq<Step<T>>, f: spec_fn(T) -> bool)
    requires
        s.wf(),
        s.receiver_alive,
    ensures
        run_received(s, ops).filter(f).is_prefix_of((s.queue + run_sent(s, ops)).filter(f)),
        run_received(s, ops).is_prefix_of(s.queue + run_sent(s, ops)),
{
    law_fifo_interleaved(s, ops);
    let a = run_received(s, ops);
    let b = run(s, ops).queue;
    Seq::filter_distributes_over_add(a, b, f);
    assert(a.filter(f) =~= (a.filter(f) + b.filter(f)).subrange(0, a.filter(f).len() as int));
    assert(a =~= (a + b).subrange(0, a.len() as int));
}

/// An attempt of a receive that got a message ends the receive with that
/// very message, whatever the deadline: a received message is never
/// discarded or held back. Only an empty channel makes the outcome depend on
/// the deadline: it is `Timeout` exactly when the deadline has passed, and
/// "try again" otherwise; a channel without senders ends the receive with
/// `Disconnected` whatever the deadline.
pub proof fn law_receive_attempt_outcomes<T>(r: Result<T, TryRecvError>, d1: bool, d2: bool)
    ensures
        r matches Ok(t) ==> recv_timeout_poll_outcome(r, d1) == Some(Ok::<T, RecvTimeoutError>(t))
            && recv_poll_outcome(r) == Some(Ok::<T, RecvError>(t)),
        r != Err::<T, TryRecvError>(TryRecvError::Empty) ==> recv_timeout_poll_outcome(r, d1)
            == recv_timeout_poll_outcome(r, d2),
        r != Err::<T, TryRecvError>(TryRecvError::Empty) ==> recv_timeout_poll_outcome(r, d1)
            is Some && recv_poll_outcome(r) is Some,
        recv_timeout_poll_outcome(r, d1) is None <==> (r == Err::<T, TryRecvError>(
            TryRecvError::Empty) && !d1),
        recv_poll_outcome(r) is None <==> r == Err::<T, TryRecvError>(TryRecvError::Empty),
        recv_timeout_poll_outcome(r, d1) == Some(Err::<T, RecvTimeoutError>(
            RecvTimeoutError::Timeout,
        )) <==> (r == Err::<T, TryRecvError>(TryRecvError::Empty) && d1),
        recv_timeout_poll_outcome(r, d1) == Some(Err::<T, RecvTimeoutError>(
            RecvTimeoutError::Disconnected,
        )) <==> r == Err::<T, TryRecvError>(TryRecvError::Disconnected),
        recv_poll_outcome(r) == Some(Err::<T, RecvError>(RecvError)) <==> r == Err::<
            T,
            TryRecvError,
        >(TryRecvError::Disconnected),
{
}

} // verus!
