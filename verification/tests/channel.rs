use mpsc::{
    channel, recv_poll_from, recv_timeout_poll_from, sync_channel, HandoffPoll, Packet, RecvError,
    RecvTimeoutError, SendError, SendPoll, StartResult, TryRecvError, TrySendError,
};

#[test]
fn messages_arrive_in_send_order() {
    let (tx, rx) = channel();
    for i in 0..5 {
        assert_eq!(tx.send(i), Ok(()));
    }
    for i in 0..5 {
        assert_eq!(rx.try_recv(), Ok(i));
    }
    assert_eq!(rx.try_recv(), Err(TryRecvError::Empty));
}

#[test]
fn queued_messages_come_before_disconnection() {
    let (tx, rx) = channel();
    tx.send(1).unwrap();
    tx.close();
    assert_eq!(rx.try_recv(), Ok(1));
    assert_eq!(rx.try_recv(), Err(TryRecvError::Disconnected));
    assert_eq!(rx.try_recv(), Err(TryRecvError::Disconnected));
}

#[test]
fn send_to_closed_receiver_gives_message_back() {
    let (tx, rx) = channel();
    rx.close();
    assert_eq!(tx.send(5), Err(SendError(5)));
}

#[test]
fn cloned_sender_keeps_channel_connected() {
    let (tx, rx) = channel::<i32>();
    let tx2 = tx.clone();
    tx.close();
    assert_eq!(rx.try_recv(), Err(TryRecvError::Empty));
    tx2.send(3).unwrap();
    assert_eq!(rx.try_recv(), Ok(3));
    tx2.close();
    assert_eq!(rx.try_recv(), Err(TryRecvError::Disconnected));
}

#[test]
fn sync_channel_buffers_its_bound() {
    let (tx, rx) = sync_channel(2);
    assert_eq!(tx.try_send(1), Ok(()));
    assert_eq!(tx.try_send(2), Ok(()));
    assert_eq!(tx.try_send(3), Err(TrySendError::Full(3)));
    assert_eq!(rx.try_recv(), Ok(1));
    assert_eq!(tx.try_send(3), Ok(()));
    assert_eq!(rx.try_recv(), Ok(2));
    assert_eq!(rx.try_recv(), Ok(3));
}

#[test]
fn sync_channel_disconnected_receiver() {
    let (tx, rx) = sync_channel(1);
    rx.close();
    assert_eq!(tx.try_send(4), Err(TrySendError::Disconnected(4)));
    match tx.poll_send(4) {
        SendPoll::Done(r) => assert_eq!(r, Err(SendError(4))),
        _ => panic!(),
    }
}

#[test]
fn poll_send_waits_on_full_buffer() {
    let (tx, rx) = sync_channel(1);
    match tx.poll_send(1) {
        SendPoll::Done(r) => assert_eq!(r, Ok(())),
        _ => panic!(),
    }
    match tx.poll_send(2) {
        SendPoll::Wait(t) => assert_eq!(t, 2),
        _ => panic!(),
    }
    assert_eq!(rx.poll_recv(), Some(Ok(1)));
}

#[test]
fn rendezvous_needs_a_waiting_receiver() {
    let (tx, rx) = sync_channel(0);
    assert_eq!(tx.try_send(7), Err(TrySendError::Full(7)));
    assert_eq!(rx.poll_recv(), None);
    assert_eq!(tx.try_send(7), Ok(()));
    assert_eq!(tx.try_send(8), Err(TrySendError::Full(8)));
    assert_eq!(rx.poll_recv(), Some(Ok(7)));
    assert_eq!(tx.try_send(8), Err(TrySendError::Full(8)));
}

#[test]
fn poll_recv_reports_disconnection() {
    let (tx, rx) = channel::<u8>();
    assert_eq!(rx.poll_recv(), None);
    tx.close();
    assert_eq!(rx.poll_recv(), Some(Err(RecvError)));
}

#[test]
fn poll_recv_deadline_outcomes() {
    let (tx, rx) = channel::<u8>();
    assert_eq!(rx.poll_recv_deadline(false), None);
    assert_eq!(rx.poll_recv_deadline(true), Some(Err(RecvTimeoutError::Timeout)));
    tx.send(9).unwrap();
    assert_eq!(rx.poll_recv_deadline(true), Some(Ok(9)));
    tx.close();
    assert_eq!(rx.poll_recv_deadline(false), Some(Err(RecvTimeoutError::Disconnected)));
}

#[test]
fn selection_registration() {
    let (tx, rx) = channel::<u8>();
    assert!(!rx.can_recv());
    assert_eq!(rx.start_selection(), StartResult::Installed);
    assert!(!rx.abort_selection());
    tx.send(1).unwrap();
    assert!(rx.can_recv());
    assert_eq!(rx.start_selection(), StartResult::Abort);
    assert!(rx.abort_selection());
}

#[test]
fn try_iter_takes_ready_messages() {
    let (tx, rx) = channel();
    tx.send(1).unwrap();
    tx.send(2).unwrap();
    let mut it = rx.try_iter();
    assert_eq!(it.next(), Some(1));
    assert_eq!(it.next(), Some(2));
    assert_eq!(it.next(), None);
}

#[test]
fn iterators_keep_their_receiver() {
    let (tx, rx) = channel();
    tx.send(1).unwrap();
    let it = rx.iter();
    assert_eq!(it.rx().try_recv(), Ok(1));
    let into = rx.into_iter();
    tx.send(2).unwrap();
    assert_eq!(into.rx().try_recv(), Ok(2));
}

#[test]
fn poll_outcome_mappings() {
    assert_eq!(recv_poll_from(Ok(5u8)), Some(Ok(5)));
    assert_eq!(recv_poll_from::<u8>(Err(TryRecvError::Disconnected)), Some(Err(RecvError)));
    assert_eq!(recv_poll_from::<u8>(Err(TryRecvError::Empty)), None);
    assert_eq!(recv_timeout_poll_from(Ok(6u8), true), Some(Ok(6)));
    assert_eq!(
        recv_timeout_poll_from::<u8>(Err(TryRecvError::Disconnected), false),
        Some(Err(RecvTimeoutError::Disconnected))
    );
    assert_eq!(
        recv_timeout_poll_from::<u8>(Err(TryRecvError::Empty), true),
        Some(Err(RecvTimeoutError::Timeout))
    );
    assert_eq!(recv_timeout_poll_from::<u8>(Err(TryRecvError::Empty), false), None);
}

#[test]
fn error_descriptions() {
    assert_eq!(SendError(1).description(), "sending on a closed channel");
    assert_eq!(RecvError.description(), "receiving on a closed channel");
    assert_eq!(TryRecvError::Empty.description(), "receiving on an empty channel");
    assert_eq!(TryRecvError::Disconnected.description(), "receiving on a closed channel");
    assert_eq!(RecvTimeoutError::Timeout.description(), "timed out waiting on channel");
    assert_eq!(
        RecvTimeoutError::Disconnected.description(),
        "channel is empty and sending half is closed"
    );
    assert_eq!(TrySendError::Full(1).description(), "sending on a full channel");
    assert_eq!(TrySendError::Disconnected(1).description(), "sending on a closed channel");
}

#[test]
fn packet_fresh_state() {
    let mut p: Packet<u8> = Packet::new(None);
    assert_eq!(p.bound(), None);
    assert_eq!(p.len(), 0);
    assert!(!p.can_recv());
    assert!(!p.is_full());
    assert_eq!(p.try_recv(), Err(TryRecvError::Empty));
    let r: Packet<u8> = Packet::new(Some(0));
    assert!(r.is_full());
    let b: Packet<u8> = Packet::new(Some(3));
    assert!(!b.is_full());
}

#[test]
fn packet_fifo_and_roundtrip() {
    let mut p = Packet::new(None);
    assert_eq!(p.send(1), Ok(()));
    assert_eq!(p.try_recv(), Ok(1));
    assert_eq!(p.len(), 0);
    for i in 0..4 {
        assert_eq!(p.send(i), Ok(()));
    }
    for i in 0..4 {
        assert_eq!(p.try_recv(), Ok(i));
    }
}

#[test]
fn packet_bounded_buffers_exactly_bound() {
    let mut p = Packet::new(Some(3));
    for i in 0..3 {
        assert_eq!(p.try_send(i), Ok(()));
    }
    assert_eq!(p.try_send(9), Err(TrySendError::Full(9)));
    assert_eq!(p.len(), 3);
}

#[test]
fn packet_async_never_full() {
    let mut p = Packet::new(None);
    for i in 0..100 {
        assert_eq!(p.try_send(i), Ok(()));
    }
    assert_eq!(p.len(), 100);
}

#[test]
fn packet_closed_receiver_refuses() {
    let mut p = Packet::new(Some(2));
    p.try_send(1).unwrap();
    p.close_receiver();
    assert_eq!(p.len(), 0);
    assert_eq!(p.try_send(2), Err(TrySendError::Disconnected(2)));
    p.add_sender();
    assert_eq!(p.try_send(3), Err(TrySendError::Disconnected(3)));
    let mut q = Packet::new(None);
    q.close_receiver();
    assert_eq!(q.send(4), Err(4));
}

#[test]
fn packet_disconnect_only_when_drained() {
    let mut p = Packet::new(None);
    p.send(1).unwrap();
    p.remove_sender();
    assert!(p.can_recv());
    assert_eq!(p.try_recv(), Ok(1));
    assert_eq!(p.try_recv(), Err(TryRecvError::Disconnected));
}

#[test]
fn packet_clone_then_close_sender() {
    let mut p: Packet<u8> = Packet::new(None);
    p.add_sender();
    p.remove_sender();
    assert_eq!(p.try_recv(), Err(TryRecvError::Empty));
    p.remove_sender();
    assert_eq!(p.try_recv(), Err(TryRecvError::Disconnected));
}

#[test]
fn packet_rendezvous() {
    let mut p = Packet::new(Some(0));
    assert_eq!(p.try_send(1), Err(TrySendError::Full(1)));
    assert_eq!(p.start_selection(), StartResult::Installed);
    assert_eq!(p.try_send(1), Ok(()));
    assert_eq!(p.try_send(2), Err(TrySendError::Full(2)));
    assert_eq!(p.try_recv(), Ok(1));
    assert_eq!(p.try_send(2), Err(TrySendError::Full(2)));
    assert_eq!(p.start_selection(), StartResult::Installed);
    assert!(!p.abort_selection());
    assert_eq!(p.try_send(2), Err(TrySendError::Full(2)));
}

#[test]
fn packet_disconnection_is_final() {
    let mut p: Packet<u8> = Packet::new(None);
    p.remove_sender();
    assert_eq!(p.try_recv(), Err(TryRecvError::Disconnected));
    assert_eq!(p.start_selection(), StartResult::Abort);
    assert_eq!(p.try_recv(), Err(TryRecvError::Disconnected));
    p.remove_sender();
    assert_eq!(p.try_recv(), Err(TryRecvError::Disconnected));
}

#[test]
fn rendezvous_send_is_over_only_after_the_receiver_took_it() {
    let (tx, rx) = sync_channel(0);
    let ticket = match tx.poll_send(5) {
        SendPoll::Pending(ticket) => ticket,
        _ => panic!(),
    };
    let ticket = match tx.poll_handoff(ticket) {
        HandoffPoll::Waiting(ticket) => ticket,
        HandoffPoll::Done(_) => panic!(),
    };
    match tx.poll_send(6) {
        SendPoll::Wait(t) => assert_eq!(t, 6),
        _ => panic!(),
    }
    assert_eq!(rx.try_recv(), Ok(5));
    match tx.poll_handoff(ticket) {
        HandoffPoll::Done(r) => assert_eq!(r, Ok(())),
        HandoffPoll::Waiting(_) => panic!(),
    }
    assert_eq!(rx.try_recv(), Err(TryRecvError::Empty));
}

#[test]
fn rendezvous_send_gets_message_back_when_receiver_leaves() {
    let (tx, rx) = sync_channel(0);
    let ticket = match tx.poll_send(8) {
        SendPoll::Pending(ticket) => ticket,
        _ => panic!(),
    };
    rx.close();
    match tx.poll_handoff(ticket) {
        HandoffPoll::Done(r) => assert_eq!(r, Err(SendError(8))),
        HandoffPoll::Waiting(_) => panic!(),
    }
    match tx.poll_send(9) {
        SendPoll::Done(r) => assert_eq!(r, Err(SendError(9))),
        _ => panic!(),
    }
}

#[test]
fn packet_rendezvous_handoff() {
    let mut p = Packet::new(Some(0));
    let ticket = match p.start_send(1) {
        SendPoll::Pending(ticket) => ticket,
        _ => panic!(),
    };
    assert_eq!(p.len(), 1);
    assert!(!p.has_slot());
    let ticket = match p.finish_send(ticket) {
        HandoffPoll::Waiting(ticket) => ticket,
        HandoffPoll::Done(_) => panic!(),
    };
    assert_eq!(p.try_recv(), Ok(1));
    assert!(p.has_slot());
    match p.finish_send(ticket) {
        HandoffPoll::Done(r) => assert_eq!(r, Ok(())),
        HandoffPoll::Waiting(_) => panic!(),
    }
    assert!(p.has_slot());
}

#[test]
fn bounded_blocking_send_is_over_at_once() {
    let mut p = Packet::new(Some(2));
    assert!(matches!(p.start_send(1), SendPoll::Done(Ok(()))));
    assert!(matches!(p.start_send(2), SendPoll::Done(Ok(()))));
    assert!(matches!(p.start_send(3), SendPoll::Wait(3)));
}

#[test]
fn connected_until_every_sender_closed() {
    let (tx, rx) = channel::<u8>();
    let clones: Vec<_> = (0..4).map(|_| tx.clone()).collect();
    tx.close();
    for c in clones {
        assert_eq!(rx.try_recv(), Err(TryRecvError::Empty));
        c.close();
    }
    assert_eq!(rx.try_recv(), Err(TryRecvError::Disconnected));
}

#[test]
fn fifo_over_interleaved_sends_and_receives() {
    let (tx, rx) = channel();
    let tx2 = tx.clone();
    tx.send((0, 1)).unwrap();
    tx2.send((1, 1)).unwrap();
    assert_eq!(rx.try_recv(), Ok((0, 1)));
    tx.send((0, 2)).unwrap();
    tx2.send((1, 2)).unwrap();
    assert_eq!(rx.try_recv(), Ok((1, 1)));
    assert_eq!(rx.try_recv(), Ok((0, 2)));
    assert_eq!(rx.try_recv(), Ok((1, 2)));
    assert_eq!(rx.try_recv(), Err(TryRecvError::Empty));
}

#[test]
fn rendezvous_slot_is_free_once_taken_even_before_the_sender_asks() {
    let mut p = Packet::new(Some(0));
    let ticket = match p.start_send(1) {
        SendPoll::Pending(ticket) => ticket,
        _ => panic!(),
    };
    assert_eq!(p.try_recv(), Ok(1));
    assert_eq!(p.start_selection(), StartResult::Installed);
    assert_eq!(p.try_send(2), Ok(()));
    match p.finish_send(ticket) {
        HandoffPoll::Done(r) => assert_eq!(r, Ok(())),
        HandoffPoll::Waiting(_) => panic!(),
    }
    assert_eq!(p.try_recv(), Ok(2));
}

#[test]
fn rendezvous_send_to_waiting_receiver_is_over_at_once() {
    let (tx, rx) = sync_channel(0);
    assert_eq!(rx.poll_recv(), None);
    match tx.poll_send(3) {
        SendPoll::Done(r) => assert_eq!(r, Ok(())),
        _ => panic!(),
    }
    assert_eq!(rx.poll_recv(), Some(Ok(3)));
}

#[test]
fn selection_round_trip_leaves_channel_as_before() {
    let (tx, rx) = channel();
    assert_eq!(rx.start_selection(), StartResult::Installed);
    assert!(!rx.abort_selection());
    assert_eq!(rx.try_recv(), Err(TryRecvError::Empty));
    tx.send(4).unwrap();
    assert_eq!(rx.try_recv(), Ok(4));
}
