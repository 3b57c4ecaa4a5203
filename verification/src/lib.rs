//! Multi-producer, single-consumer FIFO channels, verified with Verus.
mod channel;
mod error;
pub mod laws;
mod packet;
mod queue;

pub use channel::{
    channel, lock_may_hold, recv_poll_from, recv_poll_outcome, recv_timeout_poll_from,
    recv_timeout_poll_outcome, sync_channel, IntoIter, Iter, PacketInv, Receiver, SendTicket, Sender,
    Shared, SyncSender, TryIter,
};
pub use error::{RecvError, RecvTimeoutError, SendError, TryRecvError, TrySendError};
pub use packet::{
    bound_view, capacity, ChannelState, HandoffPoll, HandoffTicket, Packet, SendPoll,
    StartResult,
};
pub use queue::{PopResult, Queue};
