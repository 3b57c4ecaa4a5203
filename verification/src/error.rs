use vstd::prelude::*;

verus! {

/// The value handed back by a send on a channel whose receiver is gone.
#[derive(PartialEq, Eq, Clone, Copy, Debug)]
pub struct SendError<T>(pub T);

/// The answer to a blocking receive on a channel that is empty and whose
/// senders are all gone.
#[derive(PartialEq, Eq, Clone, Copy, Debug)]
pub struct RecvError;

/// Why `try_recv` returned no message.
#[derive(PartialEq, Eq, Clone, Copy, Debug)]
pub enum TryRecvError {
    /// The channel is empty, but a sender is still connected, so a message may
    /// still arrive.
    Empty,
    /// The channel is empty and every sender is gone: no message will ever
    /// arrive.
    Disconnected,
}

/// Why `recv_timeout` returned no message.
#[derive(PartialEq, Eq, Clone, Copy, Debug)]
pub enum RecvTimeoutError {
    /// No message arrived before the deadline, though a sender is connected.
    Timeout,
    /// The channel is empty and every sender is gone.
    Disconnected,
}

/// Why `try_send` did not deliver its message; the message comes back.
#[derive(PartialEq, Eq, Clone, Copy, Debug)]
pub enum TrySendError<T> {
    /// The buffer of the bounded channel has no room for the message.
    Full(T),
    /// The receiver is gone.
    Disconnected(T),
}

impl<T> SendError<T> {
    /// The human-readable explanation of this error.
    pub fn description(&self) -> (s: &'static str)
        ensures
            s@ == "sending on a closed channel"@,
    {
        "sending on a closed channel"
    }
}

impl RecvError {
    /// The human-readable explanation of this error.
    pub fn description(&self) -> (s: &'static str)
        ensures
            s@ == "receiving on a closed channel"@,
    {
        "receiving on a closed channel"
    }
}

impl TryRecvError {
    /// The human-readable explanation of this error.
    pub fn description(&self) -> (s: &'static str)
        ensures
            *self is Empty ==> s@ == "receiving on an empty channel"@,
            *self is Disconnected ==> s@ == "receiving on a closed channel"@,
    {
        match self {
            TryRecvError::Empty => "receiving on an empty channel",
            TryRecvError::Disconnected => "receiving on a closed channel",
        }
    }
}

impl RecvTimeoutError {
    /// The human-readable explanation of this error.
    pub fn description(&self) -> (s: &'static str)
        ensures
            *self is Timeout ==> s@ == "timed out waiting on channel"@,
            *self is Disconnected ==> s@ == "channel is empty and sending half is closed"@,
    {
        match self {
            RecvTimeoutError::Timeout => "timed out waiting on channel",
            RecvTimeoutError::Disconnected => "channel is empty and sending half is closed",
        }
    }
}

impl<T> TrySendError<T> {
    /// The human-readable explanation of this error.
    pub fn description(&self) -> (s: &'static str)
        ensures
            *self is Full ==> s@ == "sending on a full channel"@,
            *self is Disconnected ==> s@ == "sending on a closed channel"@,
    {
        match self {
            TrySendError::Full(..) => "sending on a full channel",
            TrySendError::Disconnected(..) => "sending on a closed channel",
        }
    }
}

} // verus!
