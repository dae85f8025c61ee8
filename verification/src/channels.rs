//! The retry decisions of the waiting ends of a bounded channel, and the
//! turn-taking of a pool of connections.

use vstd::prelude::*;

verus! {

/// The pause between two attempts on a channel, in microseconds.
pub const RETRY_PAUSE_MICROS: u64 = 1;

/// How one attempt to put an item into a bounded channel ended.
#[derive(Clone, Copy, PartialEq, Eq, Structural, Debug)]
pub enum SendAttempt {
    /// The channel took the item.
    Sent,
    /// The channel is full.
    Full,
    /// The other end is gone.
    Disconnected,
}

/// How one attempt to take an item out of a bounded channel ended.
#[derive(Clone, Copy, PartialEq, Eq, Structural, Debug)]
pub enum RecvAttempt {
    /// An item came out.
    Received,
    /// The channel is empty.
    Empty,
    /// The other end is gone.
    Disconnected,
}

/// What a waiting end does after an attempt.
#[derive(Clone, Copy, PartialEq, Eq, Structural, Debug)]
pub enum Retry {
    /// Hand back success.
    Done,
    /// Pause, then try again.
    Again,
    /// Hand back the failure.
    GiveUp,
}

/// What a sender does after an attempt: it is done when the item is in,
/// tries again while the channel is full, and gives up when the receiver
/// is gone.
pub fn after_send(attempt: SendAttempt) -> (next: Retry)
    ensures
        next == match attempt {
            SendAttempt::Sent => Retry::Done,
            SendAttempt::Full => Retry::Again,
            SendAttempt::Disconnected => Retry::GiveUp,
        },
{
    match attempt {
        SendAttempt::Sent => Retry::Done,
        SendAttempt::Full => Retry::Again,
        SendAttempt::Disconnected => Retry::GiveUp,
    }
}

/// What a receiver does after an attempt: it is done when an item came,
/// tries again while the channel is empty, and gives up when the sender
/// is gone.
pub fn after_recv(attempt: RecvAttempt) -> (next: Retry)
    ensures
        next == match attempt {
            RecvAttempt::Received => Retry::Done,
            RecvAttempt::Empty => Retry::Again,
            RecvAttempt::Disconnected => Retry::GiveUp,
        },
{
    match attempt {
        RecvAttempt::Received => Retry::Done,
        RecvAttempt::Empty => Retry::Again,
        RecvAttempt::Disconnected => Retry::GiveUp,
    }
}

/// Whose turn it is in a pool of `len` connections, and whose it is next:
/// the turn goes round, from the last connection back to the first.
pub fn get_next(counter: &mut usize, len: usize) -> (index: usize)
    requires
        len > 0,
        *old(counter) < len,
    ensures
        index == *old(counter),
        *final(counter) == (*old(counter) + 1) % (len as int),
        *final(counter) < len,
{
    let index: usize = *counter;
    if index >= len - 1 {
        *counter = 0;
        assert((index + 1) % (len as int) == 0) by {
            vstd::arithmetic::div_mod::lemma_mod_self_0(len as int);
        }
    } else {
        *counter = index + 1;
        assert((index + 1) % (len as int) == index + 1) by {
            vstd::arithmetic::div_mod::lemma_small_mod((index + 1) as nat, len as nat);
        }
    }
    index
}

} // verus!
