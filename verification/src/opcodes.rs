//! The operation codes of the outbound event envelope.

use vstd::prelude::*;

verus! {

pub type OpCode = usize;

/// The membership statistics of a room have changed.
pub const OP_STATS_UPDATE: OpCode = 0;

/// A chat message.
pub const OP_MESSAGE: OpCode = 5;

/// The stream of a room can be played.
pub const OP_LIVE_READY: OpCode = 2;

} // verus!
