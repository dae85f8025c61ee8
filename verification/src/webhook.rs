//! What the chat webhook is sent, and how its answer is read.

use vstd::prelude::*;

verus! {

/// An embedded message of the chat webhook.
pub struct Message {
    pub icon_url: String,
    pub description: String,
    pub color: usize,
}

/// Whether an answer with this status means that the webhook took the
/// message: any status below 400.
pub fn is_delivered(status: u16) -> (ok: bool)
    ensures
        ok == (status < 400),
{
    status < 400
}

} // verus!
