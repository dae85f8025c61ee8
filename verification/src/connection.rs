//! The life of one client connection: what each thing that happens on the
//! socket does to the connection's state, and what the handler does then.

use vstd::prelude::*;
use vstd::string::*;

verus! {

/// The seconds between two pings, and within which a client answers one.
pub const HEARTBEAT_INTERVAL: u64 = 5;

/// Where a connection stands.
#[derive(Clone, Copy, PartialEq, Eq, Structural, Debug)]
pub enum ConnState {
    /// The socket is open and the client has not joined yet.
    Connecting,
    /// The client has joined and is served.
    Joined,
    /// Nothing is forwarded any more; what is buffered is flushed.
    Draining,
    /// The transport is closed.
    Closed,
}

/// A frame that a client sent.
pub enum Frame {
    /// A text frame.
    Text(String),
    /// A pong frame.
    Pong,
    /// Any other frame.
    Other,
}

/// What can happen to a connection.
pub enum ConnEvent {
    /// The room exists and the client may join it.
    Admitted,
    /// There is no such room, or the client may not join it.
    Refused,
    /// The client sent a frame.
    Received(Frame),
    /// What the client sent cannot be read.
    ReadFailed,
    /// The client let a heartbeat pass.
    HeartbeatMissed,
    /// The client's sink took no event.
    SinkFailed,
    /// What was buffered is flushed and the transport is closed.
    Flushed,
}

/// What the handler does after an event.
#[derive(Clone, Copy, PartialEq, Eq, Structural, Debug)]
pub enum ConnAction {
    /// Nothing.
    Wait,
    /// Close the socket at once; the client never joined.
    Reject,
    /// Join the room, then start the reader and the writer.
    Serve,
    /// Stop forwarding, flush what is buffered, then close the transport.
    Drain,
    /// Leave the room.
    Leave,
}

/// Whether a frame is a heartbeat: a pong, or the text "ping".
pub open spec fn is_heartbeat(frame: Frame) -> bool {
    match frame {
        Frame::Pong => true,
        Frame::Text(text) => text@ == "ping"@,
        Frame::Other => false,
    }
}

/// Whether an event ends the service of a client that has joined: any
/// frame that is no heartbeat, a read that failed, a heartbeat that was
/// missed, a sink that failed.
pub open spec fn ends_service(event: ConnEvent) -> bool {
    match event {
        ConnEvent::Received(frame) => !is_heartbeat(frame),
        ConnEvent::ReadFailed => true,
        ConnEvent::HeartbeatMissed => true,
        ConnEvent::SinkFailed => true,
        _ => false,
    }
}

/// The state after an event.
pub open spec fn next_state(state: ConnState, event: ConnEvent) -> ConnState {
    match state {
        ConnState::Connecting => match event {
            ConnEvent::Admitted => ConnState::Joined,
            ConnEvent::Refused => ConnState::Closed,
            _ => ConnState::Connecting,
        },
        ConnState::Joined => if ends_service(event) {
            ConnState::Draining
        } else {
            ConnState::Joined
        },
        ConnState::Draining => match event {
            ConnEvent::Flushed => ConnState::Closed,
            _ => ConnState::Draining,
        },
        ConnState::Closed => ConnState::Closed,
    }
}

/// What the handler does after an event.
pub open spec fn action_for(state: ConnState, event: ConnEvent) -> ConnAction {
    match state {
        ConnState::Connecting => match event {
            ConnEvent::Admitted => ConnAction::Serve,
            ConnEvent::Refused => ConnAction::Reject,
            _ => ConnAction::Wait,
        },
        ConnState::Joined => if ends_service(event) {
            ConnAction::Drain
        } else {
            ConnAction::Wait
        },
        ConnState::Draining => match event {
            ConnEvent::Flushed => ConnAction::Leave,
            _ => ConnAction::Wait,
        },
        ConnState::Closed => ConnAction::Wait,
    }
}

/// How often the handler joins over a run of events.
pub open spec fn joins_in(state: ConnState, events: Seq<ConnEvent>) -> nat
    decreases events.len(),
{
    if events.len() == 0 {
        0
    } else {
        let once: nat = if action_for(state, events[0]) == ConnAction::Serve {
            1
        } else {
            0
        };
        once + joins_in(next_state(state, events[0]), events.drop_first())
    }
}

/// How often the handler leaves over a run of events.
pub open spec fn leaves_in(state: ConnState, events: Seq<ConnEvent>) -> nat
    decreases events.len(),
{
    if events.len() == 0 {
        0
    } else {
        let once: nat = if action_for(state, events[0]) == ConnAction::Leave {
            1
        } else {
            0
        };
        once + leaves_in(next_state(state, events[0]), events.drop_first())
    }
}

/// The state after a run of events.
pub open spec fn state_after(state: ConnState, events: Seq<ConnEvent>) -> ConnState
    decreases events.len(),
{
    if events.len() == 0 {
        state
    } else {
        state_after(next_state(state, events[0]), events.drop_first())
    }
}

/// Whether a frame is a heartbeat.
pub fn frame_is_heartbeat(frame: &Frame) -> (yes: bool)
    ensures
        yes == is_heartbeat(*frame),
{
    match frame {
        Frame::Pong => true,
        Frame::Text(text) => {
            let ping = String::from_str("ping");
            *text == ping
        },
        Frame::Other => false,
    }
}

/// Takes a connection from one state to the next and says what the
/// handler does.
pub fn step(state: ConnState, event: &ConnEvent) -> (res: (ConnState, ConnAction))
    ensures
        res.0 == next_state(state, *event),
        res.1 == action_for(state, *event),
{
    match state {
        ConnState::Connecting => match event {
            ConnEvent::Admitted => (ConnState::Joined, ConnAction::Serve),
            ConnEvent::Refused => (ConnState::Closed, ConnAction::Reject),
            _ => (ConnState::Connecting, ConnAction::Wait),
        },
        ConnState::Joined => {
            let ends = match event {
                ConnEvent::Received(frame) => !frame_is_heartbeat(frame),
                ConnEvent::ReadFailed => true,
                ConnEvent::HeartbeatMissed => true,
                ConnEvent::SinkFailed => true,
                _ => false,
            };
            if ends {
                (ConnState::Draining, ConnAction::Drain)
            } else {
                (ConnState::Joined, ConnAction::Wait)
            }
        },
        ConnState::Draining => match event {
            ConnEvent::Flushed => (ConnState::Closed, ConnAction::Leave),
            _ => (ConnState::Draining, ConnAction::Wait),
        },
        ConnState::Closed => (ConnState::Closed, ConnAction::Wait),
    }
}

/// A connection joins before it is served and leaves after it is closed,
/// each at most once, whatever happens: over any run of events from any
/// state, a connection that has not joined yet joins at most once, one that
/// has joined does not join again, and no connection leaves unless it had
/// joined, nor more than once. A connection that was refused never joins
/// and never leaves.
pub proof fn lemma_join_and_leave_once(state: ConnState, events: Seq<ConnEvent>)
    ensures
        joins_in(state, events) <= 1,
        leaves_in(state, events) <= 1,
        state != ConnState::Connecting ==> joins_in(state, events) == 0,
        state == ConnState::Closed ==> leaves_in(state, events) == 0,
        state == ConnState::Connecting ==> leaves_in(state, events) <= joins_in(state, events),
        state_after(state, events) == ConnState::Closed && (state == ConnState::Joined || state
            == ConnState::Draining) ==> leaves_in(state, events) == 1,
        state == ConnState::Connecting && state_after(state, events) == ConnState::Closed
            ==> leaves_in(state, events) == joins_in(state, events),
    decreases events.len(),
{
    if events.len() > 0 {
        lemma_join_and_leave_once(next_state(state, events[0]), events.drop_first());
    }
}

} // verus!
