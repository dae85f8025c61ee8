//! The decisions of the player and chat routes: who may act on a room, what
//! the action does to it, and how the request is answered.

use crate::clients::User;
use crate::player::{cursor_after_delete, cursor_backward, cursor_forward, Track};
use crate::registry::{is_fresh_room, only_room_changed, rooms_after_create, RoomManager};
use crate::room::{MessageResp, Room, RoomEvent};
use crate::users::{user_of_session, Sessions};
use vstd::prelude::*;
use vstd::string::*;

verus! {

/// Whether a request may act on a room.
pub enum Access {
    /// There is no such room.
    NotFound,
    /// The request carries no session, or one that belongs to no user.
    Unauthorized,
    /// The request comes from this user.
    Granted(User),
}

/// How a request is answered.
#[derive(Clone, Copy, PartialEq, Eq, Structural, Debug)]
pub enum PlayerReply {
    /// There is no such room.
    NotFound,
    /// The request may not act on the room.
    Unauthorized,
    /// The action was carried out.
    Done,
    /// The playlist holds no track.
    QueueEmpty,
}

/// Whether a request with this session may act on the room `room_id`: the
/// room has to exist, and the session has to belong to a user.
pub open spec fn access_for(
    rooms: Map<Seq<char>, Room>,
    users: Map<usize, User>,
    sessions: Map<Seq<char>, usize>,
    room_id: Seq<char>,
    session: Option<String>,
) -> Access {
    if !rooms.contains_key(room_id) {
        Access::NotFound
    } else {
        match session {
            None => Access::Unauthorized,
            Some(id) => match user_of_session(users, sessions, id@) {
                Some(user) => Access::Granted(user),
                None => Access::Unauthorized,
            },
        }
    }
}

/// How a request that may not act is answered.
pub open spec fn denial(access: Access) -> PlayerReply {
    match access {
        Access::NotFound => PlayerReply::NotFound,
        _ => PlayerReply::Unauthorized,
    }
}

/// The playback time one second on; the last time a machine can count
/// stays.
pub open spec fn next_second(time: nat) -> nat {
    if time >= usize::MAX {
        time
    } else {
        time + 1
    }
}

impl PlayerReply {
    /// The status code the reply is given with.
    pub open spec fn status_value(&self) -> u16 {
        match self {
            PlayerReply::NotFound => 404,
            PlayerReply::Unauthorized => 401,
            PlayerReply::Done => 200,
            PlayerReply::QueueEmpty => 200,
        }
    }

    /// The message the reply is given with.
    pub open spec fn message_text(&self) -> Seq<char> {
        match self {
            PlayerReply::NotFound => "Room not found"@,
            PlayerReply::Unauthorized => "Unauthorized Request"@,
            PlayerReply::Done => "Action success"@,
            PlayerReply::QueueEmpty => "EMPTY"@,
        }
    }

    /// The status code the reply is given with.
    pub fn status(&self) -> (code: u16)
        ensures
            code == self.status_value(),
    {
        match self {
            PlayerReply::NotFound => 404,
            PlayerReply::Unauthorized => 401,
            PlayerReply::Done => 200,
            PlayerReply::QueueEmpty => 200,
        }
    }

    /// The message the reply is given with.
    pub fn message(&self) -> (text: &'static str)
        ensures
            text@ == self.message_text(),
    {
        match self {
            PlayerReply::NotFound => "Room not found",
            PlayerReply::Unauthorized => "Unauthorized Request",
            PlayerReply::Done => "Action success",
            PlayerReply::QueueEmpty => "EMPTY",
        }
    }
}

/// Whether a request with this session may act on the room `room_id`.
pub fn authorize(
    registry: &RoomManager,
    store: &Sessions,
    room_id: &String,
    session: &Option<String>,
) -> (access: Access)
    ensures
        access == access_for(registry.rooms(), store.users(), store.sessions(), room_id@, *session),
{
    if !registry.contains(room_id) {
        return Access::NotFound;
    }
    match session {
        None => Access::Unauthorized,
        Some(id) => match store.get_user_by_session(id.as_str()) {
            Some(user) => Access::Granted(user),
            None => Access::Unauthorized,
        },
    }
}

fn deny(access: &Access) -> (reply: PlayerReply)
    ensures
        reply == denial(*access),
{
    match access {
        Access::NotFound => PlayerReply::NotFound,
        _ => PlayerReply::Unauthorized,
    }
}

/// Answers a request for the current track of a room: whoever may act
/// gets the track, if the playlist has one.
pub fn get_current_track(
    registry: &mut RoomManager,
    store: &Sessions,
    room_id: &String,
    session: &Option<String>,
) -> (res: (PlayerReply, Option<Track>))
    requires
        old(registry).wf(),
    ensures
        final(registry).wf(),
        final(registry).rooms() == old(registry).rooms(),
        match access_for(
            old(registry).rooms(),
            store.users(),
            store.sessions(),
            room_id@,
            *session,
        ) {
            Access::Granted(_) => {
                &&& res.0 == PlayerReply::Done
                &&& res.1 == old(registry).rooms()[room_id@].player().queue().current()
            },
            denied => res.0 == denial(denied) && res.1.is_none(),
        },
{
    let access = authorize(registry, store, room_id, session);
    match access {
        Access::Granted(_) => match registry.current_track(room_id) {
            Some(track) => (PlayerReply::Done, track),
            None => (PlayerReply::NotFound, None),
        },
        _ => (deny(&access), None),
    }
}

/// Answers a request to move a room's playlist by one, forward or
/// backward: whoever may act gets the track that was current, which every
/// listener is then sent, and the cursor moves; an empty playlist is
/// answered with `QueueEmpty`.
pub fn move_track(
    registry: &mut RoomManager,
    store: &Sessions,
    room_id: &String,
    session: &Option<String>,
    forward: bool,
) -> (res: (PlayerReply, Option<Track>))
    requires
        old(registry).wf(),
    ensures
        final(registry).wf(),
        match access_for(
            old(registry).rooms(),
            store.users(),
            store.sessions(),
            room_id@,
            *session,
        ) {
            Access::Granted(_) => {
                let before = old(registry).rooms()[room_id@];
                let after = final(registry).rooms()[room_id@];
                let queue = before.player().queue();
                &&& only_room_changed(old(registry).rooms(), final(registry).rooms(), room_id@)
                &&& after.same_but_player(&before)
                &&& after.player().clock() == before.player().clock()
                &&& after.player().queue().items() == queue.items()
                &&& after.player().queue().cursor() == if forward {
                    cursor_forward(queue.items().len(), queue.cursor(), 1)
                } else {
                    cursor_backward(queue.items().len(), queue.cursor(), 1)
                }
                &&& res.1 == queue.current()
                &&& res.0 == if queue.current().is_some() {
                    PlayerReply::Done
                } else {
                    PlayerReply::QueueEmpty
                }
            },
            denied => {
                &&& final(registry).rooms() == old(registry).rooms()
                &&& res.0 == denial(denied)
                &&& res.1.is_none()
            },
        },
{
    let access = authorize(registry, store, room_id, session);
    match access {
        Access::Granted(_) => {
            let moved = if forward {
                registry.next_track(room_id)
            } else {
                registry.previous_track(room_id)
            };
            match moved {
                Some(Some(track)) => (PlayerReply::Done, Some(track)),
                Some(None) => (PlayerReply::QueueEmpty, None),
                None => (PlayerReply::NotFound, None),
            }
        },
        _ => (deny(&access), None),
    }
}

/// Answers a request for the next track of a room.
pub fn next_track(
    registry: &mut RoomManager,
    store: &Sessions,
    room_id: &String,
    session: &Option<String>,
) -> (res: (PlayerReply, Option<Track>))
    requires
        old(registry).wf(),
    ensures
        final(registry).wf(),
        match access_for(
            old(registry).rooms(),
            store.users(),
            store.sessions(),
            room_id@,
            *session,
        ) {
            Access::Granted(_) => {
                let before = old(registry).rooms()[room_id@];
                let after = final(registry).rooms()[room_id@];
                let queue = before.player().queue();
                &&& only_room_changed(old(registry).rooms(), final(registry).rooms(), room_id@)
                &&& after.same_but_player(&before)
                &&& after.player().clock() == before.player().clock()
                &&& after.player().queue().items() == queue.items()
                &&& after.player().queue().cursor() == cursor_forward(
                    queue.items().len(),
                    queue.cursor(),
                    1,
                )
                &&& res.1 == queue.current()
                &&& res.0 == if queue.current().is_some() {
                    PlayerReply::Done
                } else {
                    PlayerReply::QueueEmpty
                }
            },
            denied => {
                &&& final(registry).rooms() == old(registry).rooms()
                &&& res.0 == denial(denied)
                &&& res.1.is_none()
            },
        },
{
    move_track(registry, store, room_id, session, true)
}

/// Answers a request for the previous track of a room.
pub fn previous_track(
    registry: &mut RoomManager,
    store: &Sessions,
    room_id: &String,
    session: &Option<String>,
) -> (res: (PlayerReply, Option<Track>))
    requires
        old(registry).wf(),
    ensures
        final(registry).wf(),
        match access_for(
            old(registry).rooms(),
            store.users(),
            store.sessions(),
            room_id@,
            *session,
        ) {
            Access::Granted(_) => {
                let before = old(registry).rooms()[room_id@];
                let after = final(registry).rooms()[room_id@];
                let queue = before.player().queue();
                &&& only_room_changed(old(registry).rooms(), final(registry).rooms(), room_id@)
                &&& after.same_but_player(&before)
                &&& after.player().clock() == before.player().clock()
                &&& after.player().queue().items() == queue.items()
                &&& after.player().queue().cursor() == cursor_backward(
                    queue.items().len(),
                    queue.cursor(),
                    1,
                )
                &&& res.1 == queue.current()
                &&& res.0 == if queue.current().is_some() {
                    PlayerReply::Done
                } else {
                    PlayerReply::QueueEmpty
                }
            },
            denied => {
                &&& final(registry).rooms() == old(registry).rooms()
                &&& res.0 == denial(denied)
                &&& res.1.is_none()
            },
        },
{
    move_track(registry, store, room_id, session, false)
}

/// Answers a request to add a track to a room's playlist.
pub fn add_track(
    registry: &mut RoomManager,
    store: &Sessions,
    room_id: &String,
    session: &Option<String>,
    track: Track,
) -> (reply: PlayerReply)
    requires
        old(registry).wf(),
    ensures
        final(registry).wf(),
        match access_for(
            old(registry).rooms(),
            store.users(),
            store.sessions(),
            room_id@,
            *session,
        ) {
            Access::Granted(_) => {
                let before = old(registry).rooms()[room_id@];
                let after = final(registry).rooms()[room_id@];
                &&& reply == PlayerReply::Done
                &&& only_room_changed(old(registry).rooms(), final(registry).rooms(), room_id@)
                &&& after.same_but_player(&before)
                &&& after.player().clock() == before.player().clock()
                &&& after.player().queue().items() == before.player().queue().items().push(track)
                &&& after.player().queue().cursor() == before.player().queue().cursor()
            },
            denied => final(registry).rooms() == old(registry).rooms() && reply == denial(denied),
        },
{
    let access = authorize(registry, store, room_id, session);
    match access {
        Access::Granted(_) => {
            if registry.add_track(room_id, track) {
                PlayerReply::Done
            } else {
                PlayerReply::NotFound
            }
        },
        _ => deny(&access),
    }
}

/// Answers a request to take a track out of a room's playlist. Whoever
/// may act is answered with `Done`, also where the index names no track.
pub fn remove_track(
    registry: &mut RoomManager,
    store: &Sessions,
    room_id: &String,
    session: &Option<String>,
    index: usize,
) -> (reply: PlayerReply)
    requires
        old(registry).wf(),
    ensures
        final(registry).wf(),
        match access_for(
            old(registry).rooms(),
            store.users(),
            store.sessions(),
            room_id@,
            *session,
        ) {
            Access::Granted(_) => {
                let before = old(registry).rooms()[room_id@];
                let after = final(registry).rooms()[room_id@];
                let items = before.player().queue().items();
                &&& reply == PlayerReply::Done
                &&& only_room_changed(old(registry).rooms(), final(registry).rooms(), room_id@)
                &&& after.same_but_player(&before)
                &&& after.player().clock() == before.player().clock()
                &&& index < items.len() ==> {
                    &&& after.player().queue().items() == items.remove(index as int)
                    &&& after.player().queue().cursor() == cursor_after_delete(
                        before.player().queue().cursor(),
                        index as nat,
                    )
                }
                &&& index >= items.len() ==> {
                    &&& after.player().queue().items() == items
                    &&& after.player().queue().cursor() == before.player().queue().cursor()
                }
            },
            denied => final(registry).rooms() == old(registry).rooms() && reply == denial(denied),
        },
{
    let access = authorize(registry, store, room_id, session);
    match access {
        Access::Granted(_) => match registry.remove_track(room_id, index) {
            Some(_) => PlayerReply::Done,
            None => PlayerReply::NotFound,
        },
        _ => deny(&access),
    }
}

/// Answers a request that only tells the listeners of a room to play, to
/// pause or to seek: whoever may act is answered with `Done`, and nothing
/// changes.
pub fn command(
    registry: &RoomManager,
    store: &Sessions,
    room_id: &String,
    session: &Option<String>,
) -> (reply: PlayerReply)
    ensures
        reply == match access_for(
            registry.rooms(),
            store.users(),
            store.sessions(),
            room_id@,
            *session,
        ) {
            Access::Granted(_) => PlayerReply::Done,
            denied => denial(denied),
        },
{
    let access = authorize(registry, store, room_id, session);
    match access {
        Access::Granted(_) => PlayerReply::Done,
        _ => deny(&access),
    }
}

/// Answers a request for the playback time of a room, asked a second
/// after the listeners were told to report theirs: whoever may act gets
/// the time one second on, and a time that is not 0 is moved on by that
/// second.
pub fn get_time(
    registry: &mut RoomManager,
    store: &Sessions,
    room_id: &String,
    session: &Option<String>,
) -> (res: (PlayerReply, Option<usize>))
    requires
        old(registry).wf(),
    ensures
        final(registry).wf(),
        match access_for(
            old(registry).rooms(),
            store.users(),
            store.sessions(),
            room_id@,
            *session,
        ) {
            Access::Granted(_) => {
                let before = old(registry).rooms()[room_id@];
                let after = final(registry).rooms()[room_id@];
                let clock = before.player().clock();
                &&& res.0 == PlayerReply::Done
                &&& res.1.is_some()
                &&& res.1.unwrap() == next_second(clock)
                &&& only_room_changed(old(registry).rooms(), final(registry).rooms(), room_id@)
                &&& after.same_but_player(&before)
                &&& after.player().queue() == before.player().queue()
                &&& after.player().clock() == if clock == 0 {
                    0
                } else {
                    next_second(clock)
                }
            },
            denied => {
                &&& final(registry).rooms() == old(registry).rooms()
                &&& res.0 == denial(denied)
                &&& res.1.is_none()
            },
        },
{
    let access = authorize(registry, store, room_id, session);
    match access {
        Access::Granted(_) => match registry.time(room_id) {
            Some(time) => {
                let next: usize = if time == usize::MAX {
                    time
                } else {
                    time + 1
                };
                let kept: usize = if time != 0 {
                    next
                } else {
                    0
                };
                registry.set_time(room_id, kept);
                (PlayerReply::Done, Some(next))
            },
            None => (PlayerReply::NotFound, None),
        },
        _ => (deny(&access), None),
    }
}

/// Answers a request to set the playback time of a room.
pub fn set_time(
    registry: &mut RoomManager,
    store: &Sessions,
    room_id: &String,
    session: &Option<String>,
    time: usize,
) -> (reply: PlayerReply)
    requires
        old(registry).wf(),
    ensures
        final(registry).wf(),
        match access_for(
            old(registry).rooms(),
            store.users(),
            store.sessions(),
            room_id@,
            *session,
        ) {
            Access::Granted(_) => {
                let before = old(registry).rooms()[room_id@];
                let after = final(registry).rooms()[room_id@];
                &&& reply == PlayerReply::Done
                &&& only_room_changed(old(registry).rooms(), final(registry).rooms(), room_id@)
                &&& after.same_but_player(&before)
                &&& after.player().queue() == before.player().queue()
                &&& after.player().clock() == time
            },
            denied => final(registry).rooms() == old(registry).rooms() && reply == denial(denied),
        },
{
    let access = authorize(registry, store, room_id, session);
    match access {
        Access::Granted(_) => {
            if registry.set_time(room_id, time) {
                PlayerReply::Done
            } else {
                PlayerReply::NotFound
            }
        },
        _ => deny(&access),
    }
}

/// Answers a chat message that is sent in the user's own name: whoever
/// may act has the message go to every listener, under the user's id,
/// name and avatar.
pub fn bot_message(
    registry: &RoomManager,
    store: &Sessions,
    room_id: &String,
    session: &Option<String>,
    content: String,
) -> (res: (PlayerReply, Option<RoomEvent>))
    ensures
        match access_for(registry.rooms(), store.users(), store.sessions(), room_id@, *session) {
            Access::Granted(user) => {
                &&& res.0 == PlayerReply::Done
                &&& res.1 == Some(
                    RoomEvent::Message(
                        MessageResp {
                            content,
                            user_id: user.id,
                            username: user.name,
                            avatar: user.avatar_url,
                        },
                    ),
                )
            },
            denied => res.0 == denial(denied) && res.1.is_none(),
        },
{
    let access = authorize(registry, store, room_id, session);
    match access {
        Access::Granted(user) => (
            PlayerReply::Done,
            Some(
                RoomEvent::Message(
                    MessageResp {
                        content,
                        user_id: user.id,
                        username: user.name,
                        avatar: user.avatar_url,
                    },
                ),
            ),
        ),
        _ => (deny(&access), None),
    }
}

/// Answers a chat message that names its own sender: whoever may act has
/// the message go to every listener as it came.
pub fn send_message(
    registry: &RoomManager,
    store: &Sessions,
    room_id: &String,
    session: &Option<String>,
    message: MessageResp,
) -> (res: (PlayerReply, Option<RoomEvent>))
    ensures
        match access_for(registry.rooms(), store.users(), store.sessions(), room_id@, *session) {
            Access::Granted(_) => res.0 == PlayerReply::Done && res.1 == Some(
                RoomEvent::Message(message),
            ),
            denied => res.0 == denial(denied) && res.1.is_none(),
        },
{
    let access = authorize(registry, store, room_id, session);
    match access {
        Access::Granted(_) => (PlayerReply::Done, Some(RoomEvent::Message(message))),
        _ => (deny(&access), None),
    }
}

/// The address a client that may not see a room's page is sent to, to
/// sign in and come back.
pub open spec fn login_redirect_text(room_id: Seq<char>) -> Seq<char> {
    "https://spooderfy.com/login?redirect_to=/room/"@ + room_id
}

/// The address a client that may not see a room's page is sent to.
pub fn login_redirect(room_id: &String) -> (url: String)
    ensures
        url@ == login_redirect_text(room_id@),
{
    let mut url = String::from_str("https://spooderfy.com/login?redirect_to=/room/");
    url.append(room_id.as_str());
    url
}

/// How a request to make or to delete a room by its path is answered.
pub struct RoomResponse {
    /// The status code.
    pub status: u16,
    /// What happened, in words that end in the room's id.
    pub message: String,
    /// The room's id, where the request did what it asked for.
    pub data: Option<String>,
}

/// Answers a request to make the room `room`: a room that exists is not
/// made again, which is answered with 406.
pub fn create_room(registry: &mut RoomManager, room: String, live_server: String) -> (res:
    RoomResponse)
    requires
        old(registry).wf(),
    ensures
        final(registry).wf(),
        final(registry).rooms().contains_key(room@),
        final(registry).rooms() == rooms_after_create(
            old(registry).rooms(),
            room@,
            final(registry).rooms()[room@],
        ),
        old(registry).rooms().contains_key(room@) ==> {
            &&& res.status == 406
            &&& res.message@ == "Room already exists with id: "@ + room@
            &&& res.data.is_none()
        },
        !old(registry).rooms().contains_key(room@) ==> {
            &&& res.status == 200
            &&& res.message@ == "Room made with id: "@ + room@
            &&& res.data == Some(room)
            &&& is_fresh_room(final(registry).rooms()[room@], room@, live_server@)
        },
{
    if registry.create_room(room.clone(), live_server) {
        let mut message = String::from_str("Room made with id: ");
        message.append(room.as_str());
        RoomResponse { status: 200, message, data: Some(room) }
    } else {
        let mut message = String::from_str("Room already exists with id: ");
        message.append(room.as_str());
        RoomResponse { status: 406, message, data: None }
    }
}

/// Answers a request to delete the room `room`: a room that does not
/// exist is answered with 404.
pub fn delete_room(registry: &mut RoomManager, room: String) -> (res: RoomResponse)
    requires
        old(registry).wf(),
    ensures
        final(registry).wf(),
        final(registry).rooms() == old(registry).rooms().remove(room@),
        old(registry).rooms().contains_key(room@) ==> {
            &&& res.status == 200
            &&& res.message@ == "Deleted room with id: "@ + room@
            &&& res.data == Some(room)
        },
        !old(registry).rooms().contains_key(room@) ==> {
            &&& res.status == 404
            &&& res.message@ == "Room does not exist with id: "@ + room@
            &&& res.data.is_none()
        },
{
    if registry.delete_room(&room) {
        let mut message = String::from_str("Deleted room with id: ");
        message.append(room.as_str());
        RoomResponse { status: 200, message, data: Some(room) }
    } else {
        let mut message = String::from_str("Room does not exist with id: ");
        message.append(room.as_str());
        RoomResponse { status: 404, message, data: None }
    }
}

} // verus!
