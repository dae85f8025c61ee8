//! The room registry: the one table of rooms, by room id, with the
//! operations that create and delete rooms and that reach into one room.

use crate::room::{
    joined, left, multiplier_text, watch_step_holds, BasicStats, Broadcast, FullStats, Headcount,
    Room, StreamTotals, WatchStep,
};
use crate::player::{cursor_after_delete, cursor_backward, cursor_forward, Track};
use crate::watcher::{PollOutcome, WatcherState};
use dashmap::DashMap;
use vstd::prelude::*;
use vstd::string::*;

verus! {

/// `dashmap::DashMap`, as a type whose inside is not looked into.
#[verifier::external_type_specification]
#[verifier::external_body]
#[verifier::reject_recursive_types(K)]
#[verifier::reject_recursive_types(V)]
#[verifier::reject_recursive_types(S)]
pub struct ExDashMap<K, V, S>(DashMap<K, V, S>);

/// The rooms a table holds, by the text of their key.
pub uninterp spec fn room_table(table: DashMap<String, Room>) -> Map<Seq<char>, Room>;

/// The table that holds no room.
pub open spec fn no_rooms() -> Map<Seq<char>, Room> {
    Map::empty()
}

/// `DashMap::new`: a table that holds nothing.
#[verifier::external_body]
fn table_new() -> (table: DashMap<String, Room>)
    ensures
        room_table(table) == no_rooms(),
{
    DashMap::new()
}

/// `DashMap::contains_key`: whether the table holds an entry under `key`.
#[verifier::external_body]
fn table_contains(table: &DashMap<String, Room>, key: &String) -> (found: bool)
    ensures
        found == room_table(*table).contains_key(key@),
{
    table.contains_key(key)
}

/// `DashMap::insert`: afterwards the table holds `room` under `key`, in
/// place of what it held there, and every other entry as before.
#[verifier::external_body]
fn table_insert(table: &mut DashMap<String, Room>, key: String, room: Room)
    ensures
        room_table(*final(table)) == room_table(*old(table)).insert(key@, room),
{
    table.insert(key, room);
}

/// `DashMap::remove`: takes the entry under `key` out of the table and
/// hands its value out, if there is one; every other entry stays.
#[verifier::external_body]
fn table_remove(table: &mut DashMap<String, Room>, key: &String) -> (out: Option<Room>)
    ensures
        room_table(*final(table)) == room_table(*old(table)).remove(key@),
        out == if room_table(*old(table)).contains_key(key@) {
            Some(room_table(*old(table))[key@])
        } else {
            None
        },
{
    table.remove(key).map(|entry| entry.1)
}

/// What a request to make a room carries.
#[derive(Debug)]
pub struct ListOptions {
    pub live_server: String,
}

/// Why a client could not join a room.
#[derive(Clone, Copy, PartialEq, Eq, Structural, Debug)]
pub enum JoinError {
    /// No room has that id.
    UnknownRoom,
    /// The room is in whitelist mode and the session is not on its list.
    Unauthorized,
    /// The room can take no further listener or member.
    Full,
}

/// Why a client could not leave a room.
#[derive(Clone, Copy, PartialEq, Eq, Structural, Debug)]
pub enum LeaveError {
    /// No room has that id.
    UnknownRoom,
    /// The room has no member.
    NoMembers,
}

/// What a join hands back: the listener's handle, and the statistics that
/// go to the listeners named, the new one among them.
pub struct Joined {
    pub handle: usize,
    pub stats: BasicStats,
    pub recipients: Vec<usize>,
}

/// What a leave hands back: the statistics that go to the listeners named.
pub struct Left {
    pub stats: BasicStats,
    pub recipients: Vec<usize>,
}

/// The rooms after `create(id)`: a room that exists stays as it is.
pub open spec fn rooms_after_create(rooms: Map<Seq<char>, Room>, id: Seq<char>, fresh: Room) -> Map<
    Seq<char>,
    Room,
> {
    if rooms.contains_key(id) {
        rooms
    } else {
        rooms.insert(id, fresh)
    }
}

/// Whether `create(id)` starts a watcher: only where it makes the room.
pub open spec fn create_spawns(rooms: Map<Seq<char>, Room>, id: Seq<char>) -> bool {
    !rooms.contains_key(id)
}

/// Whether two tables hold the same rooms but for the one under `id`,
/// which both hold.
pub open spec fn only_room_changed(
    before: Map<Seq<char>, Room>,
    after: Map<Seq<char>, Room>,
    id: Seq<char>,
) -> bool {
    &&& before.contains_key(id)
    &&& after.contains_key(id)
    &&& after.remove(id) == before.remove(id)
}

/// Whether `room` is what `create` makes under `id` for `live_server`.
pub open spec fn is_fresh_room(room: Room, id: Seq<char>, live_server: Seq<char>) -> bool {
    &&& room.wf()
    &&& room.id() == id
    &&& room.server() == live_server
    &&& room.headcount() == (Headcount { members: 0, multiplier: 0 })
    &&& room.stream() == (StreamTotals {
        is_live: false,
        data_streamed: 0,
        avg_byte_rate: 0,
        stream_time: 0,
    })
    &&& room.clients().subscribers() == Set::<usize>::empty()
    &&& room.next_client() == 0
    &&& room.whitelist().is_none()
    &&& room.player().queue().items() == Seq::<Track>::empty()
    &&& room.player().queue().cursor() == 0
    &&& room.player().clock() == 0
}

/// The table of rooms.
pub struct RoomManager {
    rooms: DashMap<String, Room>,
}

impl RoomManager {
    /// The rooms, by id.
    pub closed spec fn rooms(&self) -> Map<Seq<char>, Room> {
        room_table(self.rooms)
    }

    /// Every room is well formed and stands under its own id.
    pub open spec fn wf(&self) -> bool {
        forall|id: Seq<char>|
            #![trigger self.rooms().contains_key(id)]
            #![trigger self.rooms()[id]]
            self.rooms().contains_key(id) ==> self.rooms()[id].wf() && self.rooms()[id].id() == id
    }

    proof fn lemma_room_wf(&self, id: Seq<char>)
        requires
            self.wf(),
        ensures
            self.rooms().contains_key(id) ==> self.rooms()[id].wf() && self.rooms()[id].id() == id,
    {
    }

    /// A registry without rooms.
    pub fn new() -> (registry: Self)
        ensures
            registry.wf(),
            registry.rooms() == Map::<Seq<char>, Room>::empty(),
    {
        RoomManager { rooms: table_new() }
    }

    /// Whether a room has this id.
    pub fn contains(&self, room_id: &String) -> (found: bool)
        ensures
            found == self.rooms().contains_key(room_id@),
    {
        table_contains(&self.rooms, room_id)
    }

    /// A copy of the room `room_id`, as it stands now.
    pub fn get(&mut self, room_id: &String) -> (res: Option<Room>)
        requires
            old(self).wf(),
        ensures
            final(self).wf(),
            final(self).rooms() == old(self).rooms(),
            res.is_some() == old(self).rooms().contains_key(room_id@),
            match res {
                Some(room) => room.wf() && room.mirrors(&old(self).rooms()[room_id@]),
                None => true,
            },
    {
        proof {
            self.lemma_room_wf(room_id@);
        }
        match table_remove(&mut self.rooms, room_id) {
            None => {
                assert(self.rooms() =~= old(self).rooms());
                None
            },
            Some(room) => {
                let copy = room.clone();
                table_insert(&mut self.rooms, room_id.clone(), room);
                assert(self.rooms() =~= old(self).rooms());
                Some(copy)
            },
        }
    }

    /// Makes the room `room_id` unless there is one. Says whether it made
    /// it, which is when its watcher is to be started.
    pub fn create_room(&mut self, room_id: String, live_server: String) -> (created: bool)
        requires
            old(self).wf(),
        ensures
            final(self).wf(),
            created == create_spawns(old(self).rooms(), room_id@),
            final(self).rooms().contains_key(room_id@),
            final(self).rooms() == rooms_after_create(
                old(self).rooms(),
                room_id@,
                final(self).rooms()[room_id@],
            ),
            created ==> is_fresh_room(final(self).rooms()[room_id@], room_id@, live_server@),
    {
        if table_contains(&self.rooms, &room_id) {
            assert(self.rooms() =~= self.rooms().insert(room_id@, self.rooms()[room_id@]));
            return false;
        }
        let room = Room::new(room_id.clone(), live_server);
        table_insert(&mut self.rooms, room_id, room);
        proof {
            assert forall|id: Seq<char>| self.rooms().contains_key(id) implies self.rooms()[id].wf()
                && self.rooms()[id].id() == id by {
                if id != room_id@ {
                    old(self).lemma_room_wf(id);
                }
            }
        }
        true
    }

    /// Deletes the room `room_id`. Says whether there was one, which is
    /// when its watcher is to be ended.
    pub fn delete_room(&mut self, room_id: &String) -> (existed: bool)
        requires
            old(self).wf(),
        ensures
            final(self).wf(),
            existed == old(self).rooms().contains_key(room_id@),
            final(self).rooms() == old(self).rooms().remove(room_id@),
    {
        let out = table_remove(&mut self.rooms, room_id);
        proof {
            assert forall|id: Seq<char>| self.rooms().contains_key(id) implies self.rooms()[id].wf()
                && self.rooms()[id].id() == id by {
                assert(old(self).rooms().contains_key(id));
                assert(self.rooms()[id] == old(self).rooms()[id]);
            }
        }
        out.is_some()
    }

    /// Puts a session on the whitelist of the room `room_id`. Says whether
    /// there is such a room.
    pub fn add_session(&mut self, room_id: &String, session_id: String) -> (found: bool)
        requires
            old(self).wf(),
        ensures
            final(self).wf(),
            found == old(self).rooms().contains_key(room_id@),
            !found ==> final(self).rooms() == old(self).rooms(),
            found ==> {
                let before = old(self).rooms()[room_id@];
                let after = final(self).rooms()[room_id@];
                &&& only_room_changed(old(self).rooms(), final(self).rooms(), room_id@)
                &&& after.same_but_whitelist(&before)
                &&& after.whitelist() == Some(
                    match before.whitelist() {
                        Some(allowed) => allowed.insert(session_id@),
                        None => Set::<Seq<char>>::empty().insert(session_id@),
                    },
                )
            },
    {
        proof {
            self.lemma_room_wf(room_id@);
        }
        match table_remove(&mut self.rooms, room_id) {
            Some(mut room) => {
                room.add_session(session_id);
                table_insert(&mut self.rooms, room_id.clone(), room);
                proof {
                    lemma_put_back(old(self).rooms(), self.rooms(), room_id@, room);
                }
                true
            },
            None => {
                assert(self.rooms() =~= old(self).rooms());
                false
            },
        }
    }

    /// Takes a session off the whitelist of the room `room_id`. Says
    /// whether there is such a room.
    pub fn remove_session(&mut self, room_id: &String, session_id: &String) -> (found: bool)
        requires
            old(self).wf(),
        ensures
            final(self).wf(),
            found == old(self).rooms().contains_key(room_id@),
            !found ==> final(self).rooms() == old(self).rooms(),
            found ==> {
                let before = old(self).rooms()[room_id@];
                let after = final(self).rooms()[room_id@];
                &&& only_room_changed(old(self).rooms(), final(self).rooms(), room_id@)
                &&& after.same_but_whitelist(&before)
                &&& after.whitelist() == match before.whitelist() {
                    Some(allowed) => Some(allowed.remove(session_id@)),
                    None => None,
                }
            },
    {
        proof {
            self.lemma_room_wf(room_id@);
        }
        match table_remove(&mut self.rooms, room_id) {
            Some(mut room) => {
                room.remove_session(session_id);
                table_insert(&mut self.rooms, room_id.clone(), room);
                proof {
                    lemma_put_back(old(self).rooms(), self.rooms(), room_id@, room);
                }
                true
            },
            None => {
                assert(self.rooms() =~= old(self).rooms());
                false
            },
        }
    }

    /// Lets a client into the room `room_id`: it becomes a listener and is
    /// counted as a member, and the new statistics go to every listener.
    /// Nothing changes where there is no such room, where the room is in
    /// whitelist mode and `session` is not on its list, or where the room
    /// is full.
    pub fn join(&mut self, room_id: &String, session: &Option<String>) -> (res: Result<
        Joined,
        JoinError,
    >)
        requires
            old(self).wf(),
        ensures
            final(self).wf(),
            res.is_err() ==> final(self).rooms() == old(self).rooms(),
            match res {
                Err(JoinError::UnknownRoom) => !old(self).rooms().contains_key(room_id@),
                Err(JoinError::Unauthorized) => {
                    &&& old(self).rooms().contains_key(room_id@)
                    &&& !may_join(old(self).rooms()[room_id@], *session)
                },
                Err(JoinError::Full) => {
                    &&& old(self).rooms().contains_key(room_id@)
                    &&& may_join(old(self).rooms()[room_id@], *session)
                    &&& is_full(old(self).rooms()[room_id@])
                },
                Ok(joined_as) => {
                    let before = old(self).rooms()[room_id@];
                    let after = final(self).rooms()[room_id@];
                    &&& only_room_changed(old(self).rooms(), final(self).rooms(), room_id@)
                    &&& may_join(before, *session)
                    &&& !is_full(before)
                    &&& after.same_but_members(&before)
                    &&& after.headcount() == joined(before.headcount())
                    &&& joined_as.handle == before.next_client()
                    &&& after.next_client() == before.next_client() + 1
                    &&& !before.clients().subscribers().contains(joined_as.handle)
                    &&& after.clients().subscribers() == before.clients().subscribers().insert(
                        joined_as.handle,
                    )
                    &&& joined_as.recipients@.to_set() == after.clients().subscribers()
                    &&& joined_as.recipients@.no_duplicates()
                    &&& joined_as.stats.members == after.headcount().members
                    &&& joined_as.stats.multiplier@ == multiplier_text(after.shown())
                },
            },
    {
        proof {
            self.lemma_room_wf(room_id@);
        }
        match table_remove(&mut self.rooms, room_id) {
            None => {
                assert(self.rooms() =~= old(self).rooms());
                Err(JoinError::UnknownRoom)
            },
            Some(mut room) => {
                if !room.is_authorized(session) {
                    table_insert(&mut self.rooms, room_id.clone(), room);
                    assert(self.rooms() =~= old(self).rooms());
                    return Err(JoinError::Unauthorized);
                }
                if room.member_count() == usize::MAX || !room.has_free_handle() {
                    table_insert(&mut self.rooms, room_id.clone(), room);
                    assert(self.rooms() =~= old(self).rooms());
                    return Err(JoinError::Full);
                }
                let handle = room.subscribe();
                let joined_stats = room.member_join();
                let recipients = room.listeners();
                table_insert(&mut self.rooms, room_id.clone(), room);
                proof {
                    lemma_put_back(old(self).rooms(), self.rooms(), room_id@, room);
                }
                match (handle, joined_stats) {
                    (Some(handle), Ok(stats)) => Ok(Joined { handle, stats, recipients }),
                    _ => {
                        assert(false);
                        Err(JoinError::Full)
                    },
                }
            },
        }
    }

    /// Lets the listener `handle` out of the room `room_id`: it is no
    /// listener any more, the room counts one member less, and the new
    /// statistics go to the listeners that are left. Where the room has no
    /// member, that is an error and only the listener goes.
    pub fn leave(&mut self, room_id: &String, handle: usize) -> (res: Result<Left, LeaveError>)
        requires
            old(self).wf(),
        ensures
            final(self).wf(),
            match res {
                Err(LeaveError::UnknownRoom) => {
                    &&& !old(self).rooms().contains_key(room_id@)
                    &&& final(self).rooms() == old(self).rooms()
                },
                Err(LeaveError::NoMembers) => {
                    &&& only_room_changed(old(self).rooms(), final(self).rooms(), room_id@)
                    &&& old(self).rooms()[room_id@].headcount().members == 0
                    &&& final(self).rooms()[room_id@].headcount() == old(
                        self,
                    ).rooms()[room_id@].headcount()
                },
                Ok(_) => {
                    &&& only_room_changed(old(self).rooms(), final(self).rooms(), room_id@)
                    &&& old(self).rooms()[room_id@].headcount().members > 0
                    &&& final(self).rooms()[room_id@].headcount() == left(
                        old(self).rooms()[room_id@].headcount(),
                    )
                },
            },
            old(self).rooms().contains_key(room_id@) ==> {
                let before = old(self).rooms()[room_id@];
                let after = final(self).rooms()[room_id@];
                &&& after.same_but_members(&before)
                &&& after.next_client() == before.next_client()
                &&& after.clients().subscribers() == before.clients().subscribers().remove(handle)
            },
            match res {
                Ok(gone) => {
                    let after = final(self).rooms()[room_id@];
                    &&& gone.recipients@.to_set() == after.clients().subscribers()
                    &&& gone.recipients@.no_duplicates()
                    &&& gone.stats.members == after.headcount().members
                    &&& gone.stats.multiplier@ == multiplier_text(after.shown())
                },
                Err(_) => true,
            },
    {
        proof {
            self.lemma_room_wf(room_id@);
        }
        match table_remove(&mut self.rooms, room_id) {
            None => {
                assert(self.rooms() =~= old(self).rooms());
                Err(LeaveError::UnknownRoom)
            },
            Some(mut room) => {
                room.unsubscribe(handle);
                let left_stats = room.member_leave();
                let recipients = room.listeners();
                table_insert(&mut self.rooms, room_id.clone(), room);
                proof {
                    lemma_put_back(old(self).rooms(), self.rooms(), room_id@, room);
                }
                match left_stats {
                    Ok(stats) => Ok(Left { stats, recipients }),
                    Err(_) => Err(LeaveError::NoMembers),
                }
            },
        }
    }

    /// The member count and multiplier of the room `room_id`.
    pub fn get_basic_stats(&mut self, room_id: &String) -> (res: Option<BasicStats>)
        requires
            old(self).wf(),
        ensures
            final(self).wf(),
            final(self).rooms() == old(self).rooms(),
            res.is_some() == old(self).rooms().contains_key(room_id@),
            match res {
                Some(stats) => {
                    let room = old(self).rooms()[room_id@];
                    &&& stats.members == room.headcount().members
                    &&& stats.multiplier@ == multiplier_text(room.shown())
                },
                None => true,
            },
    {
        proof {
            self.lemma_room_wf(room_id@);
        }
        match table_remove(&mut self.rooms, room_id) {
            None => {
                assert(self.rooms() =~= old(self).rooms());
                None
            },
            Some(room) => {
                let stats = room.get_basic_stats();
                table_insert(&mut self.rooms, room_id.clone(), room);
                assert(self.rooms() =~= old(self).rooms());
                Some(stats)
            },
        }
    }

    /// The statistics of the room `room_id` with those of its stream.
    pub fn get_full_stats(&mut self, room_id: &String) -> (res: Option<FullStats>)
        requires
            old(self).wf(),
        ensures
            final(self).wf(),
            final(self).rooms() == old(self).rooms(),
            res.is_some() == old(self).rooms().contains_key(room_id@),
            match res {
                Some(stats) => {
                    let room = old(self).rooms()[room_id@];
                    &&& stats.members == room.headcount().members
                    &&& stats.multiplier == room.shown()
                    &&& stats.total_bytes_streamed == room.stream().data_streamed
                    &&& stats.avg_bytes_per_sec == room.stream().avg_byte_rate
                    &&& stats.avg_stream_time == crate::stats::stream_time_value(
                        room.stream().data_streamed as nat,
                        room.stream().avg_byte_rate as nat,
                    )
                },
                None => true,
            },
    {
        proof {
            self.lemma_room_wf(room_id@);
        }
        match table_remove(&mut self.rooms, room_id) {
            None => {
                assert(self.rooms() =~= old(self).rooms());
                None
            },
            Some(room) => {
                let stats = room.get_full_stats();
                table_insert(&mut self.rooms, room_id.clone(), room);
                assert(self.rooms() =~= old(self).rooms());
                Some(stats)
            },
        }
    }

    /// Addresses a message to the room `room_id`: it goes to every listener
    /// of the room, once; nothing where there is no such room.
    pub fn send(&mut self, room_id: &String, msg: String) -> (res: Option<Broadcast>)
        requires
            old(self).wf(),
        ensures
            final(self).wf(),
            final(self).rooms() == old(self).rooms(),
            res.is_some() == old(self).rooms().contains_key(room_id@),
            match res {
                Some(out) => {
                    &&& out.message == msg
                    &&& out.recipients@.to_set() == old(
                        self,
                    ).rooms()[room_id@].clients().subscribers()
                    &&& out.recipients@.no_duplicates()
                },
                None => true,
            },
    {
        proof {
            self.lemma_room_wf(room_id@);
        }
        match table_remove(&mut self.rooms, room_id) {
            None => {
                assert(self.rooms() =~= old(self).rooms());
                None
            },
            Some(room) => {
                let out = room.send(msg);
                table_insert(&mut self.rooms, room_id.clone(), room);
                assert(self.rooms() =~= old(self).rooms());
                Some(out)
            },
        }
    }

    /// Settles a broadcast in the room `room_id`: the listeners whose sink
    /// refused the event are dropped. Says whether there is such a room.
    pub fn settle(&mut self, room_id: &String, refused: &Vec<usize>) -> (found: bool)
        requires
            old(self).wf(),
        ensures
            final(self).wf(),
            found == old(self).rooms().contains_key(room_id@),
            !found ==> final(self).rooms() == old(self).rooms(),
            found ==> {
                let before = old(self).rooms()[room_id@];
                let after = final(self).rooms()[room_id@];
                &&& only_room_changed(old(self).rooms(), final(self).rooms(), room_id@)
                &&& after.same_but_clients(&before)
                &&& after.next_client() == before.next_client()
                &&& after.clients().subscribers() == before.clients().subscribers().difference(
                    refused@.to_set(),
                )
            },
    {
        proof {
            self.lemma_room_wf(room_id@);
        }
        match table_remove(&mut self.rooms, room_id) {
            Some(mut room) => {
                room.settle(refused);
                table_insert(&mut self.rooms, room_id.clone(), room);
                proof {
                    lemma_put_back(old(self).rooms(), self.rooms(), room_id@, room);
                }
                true
            },
            None => {
                assert(self.rooms() =~= old(self).rooms());
                false
            },
        }
    }

    /// Takes in one poll for the room `room_id`. Where the room is gone,
    /// nothing changes and nothing is handed back: its watcher has no more
    /// to do.
    pub fn watch_stats(
        &mut self,
        room_id: &String,
        watcher: &mut WatcherState,
        outcome: &PollOutcome,
    ) -> (res: Option<WatchStep>)
        requires
            old(self).wf(),
            old(watcher).wf(),
        ensures
            final(self).wf(),
            final(watcher).wf(),
            res.is_some() == old(self).rooms().contains_key(room_id@),
            match res {
                None => final(self).rooms() == old(self).rooms() && *final(watcher) == *old(watcher),
                Some(step) => {
                    &&& only_room_changed(old(self).rooms(), final(self).rooms(), room_id@)
                    &&& watch_step_holds(
                        old(self).rooms()[room_id@],
                        final(self).rooms()[room_id@],
                        *old(watcher),
                        *final(watcher),
                        *outcome,
                        step,
                    )
                },
            },
    {
        proof {
            self.lemma_room_wf(room_id@);
        }
        match table_remove(&mut self.rooms, room_id) {
            Some(mut room) => {
                let step = room.watch_stats(watcher, outcome);
                table_insert(&mut self.rooms, room_id.clone(), room);
                proof {
                    lemma_put_back(old(self).rooms(), self.rooms(), room_id@, room);
                }
                Some(step)
            },
            None => {
                assert(self.rooms() =~= old(self).rooms());
                None
            },
        }
    }

    /// The playback time of the room `room_id`.
    pub fn time(&mut self, room_id: &String) -> (res: Option<usize>)
        requires
            old(self).wf(),
        ensures
            final(self).wf(),
            final(self).rooms() == old(self).rooms(),
            res.is_some() == old(self).rooms().contains_key(room_id@),
            match res {
                Some(time) => time == old(self).rooms()[room_id@].player().clock(),
                None => true,
            },
    {
        proof {
            self.lemma_room_wf(room_id@);
        }
        match table_remove(&mut self.rooms, room_id) {
            None => {
                assert(self.rooms() =~= old(self).rooms());
                None
            },
            Some(room) => {
                let time = room.time();
                table_insert(&mut self.rooms, room_id.clone(), room);
                assert(self.rooms() =~= old(self).rooms());
                Some(time)
            },
        }
    }

    /// Sets the playback time of the room `room_id`. Says whether there is
    /// such a room.
    pub fn set_time(&mut self, room_id: &String, time: usize) -> (found: bool)
        requires
            old(self).wf(),
        ensures
            final(self).wf(),
            found == old(self).rooms().contains_key(room_id@),
            !found ==> final(self).rooms() == old(self).rooms(),
            found ==> {
                let before = old(self).rooms()[room_id@];
                let after = final(self).rooms()[room_id@];
                &&& only_room_changed(old(self).rooms(), final(self).rooms(), room_id@)
                &&& after.same_but_player(&before)
                &&& after.player().clock() == time
                &&& after.player().queue() == before.player().queue()
            },
    {
        proof {
            self.lemma_room_wf(room_id@);
        }
        match table_remove(&mut self.rooms, room_id) {
            None => {
                assert(self.rooms() =~= old(self).rooms());
                false
            },
            Some(mut room) => {
                room.set_time(time);
                table_insert(&mut self.rooms, room_id.clone(), room);
                proof {
                    lemma_put_back(old(self).rooms(), self.rooms(), room_id@, room);
                }
                true
            },
        }
    }

    /// The current track of the room `room_id`; nothing where there is no
    /// such room.
    pub fn current_track(&mut self, room_id: &String) -> (res: Option<Option<Track>>)
        requires
            old(self).wf(),
        ensures
            final(self).wf(),
            final(self).rooms() == old(self).rooms(),
            res == if old(self).rooms().contains_key(room_id@) {
                Some(old(self).rooms()[room_id@].player().queue().current())
            } else {
                None
            },
    {
        proof {
            self.lemma_room_wf(room_id@);
        }
        match table_remove(&mut self.rooms, room_id) {
            None => {
                assert(self.rooms() =~= old(self).rooms());
                None
            },
            Some(room) => {
                let track = room.current_track();
                table_insert(&mut self.rooms, room_id.clone(), room);
                assert(self.rooms() =~= old(self).rooms());
                Some(track)
            },
        }
    }

    /// Hands out the current track of the room `room_id` and moves its
    /// playlist on by one; nothing where there is no such room.
    pub fn next_track(&mut self, room_id: &String) -> (res: Option<Option<Track>>)
        requires
            old(self).wf(),
        ensures
            final(self).wf(),
            res.is_some() == old(self).rooms().contains_key(room_id@),
            match res {
                None => final(self).rooms() == old(self).rooms(),
                Some(track) => {
                    let before = old(self).rooms()[room_id@];
                    let after = final(self).rooms()[room_id@];
                    &&& only_room_changed(old(self).rooms(), final(self).rooms(), room_id@)
                    &&& after.same_but_player(&before)
                    &&& track == before.player().queue().current()
                    &&& after.player().clock() == before.player().clock()
                    &&& after.player().queue().items() == before.player().queue().items()
                    &&& after.player().queue().cursor() == cursor_forward(
                        before.player().queue().items().len(),
                        before.player().queue().cursor(),
                        1,
                    )
                },
            },
    {
        proof {
            self.lemma_room_wf(room_id@);
        }
        match table_remove(&mut self.rooms, room_id) {
            None => {
                assert(self.rooms() =~= old(self).rooms());
                None
            },
            Some(mut room) => {
                let track = room.next_track();
                table_insert(&mut self.rooms, room_id.clone(), room);
                proof {
                    lemma_put_back(old(self).rooms(), self.rooms(), room_id@, room);
                }
                Some(track)
            },
        }
    }

    /// Hands out the current track of the room `room_id` and moves its
    /// playlist back by one; nothing where there is no such room.
    pub fn previous_track(&mut self, room_id: &String) -> (res: Option<Option<Track>>)
        requires
            old(self).wf(),
        ensures
            final(self).wf(),
            res.is_some() == old(self).rooms().contains_key(room_id@),
            match res {
                None => final(self).rooms() == old(self).rooms(),
                Some(track) => {
                    let before = old(self).rooms()[room_id@];
                    let after = final(self).rooms()[room_id@];
                    &&& only_room_changed(old(self).rooms(), final(self).rooms(), room_id@)
                    &&& after.same_but_player(&before)
                    &&& track == before.player().queue().current()
                    &&& after.player().clock() == before.player().clock()
                    &&& after.player().queue().items() == before.player().queue().items()
                    &&& after.player().queue().cursor() == cursor_backward(
                        before.player().queue().items().len(),
                        before.player().queue().cursor(),
                        1,
                    )
                },
            },
    {
        proof {
            self.lemma_room_wf(room_id@);
        }
        match table_remove(&mut self.rooms, room_id) {
            None => {
                assert(self.rooms() =~= old(self).rooms());
                None
            },
            Some(mut room) => {
                let track = room.previous_track();
                table_insert(&mut self.rooms, room_id.clone(), room);
                proof {
                    lemma_put_back(old(self).rooms(), self.rooms(), room_id@, room);
                }
                Some(track)
            },
        }
    }

    /// Adds a track at the end of the playlist of the room `room_id`. Says
    /// whether there is such a room.
    pub fn add_track(&mut self, room_id: &String, track: Track) -> (found: bool)
        requires
            old(self).wf(),
        ensures
            final(self).wf(),
            found == old(self).rooms().contains_key(room_id@),
            !found ==> final(self).rooms() == old(self).rooms(),
            found ==> {
                let before = old(self).rooms()[room_id@];
                let after = final(self).rooms()[room_id@];
                &&& only_room_changed(old(self).rooms(), final(self).rooms(), room_id@)
                &&& after.same_but_player(&before)
                &&& after.player().clock() == before.player().clock()
                &&& after.player().queue().items() == before.player().queue().items().push(track)
                &&& after.player().queue().cursor() == before.player().queue().cursor()
            },
    {
        proof {
            self.lemma_room_wf(room_id@);
        }
        match table_remove(&mut self.rooms, room_id) {
            None => {
                assert(self.rooms() =~= old(self).rooms());
                false
            },
            Some(mut room) => {
                room.add_track(track);
                table_insert(&mut self.rooms, room_id.clone(), room);
                proof {
                    lemma_put_back(old(self).rooms(), self.rooms(), room_id@, room);
                }
                true
            },
        }
    }

    /// Takes the track at `index` out of the playlist of the room
    /// `room_id`; nothing where there is no such room.
    pub fn remove_track(&mut self, room_id: &String, index: usize) -> (res: Option<Option<Track>>)
        requires
            old(self).wf(),
        ensures
            final(self).wf(),
            res.is_some() == old(self).rooms().contains_key(room_id@),
            match res {
                None => final(self).rooms() == old(self).rooms(),
                Some(track) => {
                    let before = old(self).rooms()[room_id@];
                    let after = final(self).rooms()[room_id@];
                    let items = before.player().queue().items();
                    &&& only_room_changed(old(self).rooms(), final(self).rooms(), room_id@)
                    &&& after.same_but_player(&before)
                    &&& after.player().clock() == before.player().clock()
                    &&& index < items.len() ==> {
                        &&& track == Some(items[index as int])
                        &&& after.player().queue().items() == items.remove(index as int)
                        &&& after.player().queue().cursor() == cursor_after_delete(
                            before.player().queue().cursor(),
                            index as nat,
                        )
                    }
                    &&& index >= items.len() ==> {
                        &&& track.is_none()
                        &&& after.player().queue().items() == items
                        &&& after.player().queue().cursor() == before.player().queue().cursor()
                    }
                },
            },
    {
        proof {
            self.lemma_room_wf(room_id@);
        }
        match table_remove(&mut self.rooms, room_id) {
            None => {
                assert(self.rooms() =~= old(self).rooms());
                None
            },
            Some(mut room) => {
                let track = room.remove_track(index);
                table_insert(&mut self.rooms, room_id.clone(), room);
                proof {
                    lemma_put_back(old(self).rooms(), self.rooms(), room_id@, room);
                }
                Some(track)
            },
        }
    }

    /// Carries out an operation of the room lifecycle interface, named by
    /// `op`, on the room `room_id`, and says how it ended and what is to
    /// become of the room's watcher.
    pub fn create_or_delete_room(
        &mut self,
        op: &Option<String>,
        room_id: &Option<String>,
        session_id: &Option<String>,
        live_server: String,
    ) -> (res: OpOutcome)
        requires
            old(self).wf(),
        ensures
            final(self).wf(),
            res.reply == reply_for(old(self).rooms(), *op, *room_id, *session_id),
            res.watcher == watcher_order_for(old(self).rooms(), *op, *room_id),
            match requested(*op, *room_id, *session_id) {
                Some(RoomOp::Create) => {
                    let id = room_id.unwrap()@;
                    &&& final(self).rooms().contains_key(id)
                    &&& final(self).rooms() == rooms_after_create(
                        old(self).rooms(),
                        id,
                        final(self).rooms()[id],
                    )
                    &&& !old(self).rooms().contains_key(id) ==> is_fresh_room(
                        final(self).rooms()[id],
                        id,
                        live_server@,
                    )
                },
                Some(RoomOp::Delete) => final(self).rooms() == old(self).rooms().remove(
                    room_id.unwrap()@,
                ),
                Some(RoomOp::AddSession) => {
                    let id = room_id.unwrap()@;
                    if old(self).rooms().contains_key(id) {
                        let before = old(self).rooms()[id];
                        let after = final(self).rooms()[id];
                        &&& only_room_changed(old(self).rooms(), final(self).rooms(), id)
                        &&& after.same_but_whitelist(&before)
                        &&& after.whitelist() == Some(
                            match before.whitelist() {
                                Some(allowed) => allowed.insert(session_id.unwrap()@),
                                None => Set::<Seq<char>>::empty().insert(session_id.unwrap()@),
                            },
                        )
                    } else {
                        final(self).rooms() == old(self).rooms()
                    }
                },
                Some(RoomOp::RemoveSession) => {
                    let id = room_id.unwrap()@;
                    if old(self).rooms().contains_key(id) {
                        let before = old(self).rooms()[id];
                        let after = final(self).rooms()[id];
                        &&& only_room_changed(old(self).rooms(), final(self).rooms(), id)
                        &&& after.same_but_whitelist(&before)
                        &&& after.whitelist() == match before.whitelist() {
                            Some(allowed) => Some(allowed.remove(session_id.unwrap()@)),
                            None => None,
                        }
                    } else {
                        final(self).rooms() == old(self).rooms()
                    }
                },
                None => final(self).rooms() == old(self).rooms(),
            },
    {
        let id = match room_id {
            Some(id) => id,
            None => return OpOutcome { reply: OpReply::MissingRoomId, watcher: WatcherOrder::Keep },
        };
        let op = match op {
            Some(op) => op,
            None => return OpOutcome { reply: OpReply::MissingOp, watcher: WatcherOrder::Keep },
        };
        match parse_op(op) {
            Some(RoomOp::Create) => {
                let created = self.create_room(id.clone(), live_server);
                let watcher = if created {
                    WatcherOrder::Start
                } else {
                    WatcherOrder::Keep
                };
                OpOutcome { reply: OpReply::Done, watcher }
            },
            Some(RoomOp::Delete) => {
                if self.delete_room(id) {
                    OpOutcome { reply: OpReply::Done, watcher: WatcherOrder::End }
                } else {
                    OpOutcome { reply: OpReply::NotFound, watcher: WatcherOrder::Keep }
                }
            },
            Some(RoomOp::AddSession) => match session_id {
                Some(session) => {
                    let reply = if self.add_session(id, session.clone()) {
                        OpReply::Done
                    } else {
                        OpReply::NotFound
                    };
                    OpOutcome { reply, watcher: WatcherOrder::Keep }
                },
                None => OpOutcome { reply: OpReply::MissingSession, watcher: WatcherOrder::Keep },
            },
            Some(RoomOp::RemoveSession) => match session_id {
                Some(session) => {
                    let reply = if self.remove_session(id, session) {
                        OpReply::Done
                    } else {
                        OpReply::NotFound
                    };
                    OpOutcome { reply, watcher: WatcherOrder::Keep }
                },
                None => OpOutcome { reply: OpReply::MissingSession, watcher: WatcherOrder::Keep },
            },
            None => OpOutcome { reply: OpReply::UnknownOp, watcher: WatcherOrder::Keep },
        }
    }
}

/// An operation of the room lifecycle interface.
#[derive(Clone, Copy, PartialEq, Eq, Structural, Debug)]
pub enum RoomOp {
    Create,
    Delete,
    AddSession,
    RemoveSession,
}

/// How an operation of the room lifecycle interface ended.
#[derive(Clone, Copy, PartialEq, Eq, Structural, Debug)]
pub enum OpReply {
    /// No room id was given.
    MissingRoomId,
    /// No operation was named.
    MissingOp,
    /// The operation needs a session id, and none was given.
    MissingSession,
    /// The operation that was named is none of the four.
    UnknownOp,
    /// The operation was carried out.
    Done,
    /// There is no such room.
    NotFound,
}

/// What is to become of a room's watcher after an operation.
#[derive(Clone, Copy, PartialEq, Eq, Structural, Debug)]
pub enum WatcherOrder {
    /// Nothing.
    Keep,
    /// The room was made: its watcher is to be started.
    Start,
    /// The room was deleted: its watcher is to be ended.
    End,
}

/// How an operation ended, and what is to become of the room's watcher.
#[derive(Clone, Copy, PartialEq, Eq, Structural, Debug)]
pub struct OpOutcome {
    pub reply: OpReply,
    pub watcher: WatcherOrder,
}

/// The operation that a name stands for.
pub open spec fn op_named(name: Seq<char>) -> Option<RoomOp> {
    if name == "create"@ {
        Some(RoomOp::Create)
    } else if name == "delete"@ {
        Some(RoomOp::Delete)
    } else if name == "add_session"@ {
        Some(RoomOp::AddSession)
    } else if name == "remove_session"@ {
        Some(RoomOp::RemoveSession)
    } else {
        None
    }
}

/// The operation that is carried out for what was asked: none where the
/// room id or the name is missing, where the name is unknown, or where a
/// session operation comes without a session id.
pub open spec fn requested(
    op: Option<String>,
    room_id: Option<String>,
    session_id: Option<String>,
) -> Option<RoomOp> {
    if room_id.is_none() || op.is_none() {
        None
    } else {
        match op_named(op.unwrap()@) {
            Some(RoomOp::AddSession) => if session_id.is_some() {
                Some(RoomOp::AddSession)
            } else {
                None
            },
            Some(RoomOp::RemoveSession) => if session_id.is_some() {
                Some(RoomOp::RemoveSession)
            } else {
                None
            },
            other => other,
        }
    }
}

/// How what was asked ends: a missing room id is told first, then a
/// missing name, then an unknown one, then a missing session id. `create`
/// is always done; the others are done where the room exists.
pub open spec fn reply_for(
    rooms: Map<Seq<char>, Room>,
    op: Option<String>,
    room_id: Option<String>,
    session_id: Option<String>,
) -> OpReply {
    if room_id.is_none() {
        OpReply::MissingRoomId
    } else if op.is_none() {
        OpReply::MissingOp
    } else {
        match op_named(op.unwrap()@) {
            None => OpReply::UnknownOp,
            Some(RoomOp::Create) => OpReply::Done,
            Some(RoomOp::Delete) => if rooms.contains_key(room_id.unwrap()@) {
                OpReply::Done
            } else {
                OpReply::NotFound
            },
            Some(_) => if session_id.is_none() {
                OpReply::MissingSession
            } else if rooms.contains_key(room_id.unwrap()@) {
                OpReply::Done
            } else {
                OpReply::NotFound
            },
        }
    }
}

/// What is to become of the watcher: it is started where `create` makes a
/// room, ended where `delete` finds one, and kept otherwise.
pub open spec fn watcher_order_for(
    rooms: Map<Seq<char>, Room>,
    op: Option<String>,
    room_id: Option<String>,
) -> WatcherOrder {
    if room_id.is_none() || op.is_none() {
        WatcherOrder::Keep
    } else {
        match op_named(op.unwrap()@) {
            Some(RoomOp::Create) => if rooms.contains_key(room_id.unwrap()@) {
                WatcherOrder::Keep
            } else {
                WatcherOrder::Start
            },
            Some(RoomOp::Delete) => if rooms.contains_key(room_id.unwrap()@) {
                WatcherOrder::End
            } else {
                WatcherOrder::Keep
            },
            _ => WatcherOrder::Keep,
        }
    }
}

/// The operation that `name` stands for.
pub fn parse_op(name: &String) -> (op: Option<RoomOp>)
    ensures
        op == op_named(name@),
{
    if *name == String::from_str("create") {
        Some(RoomOp::Create)
    } else if *name == String::from_str("delete") {
        Some(RoomOp::Delete)
    } else if *name == String::from_str("add_session") {
        Some(RoomOp::AddSession)
    } else if *name == String::from_str("remove_session") {
        Some(RoomOp::RemoveSession)
    } else {
        None
    }
}

impl OpReply {
    /// The status code the reply is given with.
    pub open spec fn status_value(&self) -> u16 {
        match self {
            OpReply::MissingRoomId => 400,
            OpReply::MissingOp => 400,
            OpReply::MissingSession => 400,
            OpReply::UnknownOp => 404,
            OpReply::Done => 200,
            OpReply::NotFound => 404,
        }
    }

    /// The text the reply is given with.
    pub open spec fn body_text(&self) -> Seq<char> {
        match self {
            OpReply::MissingRoomId => "[ 400 ] Missing room_id query"@,
            OpReply::MissingOp => "[ 400 ] Missing op query"@,
            OpReply::MissingSession => "[ 400 ] session_id op query"@,
            OpReply::UnknownOp => "[ 404 ] Unknown operation"@,
            OpReply::Done => "[ OK ] Room operation complete"@,
            OpReply::NotFound => "[ 404 ] Item does not exist"@,
        }
    }

    /// The status code the reply is given with.
    pub fn status(&self) -> (code: u16)
        ensures
            code == self.status_value(),
    {
        match self {
            OpReply::MissingRoomId => 400,
            OpReply::MissingOp => 400,
            OpReply::MissingSession => 400,
            OpReply::UnknownOp => 404,
            OpReply::Done => 200,
            OpReply::NotFound => 404,
        }
    }

    /// The text the reply is given with.
    pub fn body(&self) -> (text: &'static str)
        ensures
            text@ == self.body_text(),
    {
        match self {
            OpReply::MissingRoomId => "[ 400 ] Missing room_id query",
            OpReply::MissingOp => "[ 400 ] Missing op query",
            OpReply::MissingSession => "[ 400 ] session_id op query",
            OpReply::UnknownOp => "[ 404 ] Unknown operation",
            OpReply::Done => "[ OK ] Room operation complete",
            OpReply::NotFound => "[ 404 ] Item does not exist",
        }
    }
}

/// Whether a client that presents `session` may join `room`.
pub open spec fn may_join(room: Room, session: Option<String>) -> bool {
    match room.whitelist() {
        None => true,
        Some(allowed) => match session {
            Some(id) => allowed.contains(id@),
            None => false,
        },
    }
}

/// Whether `room` can take no further listener or member.
pub open spec fn is_full(room: Room) -> bool {
    room.headcount().members >= usize::MAX || room.next_client() >= usize::MAX
}

proof fn lemma_put_back(
    before: Map<Seq<char>, Room>,
    after: Map<Seq<char>, Room>,
    id: Seq<char>,
    room: Room,
)
    requires
        before.contains_key(id),
        after == before.remove(id).insert(id, room),
    ensures
        only_room_changed(before, after, id),
        after[id] == room,
{
    assert(after.remove(id) =~= before.remove(id));
}

/// Creating is idempotent: a second `create` with the same id leaves the
/// rooms as the first one left them, so there is one room under that id,
/// and it starts no second watcher.
pub proof fn lemma_create_idempotent(
    rooms: Map<Seq<char>, Room>,
    id: Seq<char>,
    first: Room,
    second: Room,
)
    ensures
        rooms_after_create(rooms_after_create(rooms, id, first), id, second) == rooms_after_create(
            rooms,
            id,
            first,
        ),
        !create_spawns(rooms_after_create(rooms, id, first), id),
        rooms_after_create(rooms, id, first).contains_key(id),
        rooms_after_create(rooms, id, first).remove(id) == rooms.remove(id),
{
    assert(rooms_after_create(rooms, id, first).remove(id) =~= rooms.remove(id));
}

/// Deleting a room does not depend on its watcher: whatever the watcher
/// did before, the room is gone afterwards and every other room is there.
pub proof fn lemma_delete_removes(rooms: Map<Seq<char>, Room>, id: Seq<char>)
    ensures
        !rooms.remove(id).contains_key(id),
        forall|other: Seq<char>|
            other != id ==> (rooms.remove(id).contains_key(other) <==> rooms.contains_key(other)),
{
}

} // verus!
