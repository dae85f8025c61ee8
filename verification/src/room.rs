//! A room: its members and their reward multiplier, its listeners, its
//! whitelist, its playlist and the statistics of its stream.

use crate::clients::Clients;
use crate::multiplier::{multiplier_step_of, shown_multiplier, stored_multiplier};
use crate::opcodes::{OpCode, OP_LIVE_READY, OP_MESSAGE, OP_STATS_UPDATE};
use crate::player::{
    cursor_after_delete, cursor_backward, cursor_forward, MediaPlayer, Track,
};
use crate::sessions::SessionList;
use crate::stats::{byte_total, byte_total_value, stream_time, stream_time_value, trimmed_mean_value};
use crate::utils::{decimal, decimal_digits};
use crate::watcher::{
    action_after, errors_after, history_after_poll, shows_live, PollOutcome, WatcherAction,
    WatcherState,
};
use vstd::prelude::*;
use vstd::string::*;

verus! {

/// The member count of a room and the multiplier stored for it, in tenths.
pub struct Headcount {
    pub members: nat,
    pub multiplier: nat,
}

/// The headcount after one member joined.
pub open spec fn joined(h: Headcount) -> Headcount {
    Headcount { members: h.members + 1, multiplier: stored_multiplier(h.members + 1) }
}

/// The headcount after one member left. Nobody can leave an empty room: its
/// headcount stays as it is.
pub open spec fn left(h: Headcount) -> Headcount {
    if h.members == 0 {
        h
    } else {
        Headcount {
            members: (h.members - 1) as nat,
            multiplier: stored_multiplier((h.members - 1) as nat),
        }
    }
}

/// The headcount after `n` members joined, one after the other.
pub open spec fn after_joins(h: Headcount, n: nat) -> Headcount
    decreases n,
{
    if n == 0 {
        h
    } else {
        joined(after_joins(h, (n - 1) as nat))
    }
}

/// The headcount after `n` members left, one after the other.
pub open spec fn after_leaves(h: Headcount, n: nat) -> Headcount
    decreases n,
{
    if n == 0 {
        h
    } else {
        left(after_leaves(h, (n - 1) as nat))
    }
}

/// The multiplier as members read it, as in "1.2x", from its tenths.
pub open spec fn multiplier_text(tenths: nat) -> Seq<char> {
    decimal_digits(tenths / 10) + "."@ + decimal_digits(tenths % 10) + "x"@
}

/// The address a room's stream is played from.
pub open spec fn stream_url_text(live_server: Seq<char>, room_id: Seq<char>) -> Seq<char> {
    live_server + "/live/"@ + room_id + ".flv"@
}

/// The address the statistics of a room's stream are asked from.
pub open spec fn stats_url_text(
    live_server: Seq<char>,
    room_id: Seq<char>,
    api_key: Seq<char>,
) -> Seq<char> {
    live_server + "/stats/livestat?room="@ + room_id + "&authorization="@ + api_key
}

/// The statistics every member is told of when somebody joins or leaves.
pub struct BasicStats {
    /// The number of members in the room.
    pub members: usize,
    /// The multiplier as members read it, as in "1.2x".
    pub multiplier: String,
}

/// The statistics of a room with those of its stream.
#[derive(Clone, Copy, PartialEq, Eq, Structural, Debug)]
pub struct FullStats {
    /// The number of members in the room.
    pub members: usize,
    /// The multiplier that the room shows, in tenths.
    pub multiplier: usize,
    /// The bytes streamed, video and audio together.
    pub total_bytes_streamed: usize,
    /// The trimmed mean of the sampled byte rates.
    pub avg_bytes_per_sec: usize,
    /// The seconds the stream has run, going by total and rate.
    pub avg_stream_time: usize,
}

/// What is known of the stream of a room.
#[derive(Clone, Copy, PartialEq, Eq, Structural, Debug)]
pub struct StreamTotals {
    pub is_live: bool,
    pub data_streamed: usize,
    pub avg_byte_rate: usize,
    pub stream_time: usize,
}

/// A chat message as the listeners of a room get it.
pub struct MessageResp {
    pub content: String,
    pub user_id: usize,
    pub username: String,
    pub avatar: String,
}

/// An event that goes to every listener of a room.
pub enum RoomEvent {
    /// The membership statistics have changed.
    StatsUpdate(BasicStats),
    /// The stream can be played from this address.
    LiveReady { stream_url: String },
    /// Somebody said something.
    Message(MessageResp),
}

impl RoomEvent {
    /// The operation code the event is sent under.
    pub open spec fn opcode_value(&self) -> OpCode {
        match self {
            RoomEvent::StatsUpdate(_) => OP_STATS_UPDATE,
            RoomEvent::LiveReady { .. } => OP_LIVE_READY,
            RoomEvent::Message(_) => OP_MESSAGE,
        }
    }

    /// The operation code the event is sent under.
    pub fn opcode(&self) -> (op: OpCode)
        ensures
            op == self.opcode_value(),
    {
        match self {
            RoomEvent::StatsUpdate(_) => OP_STATS_UPDATE,
            RoomEvent::LiveReady { .. } => OP_LIVE_READY,
            RoomEvent::Message(_) => OP_MESSAGE,
        }
    }
}

/// A message on its way to the listeners of a room.
pub struct Broadcast {
    /// What is sent.
    pub message: String,
    /// The listeners it goes to, each once.
    pub recipients: Vec<usize>,
}

/// Why a room refused an operation.
#[derive(Clone, Copy, PartialEq, Eq, Structural, Debug)]
pub enum RoomError {
    /// Somebody was to leave a room that has no member.
    NoMembers,
    /// The room holds as many members as the machine can count.
    Full,
}

/// What a watcher's poll leads to: what the watcher does next, and the
/// event, if any, that the room's listeners are sent.
pub struct WatchStep {
    pub action: WatcherAction,
    pub publish: Option<RoomEvent>,
}

/// What one poll does to a room and to its watcher. A watcher that has
/// ended says `Stop` again, and nothing changes. Else the watcher counts
/// the poll and says what to do next, an answer of success marks the stream
/// as live and is published as a stream-ready event, a sample renews the
/// totals, and nothing else changes.
pub open spec fn watch_step_holds(
    before: Room,
    after: Room,
    watcher_before: WatcherState,
    watcher_after: WatcherState,
    outcome: PollOutcome,
    step: WatchStep,
) -> bool {
    if watcher_before.stopped() {
        &&& after.same_but_stream(&before)
        &&& after.stream() == before.stream()
        &&& watcher_after == watcher_before
        &&& step.action == WatcherAction::Stop
        &&& step.publish.is_none()
    } else {
        poll_step_holds(before, after, watcher_before, watcher_after, outcome, step)
    }
}

/// What one poll does to a room and to a watcher that runs.
pub open spec fn poll_step_holds(
    before: Room,
    after: Room,
    watcher_before: WatcherState,
    watcher_after: WatcherState,
    outcome: PollOutcome,
    step: WatchStep,
) -> bool {
    &&& after.same_but_stream(&before)
    &&& step.action == action_after(watcher_before.errors(), outcome)
    &&& watcher_after.stopped() == (step.action == WatcherAction::Stop)
    &&& watcher_after.errors() == errors_after(watcher_before.errors(), outcome)
    &&& watcher_after.history() == history_after_poll(watcher_before.history(), outcome)
    &&& after.stream().is_live == (before.stream().is_live || shows_live(outcome))
    &&& match outcome {
        PollOutcome::Sample(stats) => {
            let total = byte_total_value(
                stats.video_total_bytes as nat,
                stats.audio_total_bytes as nat,
            );
            let rate = trimmed_mean_value(watcher_after.history());
            &&& after.stream().data_streamed == total
            &&& after.stream().avg_byte_rate == rate
            &&& after.stream().stream_time == stream_time_value(total, rate)
        },
        _ => {
            &&& after.stream().data_streamed == before.stream().data_streamed
            &&& after.stream().avg_byte_rate == before.stream().avg_byte_rate
            &&& after.stream().stream_time == before.stream().stream_time
        },
    }
    &&& match step.publish {
        Some(RoomEvent::LiveReady { stream_url }) => shows_live(outcome) && stream_url@
            == stream_url_text(before.server(), before.id()),
        Some(_) => false,
        None => !shows_live(outcome),
    }
}

/// A room and all that is known of it.
pub struct Room {
    room_id: String,
    live_server: String,
    members: usize,
    multiplier: usize,
    stream: StreamTotals,
    clients: Clients,
    next_client: usize,
    sessions: Option<SessionList>,
    player: MediaPlayer,
}

/// The multiplier as members read it.
pub fn multiplier_label(tenths: usize) -> (label: String)
    ensures
        label@ == multiplier_text(tenths as nat),
{
    let mut label = decimal((tenths / 10) as u64);
    label.append(".");
    let digit = decimal((tenths % 10) as u64);
    label.append(digit.as_str());
    label.append("x");
    label
}

/// The address a room's stream is played from.
pub fn stream_url(live_server: &String, room_id: &String) -> (url: String)
    ensures
        url@ == stream_url_text(live_server@, room_id@),
{
    let mut url = live_server.clone();
    url.append("/live/");
    url.append(room_id.as_str());
    url.append(".flv");
    url
}

/// The address the statistics of a room's stream are asked from.
pub fn stats_url(live_server: &String, room_id: &String, api_key: &String) -> (url: String)
    ensures
        url@ == stats_url_text(live_server@, room_id@, api_key@),
{
    let mut url = live_server.clone();
    url.append("/stats/livestat?room=");
    url.append(room_id.as_str());
    url.append("&authorization=");
    url.append(api_key.as_str());
    url
}

impl Clone for Room {
    fn clone(&self) -> (res: Self)
        ensures
            res.mirrors(self),
            self.wf() ==> res.wf(),
    {
        Room {
            room_id: self.room_id.clone(),
            live_server: self.live_server.clone(),
            members: self.members,
            multiplier: self.multiplier,
            stream: self.stream,
            clients: self.clients.clone(),
            next_client: self.next_client,
            sessions: match &self.sessions {
                Some(list) => Some(list.clone()),
                None => None,
            },
            player: self.player.clone(),
        }
    }
}

impl Room {
    /// Whether two rooms are alike in all that is known of them: a copy
    /// of a room mirrors the room.
    pub open spec fn mirrors(&self, other: &Room) -> bool {
        &&& self.id() == other.id()
        &&& self.server() == other.server()
        &&& self.headcount() == other.headcount()
        &&& self.stream() == other.stream()
        &&& self.clients().subscribers() == other.clients().subscribers()
        &&& self.next_client() == other.next_client()
        &&& self.whitelist() == other.whitelist()
        &&& self.player().clock() == other.player().clock()
        &&& self.player().queue().items() == other.player().queue().items()
        &&& self.player().queue().cursor() == other.player().queue().cursor()
    }

    /// The id of the room.
    pub closed spec fn id(&self) -> Seq<char> {
        self.room_id@
    }

    /// The address of the streaming backend.
    pub closed spec fn server(&self) -> Seq<char> {
        self.live_server@
    }

    /// The member count and the stored multiplier.
    pub closed spec fn headcount(&self) -> Headcount {
        Headcount { members: self.members as nat, multiplier: self.multiplier as nat }
    }

    /// What is known of the stream.
    pub closed spec fn stream(&self) -> StreamTotals {
        self.stream
    }

    /// The listeners.
    pub closed spec fn clients(&self) -> Clients {
        self.clients
    }

    /// The id the next listener gets.
    pub closed spec fn next_client(&self) -> nat {
        self.next_client as nat
    }

    /// The sessions that may join, where the room is in whitelist mode.
    pub closed spec fn whitelist(&self) -> Option<Set<Seq<char>>> {
        match self.sessions {
            Some(list) => Some(list.allowed()),
            None => None,
        }
    }

    /// The playlist and the playback time.
    pub closed spec fn player(&self) -> MediaPlayer {
        self.player
    }

    /// The parts of the room are well formed, and every listener's id lies
    /// below the next one to be given out.
    pub closed spec fn wf(&self) -> bool {
        &&& self.clients.wf()
        &&& self.player.wf()
        &&& match self.sessions {
            Some(list) => list.wf(),
            None => true,
        }
        &&& forall|id: usize| self.clients.subscribers().contains(id) ==> id < self.next_client
    }

    /// The multiplier that the room shows, in tenths.
    pub open spec fn shown(&self) -> nat {
        shown_multiplier(self.headcount().members, self.headcount().multiplier)
    }

    /// Whether two rooms differ in nothing but their headcount.
    pub open spec fn same_but_headcount(&self, other: &Room) -> bool {
        &&& self.id() == other.id()
        &&& self.server() == other.server()
        &&& self.stream() == other.stream()
        &&& self.clients() == other.clients()
        &&& self.next_client() == other.next_client()
        &&& self.whitelist() == other.whitelist()
        &&& self.player() == other.player()
    }

    /// Whether two rooms differ in nothing but what is known of the stream.
    pub open spec fn same_but_stream(&self, other: &Room) -> bool {
        &&& self.id() == other.id()
        &&& self.server() == other.server()
        &&& self.headcount() == other.headcount()
        &&& self.clients() == other.clients()
        &&& self.next_client() == other.next_client()
        &&& self.whitelist() == other.whitelist()
        &&& self.player() == other.player()
    }

    /// Whether two rooms differ in nothing but their listeners.
    pub open spec fn same_but_clients(&self, other: &Room) -> bool {
        &&& self.id() == other.id()
        &&& self.server() == other.server()
        &&& self.headcount() == other.headcount()
        &&& self.stream() == other.stream()
        &&& self.whitelist() == other.whitelist()
        &&& self.player() == other.player()
    }

    /// Whether two rooms differ in nothing but their whitelist.
    pub open spec fn same_but_whitelist(&self, other: &Room) -> bool {
        &&& self.id() == other.id()
        &&& self.server() == other.server()
        &&& self.headcount() == other.headcount()
        &&& self.stream() == other.stream()
        &&& self.clients() == other.clients()
        &&& self.next_client() == other.next_client()
        &&& self.player() == other.player()
    }

    /// Whether two rooms differ in nothing but their headcount and their
    /// listeners.
    pub open spec fn same_but_members(&self, other: &Room) -> bool {
        &&& self.id() == other.id()
        &&& self.server() == other.server()
        &&& self.stream() == other.stream()
        &&& self.whitelist() == other.whitelist()
        &&& self.player() == other.player()
    }

    /// Whether the room can hand out one more listener id.
    pub fn has_free_handle(&self) -> (free: bool)
        ensures
            free == (self.next_client() < usize::MAX),
    {
        self.next_client < usize::MAX
    }

    /// A room without members, listeners, whitelist, tracks or stream.
    pub fn new(room_id: String, live_server: String) -> (room: Self)
        ensures
            room.wf(),
            room.id() == room_id@,
            room.server() == live_server@,
            room.headcount() == (Headcount { members: 0, multiplier: 0 }),
            room.stream() == (StreamTotals {
                is_live: false,
                data_streamed: 0,
                avg_byte_rate: 0,
                stream_time: 0,
            }),
            room.clients().subscribers() == Set::<usize>::empty(),
            room.next_client() == 0,
            room.whitelist().is_none(),
            room.player().queue().items() == Seq::<Track>::empty(),
            room.player().queue().cursor() == 0,
            room.player().clock() == 0,
    {
        Room {
            room_id,
            live_server,
            members: 0,
            multiplier: 0,
            stream: StreamTotals { is_live: false, data_streamed: 0, avg_byte_rate: 0, stream_time: 0 },
            clients: Clients::new(),
            next_client: 0,
            sessions: None,
            player: MediaPlayer::new(),
        }
    }

    /// The listeners of the room, each once.
    pub fn listeners(&self) -> (to: Vec<usize>)
        requires
            self.wf(),
        ensures
            to@.to_set() == self.clients().subscribers(),
            to@.no_duplicates(),
    {
        self.clients.recipients()
    }

    /// Addresses a message to the room: it goes to every listener, once.
    pub fn send(&self, msg: String) -> (out: Broadcast)
        requires
            self.wf(),
        ensures
            out.message == msg,
            out.recipients@.to_set() == self.clients().subscribers(),
            out.recipients@.no_duplicates(),
    {
        Broadcast { message: msg, recipients: self.clients.recipients() }
    }

    /// Settles a broadcast: the listeners whose sink refused the event are
    /// dropped, and all others stay.
    pub fn settle(&mut self, refused: &Vec<usize>)
        requires
            old(self).wf(),
        ensures
            final(self).wf(),
            final(self).same_but_clients(old(self)),
            final(self).next_client() == old(self).next_client(),
            final(self).clients().subscribers() == old(self).clients().subscribers().difference(
                refused@.to_set(),
            ),
    {
        self.clients.emit(refused);
    }

    /// Registers a new listener and hands out its id, which no listener of
    /// this room had before. `None` when the ids have run out.
    pub fn subscribe(&mut self) -> (handle: Option<usize>)
        requires
            old(self).wf(),
        ensures
            final(self).wf(),
            final(self).same_but_clients(old(self)),
            old(self).next_client() < usize::MAX <==> handle.is_some(),
            match handle {
                Some(id) => {
                    &&& id == old(self).next_client()
                    &&& !old(self).clients().subscribers().contains(id)
                    &&& final(self).clients().subscribers() == old(
                        self,
                    ).clients().subscribers().insert(id)
                    &&& final(self).next_client() == id + 1
                },
                None => {
                    &&& final(self).clients() == old(self).clients()
                    &&& final(self).next_client() == old(self).next_client()
                },
            },
    {
        if self.next_client == usize::MAX {
            return None;
        }
        let id: usize = self.next_client;
        self.clients.add_client(id);
        self.next_client = id + 1;
        Some(id)
    }

    /// Strikes a listener from the room.
    pub fn unsubscribe(&mut self, handle: usize)
        requires
            old(self).wf(),
        ensures
            final(self).wf(),
            final(self).same_but_clients(old(self)),
            final(self).next_client() == old(self).next_client(),
            final(self).clients().subscribers() == old(self).clients().subscribers().remove(handle),
    {
        self.clients.remove_client(handle);
    }

    /// The number of members in the room.
    pub fn member_count(&self) -> (n: usize)
        ensures
            n == self.headcount().members,
    {
        self.members
    }

    /// Counts one more member, sets the multiplier by the new count, and
    /// hands out the statistics that every listener is now sent.
    pub fn member_join(&mut self) -> (res: Result<BasicStats, RoomError>)
        requires
            old(self).wf(),
        ensures
            final(self).wf(),
            final(self).same_but_headcount(old(self)),
            res.is_ok() <==> old(self).headcount().members < usize::MAX,
            match res {
                Ok(stats) => {
                    &&& final(self).headcount() == joined(old(self).headcount())
                    &&& stats.members == final(self).headcount().members
                    &&& stats.multiplier@ == multiplier_text(final(self).shown())
                },
                Err(e) => e == RoomError::Full && final(self).headcount() == old(self).headcount(),
            },
    {
        if self.members == usize::MAX {
            return Err(RoomError::Full);
        }
        self.members = self.members + 1;
        let step = multiplier_step_of(self.members);
        self.multiplier = 10 + step;
        Ok(self.get_basic_stats())
    }

    /// Counts one member less, sets the multiplier by the new count, and
    /// hands out the statistics that every listener is now sent. Nobody can
    /// leave an empty room: that is an error, and nothing changes.
    pub fn member_leave(&mut self) -> (res: Result<BasicStats, RoomError>)
        requires
            old(self).wf(),
        ensures
            final(self).wf(),
            final(self).same_but_headcount(old(self)),
            final(self).headcount() == left(old(self).headcount()),
            res.is_ok() <==> old(self).headcount().members > 0,
            match res {
                Ok(stats) => {
                    &&& stats.members == final(self).headcount().members
                    &&& stats.multiplier@ == multiplier_text(final(self).shown())
                },
                Err(e) => e == RoomError::NoMembers,
            },
    {
        if self.members == 0 {
            return Err(RoomError::NoMembers);
        }
        self.members = self.members - 1;
        let step = multiplier_step_of(self.members);
        self.multiplier = 10 + step;
        Ok(self.get_basic_stats())
    }

    /// Stores a multiplier that lies `modifier` tenths above 1.0x, and hands
    /// out the statistics that every listener is now sent.
    pub fn adjust_modifier(&mut self, modifier: usize) -> (stats: BasicStats)
        requires
            old(self).wf(),
            modifier <= usize::MAX - 10,
        ensures
            final(self).wf(),
            final(self).same_but_headcount(old(self)),
            final(self).headcount() == (Headcount {
                members: old(self).headcount().members,
                multiplier: 10 + modifier as nat,
            }),
            stats.members == final(self).headcount().members,
            stats.multiplier@ == multiplier_text(final(self).shown()),
    {
        self.multiplier = 10 + modifier;
        self.get_basic_stats()
    }

    /// The member count and the multiplier as members read it. An empty
    /// room shows "0.0x".
    pub fn get_basic_stats(&self) -> (stats: BasicStats)
        ensures
            stats.members == self.headcount().members,
            stats.multiplier@ == multiplier_text(self.shown()),
    {
        let shown: usize = if self.members > 0 {
            self.multiplier
        } else {
            0
        };
        BasicStats { members: self.members, multiplier: multiplier_label(shown) }
    }

    /// The statistics of the room with those of its stream. The stream time
    /// is 0 where nothing was streamed or no rate is known.
    pub fn get_full_stats(&self) -> (stats: FullStats)
        ensures
            stats.members == self.headcount().members,
            stats.multiplier == self.shown(),
            stats.total_bytes_streamed == self.stream().data_streamed,
            stats.avg_bytes_per_sec == self.stream().avg_byte_rate,
            stats.avg_stream_time == stream_time_value(
                self.stream().data_streamed as nat,
                self.stream().avg_byte_rate as nat,
            ),
    {
        let shown: usize = if self.members > 0 {
            self.multiplier
        } else {
            0
        };
        FullStats {
            members: self.members,
            multiplier: shown,
            total_bytes_streamed: self.stream.data_streamed,
            avg_bytes_per_sec: self.stream.avg_byte_rate,
            avg_stream_time: stream_time(self.stream.data_streamed, self.stream.avg_byte_rate),
        }
    }

    /// Puts a session on the whitelist, which turns whitelist mode on.
    pub fn add_session(&mut self, session_id: String)
        requires
            old(self).wf(),
        ensures
            final(self).wf(),
            final(self).same_but_whitelist(old(self)),
            final(self).whitelist() == Some(
                match old(self).whitelist() {
                    Some(allowed) => allowed.insert(session_id@),
                    None => Set::<Seq<char>>::empty().insert(session_id@),
                },
            ),
    {
        let mut list = match self.sessions.take() {
            Some(list) => list,
            None => SessionList::new(),
        };
        list.insert(session_id);
        self.sessions = Some(list);
    }

    /// Takes a session off the whitelist. A room that is not in whitelist
    /// mode stays out of it.
    pub fn remove_session(&mut self, session_id: &String)
        requires
            old(self).wf(),
        ensures
            final(self).wf(),
            final(self).same_but_whitelist(old(self)),
            final(self).whitelist() == match old(self).whitelist() {
                Some(allowed) => Some(allowed.remove(session_id@)),
                None => None,
            },
    {
        match self.sessions.take() {
            Some(mut list) => {
                list.remove(session_id);
                self.sessions = Some(list);
            },
            None => {},
        }
    }

    /// Whether a client that presents `session` may join: anybody where
    /// the room is not in whitelist mode, else who presents a session that
    /// is on the whitelist.
    pub fn is_authorized(&self, session: &Option<String>) -> (ok: bool)
        ensures
            ok == match self.whitelist() {
                None => true,
                Some(allowed) => match session {
                    Some(id) => allowed.contains(id@),
                    None => false,
                },
            },
    {
        match &self.sessions {
            None => true,
            Some(list) => match session {
                Some(id) => list.contains(id),
                None => false,
            },
        }
    }

    /// Whether two rooms differ in nothing but their player.
    pub open spec fn same_but_player(&self, other: &Room) -> bool {
        &&& self.id() == other.id()
        &&& self.server() == other.server()
        &&& self.headcount() == other.headcount()
        &&& self.stream() == other.stream()
        &&& self.clients() == other.clients()
        &&& self.next_client() == other.next_client()
        &&& self.whitelist() == other.whitelist()
    }

    /// The playback time.
    pub fn time(&self) -> (t: usize)
        ensures
            t == self.player().clock(),
    {
        self.player.time()
    }

    /// Sets the playback time.
    pub fn set_time(&mut self, time: usize)
        requires
            old(self).wf(),
        ensures
            final(self).wf(),
            final(self).same_but_player(old(self)),
            final(self).player().clock() == time,
            final(self).player().queue() == old(self).player().queue(),
    {
        self.player.set_time(time);
    }

    /// The current track of the playlist.
    pub fn current_track(&self) -> (res: Option<Track>)
        requires
            self.wf(),
        ensures
            res == self.player().queue().current(),
    {
        self.player.current_track()
    }

    /// Hands out the current track and moves the playlist on by one.
    pub fn next_track(&mut self) -> (res: Option<Track>)
        requires
            old(self).wf(),
        ensures
            final(self).wf(),
            final(self).same_but_player(old(self)),
            res == old(self).player().queue().current(),
            final(self).player().clock() == old(self).player().clock(),
            final(self).player().queue().items() == old(self).player().queue().items(),
            final(self).player().queue().cursor() == cursor_forward(
                old(self).player().queue().items().len(),
                old(self).player().queue().cursor(),
                1,
            ),
    {
        self.player.next_track()
    }

    /// Hands out the current track and moves the playlist back by one.
    pub fn previous_track(&mut self) -> (res: Option<Track>)
        requires
            old(self).wf(),
        ensures
            final(self).wf(),
            final(self).same_but_player(old(self)),
            res == old(self).player().queue().current(),
            final(self).player().clock() == old(self).player().clock(),
            final(self).player().queue().items() == old(self).player().queue().items(),
            final(self).player().queue().cursor() == cursor_backward(
                old(self).player().queue().items().len(),
                old(self).player().queue().cursor(),
                1,
            ),
    {
        self.player.previous_track()
    }

    /// Adds a track at the end of the playlist.
    pub fn add_track(&mut self, track: Track)
        requires
            old(self).wf(),
        ensures
            final(self).wf(),
            final(self).same_but_player(old(self)),
            final(self).player().clock() == old(self).player().clock(),
            final(self).player().queue().items() == old(self).player().queue().items().push(track),
            final(self).player().queue().cursor() == old(self).player().queue().cursor(),
    {
        self.player.add_track(track);
    }

    /// Takes the track at `index` out of the playlist. Out of range,
    /// nothing changes.
    pub fn remove_track(&mut self, index: usize) -> (res: Option<Track>)
        requires
            old(self).wf(),
        ensures
            final(self).wf(),
            final(self).same_but_player(old(self)),
            final(self).player().clock() == old(self).player().clock(),
            index < old(self).player().queue().items().len() ==> {
                &&& res == Some(old(self).player().queue().items()[index as int])
                &&& final(self).player().queue().items() == old(
                    self,
                ).player().queue().items().remove(index as int)
                &&& final(self).player().queue().cursor() == cursor_after_delete(
                    old(self).player().queue().cursor(),
                    index as nat,
                )
            },
            index >= old(self).player().queue().items().len() ==> {
                &&& res.is_none()
                &&& final(self).player().queue().items() == old(self).player().queue().items()
                &&& final(self).player().queue().cursor() == old(self).player().queue().cursor()
            },
    {
        self.player.remove_track(index)
    }

    /// The address the statistics of this room's stream are asked from.
    pub fn poll_url(&self, api_key: &String) -> (url: String)
        ensures
            url@ == stats_url_text(self.server(), self.id(), api_key@),
    {
        stats_url(&self.live_server, &self.room_id, api_key)
    }

    /// Takes in one poll of the streaming backend: the watcher counts it,
    /// an answer of success marks the stream as live and is published as a
    /// stream-ready event, and a sample renews the totals.
    pub fn watch_stats(&mut self, watcher: &mut WatcherState, outcome: &PollOutcome) -> (step:
        WatchStep)
        requires
            old(self).wf(),
            old(watcher).wf(),
        ensures
            final(self).wf(),
            final(watcher).wf(),
            watch_step_holds(*old(self), *final(self), *old(watcher), *final(watcher), *outcome, step),
    {
        if watcher.is_stopped() {
            return WatchStep { action: WatcherAction::Stop, publish: None };
        }
        let action = watcher.observe(outcome);
        match outcome {
            PollOutcome::Sample(stats) => {
                let total = byte_total(stats.video_total_bytes, stats.audio_total_bytes);
                let rate = watcher.average_rate();
                self.stream.is_live = true;
                self.stream.data_streamed = total;
                self.stream.avg_byte_rate = rate;
                self.stream.stream_time = stream_time(total, rate);
                let url = stream_url(&self.live_server, &self.room_id);
                WatchStep { action, publish: Some(RoomEvent::LiveReady { stream_url: url }) }
            },
            PollOutcome::Undecodable => {
                self.stream.is_live = true;
                let url = stream_url(&self.live_server, &self.room_id);
                WatchStep { action, publish: Some(RoomEvent::LiveReady { stream_url: url }) }
            },
            _ => WatchStep { action, publish: None },
        }
    }
}

proof fn lemma_joins_count(h: Headcount, n: nat)
    ensures
        after_joins(h, n).members == h.members + n,
    decreases n,
{
    if n > 0 {
        lemma_joins_count(h, (n - 1) as nat);
    }
}

proof fn lemma_leaves_count(h: Headcount, n: nat)
    requires
        n <= h.members,
    ensures
        after_leaves(h, n).members == h.members - n,
    decreases n,
{
    if n > 0 {
        lemma_leaves_count(h, (n - 1) as nat);
    }
}

/// Joining and leaving are symmetric: after as many members have left a
/// room as had joined it when it was empty, the room is empty again and
/// shows the multiplier of an empty room.
pub proof fn lemma_join_leave_symmetry(fresh: Headcount, n: nat)
    requires
        fresh.members == 0,
    ensures
        after_leaves(after_joins(fresh, n), n).members == 0,
        shown_multiplier(
            after_leaves(after_joins(fresh, n), n).members,
            after_leaves(after_joins(fresh, n), n).multiplier,
        ) == 0,
{
    lemma_joins_count(fresh, n);
    lemma_leaves_count(after_joins(fresh, n), n);
}

/// Right after a join the stored multiplier is that of the new member
/// count, so that of two such counts the larger has the higher or the same
/// multiplier.
pub proof fn lemma_join_multiplier_monotonic(h1: Headcount, h2: Headcount)
    requires
        h1.members < h2.members,
    ensures
        joined(h1).multiplier <= joined(h2).multiplier,
{
    crate::multiplier::lemma_multiplier_monotonic(h1.members + 1, h2.members + 1);
}

} // verus!
