use roomcast::clients::Clients;
use roomcast::connection::{frame_is_heartbeat, step, ConnAction, ConnEvent, ConnState, Frame};
use roomcast::registry::{JoinError, LeaveError, RoomManager};
use roomcast::room::{multiplier_label, stats_url, stream_url, Room, RoomError, RoomEvent};
use roomcast::watcher::{PollOutcome, StreamStats, WatcherAction, WatcherState};

fn id(text: &str) -> String {
    text.to_string()
}

fn sample(video_total: usize, video_speed: usize, audio_total: usize, audio_speed: usize) -> PollOutcome {
    PollOutcome::Sample(StreamStats {
        key: id("lobby"),
        url: id("rtmp://live/lobby"),
        stream_id: 1,
        video_total_bytes: video_total,
        video_speed,
        audio_total_bytes: audio_total,
        audio_speed,
    })
}

#[test]
fn create_is_idempotent() {
    let mut registry = RoomManager::new();
    assert!(!registry.contains(&id("lobby")));
    assert!(registry.create_room(id("lobby"), id("http://live")));
    assert!(registry.contains(&id("lobby")));
    registry.join(&id("lobby"), &None).unwrap();
    assert!(!registry.create_room(id("lobby"), id("http://other")));
    assert_eq!(registry.get_basic_stats(&id("lobby")).unwrap().members, 1);
    assert!(registry.delete_room(&id("lobby")));
    assert!(!registry.contains(&id("lobby")));
}

#[test]
fn delete_says_whether_the_room_existed() {
    let mut registry = RoomManager::new();
    assert!(!registry.delete_room(&id("lobby")));
    registry.create_room(id("lobby"), id("http://live"));
    registry.create_room(id("attic"), id("http://live"));
    assert!(registry.delete_room(&id("lobby")));
    assert!(!registry.delete_room(&id("lobby")));
    assert!(registry.contains(&id("attic")));
    assert!(registry.get_basic_stats(&id("lobby")).is_none());
    assert!(registry.get_full_stats(&id("lobby")).is_none());
}

#[test]
fn joins_and_leaves_are_symmetric() {
    let mut registry = RoomManager::new();
    registry.create_room(id("lobby"), id("http://live"));
    let mut handles = Vec::new();
    for n in 1..=20usize {
        let joined = registry.join(&id("lobby"), &None).unwrap();
        assert_eq!(joined.stats.members, n);
        assert_eq!(joined.recipients.len(), n);
        assert!(joined.recipients.contains(&joined.handle));
        handles.push(joined.handle);
    }
    assert_eq!(registry.get_basic_stats(&id("lobby")).unwrap().multiplier, "1.5x");
    for handle in handles {
        registry.leave(&id("lobby"), handle).unwrap();
    }
    let stats = registry.get_basic_stats(&id("lobby")).unwrap();
    assert_eq!(stats.members, 0);
    assert_eq!(stats.multiplier, "0.0x");
    assert_eq!(registry.get_full_stats(&id("lobby")).unwrap().multiplier, 0);
}

#[test]
fn join_sets_the_multiplier() {
    let mut room = Room::new(id("lobby"), id("http://live"));
    assert_eq!(room.get_basic_stats().multiplier, "0.0x");
    assert_eq!(room.member_join().ok().unwrap().multiplier, "1.0x");
    assert_eq!(room.member_join().ok().unwrap().multiplier, "1.1x");
    assert_eq!(room.member_join().ok().unwrap().multiplier, "1.2x");
    assert_eq!(room.member_join().ok().unwrap().multiplier, "1.2x");
    assert_eq!(room.member_join().ok().unwrap().multiplier, "1.3x");
    assert_eq!(room.member_count(), 5);
    assert_eq!(room.get_full_stats().multiplier, 13);
    assert_eq!(room.member_leave().ok().unwrap().multiplier, "1.2x");
}

#[test]
fn leaving_an_empty_room_is_an_error() {
    let mut room = Room::new(id("lobby"), id("http://live"));
    assert_eq!(room.member_leave().err(), Some(RoomError::NoMembers));
    assert_eq!(room.member_count(), 0);
    let mut registry = RoomManager::new();
    registry.create_room(id("lobby"), id("http://live"));
    assert_eq!(registry.leave(&id("lobby"), 0).err(), Some(LeaveError::NoMembers));
    assert_eq!(registry.leave(&id("attic"), 0).err(), Some(LeaveError::UnknownRoom));
    assert_eq!(registry.get_basic_stats(&id("lobby")).unwrap().members, 0);
}

#[test]
fn adjust_modifier_stores_tenths_above_one() {
    let mut room = Room::new(id("lobby"), id("http://live"));
    assert_eq!(room.adjust_modifier(5).multiplier, "0.0x");
    room.member_join().ok().unwrap();
    assert_eq!(room.adjust_modifier(5).multiplier, "1.5x");
    assert_eq!(room.adjust_modifier(115).multiplier, "12.5x");
}

#[test]
fn disconnect_cleans_up() {
    let mut registry = RoomManager::new();
    registry.create_room(id("lobby"), id("http://live"));
    let a = registry.join(&id("lobby"), &None).unwrap().handle;
    let b = registry.join(&id("lobby"), &None).unwrap().handle;
    let c = registry.join(&id("lobby"), &None).unwrap().handle;
    assert!(a != b && b != c && a != c);
    let gone = registry.leave(&id("lobby"), b).unwrap();
    assert_eq!(gone.stats.members, 2);
    let mut to = gone.recipients.clone();
    to.sort();
    let mut expected = vec![a, c];
    expected.sort();
    assert_eq!(to, expected);
    assert_eq!(registry.get_basic_stats(&id("lobby")).unwrap().members, 2);
}

#[test]
fn refused_listeners_are_dropped() {
    let mut clients = Clients::new();
    clients.add_client(1);
    clients.add_client(2);
    clients.add_client(3);
    clients.add_client(2);
    assert_eq!(clients.recipients().len(), 3);
    clients.emit(&vec![2, 9]);
    assert!(clients.has_client(1));
    assert!(!clients.has_client(2));
    assert!(clients.has_client(3));
    clients.remove_client(1);
    clients.remove_client(1);
    assert_eq!(clients.recipients(), vec![3]);
}

#[test]
fn room_settles_a_broadcast() {
    let mut room = Room::new(id("lobby"), id("http://live"));
    let a = room.subscribe().unwrap();
    let b = room.subscribe().unwrap();
    assert_eq!(room.listeners().len(), 2);
    let out = room.send(id("hello"));
    assert_eq!(out.message, "hello");
    assert_eq!(out.recipients.len(), 2);
    assert!(out.recipients.contains(&a) && out.recipients.contains(&b));
    room.settle(&vec![a]);
    assert_eq!(room.send(id("again")).recipients, vec![b]);
    room.unsubscribe(b);
    assert!(room.listeners().is_empty());
    let c = room.subscribe().unwrap();
    assert!(c != a && c != b);
}

#[test]
fn whitelist_decides_who_joins() {
    let mut registry = RoomManager::new();
    assert_eq!(registry.join(&id("lobby"), &None).err(), Some(JoinError::UnknownRoom));
    assert!(!registry.add_session(&id("lobby"), id("s1")));
    assert!(!registry.remove_session(&id("lobby"), &id("s1")));
    registry.create_room(id("lobby"), id("http://live"));
    assert!(registry.join(&id("lobby"), &None).is_ok());
    assert!(registry.add_session(&id("lobby"), id("s1")));
    assert!(registry.add_session(&id("lobby"), id("s2")));
    assert_eq!(registry.join(&id("lobby"), &None).err(), Some(JoinError::Unauthorized));
    assert_eq!(registry.join(&id("lobby"), &Some(id("s3"))).err(), Some(JoinError::Unauthorized));
    assert!(registry.join(&id("lobby"), &Some(id("s1"))).is_ok());
    assert!(registry.remove_session(&id("lobby"), &id("s1")));
    assert_eq!(registry.join(&id("lobby"), &Some(id("s1"))).err(), Some(JoinError::Unauthorized));
    assert!(registry.join(&id("lobby"), &Some(id("s2"))).is_ok());
    assert_eq!(registry.get_basic_stats(&id("lobby")).unwrap().members, 3);
}

#[test]
fn three_failures_stop_the_watcher() {
    let mut watcher = WatcherState::new();
    assert_eq!(watcher.observe(&PollOutcome::TransportError), WatcherAction::Sleep(60));
    assert_eq!(watcher.observe(&PollOutcome::TransportError), WatcherAction::Sleep(60));
    assert!(!watcher.is_stopped());
    assert_eq!(watcher.observe(&PollOutcome::TransportError), WatcherAction::Stop);
    assert!(watcher.is_stopped());
    assert_eq!(watcher.observe(&sample(1, 1, 1, 1)), WatcherAction::Stop);
    let mut registry = RoomManager::new();
    registry.create_room(id("lobby"), id("http://live"));
    assert!(registry.delete_room(&id("lobby")));
}

#[test]
fn no_stream_is_no_failure() {
    let mut watcher = WatcherState::new();
    assert_eq!(watcher.observe(&PollOutcome::Rejected), WatcherAction::Sleep(60));
    assert_eq!(watcher.observe(&PollOutcome::NotFound), WatcherAction::Sleep(10));
    assert_eq!(watcher.error_count(), 1);
    assert_eq!(watcher.observe(&PollOutcome::Undecodable), WatcherAction::Sleep(60));
    assert_eq!(watcher.observe(&sample(10, 8, 0, 0)), WatcherAction::Sleep(60));
    assert_eq!(watcher.error_count(), 0);
    assert_eq!(watcher.average_rate(), 1000);
    assert_eq!(watcher.observe(&PollOutcome::Rejected), WatcherAction::Sleep(60));
    assert_eq!(watcher.observe(&PollOutcome::Undecodable), WatcherAction::Sleep(60));
    assert_eq!(watcher.observe(&PollOutcome::Rejected), WatcherAction::Stop);
}

#[test]
fn a_sample_renews_the_totals() {
    let mut room = Room::new(id("lobby"), id("http://live"));
    let mut watcher = WatcherState::new();
    let step = room.watch_stats(&mut watcher, &PollOutcome::NotFound);
    assert_eq!(step.action, WatcherAction::Sleep(10));
    assert!(step.publish.is_none());
    let step = room.watch_stats(&mut watcher, &sample(6000, 8, 4000, 8));
    assert_eq!(step.action, WatcherAction::Sleep(60));
    match step.publish {
        Some(RoomEvent::LiveReady { stream_url }) => {
            assert_eq!(stream_url, "http://live/live/lobby.flv")
        }
        _ => panic!("a sample is published as a stream-ready event"),
    }
    let stats = room.get_full_stats();
    assert_eq!(stats.total_bytes_streamed, 10000);
    assert_eq!(stats.avg_bytes_per_sec, 2000);
    assert_eq!(stats.avg_stream_time, 5);
    room.watch_stats(&mut watcher, &sample(6000, 16, 4000, 16));
    assert_eq!(room.get_full_stats().avg_bytes_per_sec, 3000);
    let step = room.watch_stats(&mut watcher, &PollOutcome::Undecodable);
    assert!(step.publish.is_some());
    assert_eq!(room.get_full_stats().avg_bytes_per_sec, 3000);
}

#[test]
fn events_carry_their_opcode() {
    let mut room = Room::new(id("lobby"), id("http://live"));
    let stats = room.member_join().ok().unwrap();
    assert_eq!(RoomEvent::StatsUpdate(stats).opcode(), 0);
    assert_eq!(RoomEvent::LiveReady { stream_url: id("x") }.opcode(), 2);
}

#[test]
fn addresses_are_put_together() {
    assert_eq!(stream_url(&id("http://live"), &id("lobby")), "http://live/live/lobby.flv");
    assert_eq!(
        stats_url(&id("http://live"), &id("lobby"), &id("key")),
        "http://live/stats/livestat?room=lobby&authorization=key"
    );
    let room = Room::new(id("lobby"), id("http://live"));
    assert_eq!(room.poll_url(&id("k")), "http://live/stats/livestat?room=lobby&authorization=k");
}

#[test]
fn multiplier_label_has_one_decimal() {
    assert_eq!(multiplier_label(0), "0.0x");
    assert_eq!(multiplier_label(10), "1.0x");
    assert_eq!(multiplier_label(15), "1.5x");
    assert_eq!(multiplier_label(87), "8.7x");
    assert_eq!(multiplier_label(123), "12.3x");
}

#[test]
fn heartbeats_are_pongs_and_pings() {
    assert!(frame_is_heartbeat(&Frame::Pong));
    assert!(frame_is_heartbeat(&Frame::Text(id("ping"))));
    assert!(!frame_is_heartbeat(&Frame::Text(id("pong"))));
    assert!(!frame_is_heartbeat(&Frame::Text(id(""))));
    assert!(!frame_is_heartbeat(&Frame::Other));
}

#[test]
fn connection_runs_through_its_states() {
    let (state, action) = step(ConnState::Connecting, &ConnEvent::Refused);
    assert_eq!((state, action), (ConnState::Closed, ConnAction::Reject));
    let (state, action) = step(ConnState::Connecting, &ConnEvent::Admitted);
    assert_eq!((state, action), (ConnState::Joined, ConnAction::Serve));
    let (state, action) = step(state, &ConnEvent::Received(Frame::Text(id("ping"))));
    assert_eq!((state, action), (ConnState::Joined, ConnAction::Wait));
    let (state, action) = step(state, &ConnEvent::Received(Frame::Text(id("hello"))));
    assert_eq!((state, action), (ConnState::Draining, ConnAction::Drain));
    let (state, action) = step(state, &ConnEvent::SinkFailed);
    assert_eq!((state, action), (ConnState::Draining, ConnAction::Wait));
    let (state, action) = step(state, &ConnEvent::Flushed);
    assert_eq!((state, action), (ConnState::Closed, ConnAction::Leave));
    let (state, action) = step(state, &ConnEvent::Flushed);
    assert_eq!((state, action), (ConnState::Closed, ConnAction::Wait));
    for event in [ConnEvent::ReadFailed, ConnEvent::HeartbeatMissed, ConnEvent::SinkFailed] {
        assert_eq!(step(ConnState::Joined, &event), (ConnState::Draining, ConnAction::Drain));
    }
}
