use roomcast::channels::{after_recv, after_send, get_next, RecvAttempt, Retry, SendAttempt};
use roomcast::clients::User;
use roomcast::player::Track;
use roomcast::registry::{parse_op, OpReply, RoomManager, RoomOp, WatcherOrder};
use roomcast::room::Room;
use roomcast::users::Sessions;
use roomcast::watcher::{PollOutcome, StreamStats, WatcherAction, WatcherState};
use roomcast::registry::ListOptions;
use roomcast::webhook::{is_delivered, Message};

fn text(s: &str) -> String {
    s.to_string()
}

fn user(id: usize, name: &str) -> User {
    User { id, name: text(name), avatar_url: text("http://avatars/") + name }
}

fn track(title: &str) -> Track {
    Track { title: text(title), url: text("http://tracks/") + title }
}

#[test]
fn users_are_found_by_id_and_by_session() {
    let mut store = Sessions::new();
    assert!(store.get_user_by_id(1).is_none());
    assert!(store.get_user_by_session("s1").is_none());
    store.add_user(text("s1"), user(1, "ada"));
    store.add_user(text("s2"), user(2, "bob"));
    assert_eq!(store.get_user_by_id(1).unwrap().name, "ada");
    assert_eq!(store.get_user_by_id(2).unwrap().avatar_url, "http://avatars/bob");
    assert_eq!(store.get_user_by_session("s2").unwrap().id, 2);
    assert_eq!(store.get_user_by_session("s1").unwrap().name, "ada");
    assert!(store.get_user_by_session("s3").is_none());
    assert!(store.get_user_by_id(3).is_none());
}

#[test]
fn a_user_that_was_struck_is_not_found() {
    let mut store = Sessions::new();
    store.add_user(text("s1"), user(1, "ada"));
    store.add_user(text("s2"), user(2, "bob"));
    store.remove_user(1);
    assert!(store.get_user_by_id(1).is_none());
    assert!(store.get_user_by_session("s1").is_none());
    assert_eq!(store.get_user_by_session("s2").unwrap().name, "bob");
    store.remove_user(7);
    assert_eq!(store.get_user_by_id(2).unwrap().name, "bob");
}

#[test]
fn a_later_user_replaces_an_earlier_one() {
    let mut store = Sessions::new();
    store.add_user(text("s1"), user(1, "ada"));
    store.add_user(text("s1"), user(2, "bob"));
    assert_eq!(store.get_user_by_session("s1").unwrap().id, 2);
    store.add_user(text("s9"), user(2, "bea"));
    assert_eq!(store.get_user_by_session("s1").unwrap().name, "bea");
    assert_eq!(store.get_user_by_id(1).unwrap().name, "ada");
}

#[test]
fn channel_ends_retry_until_done_or_gone() {
    assert_eq!(after_send(SendAttempt::Sent), Retry::Done);
    assert_eq!(after_send(SendAttempt::Full), Retry::Again);
    assert_eq!(after_send(SendAttempt::Disconnected), Retry::GiveUp);
    assert_eq!(after_recv(RecvAttempt::Received), Retry::Done);
    assert_eq!(after_recv(RecvAttempt::Empty), Retry::Again);
    assert_eq!(after_recv(RecvAttempt::Disconnected), Retry::GiveUp);
}

#[test]
fn pool_turns_go_round() {
    let mut counter = 0usize;
    let turns: Vec<usize> = (0..7).map(|_| get_next(&mut counter, 3)).collect();
    assert_eq!(turns, vec![0, 1, 2, 0, 1, 2, 0]);
    let mut single = 0usize;
    assert_eq!(get_next(&mut single, 1), 0);
    assert_eq!(single, 0);
}

#[test]
fn webhook_takes_what_is_below_400() {
    assert!(is_delivered(200));
    assert!(is_delivered(204));
    assert!(is_delivered(399));
    assert!(!is_delivered(400));
    assert!(!is_delivered(500));
    let message = Message { icon_url: text("i"), description: text("d"), color: 7 };
    assert_eq!(message.color, 7);
    let options = ListOptions { live_server: text("http://live") };
    assert_eq!(options.live_server, "http://live");
}

#[test]
fn operations_are_known_by_name() {
    assert_eq!(parse_op(&text("create")), Some(RoomOp::Create));
    assert_eq!(parse_op(&text("delete")), Some(RoomOp::Delete));
    assert_eq!(parse_op(&text("add_session")), Some(RoomOp::AddSession));
    assert_eq!(parse_op(&text("remove_session")), Some(RoomOp::RemoveSession));
    assert_eq!(parse_op(&text("Create")), None);
    assert_eq!(parse_op(&text("")), None);
}

#[test]
fn lifecycle_operations_reply() {
    let mut registry = RoomManager::new();
    let lobby = Some(text("lobby"));
    let out = registry.create_or_delete_room(&Some(text("create")), &None, &None, text("s"));
    assert_eq!(out.reply, OpReply::MissingRoomId);
    let out = registry.create_or_delete_room(&None, &None, &None, text("s"));
    assert_eq!(out.reply, OpReply::MissingRoomId);
    let out = registry.create_or_delete_room(&None, &lobby, &None, text("s"));
    assert_eq!(out.reply, OpReply::MissingOp);
    let out = registry.create_or_delete_room(&Some(text("rename")), &lobby, &None, text("s"));
    assert_eq!((out.reply, out.watcher), (OpReply::UnknownOp, WatcherOrder::Keep));
    let out = registry.create_or_delete_room(&Some(text("delete")), &lobby, &None, text("s"));
    assert_eq!((out.reply, out.watcher), (OpReply::NotFound, WatcherOrder::Keep));
    let out = registry.create_or_delete_room(&Some(text("add_session")), &lobby, &Some(text("x")), text("s"));
    assert_eq!(out.reply, OpReply::NotFound);
    let out = registry.create_or_delete_room(&Some(text("create")), &lobby, &None, text("s"));
    assert_eq!((out.reply, out.watcher), (OpReply::Done, WatcherOrder::Start));
    let out = registry.create_or_delete_room(&Some(text("create")), &lobby, &None, text("s"));
    assert_eq!((out.reply, out.watcher), (OpReply::Done, WatcherOrder::Keep));
    let out = registry.create_or_delete_room(&Some(text("add_session")), &lobby, &None, text("s"));
    assert_eq!(out.reply, OpReply::MissingSession);
    let out = registry.create_or_delete_room(&Some(text("remove_session")), &lobby, &None, text("s"));
    assert_eq!(out.reply, OpReply::MissingSession);
    let out = registry.create_or_delete_room(&Some(text("add_session")), &lobby, &Some(text("x")), text("s"));
    assert_eq!(out.reply, OpReply::Done);
    assert!(registry.join(&text("lobby"), &Some(text("y"))).is_err());
    assert!(registry.join(&text("lobby"), &Some(text("x"))).is_ok());
    let out = registry.create_or_delete_room(&Some(text("remove_session")), &lobby, &Some(text("x")), text("s"));
    assert_eq!(out.reply, OpReply::Done);
    assert!(registry.join(&text("lobby"), &Some(text("x"))).is_err());
    let out = registry.create_or_delete_room(&Some(text("delete")), &lobby, &None, text("s"));
    assert_eq!((out.reply, out.watcher), (OpReply::Done, WatcherOrder::End));
    assert!(!registry.contains(&text("lobby")));
}

#[test]
fn replies_have_their_status_and_text() {
    assert_eq!(OpReply::MissingRoomId.status(), 400);
    assert_eq!(OpReply::MissingOp.status(), 400);
    assert_eq!(OpReply::MissingSession.status(), 400);
    assert_eq!(OpReply::UnknownOp.status(), 404);
    assert_eq!(OpReply::Done.status(), 200);
    assert_eq!(OpReply::NotFound.status(), 404);
    assert_eq!(OpReply::MissingRoomId.body(), "[ 400 ] Missing room_id query");
    assert_eq!(OpReply::MissingOp.body(), "[ 400 ] Missing op query");
    assert_eq!(OpReply::MissingSession.body(), "[ 400 ] session_id op query");
    assert_eq!(OpReply::UnknownOp.body(), "[ 404 ] Unknown operation");
    assert_eq!(OpReply::Done.body(), "[ OK ] Room operation complete");
    assert_eq!(OpReply::NotFound.body(), "[ 404 ] Item does not exist");
}

#[test]
fn registry_names_and_settles_recipients() {
    let mut registry = RoomManager::new();
    assert!(registry.send(&text("lobby"), text("m")).is_none());
    assert!(!registry.settle(&text("lobby"), &vec![1]));
    registry.create_room(text("lobby"), text("http://live"));
    registry.create_room(text("attic"), text("http://live"));
    let a = registry.join(&text("lobby"), &None).unwrap().handle;
    let b = registry.join(&text("lobby"), &None).unwrap().handle;
    let c = registry.join(&text("attic"), &None).unwrap().handle;
    let out = registry.send(&text("lobby"), text("m")).unwrap();
    assert_eq!(out.message, "m");
    assert_eq!(out.recipients.len(), 2);
    assert!(registry.settle(&text("lobby"), &vec![a]));
    assert_eq!(registry.send(&text("lobby"), text("m")).unwrap().recipients, vec![b]);
    assert_eq!(registry.send(&text("attic"), text("n")).unwrap().recipients, vec![c]);
    assert_eq!(registry.get_basic_stats(&text("lobby")).unwrap().members, 2);
}

#[test]
fn registry_takes_polls_for_a_room() {
    let mut registry = RoomManager::new();
    let mut watcher = WatcherState::new();
    assert!(registry.watch_stats(&text("lobby"), &mut watcher, &PollOutcome::TransportError).is_none());
    assert_eq!(watcher.error_count(), 0);
    registry.create_room(text("lobby"), text("http://live"));
    let sample = PollOutcome::Sample(StreamStats {
        key: text("lobby"),
        url: text("rtmp://live/lobby"),
        stream_id: 3,
        video_total_bytes: 900,
        video_speed: 4,
        audio_total_bytes: 100,
        audio_speed: 4,
    });
    let step = registry.watch_stats(&text("lobby"), &mut watcher, &sample).unwrap();
    assert_eq!(step.action, WatcherAction::Sleep(60));
    assert!(step.publish.is_some());
    let stats = registry.get_full_stats(&text("lobby")).unwrap();
    assert_eq!(stats.total_bytes_streamed, 1000);
    assert_eq!(stats.avg_bytes_per_sec, 1000);
    assert_eq!(stats.avg_stream_time, 1);
    for _ in 0..2 {
        let step = registry.watch_stats(&text("lobby"), &mut watcher, &PollOutcome::TransportError);
        assert_eq!(step.unwrap().action, WatcherAction::Sleep(60));
    }
    let step = registry.watch_stats(&text("lobby"), &mut watcher, &PollOutcome::TransportError);
    assert_eq!(step.unwrap().action, WatcherAction::Stop);
    let step = registry.watch_stats(&text("lobby"), &mut watcher, &sample).unwrap();
    assert_eq!(step.action, WatcherAction::Stop);
    assert!(step.publish.is_none());
    assert_eq!(registry.get_full_stats(&text("lobby")).unwrap().total_bytes_streamed, 1000);
    assert!(registry.delete_room(&text("lobby")));
}

#[test]
fn room_plays_its_list() {
    let mut room = Room::new(text("lobby"), text("http://live"));
    assert!(room.current_track().is_none());
    assert!(room.next_track().is_none());
    room.add_track(track("A"));
    room.add_track(track("B"));
    room.add_track(track("C"));
    assert_eq!(room.next_track().unwrap().title, "A");
    assert_eq!(room.next_track().unwrap().title, "B");
    assert_eq!(room.current_track().unwrap().title, "C");
    assert_eq!(room.remove_track(0).unwrap().title, "A");
    assert_eq!(room.current_track().unwrap().title, "B");
    assert_eq!(room.previous_track().unwrap().title, "B");
    assert_eq!(room.current_track().unwrap().url, "http://tracks/C");
    assert!(room.remove_track(2).is_none());
}

#[test]
fn registry_plays_the_list_of_a_room() {
    let mut registry = RoomManager::new();
    assert!(!registry.add_track(&text("lobby"), track("A")));
    assert!(registry.current_track(&text("lobby")).is_none());
    assert!(registry.next_track(&text("lobby")).is_none());
    assert!(registry.previous_track(&text("lobby")).is_none());
    assert!(registry.remove_track(&text("lobby"), 0).is_none());
    registry.create_room(text("lobby"), text("http://live"));
    assert!(registry.current_track(&text("lobby")).unwrap().is_none());
    assert!(registry.add_track(&text("lobby"), track("A")));
    assert!(registry.add_track(&text("lobby"), track("B")));
    assert_eq!(registry.next_track(&text("lobby")).unwrap().unwrap().title, "A");
    assert_eq!(registry.current_track(&text("lobby")).unwrap().unwrap().title, "B");
    assert_eq!(registry.previous_track(&text("lobby")).unwrap().unwrap().title, "B");
    assert_eq!(registry.current_track(&text("lobby")).unwrap().unwrap().title, "A");
    assert_eq!(registry.remove_track(&text("lobby"), 1).unwrap().unwrap().title, "B");
    assert!(registry.remove_track(&text("lobby"), 1).unwrap().is_none());
    assert_eq!(registry.current_track(&text("lobby")).unwrap().unwrap().title, "A");
}

#[test]
fn get_hands_out_a_copy_of_the_room() {
    let mut registry = RoomManager::new();
    assert!(registry.get(&text("lobby")).is_none());
    registry.create_room(text("lobby"), text("http://live"));
    let handle = registry.join(&text("lobby"), &None).unwrap().handle;
    registry.add_session(&text("lobby"), text("s1"));
    registry.add_track(&text("lobby"), track("A"));
    registry.set_time(&text("lobby"), 9);
    let mut copy = registry.get(&text("lobby")).unwrap();
    assert_eq!(copy.member_count(), 1);
    assert_eq!(copy.get_basic_stats().multiplier, "1.0x");
    assert_eq!(copy.listeners(), vec![handle]);
    assert!(copy.is_authorized(&Some(text("s1"))));
    assert!(!copy.is_authorized(&Some(text("s2"))));
    assert_eq!(copy.current_track().unwrap().title, "A");
    assert_eq!(copy.time(), 9);
    assert_eq!(copy.poll_url(&text("k")), "http://live/stats/livestat?room=lobby&authorization=k");
    copy.member_join().ok().unwrap();
    copy.remove_track(0);
    assert_eq!(copy.member_count(), 2);
    assert_eq!(registry.get_basic_stats(&text("lobby")).unwrap().members, 1);
    assert_eq!(registry.current_track(&text("lobby")).unwrap().unwrap().title, "A");
}
