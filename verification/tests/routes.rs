use roomcast::clients::User;
use roomcast::player::Track;
use roomcast::registry::RoomManager;
use roomcast::room::{MessageResp, RoomEvent};
use roomcast::routes::{
    add_track, authorize, bot_message, command, create_room, delete_room, get_current_track,
    get_time, login_redirect, move_track, next_track, previous_track, remove_track, send_message,
    set_time, Access, PlayerReply,
};
use roomcast::users::Sessions;

fn text(s: &str) -> String {
    s.to_string()
}

fn track(title: &str) -> Track {
    Track { title: text(title), url: text("") }
}

fn setup() -> (RoomManager, Sessions) {
    let mut registry = RoomManager::new();
    registry.create_room(text("lobby"), text("http://live"));
    let mut store = Sessions::new();
    store.add_user(
        text("s1"),
        User { id: 7, name: text("ada"), avatar_url: text("http://avatars/ada") },
    );
    (registry, store)
}

fn member() -> Option<String> {
    Some(text("s1"))
}

fn stranger() -> Option<String> {
    Some(text("nope"))
}

#[test]
fn access_needs_a_room_and_a_user() {
    let (registry, store) = setup();
    assert!(matches!(authorize(&registry, &store, &text("attic"), &member()), Access::NotFound));
    assert!(matches!(authorize(&registry, &store, &text("attic"), &None), Access::NotFound));
    assert!(matches!(authorize(&registry, &store, &text("lobby"), &None), Access::Unauthorized));
    assert!(matches!(
        authorize(&registry, &store, &text("lobby"), &stranger()),
        Access::Unauthorized
    ));
    match authorize(&registry, &store, &text("lobby"), &member()) {
        Access::Granted(user) => assert_eq!((user.id, user.name), (7, text("ada"))),
        _ => panic!("a known session gets in"),
    }
}

#[test]
fn replies_carry_status_and_message() {
    assert_eq!(PlayerReply::NotFound.status(), 404);
    assert_eq!(PlayerReply::Unauthorized.status(), 401);
    assert_eq!(PlayerReply::Done.status(), 200);
    assert_eq!(PlayerReply::QueueEmpty.status(), 200);
    assert_eq!(PlayerReply::NotFound.message(), "Room not found");
    assert_eq!(PlayerReply::Unauthorized.message(), "Unauthorized Request");
    assert_eq!(PlayerReply::Done.message(), "Action success");
    assert_eq!(PlayerReply::QueueEmpty.message(), "EMPTY");
}

#[test]
fn tracks_move_for_who_may_act() {
    let (mut registry, store) = setup();
    let lobby = text("lobby");
    assert_eq!(next_track(&mut registry, &store, &lobby, &member()).0, PlayerReply::QueueEmpty);
    assert_eq!(previous_track(&mut registry, &store, &lobby, &member()).0, PlayerReply::QueueEmpty);
    assert_eq!(add_track(&mut registry, &store, &lobby, &None, track("X")), PlayerReply::Unauthorized);
    assert_eq!(
        add_track(&mut registry, &store, &text("attic"), &member(), track("X")),
        PlayerReply::NotFound
    );
    assert!(get_current_track(&mut registry, &store, &lobby, &member()).1.is_none());
    assert_eq!(add_track(&mut registry, &store, &lobby, &member(), track("A")), PlayerReply::Done);
    assert_eq!(add_track(&mut registry, &store, &lobby, &member(), track("B")), PlayerReply::Done);
    assert_eq!(add_track(&mut registry, &store, &lobby, &member(), track("C")), PlayerReply::Done);
    let (reply, got) = next_track(&mut registry, &store, &lobby, &stranger());
    assert_eq!(reply, PlayerReply::Unauthorized);
    assert!(got.is_none());
    let (reply, got) = next_track(&mut registry, &store, &lobby, &member());
    assert_eq!(reply, PlayerReply::Done);
    assert_eq!(got.unwrap().title, "A");
    let (reply, got) = get_current_track(&mut registry, &store, &lobby, &member());
    assert_eq!(reply, PlayerReply::Done);
    assert_eq!(got.unwrap().title, "B");
    let (_, got) = previous_track(&mut registry, &store, &lobby, &member());
    assert_eq!(got.unwrap().title, "B");
    let (_, got) = move_track(&mut registry, &store, &lobby, &member(), false);
    assert_eq!(got.unwrap().title, "A");
    let (_, got) = move_track(&mut registry, &store, &lobby, &member(), true);
    assert_eq!(got.unwrap().title, "C");
    assert_eq!(remove_track(&mut registry, &store, &lobby, &stranger(), 0), PlayerReply::Unauthorized);
    assert_eq!(remove_track(&mut registry, &store, &lobby, &member(), 9), PlayerReply::Done);
    assert_eq!(remove_track(&mut registry, &store, &lobby, &member(), 0), PlayerReply::Done);
    let (reply, got) = get_current_track(&mut registry, &store, &lobby, &member());
    assert_eq!(reply, PlayerReply::Done);
    assert_eq!(got.unwrap().title, "B");
    let (reply, got) = get_current_track(&mut registry, &store, &text("attic"), &member());
    assert_eq!(reply, PlayerReply::NotFound);
    assert!(got.is_none());
}

#[test]
fn commands_need_access() {
    let (registry, store) = setup();
    assert_eq!(command(&registry, &store, &text("lobby"), &member()), PlayerReply::Done);
    assert_eq!(command(&registry, &store, &text("lobby"), &None), PlayerReply::Unauthorized);
    assert_eq!(command(&registry, &store, &text("attic"), &member()), PlayerReply::NotFound);
}

#[test]
fn time_moves_on_by_the_second_that_passed() {
    let (mut registry, store) = setup();
    let lobby = text("lobby");
    assert_eq!(get_time(&mut registry, &store, &lobby, &member()), (PlayerReply::Done, Some(1)));
    assert_eq!(registry.time(&lobby), Some(0));
    assert_eq!(set_time(&mut registry, &store, &lobby, &None, 41), PlayerReply::Unauthorized);
    assert_eq!(set_time(&mut registry, &store, &text("attic"), &member(), 41), PlayerReply::NotFound);
    assert_eq!(set_time(&mut registry, &store, &lobby, &member(), 41), PlayerReply::Done);
    assert_eq!(get_time(&mut registry, &store, &lobby, &member()), (PlayerReply::Done, Some(42)));
    assert_eq!(registry.time(&lobby), Some(42));
    assert_eq!(get_time(&mut registry, &store, &lobby, &stranger()), (PlayerReply::Unauthorized, None));
    assert_eq!(registry.time(&lobby), Some(42));
    assert_eq!(set_time(&mut registry, &store, &lobby, &member(), usize::MAX), PlayerReply::Done);
    assert_eq!(
        get_time(&mut registry, &store, &lobby, &member()),
        (PlayerReply::Done, Some(usize::MAX))
    );
    assert_eq!(registry.time(&text("attic")), None);
    assert!(!registry.set_time(&text("attic"), 3));
}

#[test]
fn chat_goes_out_under_the_senders_name() {
    let (registry, store) = setup();
    let lobby = text("lobby");
    let (reply, event) = bot_message(&registry, &store, &lobby, &member(), text("hello"));
    assert_eq!(reply, PlayerReply::Done);
    match event {
        Some(RoomEvent::Message(message)) => {
            assert_eq!(message.content, "hello");
            assert_eq!(message.user_id, 7);
            assert_eq!(message.username, "ada");
            assert_eq!(message.avatar, "http://avatars/ada");
        }
        _ => panic!("a chat message goes out as a message event"),
    }
    let (reply, event) = bot_message(&registry, &store, &lobby, &None, text("hello"));
    assert_eq!(reply, PlayerReply::Unauthorized);
    assert!(event.is_none());
    let given = MessageResp {
        content: text("hi"),
        user_id: 1,
        username: text("bob"),
        avatar: text("a"),
    };
    let (reply, event) = send_message(&registry, &store, &lobby, &member(), given);
    assert_eq!(reply, PlayerReply::Done);
    let event = event.unwrap();
    assert_eq!(event.opcode(), 5);
    match event {
        RoomEvent::Message(message) => assert_eq!(message.username, "bob"),
        _ => panic!("a chat message goes out as a message event"),
    }
    let given = MessageResp { content: text("hi"), user_id: 1, username: text("b"), avatar: text("a") };
    let (reply, event) = send_message(&registry, &store, &text("attic"), &member(), given);
    assert_eq!(reply, PlayerReply::NotFound);
    assert!(event.is_none());
}

#[test]
fn rooms_are_made_and_deleted_by_path() {
    let mut registry = RoomManager::new();
    let made = create_room(&mut registry, text("lobby"), text("http://live"));
    assert_eq!(made.status, 200);
    assert_eq!(made.message, "Room made with id: lobby");
    assert_eq!(made.data, Some(text("lobby")));
    let again = create_room(&mut registry, text("lobby"), text("http://live"));
    assert_eq!(again.status, 406);
    assert_eq!(again.message, "Room already exists with id: lobby");
    assert_eq!(again.data, None);
    let gone = delete_room(&mut registry, text("lobby"));
    assert_eq!(gone.status, 200);
    assert_eq!(gone.message, "Deleted room with id: lobby");
    assert_eq!(gone.data, Some(text("lobby")));
    let missing = delete_room(&mut registry, text("lobby"));
    assert_eq!(missing.status, 404);
    assert_eq!(missing.message, "Room does not exist with id: lobby");
    assert_eq!(missing.data, None);
}

#[test]
fn who_may_not_see_a_room_is_sent_to_sign_in() {
    assert_eq!(
        login_redirect(&text("lobby")),
        "https://spooderfy.com/login?redirect_to=/room/lobby"
    );
}
