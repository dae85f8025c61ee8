use roomcast::player::{AtomicDeQueue, MediaPlayer, Track};

fn track(title: &str) -> Track {
    Track { title: title.to_string(), url: "".to_string() }
}

fn get_queue() -> AtomicDeQueue<Track> {
    let mut queue: AtomicDeQueue<Track> = AtomicDeQueue::new();

    let t1 = Track { title: "Track 1".to_string(), url: "".to_string() };
    let t2 = Track { title: "Track 2".to_string(), url: "".to_string() };
    let t3 = Track { title: "Track 3".to_string(), url: "".to_string() };

    queue.append(t1);
    queue.append(t2);
    queue.append(t3);

    queue
}

#[test]
fn test_queue_len() {
    let queue = get_queue();

    assert_eq!(queue.len(), 3);
}

#[test]
fn test_queue_get() {
    let queue = get_queue();

    let t = queue.get();
    assert!(t.is_some());
}

#[test]
fn test_queue_rotate() {
    let mut queue = get_queue();

    queue.rotate(1);

    if let Some(t) = queue.get() {
        assert_eq!(t.title, "Track 3");
    }
}

#[test]
fn test_queue_remove() {
    let mut queue = get_queue();

    let t = queue.delete(0);
    assert!(t.is_some());

    if let Some(t) = queue.get() {
        assert_eq!(t.title, "Track 2");
    }
}

#[test]
fn test_queue_next() {
    let mut queue = get_queue();

    // Rotate left 1
    queue.lrotate(1);

    let track = queue.get();
    assert!(track.is_some());

    let track = track.unwrap();
    assert_eq!(track.title, "Track 2");
}

#[test]
fn test_queue_previous() {
    let mut queue = get_queue();

    // Rotate right 1
    queue.rotate(1);

    let track = queue.get();
    assert!(track.is_some());

    let track = track.unwrap();
    assert_eq!(track.title, "Track 3");
}

#[test]
fn test_queue_next_large() {
    let mut queue = get_queue();

    // Rotate left 1
    queue.lrotate(11);

    let track = queue.get();
    assert!(track.is_some());

    let track = track.unwrap();
    assert_eq!(track.title, "Track 3");
}

#[test]
fn test_queue_previous_large() {
    let mut queue = get_queue();

    // Rotate right 1
    queue.rotate(11);

    let track = queue.get();
    assert!(track.is_some());

    let track = track.unwrap();
    assert_eq!(track.title, "Track 2");
}

#[test]
fn empty_queue_has_no_current_and_rotates_nowhere() {
    let mut queue: AtomicDeQueue<Track> = AtomicDeQueue::default();
    assert_eq!(queue.len(), 0);
    queue.rotate(1);
    queue.lrotate(7);
    assert!(queue.get().is_none());
    assert!(queue.delete(0).is_none());
}

#[test]
fn forward_by_length_comes_back() {
    let mut queue = get_queue();
    queue.lrotate(1);
    queue.lrotate(3);
    assert_eq!(queue.get().unwrap().title, "Track 2");
}

#[test]
fn forward_passes_the_tail() {
    let mut queue = get_queue();
    queue.lrotate(2);
    assert_eq!(queue.get().unwrap().title, "Track 3");
    queue.lrotate(2);
    assert_eq!(queue.get().unwrap().title, "Track 2");
}

#[test]
fn backward_undoes_forward() {
    for k in 0..10usize {
        let mut queue = get_queue();
        queue.lrotate(1);
        queue.lrotate(k);
        queue.rotate(k);
        assert_eq!(queue.get().unwrap().title, "Track 2");
        queue.rotate(k);
        queue.lrotate(k);
        assert_eq!(queue.get().unwrap().title, "Track 2");
    }
}

#[test]
fn delete_at_or_before_cursor_resets_cursor() {
    let mut queue: AtomicDeQueue<Track> = AtomicDeQueue::new();
    queue.append(track("A"));
    queue.append(track("B"));
    queue.append(track("C"));
    queue.lrotate(2);
    assert_eq!(queue.get().unwrap().title, "C");
    let gone = queue.delete(0);
    assert_eq!(gone.unwrap().title, "A");
    assert_eq!(queue.len(), 2);
    assert_eq!(queue.get().unwrap().title, "B");
}

#[test]
fn delete_behind_cursor_keeps_cursor() {
    let mut queue: AtomicDeQueue<Track> = AtomicDeQueue::new();
    queue.append(track("A"));
    queue.append(track("B"));
    queue.append(track("C"));
    queue.lrotate(1);
    let gone = queue.delete(2);
    assert_eq!(gone.unwrap().title, "C");
    assert_eq!(queue.get().unwrap().title, "B");
}

#[test]
fn delete_out_of_range_changes_nothing() {
    let mut queue = get_queue();
    queue.lrotate(1);
    assert!(queue.delete(3).is_none());
    assert_eq!(queue.len(), 3);
    assert_eq!(queue.get().unwrap().title, "Track 2");
}

#[test]
fn append_keeps_cursor() {
    let mut queue = get_queue();
    queue.lrotate(2);
    queue.append(track("Track 4"));
    assert_eq!(queue.len(), 4);
    assert_eq!(queue.get().unwrap().title, "Track 3");
}

#[test]
fn player_hands_out_current_then_moves() {
    let mut player = MediaPlayer::new();
    assert!(player.next_track().is_none());
    assert!(player.current_track().is_none());
    player.add_track(track("one"));
    player.add_track(track("two"));
    player.add_track(track("three"));
    assert_eq!(player.next_track().unwrap().title, "one");
    assert_eq!(player.current_track().unwrap().title, "two");
    assert_eq!(player.previous_track().unwrap().title, "two");
    assert_eq!(player.current_track().unwrap().title, "one");
    assert_eq!(player.previous_track().unwrap().title, "one");
    assert_eq!(player.current_track().unwrap().title, "three");
    assert_eq!(player.remove_track(0).unwrap().title, "one");
    assert_eq!(player.current_track().unwrap().title, "two");
    assert!(player.remove_track(5).is_none());
}

#[test]
fn player_keeps_time() {
    let mut player = MediaPlayer::new();
    assert_eq!(player.time(), 0);
    player.set_time(42);
    assert_eq!(player.time(), 42);
}
