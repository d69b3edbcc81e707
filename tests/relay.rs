use keyshow::relay::{is_exit_signal, next_frame, EventRelay, Frame};

#[test]
fn try_receive_on_empty_relay_returns_none() {
    let mut r = EventRelay::new();
    assert_eq!(r.try_receive(), None);
    assert_eq!(r.try_receive(), None);
    assert_eq!(r.pending_count(), 0);
}

#[test]
fn snapshots_arrive_in_order() {
    let mut r = EventRelay::new();
    r.send("A".to_string());
    r.send("AB".to_string());
    r.send("ABC".to_string());
    assert_eq!(r.pending_count(), 3);
    assert_eq!(r.try_receive(), Some("A".to_string()));
    assert_eq!(r.try_receive(), Some("AB".to_string()));
    r.send("ABCD".to_string());
    assert_eq!(r.try_receive(), Some("ABC".to_string()));
    assert_eq!(r.try_receive(), Some("ABCD".to_string()));
    assert_eq!(r.try_receive(), None);
}

#[test]
fn exit_marker_is_detected_anywhere() {
    assert!(is_exit_signal(".;.;.;"));
    assert!(is_exit_signal("ab.;.;.;"));
    assert!(is_exit_signal(".;.;.;cd"));
    assert!(!is_exit_signal(".;.;."));
    assert!(!is_exit_signal(".;.;;.;"));
    assert!(!is_exit_signal(""));
    assert!(!is_exit_signal("ABC"));
}

#[test]
fn snapshot_with_marker_ends_the_render_loop() {
    let prev = " ".to_string();
    assert!(matches!(next_frame(&prev, Some(".;.;.;".to_string())), Frame::Exit));
}

#[test]
fn new_snapshot_is_drawn() {
    let prev = "A".to_string();
    match next_frame(&prev, Some("AB".to_string())) {
        Frame::Draw(t) => assert_eq!(t, "AB"),
        Frame::Exit => panic!("unexpected exit"),
    }
}

#[test]
fn without_a_new_snapshot_the_last_one_is_drawn_again() {
    let prev = "ABC".to_string();
    match next_frame(&prev, None) {
        Frame::Draw(t) => assert_eq!(t, "ABC"),
        Frame::Exit => panic!("unexpected exit"),
    }
}

#[test]
fn last_snapshot_with_marker_still_ends_the_loop() {
    let prev = "x.;.;.;".to_string();
    assert!(matches!(next_frame(&prev, None), Frame::Exit));
}
