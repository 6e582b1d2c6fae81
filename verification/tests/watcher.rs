use hyprclock::watcher::{classify_event, socket_path, subscribe_command};

#[test]
fn enter_marker_line_emits_true() {
    let line = "fullscreen>>1";
    assert_eq!(classify_event(line), Some(true));
}

#[test]
fn enter_marker_within_event_emits_true() {
    let line = "fullscreen>>1,address>>0x55aa";
    assert_eq!(classify_event(line), Some(true));
}

#[test]
fn exit_marker_line_emits_false() {
    let line = "fullscreen>>0";
    assert_eq!(classify_event(line), Some(false));
}

#[test]
fn exit_marker_within_event_emits_false() {
    let line = "some prefix fullscreen>>0 some suffix";
    assert_eq!(classify_event(line), Some(false));
}

#[test]
fn unrecognized_lines_emit_nothing() {
    assert_eq!(classify_event(""), None);
    assert_eq!(classify_event("activewindow>>kitty,term"), None);
    assert_eq!(classify_event("fullscreen>>"), None);
    assert_eq!(classify_event("fullscreen>>2"), None);
    assert_eq!(classify_event("fullscreen>1"), None);
}

#[test]
fn enter_marker_wins_over_exit_marker() {
    let line = "fullscreen>>0 then fullscreen>>1";
    assert_eq!(classify_event(line), Some(true));
}

#[test]
fn socket_path_embeds_signature() {
    assert_eq!(
        socket_path("abc123"),
        "/run/user/1000/hypr/abc123/.socket2.sock"
    );
}

#[test]
fn socket_path_of_empty_signature() {
    assert_eq!(socket_path(""), "/run/user/1000/hypr//.socket2.sock");
}

#[test]
fn subscribe_command_is_newline_terminated() {
    assert_eq!(subscribe_command(), "subscribewindow\n");
}
