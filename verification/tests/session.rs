use hyprclock::session::detect_wayland;

#[test]
fn wayland_session_type_detects_wayland() {
    assert!(detect_wayland("wayland", ""));
    assert!(detect_wayland("wayland", "wayland-1"));
}

#[test]
fn x11_session_with_display_set_is_not_wayland() {
    assert!(!detect_wayland("x11", "wayland-0"));
}

#[test]
fn both_empty_is_not_wayland() {
    assert!(!detect_wayland("", ""));
}

#[test]
fn display_set_without_x11_is_wayland() {
    assert!(detect_wayland("", "wayland-0"));
    assert!(detect_wayland("tty", "wayland-0"));
}

#[test]
fn x11_session_without_display_is_not_wayland() {
    assert!(!detect_wayland("x11", ""));
}
