use wayland_spectre::types::SessionType;

#[test]
fn xdg_wayland_wins() {
    assert_eq!(SessionType::classify(Some("wayland"), false, false), SessionType::Wayland);
}

#[test]
fn xdg_x11_wins_even_with_wayland_display() {
    // An explicit XDG_SESSION_TYPE=x11 outranks a stray WAYLAND_DISPLAY.
    assert_eq!(SessionType::classify(Some("x11"), true, true), SessionType::X11);
}

#[test]
fn unset_falls_back_to_wayland_display() {
    assert_eq!(SessionType::classify(None, true, true), SessionType::Wayland);
}

#[test]
fn unset_falls_back_to_display_when_no_wayland() {
    assert_eq!(SessionType::classify(None, false, true), SessionType::X11);
}

#[test]
fn empty_string_treated_as_unset() {
    assert_eq!(SessionType::classify(Some(""), true, false), SessionType::Wayland);
    assert_eq!(SessionType::classify(Some(""), false, true), SessionType::X11);
}

#[test]
fn tty_session_uses_fallback() {
    // SSH login shells report XDG_SESSION_TYPE=tty.
    assert_eq!(SessionType::classify(Some("tty"), false, true), SessionType::X11);
    assert_eq!(SessionType::classify(Some("tty"), false, false), SessionType::Unknown);
}

#[test]
fn whitespace_trimmed() {
    assert_eq!(SessionType::classify(Some(" wayland "), false, false), SessionType::Wayland);
}

#[test]
fn nothing_set_is_unknown() {
    assert_eq!(SessionType::classify(None, false, false), SessionType::Unknown);
}

#[test]
fn classification_is_case_sensitive() {
    assert_eq!(SessionType::classify(Some("Wayland"), false, true), SessionType::X11);
}

#[test]
fn serialises_uppercase() {
    assert_eq!(serde_json::to_string(SessionType::Wayland.as_str()).unwrap(), "\"WAYLAND\"");
    assert_eq!(serde_json::to_string(SessionType::X11.as_str()).unwrap(), "\"X11\"");
    assert_eq!(serde_json::to_string(SessionType::Unknown.as_str()).unwrap(), "\"UNKNOWN\"");
}
