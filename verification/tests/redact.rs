use wayland_spectre::redact::redact_text;

#[test]
fn identities_are_replaced_by_placeholders() {
    let text = "Hostname  : box42\nlog: /home/ann/.config/kwinrc read by ann on box42\n";
    assert_eq!(
        redact_text(text, "box42", "ann", "/home/ann"),
        "Hostname  : <hostname>\nlog: <home>/.config/kwinrc read by <user> on <hostname>\n"
    );
}

#[test]
fn home_path_goes_before_user_name() {
    assert_eq!(redact_text("/home/ann/x ann", "pc", "ann", "/home/ann"), "<home>/x <user>");
}

#[test]
fn empty_identities_change_nothing() {
    assert_eq!(redact_text("keep me", "", "", ""), "keep me");
}

#[test]
fn redacted_text_holds_no_identity() {
    let out = redact_text("annbox /home/ann box ann", "box", "ann", "/home/ann");
    assert_eq!(out, "<user><hostname> <home> <hostname> <user>");
    assert!(!out.contains("box"));
    assert!(!out.contains("ann"));
    assert!(!out.contains("/home/ann"));
}

#[test]
fn a_user_named_like_a_placeholder_remains_visible() {
    // The placeholder itself spells the user name.
    let out = redact_text("user", "host", "user", "/home/user");
    assert_eq!(out, "<user>");
    assert!(out.contains("user"));
}
