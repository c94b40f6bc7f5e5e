use wayland_spectre::dbus::{
    check_dbus_portal, check_zombie_sessions, count_session_nodes, portal_active,
    portal_presence, screencast_version_result, Introspection, PortalProbe, PortalVersion,
};
use wayland_spectre::types::{CheckStatus, Confidence, Layer};

#[test]
fn version_5_is_warn() {
    let r = screencast_version_result(PortalVersion::Version(5));
    assert_eq!(r.status, CheckStatus::Warn);
}

#[test]
fn version_4_is_pass() {
    let r = screencast_version_result(PortalVersion::Version(4));
    assert_eq!(r.status, CheckStatus::Pass);
}

#[test]
fn zombie_xml_count() {
    let xml = r#"<node><node name="session_abc"/><node name="session_def"/></node>"#;
    assert_eq!(count_session_nodes(xml), 2);
}

#[test]
fn clean_xml_no_zombies() {
    let xml = r#"<node><interface name="org.freedesktop.portal.ScreenCast"/></node>"#;
    assert_eq!(count_session_nodes(xml), 0);
}

#[test]
fn version_details() {
    let r = screencast_version_result(PortalVersion::Version(5));
    assert_eq!(r.fix.as_deref(), Some("systemctl --user restart xdg-desktop-portal"));
    assert_eq!(r.confidence, Confidence::High);
    let r = screencast_version_result(PortalVersion::Version(3));
    assert_eq!(r.status, CheckStatus::Warn);
    assert_eq!(
        r.detail,
        "ScreenCast API v3 — older portal, may lack ext_image_capture_source"
    );
    let r = screencast_version_result(PortalVersion::Version(12));
    assert_eq!(r.status, CheckStatus::Pass);
    assert_eq!(r.detail, "ScreenCast API v12 — newer than known-buggy 1.20.x series");
    let r = screencast_version_result(PortalVersion::PropertyUnreadable("boom".to_string()));
    assert_eq!(r.detail, "Could not read version property: boom");
    assert_eq!(r.confidence, Confidence::Low);
    let r = screencast_version_result(PortalVersion::InterfaceUnavailable("gone".to_string()));
    assert_eq!(r.status, CheckStatus::Warn);
    assert!(r.detail.starts_with("Cannot query ScreenCast interface version: gone — inconclusive"));
    assert!(r.fix.is_none());
}

#[test]
fn overlapping_session_nodes_are_counted_once_each() {
    assert_eq!(count_session_nodes(""), 0);
    assert_eq!(count_session_nodes("<node name=\"session<node name=\"session"), 2);
}

#[test]
fn zombie_results() {
    assert!(check_zombie_sessions(Introspection::Unavailable).is_empty());
    let r = check_zombie_sessions(Introspection::Failed("denied".to_string()));
    assert_eq!(r[0].detail, "Introspect failed: denied");
    let r = check_zombie_sessions(Introspection::Xml("<node/>".to_string()));
    assert_eq!(r[0].status, CheckStatus::Pass);
    let r = check_zombie_sessions(Introspection::Xml(
        r#"<node><node name="session_abc"/><node name="session_def"/></node>"#.to_string(),
    ));
    assert_eq!(r[0].status, CheckStatus::Warn);
    assert_eq!(r[0].detail, "2 session node(s) still registered — possible zombie(s)");
}

#[test]
fn portal_presence_cases() {
    let up: Result<Vec<String>, String> =
        Ok(vec!["org.a".to_string(), "org.freedesktop.portal.Desktop".to_string()]);
    assert!(portal_active(&up));
    let (r, ok) = portal_presence(&up);
    assert!(ok);
    assert_eq!(r.status, CheckStatus::Pass);

    let down: Result<Vec<String>, String> = Ok(vec!["org.a".to_string()]);
    assert!(!portal_active(&down));
    let (r, ok) = portal_presence(&down);
    assert!(!ok);
    assert_eq!(r.fix.as_deref(), Some("systemctl --user start xdg-desktop-portal"));

    let err: Result<Vec<String>, String> = Err("nope".to_string());
    let (r, ok) = portal_presence(&err);
    assert!(!ok);
    assert_eq!(r.detail, "Cannot reach D-Bus daemon: nope");
}

#[test]
fn portal_layer_whole() {
    let r = check_dbus_portal(Err("no bus".to_string()));
    assert_eq!(r.len(), 1);
    assert_eq!(r[0].check, "dbus_session");
    assert_eq!(r[0].status, CheckStatus::Fail);
    assert_eq!(r[0].detail, "Cannot connect to session bus: no bus");
    assert_eq!(r[0].layer, Layer::L1);

    let r = check_dbus_portal(Ok(PortalProbe {
        names: Ok(vec!["org.freedesktop.portal.Desktop".to_string()]),
        details: Some((PortalVersion::Version(4), Introspection::Xml("<node/>".to_string()))),
    }));
    let checks: Vec<&str> = r.iter().map(|x| x.check.as_str()).collect();
    assert_eq!(checks, vec!["portal_presence", "portal_screencast_iface", "zombie_sessions"]);

    // With the portal absent nothing further is reported.
    let r = check_dbus_portal(Ok(PortalProbe {
        names: Ok(vec![]),
        details: Some((PortalVersion::Version(4), Introspection::Unavailable)),
    }));
    assert_eq!(r.len(), 1);
}
