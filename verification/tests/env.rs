use wayland_spectre::env::{
    check_dbus_session, check_environment, check_wayland_display, check_xdg_desktop,
    check_xdg_runtime_dir, parse_systemd_env,
};
use wayland_spectre::types::{CheckStatus, Layer, SessionType};

fn env(lines: &[&str]) -> Vec<String> {
    lines.iter().map(|s| s.to_string()).collect()
}

#[test]
fn systemd_env_is_split_into_lines() {
    assert_eq!(
        parse_systemd_env("A=1\nB=2\r\nC=3"),
        vec!["A=1".to_string(), "B=2".to_string(), "C=3".to_string()]
    );
    assert!(parse_systemd_env("").is_empty());
}

#[test]
fn wayland_display_cases() {
    let both = env(&["WAYLAND_DISPLAY=wayland-0"]);
    let r = check_wayland_display(SessionType::Wayland, true, &both);
    assert_eq!(r[0].status, CheckStatus::Pass);
    assert_eq!(r[0].detail, "WAYLAND_DISPLAY set in both process env and systemd user env");

    let r = check_wayland_display(SessionType::Wayland, true, &env(&[]));
    assert_eq!(r[0].status, CheckStatus::Warn);
    assert_eq!(
        r[0].fix.as_deref(),
        Some("systemctl --user import-environment WAYLAND_DISPLAY XDG_CURRENT_DESKTOP")
    );

    let r = check_wayland_display(SessionType::Unknown, false, &both);
    assert_eq!(r[0].status, CheckStatus::Pass);

    let r = check_wayland_display(SessionType::Wayland, false, &env(&["XWAYLAND_DISPLAY=x"]));
    assert_eq!(r[0].status, CheckStatus::Fail);
    assert_eq!(r[0].fix.as_deref(), Some("systemctl --user import-environment WAYLAND_DISPLAY"));
}

#[test]
fn wayland_display_skips_on_x11() {
    let r = check_wayland_display(SessionType::X11, false, &env(&[]));
    assert_eq!(r.len(), 1);
    assert_eq!(r[0].status, CheckStatus::Skip);
    assert!(r[0].fix.is_none());
    assert!(r[0].detail.contains("X11 session"));
}

#[test]
fn xdg_desktop_is_case_insensitive() {
    let e = env(&["XDG_CURRENT_DESKTOP=KDE"]);
    let r = check_xdg_desktop(Some("KDE".to_string()), &e);
    assert_eq!(r[0].status, CheckStatus::Pass);
    assert_eq!(r[0].detail, "XDG_CURRENT_DESKTOP=KDE in both process env and systemd user env");
    let r = check_xdg_desktop(None, &e);
    assert_eq!(r[0].detail, "XDG_CURRENT_DESKTOP=KDE in systemd env");
    let r = check_xdg_desktop(Some("KDE".to_string()), &env(&["XDG_CURRENT_DESKTOP=GNOME"]));
    assert_eq!(r[0].status, CheckStatus::Warn);
    assert_eq!(
        r[0].fix.as_deref(),
        Some("systemctl --user import-environment XDG_CURRENT_DESKTOP")
    );
}

#[test]
fn dbus_and_runtime_dir() {
    let e = env(&["DBUS_SESSION_BUS_ADDRESS=unix:path=/run/user/1000/bus", "XDG_RUNTIME_DIR=/run/user/1000"]);
    assert_eq!(check_dbus_session(&e)[0].status, CheckStatus::Pass);
    assert_eq!(check_xdg_runtime_dir(&e)[0].status, CheckStatus::Pass);
    let r = check_dbus_session(&env(&[]));
    assert_eq!(r[0].status, CheckStatus::Warn);
    assert_eq!(
        r[0].fix.as_deref(),
        Some("systemctl --user import-environment DBUS_SESSION_BUS_ADDRESS")
    );
    let r = check_xdg_runtime_dir(&env(&[]));
    assert_eq!(r[0].detail, "XDG_RUNTIME_DIR missing from systemd user env");
}

#[test]
fn environment_layer_order() {
    let r = check_environment(SessionType::Wayland, true, None, env(&[]));
    let checks: Vec<&str> = r.iter().map(|x| x.check.as_str()).collect();
    assert_eq!(
        checks,
        vec!["WAYLAND_DISPLAY", "XDG_CURRENT_DESKTOP", "DBUS_SESSION_BUS_ADDRESS", "XDG_RUNTIME_DIR"]
    );
    assert!(r.iter().all(|x| x.layer == Layer::L6));
}
