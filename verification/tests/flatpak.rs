use wayland_spectre::flatpak::{
    check_flatpak_permissions, check_permission_store, check_screencast_denies,
    permission_store_path, FlatpakOutput,
};
use wayland_spectre::types::{CheckStatus, Layer};

fn out(success: bool, stdout: &str, stderr: &str) -> Option<FlatpakOutput> {
    Some(FlatpakOutput { success, stdout: stdout.to_string(), stderr: stderr.to_string() })
}

#[test]
fn store_path_and_check() {
    assert_eq!(
        permission_store_path(Some("/home/ann".to_string())),
        "/home/ann/.local/share/xdg-permission-store"
    );
    assert_eq!(permission_store_path(None), "/root/.local/share/xdg-permission-store");
    let r = check_permission_store(true, "/p");
    assert_eq!(r.status, CheckStatus::Pass);
    assert_eq!(r.detail, "Permission store found at /p");
    let r = check_permission_store(false, "/p");
    assert_eq!(r.status, CheckStatus::Pass);
    assert_eq!(r.detail, "No Flatpak permission store found — no stale denies possible");
    assert_eq!(r.layer, Layer::L5);
}

#[test]
fn flatpak_missing_skips() {
    let r = check_screencast_denies(None);
    assert_eq!(r[0].status, CheckStatus::Skip);
}

#[test]
fn clean_states_pass() {
    for o in [
        out(false, "x NO", ""),
        out(true, "  \n", ""),
        out(true, "app yes", "No permissions found"),
    ] {
        let r = check_screencast_denies(o);
        assert_eq!(r[0].status, CheckStatus::Pass);
        assert_eq!(r[0].detail, "No Flatpak screencast permissions in store (clean state)");
    }
    let r = check_screencast_denies(out(true, "org.app yes\n", ""));
    assert_eq!(r[0].detail, "No stale deny entries in Flatpak screencast permission store");
}

#[test]
fn stale_denies_warn_with_reset_fix() {
    let r = check_screencast_denies(out(true, "com.a.App  NO\norg.b  yes\nnet.c deny\n", ""));
    assert_eq!(r[0].status, CheckStatus::Warn);
    assert_eq!(
        r[0].detail,
        "Stale screencast deny entries found for: com.a.App, net.c. These will silently reject screen share requests."
    );
    assert_eq!(r[0].fix.as_deref(), Some("flatpak permission-reset screencast com.a.App"));
}

#[test]
fn flatpak_layer_order() {
    let r = check_flatpak_permissions(false, "/p", None);
    assert_eq!(r.len(), 2);
    assert_eq!(r[0].check, "flatpak_permission_store");
    assert_eq!(r[1].check, "flatpak_screencast_denies");
}

#[test]
fn reset_fix_names_first_denied_app() {
    let r = check_screencast_denies(out(true, "org.ok yes\n  \nnet.first deny\ncom.second NO\n", ""));
    assert_eq!(r[0].fix.as_deref(), Some("flatpak permission-reset screencast net.first"));
}
