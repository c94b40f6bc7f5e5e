use wayland_spectre::types::{CheckStatus, DiagnosticResult, Layer, SessionType};
use wayland_spectre::wayland::{
    build_checks, check_wayland_protocols, needs_wayland_connection, screencast_globals,
    x11_skip_results, GlobalClass, WlGlobal,
};

fn g(ifaces: &[&str]) -> Vec<WlGlobal> {
    ifaces
        .iter()
        .map(|i| WlGlobal { interface: i.to_string(), version: 1 })
        .collect()
}

fn status(results: &[DiagnosticResult], check: &str) -> CheckStatus {
    results
        .iter()
        .find(|r| r.check == check)
        .unwrap_or_else(|| panic!("check '{check}' not found"))
        .status
        .clone()
}

#[test]
fn kde_full_set_no_failures() {
    let r = build_checks(g(&[
        "wl_compositor", "xdg_wm_base", "org_kde_plasma_window_management",
        "zwp_linux_dmabuf_v1", "zkde_screencast_unstable_v1",
        "ext_image_capture_source_v1", "wp_linux_drm_syncobj_manager_v1",
        "wl_output",
    ]));
    assert!(r.iter().all(|x| x.status != CheckStatus::Fail));
}

#[test]
fn missing_required_globals_fail() {
    let r = build_checks(g(&[
        "wl_compositor", "xdg_wm_base", "org_kde_plasma_window_management", "wl_output",
    ]));
    assert_eq!(status(&r, "ext_image_capture_source_v1"), CheckStatus::Fail);
    assert_eq!(status(&r, "zwp_linux_dmabuf_v1"), CheckStatus::Fail);
}

#[test]
fn zkde_absent_skips_not_fails() {
    let r = build_checks(g(&[
        "wl_compositor", "xdg_wm_base", "org_kde_plasma_window_management", "wl_output",
    ]));
    assert_eq!(status(&r, "zkde_screencast_unstable_v1"), CheckStatus::Skip);
}

#[test]
fn zkde_skip_has_no_fix_and_explains_gating() {
    let r = build_checks(g(&[
        "wl_compositor", "xdg_wm_base", "org_kde_plasma_window_management", "wl_output",
    ]));
    let res = r.iter().find(|x| x.check == "zkde_screencast_unstable_v1").unwrap();
    assert!(res.fix.is_none(), "permission-gated skip must not offer a fix");
    assert!(
        res.detail.contains("authorised") || res.detail.contains("not evidence"),
        "detail should frame absence as inconclusive"
    );
    assert!(
        res.detail.contains("kwin_screencast_effect_active"),
        "detail should point at the reliable L7 signal"
    );
}

#[test]
fn zkde_present_still_passes() {
    let r = build_checks(g(&[
        "wl_compositor", "xdg_wm_base", "org_kde_plasma_window_management",
        "zkde_screencast_unstable_v1", "wl_output",
    ]));
    assert_eq!(status(&r, "zkde_screencast_unstable_v1"), CheckStatus::Pass);
}

#[test]
fn xwayland_warns() {
    let r = build_checks(g(&["wl_compositor", "wl_drm", "xdg_wm_base", "wl_output"]));
    assert_eq!(status(&r, "wayland_backend"), CheckStatus::Warn);
}

#[test]
fn no_outputs_fails() {
    let r = build_checks(g(&["wl_compositor", "xdg_wm_base", "org_kde_plasma_window_management"]));
    assert_eq!(status(&r, "wl_output_count"), CheckStatus::Fail);
}

#[test]
fn drm_syncobj_required_fails_when_absent() {
    let r = build_checks(g(&[
        "wl_compositor", "xdg_wm_base", "org_kde_plasma_window_management",
        "zwp_linux_dmabuf_v1", "zkde_screencast_unstable_v1",
        "ext_image_capture_source_v1",
        "wl_output",
    ]));
    assert_eq!(status(&r, "wp_linux_drm_syncobj_manager_v1"), CheckStatus::Fail);
}

#[test]
fn drm_syncobj_passes_when_present() {
    let r = build_checks(g(&[
        "wl_compositor", "xdg_wm_base", "org_kde_plasma_window_management",
        "zwp_linux_dmabuf_v1", "zkde_screencast_unstable_v1",
        "ext_image_capture_source_v1", "wp_linux_drm_syncobj_manager_v1",
        "wl_output",
    ]));
    assert_eq!(status(&r, "wp_linux_drm_syncobj_manager_v1"), CheckStatus::Pass);
}

#[test]
fn wlroots_screencopy_optional_warns_when_absent() {
    let r = build_checks(g(&[
        "wl_compositor", "xdg_wm_base", "org_kde_plasma_window_management",
        "zwp_linux_dmabuf_v1", "zkde_screencast_unstable_v1",
        "ext_image_capture_source_v1", "wp_linux_drm_syncobj_manager_v1",
        "wl_output",
    ]));
    assert_eq!(status(&r, "zwlr_screencopy_manager_v1"), CheckStatus::Warn);
}

#[test]
fn tiled_display_correlation_fires_on_two_outputs_without_zkde() {
    let r = build_checks(g(&[
        "wl_compositor", "xdg_wm_base", "org_kde_plasma_window_management",
        "zwp_linux_dmabuf_v1",
        "wl_output", "wl_output",
    ]));
    assert_eq!(status(&r, "wl_output_tiled_correlation"), CheckStatus::Warn);
}

#[test]
fn tiled_correlation_absent_when_zkde_present() {
    let r = build_checks(g(&[
        "wl_compositor", "xdg_wm_base", "org_kde_plasma_window_management",
        "zwp_linux_dmabuf_v1", "zkde_screencast_unstable_v1",
        "ext_image_capture_source_v1", "wp_linux_drm_syncobj_manager_v1",
        "wl_output", "wl_output",
    ]));
    assert!(r.iter().all(|r| r.check != "wl_output_tiled_correlation"));
}

#[test]
fn single_output_no_tiled_correlation() {
    let r = build_checks(g(&[
        "wl_compositor", "xdg_wm_base", "org_kde_plasma_window_management",
        "wl_output",
    ]));
    assert!(r.iter().all(|r| r.check != "wl_output_tiled_correlation"));
}

#[test]
fn bug_d_fires_when_both_screencast_globals_absent() {
    let r = build_checks(g(&[
        "wl_compositor", "xdg_wm_base", "org_kde_plasma_window_management",
        "zwp_linux_dmabuf_v1",
        "wl_output", "wl_output",
    ]));
    assert_eq!(status(&r, "bug_d_screencast_globals"), CheckStatus::Warn);
    let d = &r.iter().find(|x| x.check == "bug_d_screencast_globals").unwrap().detail;
    assert!(
        d.contains("Inconclusive") || d.contains("inconclusive"),
        "detail should frame the signature as inconclusive"
    );
    assert!(
        d.contains("kwin_screencast_effect_active"),
        "detail should defer to the reliable L7 signal"
    );
}

#[test]
fn bug_d_detail_contains_upstream_links() {
    let r = build_checks(g(&[
        "wl_compositor", "xdg_wm_base", "org_kde_plasma_window_management",
        "zwp_linux_dmabuf_v1", "wl_output",
    ]));
    let d = &r.iter().find(|x| x.check == "bug_d_screencast_globals").unwrap().detail;
    assert!(d.contains("493277"), "should reference KDE bug 493277");
    assert!(d.contains("331077"), "should reference NVIDIA forum thread");
    assert!(d.contains("Bug D"), "should self-identify as Bug D");
}

#[test]
fn bug_d_fix_is_kwin_restart() {
    let r = build_checks(g(&[
        "wl_compositor", "xdg_wm_base", "org_kde_plasma_window_management",
        "wl_output",
    ]));
    let fix = r
        .iter()
        .find(|x| x.check == "bug_d_screencast_globals")
        .and_then(|x| x.fix.as_deref())
        .unwrap_or("");
    assert!(fix.contains("restart"), "fix should be a restart command");
    assert!(fix.contains("kwin"), "fix should target KWin");
}

#[test]
fn bug_d_absent_when_only_zkde_missing() {
    let r = build_checks(g(&[
        "wl_compositor", "xdg_wm_base", "org_kde_plasma_window_management",
        "zwp_linux_dmabuf_v1", "ext_image_capture_source_v1",
        "wp_linux_drm_syncobj_manager_v1", "wl_output",
    ]));
    assert!(
        r.iter().all(|x| x.check != "bug_d_screencast_globals"),
        "Bug D should not fire when ext_image_capture_source_v1 is present"
    );
}

#[test]
fn bug_d_absent_when_only_ext_missing() {
    let r = build_checks(g(&[
        "wl_compositor", "xdg_wm_base", "org_kde_plasma_window_management",
        "zwp_linux_dmabuf_v1", "zkde_screencast_unstable_v1",
        "wp_linux_drm_syncobj_manager_v1", "wl_output",
    ]));
    assert!(
        r.iter().all(|x| x.check != "bug_d_screencast_globals"),
        "Bug D should not fire when zkde_screencast_unstable_v1 is present"
    );
}

#[test]
fn bug_d_absent_when_both_present() {
    let r = build_checks(g(&[
        "wl_compositor", "xdg_wm_base", "org_kde_plasma_window_management",
        "zwp_linux_dmabuf_v1", "zkde_screencast_unstable_v1",
        "ext_image_capture_source_v1", "wp_linux_drm_syncobj_manager_v1",
        "wl_output",
    ]));
    assert!(r.iter().all(|x| x.check != "bug_d_screencast_globals"));
}

#[test]
fn bug_d_with_two_outputs_mentions_tiled() {
    let r = build_checks(g(&[
        "wl_compositor", "xdg_wm_base", "org_kde_plasma_window_management",
        "zwp_linux_dmabuf_v1",
        "wl_output", "wl_output",
    ]));
    let d = &r.iter().find(|x| x.check == "bug_d_screencast_globals").unwrap().detail;
    assert!(d.contains("wl_output") || d.contains("tiled"), "tiled context expected");
}

#[test]
fn bug_d_single_output_mentions_plugin_check() {
    let r = build_checks(g(&[
        "wl_compositor", "xdg_wm_base", "org_kde_plasma_window_management",
        "zwp_linux_dmabuf_v1", "wl_output",
    ]));
    let d = &r.iter().find(|x| x.check == "bug_d_screencast_globals").unwrap().detail;
    assert!(d.to_lowercase().contains("plugin") || d.contains("kwin_screencast"));
}

#[test]
fn per_protocol_fix_commands_are_actionable() {
    let r = build_checks(g(&[
        "wl_compositor", "xdg_wm_base", "org_kde_plasma_window_management",
        "wl_output",
    ]));
    for check in &["ext_image_capture_source_v1", "wp_linux_drm_syncobj_manager_v1"] {
        let fix = r
            .iter()
            .find(|x| &x.check == check)
            .and_then(|x| x.fix.as_deref())
            .unwrap_or("");
        assert!(!fix.starts_with("echo"), "fix for {check} should not be a bare echo");
        assert!(!fix.is_empty(), "fix for {check} should be non-empty");
    }
}

#[test]
fn x11_all_results_are_skips_with_no_fix() {
    let r = x11_skip_results();
    assert!(!r.is_empty());
    for res in &r {
        assert_eq!(res.status, CheckStatus::Skip, "{} should SKIP on X11", res.check);
        assert!(res.fix.is_none(), "{} must not offer a fix on X11", res.check);
        assert!(res.detail.contains("X11 session"), "{} detail should say why", res.check);
    }
}

#[test]
fn x11_skips_cover_connect_backend_outputs_and_all_globals() {
    let r = x11_skip_results();
    for check in ["wayland_connect", "wayland_backend", "wl_output_count"] {
        assert!(r.iter().any(|x| x.check == check), "missing X11 skip for {check}");
    }
    for row in screencast_globals() {
        let iface = row.interface;
        assert!(r.iter().any(|x| x.check == iface), "missing X11 skip for {iface}");
    }
    assert!(r.iter().all(|x| x.check != "bug_d_screencast_globals"));
    assert!(r.iter().all(|x| x.check != "wl_output_tiled_correlation"));
}

#[test]
fn x11_connect_skip_is_layer_l2() {
    let r = x11_skip_results();
    let connect = r.iter().find(|x| x.check == "wayland_connect").unwrap();
    assert_eq!(connect.layer, Layer::L2);
}

// ── Further cases ─────────────────────────────────────────────────────────

#[test]
fn backend_detail_counts_globals_and_reports_wl_drm() {
    let r = build_checks(g(&["org_kde_plasma_window_management", "xdg_wm_base", "wl_drm"]));
    assert_eq!(r[0].detail, "KWin/Wayland confirmed — 3 globals, wl_drm=true");
    let r = build_checks(g(&["wl_compositor"]));
    assert_eq!(r[0].detail, "Compositor type unclear — 1 globals");
    assert_eq!(r[0].status, CheckStatus::Warn);
}

#[test]
fn protocol_pass_reports_first_version() {
    let globals = vec![
        WlGlobal { interface: "wp_viewporter".to_string(), version: 7 },
        WlGlobal { interface: "wp_viewporter".to_string(), version: 9 },
        WlGlobal { interface: "wl_output".to_string(), version: 4 },
    ];
    let r = build_checks(globals);
    let res = r.iter().find(|x| x.check == "wp_viewporter").unwrap();
    assert_eq!(res.detail, "wp-viewporter advertised at version 7");
    let outputs = r.iter().find(|x| x.check == "wl_output_count").unwrap();
    assert_eq!(outputs.detail, "1 output(s) advertised");
}

#[test]
fn results_follow_table_order() {
    let r = build_checks(g(&["wl_output"]));
    let table: Vec<&str> = screencast_globals().iter().map(|row| row.interface).collect();
    let protocol_checks: Vec<&str> = r
        .iter()
        .map(|x| x.check.as_str())
        .filter(|c| table.contains(c))
        .collect();
    assert_eq!(protocol_checks, table);
    assert_eq!(r.last().unwrap().check, "bug_d_screencast_globals");
}

#[test]
fn table_classes() {
    let t = screencast_globals();
    assert_eq!(t.len(), 7);
    assert_eq!(t[1].interface, "zkde_screencast_unstable_v1");
    assert_eq!(t[1].class, GlobalClass::PermissionGated);
    assert_eq!(t[0].class, GlobalClass::Required);
    assert_eq!(t[6].class, GlobalClass::Optional);
}

#[test]
fn layer_entry_point_on_each_session() {
    assert!(!needs_wayland_connection(SessionType::X11));
    assert!(needs_wayland_connection(SessionType::Unknown));
    let r = check_wayland_protocols(SessionType::X11, Err("ignored".to_string()));
    assert_eq!(r.len(), 10);
    let r = check_wayland_protocols(SessionType::Wayland, Err("no socket".to_string()));
    assert_eq!(r.len(), 1);
    assert_eq!(r[0].status, CheckStatus::Fail);
    assert_eq!(r[0].detail, "Cannot connect to $WAYLAND_DISPLAY: no socket");
    let r = check_wayland_protocols(SessionType::Unknown, Ok(g(&["wl_output"])));
    assert_eq!(r[0].check, "wayland_backend");
}
