use wayland_spectre::kwin::{
    analyse_support_info, check_kwin_plugins, check_screencast_plugin_kwinrc, count_dp_outputs,
    kwinrc_path, parse_render_backend, screencast_effect_active, screencast_in_lowered_section,
    screencast_in_section, screencast_in_support_info, KwinProbe,
};
use wayland_spectre::types::{CheckStatus, DiagnosticResult, SessionType};

fn run(info: &str) -> Vec<DiagnosticResult> {
    analyse_support_info(info, SessionType::Wayland)
}

fn run_x11(info: &str) -> Vec<DiagnosticResult> {
    analyse_support_info(info, SessionType::X11)
}

fn status(results: &[DiagnosticResult], check: &str) -> CheckStatus {
    results
        .iter()
        .find(|r| r.check == check)
        .unwrap_or_else(|| panic!("check '{check}' not found"))
        .status
        .clone()
}

// ── Version ──────────────────────────────────────────────────────────────

#[test]
fn version_extracted_from_kwin_line() {
    let r = run("KWin version: 6.2.5\nsome other line\n");
    assert_eq!(status(&r, "kwin_version"), CheckStatus::Pass);
    assert!(r.iter().find(|x| x.check == "kwin_version").unwrap().detail.contains("6.2.5"));
}

#[test]
fn version_extracted_from_application_line() {
    let r = run("Application version: 6.3.0\nQt version: 6.8\n");
    assert_eq!(status(&r, "kwin_version"), CheckStatus::Pass);
}

#[test]
fn version_missing_produces_warn() {
    let r = run("nothing useful here\n");
    assert_eq!(status(&r, "kwin_version"), CheckStatus::Warn);
}

#[test]
fn version_case_insensitive() {
    let r = run("KWIN VERSION: 6.1.0\n");
    assert_eq!(status(&r, "kwin_version"), CheckStatus::Pass);
}

// ── Render backend ────────────────────────────────────────────────────────

#[test]
fn egl_gbm_backend_passes() {
    let info = "Hardware Backend: Native EGL\nPlatform: GBM\n";
    let (egl, gbm, glx) = parse_render_backend(info);
    assert!(egl, "EGL expected");
    assert!(gbm, "GBM expected");
    assert!(!glx, "GLX should be absent");
    assert_eq!(status(&run(info), "kwin_render_backend"), CheckStatus::Pass);
}

#[test]
fn glx_backend_fails() {
    let info = "Hardware Backend: GLX\nOpenGL platform: GLX\n";
    assert_eq!(status(&run(info), "kwin_render_backend"), CheckStatus::Fail);
}

#[test]
fn no_backend_hints_warns() {
    let info = "KWin version: 6.0.0\n";
    assert_eq!(status(&run(info), "kwin_render_backend"), CheckStatus::Warn);
}

#[test]
fn egl_without_gbm_still_passes() {
    let info = "OpenGL platform: EGL\n";
    let (egl, gbm, _) = parse_render_backend(info);
    assert!(egl);
    assert!(!gbm);
    assert_eq!(status(&run(info), "kwin_render_backend"), CheckStatus::Pass);
}

// ── Section parser ────────────────────────────────────────────────────────

#[test]
fn section_parser_finds_screencast_in_plugins_section() {
    let info = "Loaded Plugins:\nkwin4_effect_blur\nkwin_screencast\nkwin4_effect_overview\n\nLoaded Effects:\nblur\noverview\n";
    assert!(screencast_in_section(info, "Loaded Plugins"), "should find in Loaded Plugins");
    assert!(!screencast_in_section(info, "Loaded Effects"), "should not find in Loaded Effects");
}

#[test]
fn section_parser_finds_screencast_in_effects_section() {
    let info = "Loaded Plugins:\nkwin4_effect_blur\nkwin_screencast\n\nLoaded Effects:\nblur\nscreencast\noverview\n";
    assert!(screencast_in_section(info, "Loaded Plugins"));
    assert!(screencast_in_section(info, "Loaded Effects"));
}

#[test]
fn section_parser_returns_false_for_missing_section() {
    let info = "KWin version: 6.0.0\nsome text mentioning screencast here\n";
    assert!(!screencast_in_section(info, "Loaded Plugins"), "should not find section header");
}

#[test]
fn section_parser_handles_inline_section_content() {
    let info = "Loaded Effects: screencast blur overview\n";
    assert!(screencast_in_section(info, "Loaded Effects"));
}

#[test]
fn section_parser_case_insensitive() {
    let info = "LOADED PLUGINS:\nkwin_SCREENCAST\n\n";
    assert!(screencast_in_section(info, "Loaded Plugins"));
}

#[test]
fn section_parser_skips_leading_blank_lines_and_stops_at_next_blank() {
    assert!(screencast_in_lowered_section("loaded plugins:\n\n  kwin_screencast\n", "loaded plugins:"));
    assert!(!screencast_in_lowered_section("loaded plugins:\nblur\n\nscreencast\n", "loaded plugins:"));
    assert!(!screencast_in_lowered_section("no header here screencast", "loaded plugins:"));
}

// ── Screencast plugin (kwin_screencast_loaded) ─────────────────────────

#[test]
fn screencast_present_passes() {
    let info = "Loaded Effects: screencast, blur, overview\n";
    assert!(screencast_in_support_info(info));
    assert_eq!(status(&run(info), "kwin_screencast_loaded"), CheckStatus::Pass);
}

#[test]
fn screencast_absent_warns_inconclusive() {
    let info = "Loaded Effects: blur, overview, slideback\n";
    assert!(!screencast_in_support_info(info));
    let r = run(info);
    assert_eq!(status(&r, "kwin_screencast_loaded"), CheckStatus::Warn);
    let res = r.iter().find(|x| x.check == "kwin_screencast_loaded").unwrap();
    assert!(res.fix.is_none(), "inconclusive warn must not offer a fix");
}

#[test]
fn screencast_case_insensitive() {
    assert!(screencast_in_support_info("ScreenCast: loaded\n"));
    assert!(screencast_in_support_info("SCREENCAST plugin active\n"));
    assert!(screencast_in_support_info("Plugin: kwin_screencast enabled\n"));
}

#[test]
fn screencast_warn_points_at_effect_active_signal() {
    let r = run("Loaded Effects: blur\n");
    let d = &r.iter().find(|x| x.check == "kwin_screencast_loaded").unwrap().detail;
    assert!(d.contains("inconclusive"), "should frame absence as inconclusive");
    assert!(d.contains("kwin_screencast_effect_active"), "should point at the reliable L7 signal");
}

#[test]
fn screencast_loaded_uses_section_when_available() {
    let info = "Loaded Plugins:\nkwin4_effect_blur\nkwin4_effect_overview\n\n\
                Some other section mentioning screencast configuration\n";
    assert!(!screencast_in_section(info, "Loaded Plugins"));
    assert!(
        !screencast_in_support_info(info),
        "should not report plugin as loaded when absent from Loaded Plugins section"
    );
    assert_eq!(status(&run(info), "kwin_screencast_loaded"), CheckStatus::Warn);
}

// ── Screencast effect active (kwin_screencast_effect_active) ──────────

#[test]
fn effect_active_pass_when_in_loaded_effects() {
    let info = "Loaded Plugins:\nkwin_screencast\n\nLoaded Effects:\nscreencast\nblur\n";
    assert_eq!(status(&run(info), "kwin_screencast_effect_active"), CheckStatus::Pass);
    assert!(screencast_effect_active(info));
}

#[test]
fn effect_active_fail_when_plugin_loaded_but_effect_missing() {
    let info = "Loaded Plugins:\nkwin_screencast\nkwin4_effect_blur\n\n\
                Loaded Effects:\nblur\noverview\n";
    assert_eq!(status(&run(info), "kwin_screencast_loaded"), CheckStatus::Pass);
    assert_eq!(status(&run(info), "kwin_screencast_effect_active"), CheckStatus::Fail);
}

#[test]
fn effect_active_fail_mentions_crtc_and_restart_note() {
    let info = "Loaded Plugins:\nkwin_screencast\n\nLoaded Effects:\nblur\n";
    let r = run(info);
    let d = &r.iter().find(|x| x.check == "kwin_screencast_effect_active").unwrap().detail;
    assert!(
        d.contains("CRTC") || d.contains("crtc") || d.contains("493277"),
        "detail should mention CRTC mismatch or KDE bug"
    );
    assert!(d.contains("restart") || d.contains("kwin_wayland"), "detail should mention restart path");
}

#[test]
fn effect_active_skips_when_no_loaded_effects_section() {
    let info = "KWin version: 6.0.0\nsome text\n";
    assert_eq!(status(&run(info), "kwin_screencast_effect_active"), CheckStatus::Skip);
}

#[test]
fn effect_active_different_detail_when_plugin_also_absent() {
    let info = "Loaded Plugins:\nkwin4_effect_blur\n\nLoaded Effects:\nblur\n";
    let r = run(info);
    let result = r.iter().find(|x| x.check == "kwin_screencast_effect_active").unwrap();
    assert_eq!(result.status, CheckStatus::Fail);
    assert!(
        !result.detail.contains("CRTC"),
        "CRTC diagnosis should only appear when plugin is loaded but effect is not"
    );
}

#[test]
fn effect_active_check_independent_of_screencast_loaded_check() {
    let info_both = "Loaded Plugins:\nkwin_screencast\n\nLoaded Effects:\nscreencast\n";
    assert_eq!(status(&run(info_both), "kwin_screencast_loaded"), CheckStatus::Pass);
    assert_eq!(status(&run(info_both), "kwin_screencast_effect_active"), CheckStatus::Pass);

    let info_stuck = "Loaded Plugins:\nkwin_screencast\n\nLoaded Effects:\nblur\n";
    assert_eq!(status(&run(info_stuck), "kwin_screencast_loaded"), CheckStatus::Pass);
    assert_eq!(status(&run(info_stuck), "kwin_screencast_effect_active"), CheckStatus::Fail);

    let info_none = "Loaded Plugins:\nkwin4_effect_blur\n\nLoaded Effects:\nblur\n";
    assert_eq!(status(&run(info_none), "kwin_screencast_loaded"), CheckStatus::Warn);
    assert_eq!(status(&run(info_none), "kwin_screencast_effect_active"), CheckStatus::Fail);
}

// ── X11 session behaviour ─────────────────────────────────────────────────

#[test]
fn x11_render_backend_skips_even_with_glx() {
    let info = "Hardware Backend: GLX\nOpenGL platform: GLX\n";
    let r = run_x11(info);
    assert_eq!(status(&r, "kwin_render_backend"), CheckStatus::Skip);
    let res = r.iter().find(|x| x.check == "kwin_render_backend").unwrap();
    assert!(res.fix.is_none());
    assert!(res.detail.contains("X11 session"));
}

#[test]
fn x11_screencast_checks_skip() {
    let info = "Loaded Plugins:\nkwin4_effect_blur\n\nLoaded Effects:\nblur\n";
    let r = run_x11(info);
    assert_eq!(status(&r, "kwin_screencast_loaded"), CheckStatus::Skip);
    assert_eq!(status(&r, "kwin_screencast_effect_active"), CheckStatus::Skip);
    for check in ["kwin_screencast_loaded", "kwin_screencast_effect_active"] {
        let res = r.iter().find(|x| x.check == check).unwrap();
        assert!(res.fix.is_none(), "{check} must not offer a fix on X11");
    }
}

#[test]
fn x11_version_and_tiled_display_still_run() {
    let info = "KWin version: 6.6.3\nOutput DP-4: 1920x2160\nOutput DP-5: 1920x2160\n";
    let r = run_x11(info);
    assert_eq!(status(&r, "kwin_version"), CheckStatus::Pass);
    assert_eq!(status(&r, "kwin_tiled_display"), CheckStatus::Warn);
}

// ── Tiled display ─────────────────────────────────────────────────────────

#[test]
fn two_dp_outputs_warns() {
    let info = "Output DP-4: 1920x2160\nOutput DP-5: 1920x2160\n";
    assert_eq!(count_dp_outputs(info), 2);
    assert_eq!(status(&run(info), "kwin_tiled_display"), CheckStatus::Warn);
}

#[test]
fn single_dp_passes() {
    let info = "Output DP-1: 2560x1440\n";
    assert_eq!(count_dp_outputs(info), 1);
    assert_eq!(status(&run(info), "kwin_tiled_display"), CheckStatus::Pass);
}

#[test]
fn no_dp_outputs_no_tiled_check() {
    let info = "Output HDMI-1: 1920x1080\n";
    assert_eq!(count_dp_outputs(info), 0);
    assert!(run(info).iter().all(|r| r.check != "kwin_tiled_display"));
}

#[test]
fn four_dp_outputs_detected() {
    let info = "DP-1: mode\nDP-2: mode\nDP-3: mode\nDP-4: mode\n";
    assert_eq!(count_dp_outputs(info), 4);
}

#[test]
fn dp_prefix_without_digit_not_counted() {
    let info = "DP-Link: present\nDP-CEC: off\nDP-4: active\n";
    assert_eq!(count_dp_outputs(info), 1);
}

#[test]
fn tiled_display_warn_mentions_kde_bugs() {
    let r = run("Output DP-4: x\nOutput DP-5: x\n");
    let d = &r.iter().find(|x| x.check == "kwin_tiled_display").unwrap().detail;
    assert!(d.contains("493277") || d.contains("503870"));
}

#[test]
fn tiled_display_detail_starts_with_count() {
    let r = run("DP-1 DP-2 DP-3\n");
    let res = r.iter().find(|x| x.check == "kwin_tiled_display").unwrap();
    assert!(res.detail.starts_with("3 DP outputs detected"));
    assert_eq!(res.fix.as_deref(), Some("xdg-open https://bugs.kde.org/show_bug.cgi?id=493277"));
}

#[test]
fn analysis_order_and_exact_version_detail() {
    let r = run("KWin version:   6.2.5  \n");
    let checks: Vec<&str> = r.iter().map(|x| x.check.as_str()).collect();
    assert_eq!(
        checks,
        vec!["kwin_version", "kwin_render_backend", "kwin_screencast_loaded", "kwin_screencast_effect_active"]
    );
    assert_eq!(r[0].detail, "KWin 6.2.5");
}

#[test]
fn version_line_without_value_is_skipped() {
    let r = run("KWin version:\nApplication version: 6.3.1\n");
    assert_eq!(r[0].detail, "KWin 6.3.1");
}

#[test]
fn egl_with_gbm_detail() {
    let r = run("Compositing backend: EGL\nGBM device\n");
    let res = r.iter().find(|x| x.check == "kwin_render_backend").unwrap();
    assert_eq!(res.detail, "KWin EGL backend confirmed (GBM)");
}

#[test]
fn gbm_alone_is_not_a_backend() {
    assert_eq!(parse_render_backend("GBM only\n"), (false, true, false));
    assert_eq!(parse_render_backend("egl mentioned without context\n"), (false, false, false));
}

// ── kwinrc ────────────────────────────────────────────────────────────────

#[test]
fn kwinrc_missing_skips() {
    let r = check_screencast_plugin_kwinrc(None);
    assert_eq!(r.len(), 1);
    assert_eq!(r[0].status, CheckStatus::Skip);
}

#[test]
fn kwinrc_disabled_fails_with_load_plugin_fix() {
    for key in ["screencastPlugin=false", "screencaslPlugin=false"] {
        let content = format!("[Plugins]\n{key}\n");
        let r = check_screencast_plugin_kwinrc(Some(content));
        assert_eq!(r[0].status, CheckStatus::Fail);
        assert!(r[0].fix.as_deref().unwrap().contains("loadPlugin"));
    }
}

#[test]
fn kwinrc_enabled_passes() {
    let r = check_screencast_plugin_kwinrc(Some("[Plugins]\nscreencastPlugin=true\nblurPlugin=false\n".to_string()));
    assert_eq!(r[0].status, CheckStatus::Pass);
}

#[test]
fn kwinrc_path_joins_home() {
    assert_eq!(kwinrc_path(Some("/home/me".to_string())), "/home/me/.config/kwinrc");
    assert_eq!(kwinrc_path(Some("/home/me/".to_string())), "/home/me/.config/kwinrc");
    assert_eq!(kwinrc_path(None), "/root/.config/kwinrc");
}

// ── Whole layer ───────────────────────────────────────────────────────────

#[test]
fn kwin_layer_bus_failure() {
    let r = check_kwin_plugins(None, KwinProbe::BusUnavailable("no bus".to_string()), SessionType::Wayland);
    assert_eq!(r.len(), 2);
    assert_eq!(r[1].check, "kwin_dbus_connect");
    assert_eq!(r[1].status, CheckStatus::Fail);
    assert_eq!(r[1].detail, "Cannot reach session bus for KWin checks: no bus");
}

#[test]
fn kwin_layer_unresponsive() {
    let r = check_kwin_plugins(None, KwinProbe::KwinUnresponsive("timeout".to_string()), SessionType::Wayland);
    assert_eq!(r[1].check, "kwin_running");
    assert_eq!(r[1].status, CheckStatus::Fail);
    assert_eq!(r[1].fix.as_deref(), Some("systemctl --user restart plasma-kwin_wayland"));
}

#[test]
fn kwin_layer_running_then_analysis() {
    let r = check_kwin_plugins(
        Some(String::new()),
        KwinProbe::SupportInfo("KWin version: 6.2.5\n".to_string()),
        SessionType::X11,
    );
    assert_eq!(r[0].check, "kwin_screencast_plugin_kwinrc");
    assert_eq!(r[1].check, "kwin_running");
    assert!(r[1].detail.contains("kwin_x11"));
    assert_eq!(r[2].check, "kwin_version");
}

#[test]
fn backend_words_without_a_backend_keyword_do_not_count() {
    assert_eq!(parse_render_backend("EGL GLX\n"), (false, false, false));
    assert_eq!(parse_render_backend("renderer: gbm\n"), (false, true, false));
}

#[test]
fn dp_outputs_counted_at_every_offset() {
    assert_eq!(count_dp_outputs("DP-DP-1"), 1);
    assert_eq!(count_dp_outputs("dp-1 DP-"), 0);
    assert_eq!(count_dp_outputs("DP-1DP-2"), 2);
}
