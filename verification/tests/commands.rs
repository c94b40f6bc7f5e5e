use wayland_spectre::commands::{
    bazzite_image, rpm_ostree_version, trimmed,
    build_report, build_summary_text, fix_outcome, image_version_from_os_release,
    nvidia_smi_version, plan_fix, unwrap_busctl_output,
};
use wayland_spectre::env::check_environment;
use wayland_spectre::kwin::{check_kwin_plugins, KwinProbe};
use wayland_spectre::nvidia::check_kernel_modesetting;
use wayland_spectre::types::{Confidence, DiagnosticResult, Layer, SessionType, SystemInfo};
use wayland_spectre::wayland::{build_checks, check_wayland_protocols};

fn sys() -> SystemInfo {
    SystemInfo {
        generated_at: "2025-01-01T00:00:00Z".to_string(),
        hostname: "box".to_string(),
        kernel: "6.12.0".to_string(),
        nvidia_driver: Some("570.1".to_string()),
        bazzite_image: None,
    }
}

fn results() -> Vec<DiagnosticResult> {
    vec![
        DiagnosticResult::pass(Layer::L0, "a", "fine"),
        DiagnosticResult::fail(Layer::L4, "b", "broken", "do it", Confidence::High),
        DiagnosticResult::warn(Layer::L1, "c", "hmm", None, Confidence::Low),
        DiagnosticResult::skip(Layer::L2, "d", "n/a"),
    ]
}

#[test]
fn report_counts_statuses() {
    let r = build_report(sys(), results());
    assert_eq!(r.schema_version, "1");
    assert_eq!((r.summary.pass, r.summary.warn, r.summary.fail), (1, 1, 1));
    assert_eq!(r.results.len(), 4);
}

#[test]
fn summary_text_layout() {
    let r = build_report(sys(), results());
    let t = build_summary_text(&r);
    let expected = format!(
        "wayland-spectre diagnostic report\n{}\nGenerated : 2025-01-01T00:00:00Z\nHostname  : box\nKernel    : 6.12.0\nNVIDIA    : 570.1\n\nSummary: 1 pass  1 warn  1 fail\n\nFAILURES\n{}\n[L4] b: broken\n  fix: do it\n\nWARNINGS\n{}\n[L1] c: hmm\n\n{}\nGenerated by wayland-spectre — https://forgejo.wanderingmonster.dev/WanderingMonster/wayland-spectre\n",
        "=".repeat(50),
        "-".repeat(40),
        "-".repeat(40),
        "-".repeat(50)
    );
    assert_eq!(t, expected);
}

#[test]
fn summary_text_without_problems_has_no_sections() {
    let r = build_report(sys(), vec![DiagnosticResult::pass(Layer::L0, "a", "fine")]);
    let t = build_summary_text(&r);
    assert!(!t.contains("FAILURES"));
    assert!(!t.contains("WARNINGS"));
    assert!(t.contains("Summary: 1 pass  0 warn  0 fail"));
}

#[test]
fn fix_commands_are_split_or_refused() {
    assert_eq!(
        plan_fix("systemctl --user restart xdg-desktop-portal").unwrap(),
        vec!["systemctl", "--user", "restart", "xdg-desktop-portal"]
    );
    for bad in ["a | b", "a; b", "a && b", "a > f", "a < f", "echo $HOME", "echo `id`"] {
        assert_eq!(plan_fix(bad).unwrap_err(), format!("Refused unsafe fix command: {bad}"));
    }
    assert_eq!(plan_fix("   ").unwrap_err(), "Empty fix command");
}

#[test]
fn fix_outcome_messages() {
    assert_eq!(fix_outcome(true, "0", "", "  ").unwrap(), "Done.");
    assert_eq!(fix_outcome(true, "0", " ok\n", "").unwrap(), "ok");
    assert_eq!(
        fix_outcome(false, "exit status: 1", "out", " err\n").unwrap_err(),
        "Command exited exit status: 1: out err"
    );
}

#[test]
fn busctl_output_unwrapped() {
    assert_eq!(unwrap_busctl_output("s \"Loaded\\nEffects\\tx\"\n"), "Loaded\nEffects\tx");
    assert_eq!(unwrap_busctl_output("plain text"), "plain text");
}

#[test]
fn os_release_and_smi() {
    assert_eq!(
        image_version_from_os_release("NAME=x\nIMAGE_VERSION=\"41.20250101\"\n"),
        Some("41.20250101".to_string())
    );
    assert_eq!(image_version_from_os_release("NAME=x\n"), None);
    assert_eq!(nvidia_smi_version(" 570.86.16\n"), Some("570.86.16".to_string()));
    assert_eq!(nvidia_smi_version("\n"), None);
}

#[test]
fn emitted_fixes_pass_the_safety_filter() {
    let mut all = build_checks(vec![]);
    all.extend(check_wayland_protocols(SessionType::Wayland, Err("no socket".to_string())));
    all.extend(check_kwin_plugins(
        Some("[Plugins]\nscreencastPlugin=false\n".to_string()),
        KwinProbe::SupportInfo("Hardware Backend: GLX\nOutput DP-1: a\nOutput DP-2: b\n".to_string()),
        SessionType::Wayland,
    ));
    all.extend(check_kwin_plugins(None, KwinProbe::BusUnavailable("x".to_string()), SessionType::Wayland));
    all.extend(check_kernel_modesetting(Some("N".to_string()), None));
    all.extend(check_environment(SessionType::Wayland, true, None, vec![]));
    let fixes: Vec<&String> = all.iter().filter_map(|r| r.fix.as_ref()).collect();
    assert!(fixes.len() > 5);
    for f in fixes {
        assert!(plan_fix(f).is_ok(), "fix refused: {f}");
    }
}

#[test]
fn bazzite_image_prefers_os_release() {
    let json = br#"{"deployments":[{"version":"42.20250301","booted":true},{"version":"41.1"}]}"#;
    assert_eq!(rpm_ostree_version(json), Some("42.20250301".to_string()));
    assert_eq!(rpm_ostree_version(b"not json"), None);
    assert_eq!(rpm_ostree_version(br#"{"deployments":[]}"#), None);
    assert_eq!(rpm_ostree_version(br#"{"deployments":[{"version":7}]}"#), None);
    assert_eq!(
        bazzite_image(Some("IMAGE_VERSION=\"41.5\"\n"), Some(json)),
        Some("41.5".to_string())
    );
    assert_eq!(bazzite_image(Some("NAME=x\n"), Some(json)), Some("42.20250301".to_string()));
    assert_eq!(bazzite_image(None, Some(json)), Some("42.20250301".to_string()));
    assert_eq!(bazzite_image(None, None), None);
}

#[test]
fn outputs_are_trimmed() {
    assert_eq!(trimmed("  box42\n"), "box42");
    assert_eq!(trimmed("\n"), "");
}
