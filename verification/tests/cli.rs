use wayland_spectre::cli::{
    apply_layer_filter, banner, exit_code, format_layer_header, layer_filter_note, layer_label,
    note_line, parse_layer_filter, render_results, session_note, summary_line,
};
use wayland_spectre::types::{Confidence, DiagnosticResult, Layer, SessionType};

fn sample() -> Vec<DiagnosticResult> {
    vec![
        DiagnosticResult::pass(Layer::L0, "a", "fine"),
        DiagnosticResult::fail(Layer::L0, "b", "broken", "do it", Confidence::High),
        DiagnosticResult::warn(Layer::L1, "c", "hmm", Some("try".to_string()), Confidence::Low),
        DiagnosticResult::skip(Layer::L7, "d", "n/a"),
    ]
}

#[test]
fn labels_and_filters() {
    assert_eq!(layer_label("L0"), "hardware / gpu");
    assert_eq!(layer_label("L7"), "kwin plugins");
    assert_eq!(layer_label("L9"), "");
    assert_eq!(parse_layer_filter("L4"), Some(Layer::L4));
    assert_eq!(parse_layer_filter("l4"), None);
    assert_eq!(parse_layer_filter("L8"), None);
}

#[test]
fn headers_plain_and_coloured() {
    assert_eq!(format_layer_header("L0", false), "[L0 gpu]");
    assert_eq!(format_layer_header("L3", false), "[L3 protocols]");
    assert_eq!(format_layer_header("L7", false), "[L7 plugins]");
    assert_eq!(format_layer_header("L9", false), "[L9 ]");
    assert_eq!(format_layer_header("L0", true), "\x1b[1m\x1b[94mL0  hardware / gpu\x1b[39m\x1b[0m");
    assert_eq!(format_layer_header("L1", true), "\x1b[1m\x1b[36mL1  d-bus / portal session\x1b[39m\x1b[0m");
    assert_eq!(format_layer_header("L2", true), "\x1b[1m\x1b[35mL2  compositor connection\x1b[39m\x1b[0m");
    assert_eq!(format_layer_header("L3", true), "\x1b[1m\x1b[33mL3  wayland protocols\x1b[39m\x1b[0m");
    assert_eq!(format_layer_header("L4", true), "\x1b[1m\x1b[32mL4  pipewire\x1b[39m\x1b[0m");
    assert_eq!(format_layer_header("L5", true), "\x1b[1m\x1b[96mL5  flatpak permissions\x1b[39m\x1b[0m");
    assert_eq!(format_layer_header("L6", true), "\x1b[1m\x1b[37mL6  environment\x1b[39m\x1b[0m");
    assert_eq!(format_layer_header("L7", true), "\x1b[1m\x1b[91mL7  kwin plugins\x1b[39m\x1b[0m");
}

#[test]
fn layer_filter_is_case_insensitive() {
    let r = apply_layer_filter(sample(), "l0").unwrap();
    assert_eq!(r.len(), 2);
    assert!(r.iter().all(|x| x.layer == Layer::L0));
    let r = apply_layer_filter(sample(), "L5").unwrap();
    assert!(r.is_empty());
    assert!(apply_layer_filter(sample(), "bogus").is_none());
    assert_eq!(layer_filter_note("L0"), "layer filter: L0");
}

#[test]
fn plain_rendering() {
    let lines = render_results(&sample(), false);
    assert_eq!(
        lines,
        vec![
            "",
            "  [L0 gpu]",
            "  ✓ [PASS] a — fine",
            "  ✗ [FAIL] b — broken",
            "        fix: do it",
            "",
            "  [L1 session]",
            "  ⚠ [WARN] c — hmm",
            "        fix: try",
            "",
            "  [L7 plugins]",
            "  – [SKIP] d — n/a",
        ]
    );
}

#[test]
fn coloured_rendering() {
    let lines = render_results(&sample(), true);
    assert_eq!(lines[2], "  ✓ [\x1b[32mPASS\x1b[39m] a — fine");
    assert_eq!(lines[3], "  ✗ [\x1b[1m\x1b[31mFAIL\x1b[39m\x1b[0m] b — broken");
    assert_eq!(lines[4], "        fix: \x1b[36mdo it\x1b[39m");
    assert_eq!(lines[7], "  ⚠ [\x1b[33mWARN\x1b[39m] c — hmm");
    assert_eq!(lines[11], "  – [\x1b[2mSKIP\x1b[0m] d — n/a");
}

#[test]
fn summary_and_banner() {
    assert_eq!(summary_line(&sample(), false), "  1 pass  1 warn  1 fail  1 skip");
    assert_eq!(
        summary_line(&sample(), true),
        "  \x1b[1m\x1b[32m1\x1b[39m\x1b[0m pass  \x1b[1m\x1b[33m1\x1b[39m\x1b[0m warn  \x1b[1m\x1b[31m1\x1b[39m\x1b[0m fail  \x1b[2m1\x1b[0m skip"
    );
    assert_eq!(
        banner(false),
        "\n  wayland-spectre\n  Wayland screen sharing diagnostics · KDE Plasma / Bazzite\n\n"
    );
    assert_eq!(
        banner(true),
        "\n  \x1b[1m\x1b[37mwayland\x1b[39m\x1b[0m\x1b[1m\x1b[31m-spectre\x1b[39m\x1b[0m\n  \x1b[2mWayland screen sharing diagnostics · KDE Plasma / Bazzite\x1b[0m\n\n"
    );
}

#[test]
fn notes_and_exit_code() {
    assert_eq!(session_note(SessionType::Wayland), None);
    assert!(session_note(SessionType::X11).unwrap().contains("SKIP"));
    assert!(session_note(SessionType::Unknown).is_some());
    assert_eq!(note_line("hi", false), "  hi");
    assert_eq!(note_line("hi", true), "  \x1b[2mhi\x1b[0m");
    assert_eq!(exit_code(&sample()), 1);
    assert_eq!(exit_code(&sample()[2..].to_vec()), 0);
    assert_eq!(exit_code(&vec![]), 0);
}
