use wayland_spectre::nvidia::{
    check_drm_syncobj, check_driver_loaded, check_egl_wayland, check_explicit_sync,
    check_kernel_modesetting, check_nvidia, check_open_modules, drm_driver_link_path,
    is_open_module, module_param_path, module_param_value, parse_driver_version, parse_u32,
    DrmEntry, NvidiaProbe,
};
use wayland_spectre::types::{CheckStatus, Confidence, Layer};

const OPEN_LINE: &str = "NVRM version: NVIDIA UNIX Open Kernel Module for x86_64  595.58.03  Release Build  (dvs-builder@U18-I3-F01-16-2)  Mon Feb 24 21:24:33 UTC 2025\n";
const PROPRIETARY_LINE: &str =
    "NVRM version: NVIDIA UNIX x86_64 Kernel Module  550.144.03  Wed Dec  4 00:15:03 UTC 2024\n";

// ── Driver version parsing ────────────────────────────────────────────────

#[test]
fn parse_version_from_proc_content() {
    assert_eq!(parse_driver_version(OPEN_LINE), Some("595.58.03".to_string()));
}

#[test]
fn parse_version_proprietary_format() {
    assert_eq!(parse_driver_version(PROPRIETARY_LINE), Some("550.144.03".to_string()));
}

#[test]
fn parse_version_empty_content() {
    assert_eq!(parse_driver_version(""), None);
}

#[test]
fn parse_version_no_version_number() {
    assert_eq!(parse_driver_version("NVRM version: something weird\n"), None);
}

#[test]
fn parse_version_only_reads_first_line() {
    assert_eq!(parse_driver_version("no version here\n1.2.3\n"), None);
}

// ── Open module detection ─────────────────────────────────────────────────

#[test]
fn open_module_detected() {
    let content = "NVRM version: NVIDIA UNIX Open Kernel Module for x86_64  595.58.03  Release Build\n";
    assert!(is_open_module(content));
}

#[test]
fn proprietary_module_not_open() {
    let content = "NVRM version: NVIDIA UNIX x86_64 Kernel Module  550.144.03  Release Build\n";
    assert!(!is_open_module(content));
}

#[test]
fn explicit_sync_values_accepted() {
    for val in &["Y", "1"] {
        assert!(!val.is_empty(), "truthy value {val} should be non-empty");
        let r = check_explicit_sync(Some(val.to_string()), "");
        assert_eq!(r[0].status, CheckStatus::Pass);
    }
    for val in &["N", "0"] {
        assert!(!val.is_empty(), "falsy value {val} should be non-empty");
        let r = check_explicit_sync(Some(val.to_string()), "");
        assert_eq!(r[0].status, CheckStatus::Warn);
        assert_eq!(
            r[0].fix.as_deref(),
            Some("rpm-ostree kargs --append=nvidia-drm.explicit_sync=1")
        );
    }
}

// ── Individual checks ─────────────────────────────────────────────────────

#[test]
fn driver_loaded_reports_version_and_flavour() {
    let r = check_driver_loaded(Some(OPEN_LINE.to_string()));
    assert_eq!(r.len(), 1);
    assert_eq!(r[0].status, CheckStatus::Pass);
    assert_eq!(r[0].detail, "NVIDIA driver 595.58.03 loaded (open modules)");

    let r = check_driver_loaded(Some(PROPRIETARY_LINE.to_string()));
    assert_eq!(r[0].detail, "NVIDIA driver 550.144.03 loaded (proprietary)");

    let r = check_driver_loaded(Some("garbage\n".to_string()));
    assert_eq!(r[0].detail, "NVIDIA driver unknown loaded (proprietary)");
}

#[test]
fn driver_missing_skips() {
    let r = check_driver_loaded(None);
    assert_eq!(r.len(), 1);
    assert_eq!(r[0].status, CheckStatus::Skip);
    assert_eq!(r[0].check, "nvidia_driver_loaded");
    assert_eq!(r[0].layer, Layer::L0);
}

#[test]
fn open_modules_check() {
    assert!(check_open_modules("").is_empty());
    let r = check_open_modules(OPEN_LINE);
    assert_eq!(r[0].status, CheckStatus::Pass);
    let r = check_open_modules(PROPRIETARY_LINE);
    assert_eq!(r[0].status, CheckStatus::Warn);
    assert_eq!(r[0].confidence, Confidence::Medium);
    assert!(r[0].fix.is_none());
}

#[test]
fn module_param_helpers() {
    assert_eq!(
        module_param_path("nvidia_drm", "modeset"),
        "/sys/module/nvidia_drm/parameters/modeset"
    );
    assert_eq!(module_param_value(Some(" Y\n".to_string())), Some("Y".to_string()));
    assert_eq!(module_param_value(None), None);
}

#[test]
fn modesetting_values() {
    let r = check_kernel_modesetting(Some("Y".to_string()), None);
    assert_eq!(r[0].status, CheckStatus::Pass);
    let r = check_kernel_modesetting(None, Some("1".to_string()));
    assert_eq!(r[0].status, CheckStatus::Pass);
    let r = check_kernel_modesetting(Some("N".to_string()), Some("Y".to_string()));
    assert_eq!(r[0].status, CheckStatus::Fail);
    assert_eq!(
        r[0].detail,
        "nvidia-drm.modeset=N — modesetting disabled, Wayland will not work correctly"
    );
    let r = check_kernel_modesetting(None, None);
    assert_eq!(r[0].status, CheckStatus::Skip);
}

#[test]
fn egl_icd_check() {
    assert_eq!(check_egl_wayland(true)[0].status, CheckStatus::Pass);
    let r = check_egl_wayland(false);
    assert_eq!(r[0].status, CheckStatus::Warn);
    assert_eq!(r[0].fix.as_deref(), Some("sudo dnf install egl-wayland"));
}

#[test]
fn explicit_sync_default_by_driver_version() {
    let r = check_explicit_sync(None, OPEN_LINE);
    assert_eq!(r[0].status, CheckStatus::Pass);
    assert_eq!(r[0].detail, "Driver ≥570 — explicit sync on by default");
    let r = check_explicit_sync(None, PROPRIETARY_LINE);
    assert_eq!(r[0].status, CheckStatus::Skip);
    let r = check_explicit_sync(None, "");
    assert_eq!(r[0].status, CheckStatus::Skip);
    let r = check_explicit_sync(Some("2".to_string()), "");
    assert_eq!(r[0].status, CheckStatus::Pass);
    assert_eq!(
        r[0].detail,
        "nvidia-drm.explicit_sync=2 — unexpected value, treating as enabled"
    );
}

#[test]
fn parse_u32_values() {
    let c = |s: &str| s.chars().collect::<Vec<char>>();
    assert_eq!(parse_u32(&c("570")), Some(570));
    assert_eq!(parse_u32(&c("+7")), Some(7));
    assert_eq!(parse_u32(&c("4294967295")), Some(4294967295));
    assert_eq!(parse_u32(&c("4294967296")), None);
    assert_eq!(parse_u32(&c("")), None);
    assert_eq!(parse_u32(&c("+")), None);
    assert_eq!(parse_u32(&c("5a")), None);
}

#[test]
fn drm_syncobj_cases() {
    assert_eq!(drm_driver_link_path("card1"), "/sys/class/drm/card1/device/driver");
    let r = check_drm_syncobj(None);
    assert_eq!(r[0].detail, "Could not read /sys/class/drm");
    let r = check_drm_syncobj(Some(vec![DrmEntry { name: "version".to_string(), driver: None }]));
    assert_eq!(r[0].detail, "No DRM cards found in /sys/class/drm");
    let r = check_drm_syncobj(Some(vec![
        DrmEntry { name: "card0-DP-1".to_string(), driver: Some("nvidia".to_string()) },
        DrmEntry { name: "card0".to_string(), driver: Some("amdgpu".to_string()) },
    ]));
    assert_eq!(r[0].detail, "Could not identify NVIDIA DRM card");
    let r = check_drm_syncobj(Some(vec![
        DrmEntry { name: "card0".to_string(), driver: Some("amdgpu".to_string()) },
        DrmEntry { name: "card1".to_string(), driver: Some("nvidia".to_string()) },
    ]));
    assert_eq!(r[0].status, CheckStatus::Pass);
    assert_eq!(
        r[0].detail,
        "NVIDIA DRM device found at card1 — syncobj assumed available with open modules"
    );
}

#[test]
fn nvidia_layer_runs_every_check_in_order() {
    let r = check_nvidia(NvidiaProbe {
        version_file: Some(OPEN_LINE.to_string()),
        modeset: Some("Y".to_string()),
        modeset_dash: None,
        egl_icd_found: true,
        explicit_sync: None,
        drm: Some(vec![DrmEntry { name: "card1".to_string(), driver: Some("nvidia".to_string()) }]),
    });
    let checks: Vec<&str> = r.iter().map(|x| x.check.as_str()).collect();
    assert_eq!(
        checks,
        vec![
            "nvidia_driver_loaded",
            "nvidia_open_modules",
            "nvidia_drm_modeset",
            "egl_wayland_icd",
            "nvidia_explicit_sync",
            "drm_syncobj"
        ]
    );
    assert!(r.iter().all(|x| x.status == CheckStatus::Pass));
    assert!(r.iter().all(|x| x.layer == Layer::L0));
}

#[test]
fn nvidia_layer_without_driver() {
    let r = check_nvidia(NvidiaProbe {
        version_file: None,
        modeset: None,
        modeset_dash: None,
        egl_icd_found: false,
        explicit_sync: None,
        drm: None,
    });
    // No open-modules result when the version file is absent.
    assert_eq!(r.len(), 5);
    assert_eq!(r[0].status, CheckStatus::Skip);
}
