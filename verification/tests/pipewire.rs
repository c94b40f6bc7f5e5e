use wayland_spectre::pipewire::{
    capture_test_result, check_pipewire, is_request_response, CREATE_SESSION_TIMEOUT_SECS,
    RESPONSE_TIMEOUT_SECS, check_pipewire_socket, handle_token,
    pipewire_socket_path, probe_portal_create_session, request_path, sender_component,
    session_to_close, session_token, PortalOutcome,
};
use wayland_spectre::types::{CaptureTestResult, CheckStatus, Layer};

#[test]
fn socket_path() {
    assert_eq!(
        pipewire_socket_path(Some("/run/user/1000".to_string())),
        "/run/user/1000/pipewire-0"
    );
}

#[test]
fn eloop_detected() {
    let s = "ELOOP: Too many levels of symbolic links";
    assert!(s.contains("ELOOP") || s.contains("Too many levels") || s.contains("symbolic links"));
    let r = capture_test_result(PortalOutcome::CallFailed(s.to_string())).unwrap();
    assert!(!r.success);
    assert_eq!(
        r.error.as_deref(),
        Some("ELOOP confirms Bug C: ELOOP: Too many levels of symbolic links")
    );
}

#[test]
fn sender_normalisation() {
    assert_eq!(sender_component(Some(":1.47")), "1_47");
}

#[test]
fn socket_path_defaults_and_joins() {
    assert_eq!(pipewire_socket_path(None), "/run/user/1000/pipewire-0");
    assert_eq!(pipewire_socket_path(Some("/tmp/rt/".to_string())), "/tmp/rt/pipewire-0");
}

#[test]
fn socket_check() {
    let r = check_pipewire_socket(true, "/run/user/1000/pipewire-0");
    assert_eq!(r.status, CheckStatus::Pass);
    assert_eq!(r.detail, "PipeWire socket present: /run/user/1000/pipewire-0");
    let r = check_pipewire_socket(false, "/x/pipewire-0");
    assert_eq!(r.status, CheckStatus::Fail);
    assert_eq!(r.detail, "PipeWire socket not found at /x/pipewire-0");
    assert_eq!(r.fix.as_deref(), Some("systemctl --user start pipewire"));
    assert_eq!(r.layer, Layer::L4);
}

#[test]
fn request_names() {
    assert_eq!(sender_component(None), "0_0");
    assert_eq!(sender_component(Some("::1.2.3")), "1_2_3");
    assert_eq!(handle_token(4242), "wspectre_h4242");
    assert_eq!(session_token(0), "wspectre_s0");
    assert_eq!(
        request_path("1_47", "wspectre_h1"),
        "/org/freedesktop/portal/desktop/request/1_47/wspectre_h1"
    );
}

#[test]
fn outcomes_map_to_capture_results() {
    assert_eq!(
        capture_test_result(PortalOutcome::BusUnavailable("x".to_string())).unwrap_err(),
        "Cannot connect to session D-Bus: x"
    );
    assert_eq!(
        capture_test_result(PortalOutcome::InterfaceUnavailable("y".to_string())).unwrap_err(),
        "Cannot connect to ScreenCast interface: y"
    );
    let r = capture_test_result(PortalOutcome::CallTimedOut).unwrap();
    assert!(r.error.unwrap().starts_with("CreateSession timed out (Bug C / ELOOP)"));
    let r = capture_test_result(PortalOutcome::CallFailed("denied".to_string())).unwrap();
    assert_eq!(r.error.as_deref(), Some("CreateSession error: denied"));
    let r = capture_test_result(PortalOutcome::ResponseTimedOut).unwrap();
    assert_eq!(r.error.as_deref(), Some("Response signal timed out"));
    let r = capture_test_result(PortalOutcome::StreamClosed).unwrap();
    assert_eq!(r.error.as_deref(), Some("Stream closed before Response"));
    let r = capture_test_result(PortalOutcome::DecodeFailed("bad".to_string())).unwrap();
    assert_eq!(r.error.as_deref(), Some("Decode error: bad"));

    let ok = PortalOutcome::Responded {
        code: 0,
        session_handle: Some("/s/1".to_string()),
        error: None,
    };
    assert_eq!(session_to_close(&ok), Some("/s/1".to_string()));
    let r = capture_test_result(ok).unwrap();
    assert!(r.success);
    assert_eq!(r.format.as_deref(), Some("Session /s/1 created and closed — Bug C not present"));

    let eloop = PortalOutcome::Responded {
        code: 2,
        session_handle: None,
        error: Some("ELOOP".to_string()),
    };
    assert_eq!(session_to_close(&eloop), None);
    let r = capture_test_result(eloop).unwrap();
    assert_eq!(r.error.as_deref(), Some("Response 2 ELOOP Bug C: ELOOP"));

    let plain = PortalOutcome::Responded { code: 1, session_handle: None, error: None };
    let r = capture_test_result(plain).unwrap();
    assert_eq!(r.error.as_deref(), Some("Response 1: "));

    let unnamed = PortalOutcome::Responded { code: 0, session_handle: None, error: None };
    assert_eq!(session_to_close(&unnamed), Some("<unknown>".to_string()));
}

#[test]
fn create_session_check() {
    let ok = CaptureTestResult {
        success: true,
        node_id: None,
        width: None,
        height: None,
        format: None,
        error: None,
    };
    let r = probe_portal_create_session(Ok(ok.clone()));
    assert_eq!(r.status, CheckStatus::Pass);
    assert_eq!(r.detail, "Portal CreateSession succeeded");
    let mut bad = ok.clone();
    bad.success = false;
    let r = probe_portal_create_session(Ok(bad));
    assert_eq!(r.status, CheckStatus::Fail);
    assert_eq!(r.detail, "Portal CreateSession failed");
    assert_eq!(r.fix.as_deref(), Some("systemctl --user restart xdg-desktop-portal"));
    let r = probe_portal_create_session(Err("no bus".to_string()));
    assert_eq!(r.detail, "no bus");

    let all = check_pipewire(true, "/p", Ok(ok));
    assert_eq!(all.len(), 2);
    assert_eq!(all[0].check, "pipewire_socket");
    assert_eq!(all[1].check, "portal_create_session");
}

#[test]
fn response_signal_is_recognised() {
    let rp = "/org/freedesktop/portal/desktop/request/1_47/wspectre_h1";
    assert!(is_request_response(true, Some(rp), Some("Response"), rp));
    assert!(!is_request_response(false, Some(rp), Some("Response"), rp));
    assert!(!is_request_response(true, Some("/other"), Some("Response"), rp));
    assert!(!is_request_response(true, Some(rp), Some("Closed"), rp));
    assert!(!is_request_response(true, None, Some("Response"), rp));
    assert!(!is_request_response(true, Some(rp), None, rp));
    assert_eq!((CREATE_SESSION_TIMEOUT_SECS, RESPONSE_TIMEOUT_SECS), (8, 5));
}
