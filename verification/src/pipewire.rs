//! PipeWire checks (layer L4): the PipeWire socket and the live portal
//! `CreateSession` probe, which exposes the ELOOP deadlock ("Bug C").

use vstd::prelude::*;

use crate::text::{
    chars_of, contains, contains_exec, decimal, decimal_chars, join_path, join_path_exec,
    push_chars, push_str, replace_all, replace_all_exec, str_eq, string_of, strip_leading,
    strip_leading_exec,
};
use crate::types::{
    fail_r, one, opt_view, pass_r, rviews, CaptureTestResult, CaptureView, Confidence,
    DiagnosticResult, Layer, ResultView,
};

verus! {

pub const PIPEWIRE_SOCKET: &'static str = "pipewire_socket";

pub const PORTAL_CREATE_SESSION: &'static str = "portal_create_session";

pub const DEFAULT_RUNTIME_DIR: &'static str = "/run/user/1000";

pub const SOCKET_NAME: &'static str = "pipewire-0";

pub const SOCKET_PRESENT: &'static str = "PipeWire socket present: ";

pub const SOCKET_MISSING: &'static str = "PipeWire socket not found at ";

pub const START_PIPEWIRE: &'static str = "systemctl --user start pipewire";

pub const RESTART_PORTAL: &'static str = "systemctl --user restart xdg-desktop-portal";

pub const SESSION_OK: &'static str = "Portal CreateSession succeeded";

pub const SESSION_FAILED: &'static str = "Portal CreateSession failed";

pub const CALL_TIMED_OUT: &'static str =
    "CreateSession timed out (Bug C / ELOOP). Check: journalctl --user -u xdg-desktop-portal -n 50";

pub const ELOOP_CONFIRMS: &'static str = "ELOOP confirms Bug C: ";

pub const CREATE_SESSION_ERROR: &'static str = "CreateSession error: ";

pub const RESPONSE_TIMED_OUT: &'static str = "Response signal timed out";

pub const STREAM_CLOSED: &'static str = "Stream closed before Response";

pub const DECODE_ERROR: &'static str = "Decode error: ";

pub const BUS_UNAVAILABLE: &'static str = "Cannot connect to session D-Bus: ";

pub const IFACE_UNAVAILABLE: &'static str = "Cannot connect to ScreenCast interface: ";

pub const UNKNOWN_SESSION: &'static str = "<unknown>";

// ── Socket ────────────────────────────────────────────────────────────────

pub open spec fn socket_path_spec(runtime_dir: Option<Seq<char>>) -> Seq<char> {
    join_path(
        match runtime_dir {
            Some(d) => d,
            None => DEFAULT_RUNTIME_DIR@,
        },
        SOCKET_NAME@,
    )
}

/// `$XDG_RUNTIME_DIR/pipewire-0`, with `/run/user/1000` for an unset
/// runtime directory.
pub fn pipewire_socket_path(runtime_dir: Option<String>) -> (p: String)
    ensures
        p@ == socket_path_spec(opt_view(runtime_dir)),
{
    match runtime_dir {
        Some(d) => join_path_exec(d.as_str(), SOCKET_NAME),
        None => join_path_exec(DEFAULT_RUNTIME_DIR, SOCKET_NAME),
    }
}

pub open spec fn socket_spec(exists: bool, path: Seq<char>) -> ResultView {
    if exists {
        pass_r(Layer::L4, PIPEWIRE_SOCKET@, SOCKET_PRESENT@ + path)
    } else {
        fail_r(
            Layer::L4,
            PIPEWIRE_SOCKET@,
            SOCKET_MISSING@ + path,
            START_PIPEWIRE@,
            Confidence::High,
        )
    }
}

/// The socket result for `path`, which exists or not.
pub fn check_pipewire_socket(exists: bool, path: &str) -> (r: DiagnosticResult)
    ensures
        r@ == socket_spec(exists, path@),
{
    if exists {
        let mut d = chars_of(SOCKET_PRESENT);
        push_str(&mut d, path);
        let ds = string_of(&d);
        DiagnosticResult::pass(Layer::L4, PIPEWIRE_SOCKET, ds.as_str())
    } else {
        let mut d = chars_of(SOCKET_MISSING);
        push_str(&mut d, path);
        let ds = string_of(&d);
        DiagnosticResult::fail(Layer::L4, PIPEWIRE_SOCKET, ds.as_str(), START_PIPEWIRE, Confidence::High)
    }
}

// ── Portal request names ──────────────────────────────────────────────────

/// The request-path component of a bus unique name (`:1.47` → `1_47`);
/// `0_0` without a unique name.
pub open spec fn sender_spec(unique_name: Option<Seq<char>>) -> Seq<char> {
    match unique_name {
        Some(n) => replace_all(strip_leading(n, ':'), "."@, "_"@),
        None => "0_0"@,
    }
}

pub fn sender_component(unique_name: Option<&str>) -> (s: String)
    ensures
        s@ == sender_spec(
            match unique_name {
                Some(n) => Some(n@),
                None => None,
            },
        ),
{
    match unique_name {
        None => "0_0".to_owned(),
        Some(n) => {
            let c = chars_of(n);
            let t = strip_leading_exec(&c, ':');
            let r = replace_all_exec(&t, &chars_of("."), &chars_of("_"));
            string_of(&r)
        },
    }
}

/// The handle token of the probe's request, from the process id.
pub fn handle_token(pid: u32) -> (t: String)
    ensures
        t@ == "wspectre_h"@ + decimal(pid as nat),
{
    let mut d = chars_of("wspectre_h");
    let digits = decimal_chars(pid as u64);
    push_chars(&mut d, &digits);
    string_of(&d)
}

/// The session handle token of the probe, from the process id.
pub fn session_token(pid: u32) -> (t: String)
    ensures
        t@ == "wspectre_s"@ + decimal(pid as nat),
{
    let mut d = chars_of("wspectre_s");
    let digits = decimal_chars(pid as u64);
    push_chars(&mut d, &digits);
    string_of(&d)
}

/// The object path on which the portal answers the request.
pub fn request_path(sender: &str, token: &str) -> (p: String)
    ensures
        p@ == "/org/freedesktop/portal/desktop/request/"@ + sender@ + "/"@ + token@,
{
    let mut d = chars_of("/org/freedesktop/portal/desktop/request/");
    push_str(&mut d, sender);
    push_str(&mut d, "/");
    push_str(&mut d, token);
    string_of(&d)
}

// ── Probe outcome ─────────────────────────────────────────────────────────

/// What the `CreateSession` exchange with the portal gave.
pub enum PortalOutcome {
    /// The session bus could not be reached; the error message.
    BusUnavailable(String),
    /// No proxy for the ScreenCast interface; the error message.
    InterfaceUnavailable(String),
    /// The `CreateSession` call did not answer in time.
    CallTimedOut,
    /// The `CreateSession` call failed; the error message.
    CallFailed(String),
    /// The `Response` signal did not come in time.
    ResponseTimedOut,
    /// The message stream ended before the `Response` signal.
    StreamClosed,
    /// The `Response` body could not be decoded; the error message.
    DecodeFailed(String),
    /// The `Response` signal: its code, and the rendered `session_handle`
    /// and `error` entries of its results, where present.
    Responded { code: u32, session_handle: Option<String>, error: Option<String> },
}

pub open spec fn call_is_eloop(m: Seq<char>) -> bool {
    contains(m, "ELOOP"@) || contains(m, "Too many levels"@) || contains(m, "symbolic links"@)
}

pub open spec fn response_is_eloop(m: Seq<char>) -> bool {
    contains(m, "ELOOP"@) || contains(m, "Too many levels"@)
}

pub open spec fn failed_capture(error: Seq<char>) -> CaptureView {
    CaptureView {
        success: false,
        node_id: None,
        width: None,
        height: None,
        format: None,
        error: Some(error),
    }
}

pub open spec fn session_name(h: Option<Seq<char>>) -> Seq<char> {
    match h {
        Some(s) => s,
        None => UNKNOWN_SESSION@,
    }
}

pub open spec fn capture_spec(o: PortalOutcome) -> Result<CaptureView, Seq<char>> {
    match o {
        PortalOutcome::BusUnavailable(e) => Err(BUS_UNAVAILABLE@ + e@),
        PortalOutcome::InterfaceUnavailable(e) => Err(IFACE_UNAVAILABLE@ + e@),
        PortalOutcome::CallTimedOut => Ok(failed_capture(CALL_TIMED_OUT@)),
        PortalOutcome::CallFailed(m) => Ok(
            failed_capture(
                if call_is_eloop(m@) {
                    ELOOP_CONFIRMS@ + m@
                } else {
                    CREATE_SESSION_ERROR@ + m@
                },
            ),
        ),
        PortalOutcome::ResponseTimedOut => Ok(failed_capture(RESPONSE_TIMED_OUT@)),
        PortalOutcome::StreamClosed => Ok(failed_capture(STREAM_CLOSED@)),
        PortalOutcome::DecodeFailed(e) => Ok(failed_capture(DECODE_ERROR@ + e@)),
        PortalOutcome::Responded { code, session_handle, error } => if code == 0 {
            Ok(
                CaptureView {
                    success: true,
                    node_id: None,
                    width: None,
                    height: None,
                    format: Some(
                        "Session "@ + session_name(opt_view(session_handle))
                            + " created and closed — Bug C not present"@,
                    ),
                    error: None,
                },
            )
        } else {
            let be = match opt_view(error) {
                Some(x) => x,
                None => Seq::<char>::empty(),
            };
            Ok(
                failed_capture(
                    "Response "@ + decimal(code as nat) + if response_is_eloop(be) {
                        " ELOOP Bug C: "@
                    } else {
                        ": "@
                    } + be,
                ),
            )
        },
    }
}

pub open spec fn capture_view_of(r: Result<CaptureTestResult, String>) -> Result<
    CaptureView,
    Seq<char>,
> {
    match r {
        Ok(c) => Ok(c@),
        Err(e) => Err(e@),
    }
}

fn failed(error: String) -> (r: CaptureTestResult)
    ensures
        r@ == failed_capture(error@),
{
    CaptureTestResult {
        success: false,
        node_id: None,
        width: None,
        height: None,
        format: None,
        error: Some(error),
    }
}

fn prefixed(head: &str, rest: &str) -> (s: String)
    ensures
        s@ == head@ + rest@,
{
    let mut d = chars_of(head);
    push_str(&mut d, rest);
    string_of(&d)
}

/// The capture-test result of a probe outcome: ELOOP in the error text
/// confirms the portal deadlock; response code 0 is success.
pub fn capture_test_result(o: PortalOutcome) -> (r: Result<CaptureTestResult, String>)
    ensures
        capture_view_of(r) == capture_spec(o),
{
    match o {
        PortalOutcome::BusUnavailable(e) => Err(prefixed(BUS_UNAVAILABLE, e.as_str())),
        PortalOutcome::InterfaceUnavailable(e) => Err(prefixed(IFACE_UNAVAILABLE, e.as_str())),
        PortalOutcome::CallTimedOut => Ok(failed(CALL_TIMED_OUT.to_owned())),
        PortalOutcome::CallFailed(m) => {
            let c = chars_of(m.as_str());
            let eloop = contains_exec(&c, &chars_of("ELOOP")) || contains_exec(
                &c,
                &chars_of("Too many levels"),
            ) || contains_exec(&c, &chars_of("symbolic links"));
            if eloop {
                Ok(failed(prefixed(ELOOP_CONFIRMS, m.as_str())))
            } else {
                Ok(failed(prefixed(CREATE_SESSION_ERROR, m.as_str())))
            }
        },
        PortalOutcome::ResponseTimedOut => Ok(failed(RESPONSE_TIMED_OUT.to_owned())),
        PortalOutcome::StreamClosed => Ok(failed(STREAM_CLOSED.to_owned())),
        PortalOutcome::DecodeFailed(e) => Ok(failed(prefixed(DECODE_ERROR, e.as_str()))),
        PortalOutcome::Responded { code, session_handle, error } => {
            if code == 0 {
                let mut d = chars_of("Session ");
                match &session_handle {
                    Some(h) => push_str(&mut d, h.as_str()),
                    None => push_str(&mut d, UNKNOWN_SESSION),
                }
                push_str(&mut d, " created and closed — Bug C not present");
                Ok(
                    CaptureTestResult {
                        success: true,
                        node_id: None,
                        width: None,
                        height: None,
                        format: Some(string_of(&d)),
                        error: None,
                    },
                )
            } else {
                let be = match error {
                    Some(x) => x,
                    None => String::new(),
                };
                let c = chars_of(be.as_str());
                let eloop = contains_exec(&c, &chars_of("ELOOP")) || contains_exec(
                    &c,
                    &chars_of("Too many levels"),
                );
                let mut d = chars_of("Response ");
                let digits = decimal_chars(code as u64);
                push_chars(&mut d, &digits);
                if eloop {
                    push_str(&mut d, " ELOOP Bug C: ");
                } else {
                    push_str(&mut d, ": ");
                }
                push_chars(&mut d, &c);
                Ok(failed(string_of(&d)))
            }
        },
    }
}

/// The portal session to close after the probe: the one a successful
/// response created (`<unknown>` when the response did not name it).
pub fn session_to_close(o: &PortalOutcome) -> (s: Option<String>)
    ensures
        opt_view(s) == match *o {
            PortalOutcome::Responded { code, session_handle, error } => if code == 0 {
                Some(session_name(opt_view(session_handle)))
            } else {
                None
            },
            _ => None,
        },
{
    match o {
        PortalOutcome::Responded { code, session_handle, error } => {
            if *code == 0 {
                match session_handle {
                    Some(h) => Some(h.clone()),
                    None => Some(UNKNOWN_SESSION.to_owned()),
                }
            } else {
                None
            }
        },
        _ => None,
    }
}

// ── Probe result as a check ───────────────────────────────────────────────

pub open spec fn create_session_spec(r: Result<CaptureView, Seq<char>>) -> ResultView {
    match r {
        Ok(c) => if c.success {
            pass_r(
                Layer::L4,
                PORTAL_CREATE_SESSION@,
                match c.format {
                    Some(f) => f,
                    None => SESSION_OK@,
                },
            )
        } else {
            fail_r(
                Layer::L4,
                PORTAL_CREATE_SESSION@,
                match c.error {
                    Some(e) => e,
                    None => SESSION_FAILED@,
                },
                RESTART_PORTAL@,
                Confidence::High,
            )
        },
        Err(e) => fail_r(Layer::L4, PORTAL_CREATE_SESSION@, e, RESTART_PORTAL@, Confidence::High),
    }
}

/// The L4 `portal_create_session` result of a capture test.
pub fn probe_portal_create_session(r: Result<CaptureTestResult, String>) -> (d: DiagnosticResult)
    ensures
        d@ == create_session_spec(capture_view_of(r)),
{
    match r {
        Ok(c) => {
            if c.success {
                match &c.format {
                    Some(f) => DiagnosticResult::pass(Layer::L4, PORTAL_CREATE_SESSION, f.as_str()),
                    None => DiagnosticResult::pass(Layer::L4, PORTAL_CREATE_SESSION, SESSION_OK),
                }
            } else {
                match &c.error {
                    Some(e) => DiagnosticResult::fail(
                        Layer::L4,
                        PORTAL_CREATE_SESSION,
                        e.as_str(),
                        RESTART_PORTAL,
                        Confidence::High,
                    ),
                    None => DiagnosticResult::fail(
                        Layer::L4,
                        PORTAL_CREATE_SESSION,
                        SESSION_FAILED,
                        RESTART_PORTAL,
                        Confidence::High,
                    ),
                }
            }
        },
        Err(e) => DiagnosticResult::fail(
            Layer::L4,
            PORTAL_CREATE_SESSION,
            e.as_str(),
            RESTART_PORTAL,
            Confidence::High,
        ),
    }
}

/// All L4 results: the socket, then the live CreateSession probe.
pub fn check_pipewire(
    socket_exists: bool,
    socket_path: &str,
    probe: Result<CaptureTestResult, String>,
) -> (r: Vec<DiagnosticResult>)
    ensures
        rviews(r@) == seq![socket_spec(socket_exists, socket_path@), create_session_spec(capture_view_of(probe))],
{
    let mut out = one(check_pipewire_socket(socket_exists, socket_path));
    let p = probe_portal_create_session(probe);
    let ghost first = rviews(out@);
    out.push(p);
    assert(rviews(out@) =~= first.push(p@));
    out
}

// ── Waiting for the portal ────────────────────────────────────────────────

/// Seconds to wait for the portal's reply to `CreateSession`.
pub const CREATE_SESSION_TIMEOUT_SECS: u64 = 8;

/// Seconds to wait for the request's `Response` signal.
pub const RESPONSE_TIMEOUT_SECS: u64 = 5;

/// Whether a bus message is the `Response` signal of the request object at
/// `request_path`.
pub fn is_request_response(
    is_signal: bool,
    path: Option<&str>,
    member: Option<&str>,
    request_path: &str,
) -> (b: bool)
    ensures
        b == (is_signal && (match path {
            Some(p) => p@ == request_path@,
            None => false,
        }) && (match member {
            Some(m) => m@ == "Response"@,
            None => false,
        })),
{
    let on_path = match path {
        Some(p) => str_eq(p, request_path),
        None => false,
    };
    let named = match member {
        Some(m) => str_eq(m, "Response"),
        None => false,
    };
    is_signal && on_path && named
}

} // verus!
