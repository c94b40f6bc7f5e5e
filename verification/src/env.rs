//! Environment checks (layer L6): the variables portal services need, in
//! the process environment and in the systemd user environment (which the
//! portal services inherit).

use vstd::prelude::*;

use crate::text::{
    chars_of, contains, contains_exec, lines, lowercase, split_lines, starts_with,
    starts_with_exec, string_of, to_lowercase, views,
};
use crate::types::{
    extend, fail_r, one, opt_view, pass_r, rviews, skip_r, warn_r, Confidence,
    DiagnosticResult, Layer, ResultView, SessionType,
};

verus! {

pub const WAYLAND_DISPLAY: &'static str = "WAYLAND_DISPLAY";

pub const XDG_CURRENT_DESKTOP: &'static str = "XDG_CURRENT_DESKTOP";

pub const DBUS_SESSION_BUS_ADDRESS: &'static str = "DBUS_SESSION_BUS_ADDRESS";

pub const XDG_RUNTIME_DIR: &'static str = "XDG_RUNTIME_DIR";

pub const WD_BOTH: &'static str = "WAYLAND_DISPLAY set in both process env and systemd user env";

pub const WD_SHELL_ONLY: &'static str =
    "WAYLAND_DISPLAY set in shell but NOT in systemd user environment. \
     Portal services launched by systemd won't see the Wayland socket.";

pub const WD_IMPORT_BOTH: &'static str =
    "systemctl --user import-environment WAYLAND_DISPLAY XDG_CURRENT_DESKTOP";

pub const WD_SYSTEMD_ONLY: &'static str =
    "WAYLAND_DISPLAY set in systemd user env (tool running without X/Wayland context)";

pub const WD_NOWHERE: &'static str =
    "WAYLAND_DISPLAY not set anywhere — not running in a Wayland session?";

pub const WD_IMPORT: &'static str = "systemctl --user import-environment WAYLAND_DISPLAY";

pub const WD_X11_SKIP: &'static str =
    "X11 session — WAYLAND_DISPLAY is only expected in a Wayland session";

pub const XCD_BOTH: &'static str =
    "XDG_CURRENT_DESKTOP=KDE in both process env and systemd user env";

pub const XCD_MISSING: &'static str =
    "XDG_CURRENT_DESKTOP not set to KDE in systemd user environment. \
     Portal services may choose wrong backend.";

pub const XCD_IMPORT: &'static str = "systemctl --user import-environment XDG_CURRENT_DESKTOP";

pub const XCD_SYSTEMD: &'static str = "XDG_CURRENT_DESKTOP=KDE in systemd env";

pub const DBUS_PRESENT: &'static str = "DBUS_SESSION_BUS_ADDRESS present in systemd user env";

pub const DBUS_MISSING: &'static str =
    "DBUS_SESSION_BUS_ADDRESS missing from systemd user env — \
     portal D-Bus calls may fail";

pub const DBUS_IMPORT: &'static str =
    "systemctl --user import-environment DBUS_SESSION_BUS_ADDRESS";

pub const RUNTIME_PRESENT: &'static str = "XDG_RUNTIME_DIR present in systemd user env";

pub const RUNTIME_MISSING: &'static str = "XDG_RUNTIME_DIR missing from systemd user env";

pub const RUNTIME_IMPORT: &'static str = "systemctl --user import-environment XDG_RUNTIME_DIR";

// ── systemd user environment ──────────────────────────────────────────────

pub open spec fn sviews(v: Seq<String>) -> Seq<Seq<char>> {
    v.map_values(|s: String| s@)
}

/// The `KEY=value` lines of `systemctl --user show-environment` output.
pub fn parse_systemd_env(stdout: &str) -> (env: Vec<String>)
    ensures
        sviews(env@) == lines(stdout@),
{
    let c = chars_of(stdout);
    let ls = split_lines(&c);
    let mut out: Vec<String> = Vec::new();
    let mut i: usize = 0;
    while i < ls.len()
        invariant
            i <= ls.len(),
            views(ls@) == lines(stdout@),
            sviews(out@) == views(ls@).take(i as int),
        decreases ls.len() - i,
    {
        let ghost before = sviews(out@);
        out.push(string_of(&ls[i]));
        assert(sviews(out@) =~= before.push(ls@[i as int]@));
        assert(views(ls@).take(i as int + 1) =~= views(ls@).take(i as int).push(ls@[i as int]@));
        i = i + 1;
    }
    assert(views(ls@).take(ls.len() as int) =~= views(ls@));
    out
}

/// Whether some entry satisfies `p`.
pub open spec fn any_entry(env: Seq<Seq<char>>, p: spec_fn(Seq<char>) -> bool) -> bool
    decreases env.len(),
{
    if env.len() == 0 {
        false
    } else {
        any_entry(env.drop_last(), p) || p(env.last())
    }
}

fn has_prefixed(env: &Vec<String>, prefix: &str) -> (b: bool)
    ensures
        b == any_entry(sviews(env@), |e: Seq<char>| starts_with(e, prefix@)),
{
    let p = chars_of(prefix);
    let mut b = false;
    let mut i: usize = 0;
    while i < env.len()
        invariant
            i <= env.len(),
            p@ == prefix@,
            b == any_entry(sviews(env@).take(i as int), |e: Seq<char>| starts_with(e, prefix@)),
        decreases env.len() - i,
    {
        let ghost pre = sviews(env@).take(i as int + 1);
        assert(pre.drop_last() =~= sviews(env@).take(i as int));
        assert(pre.last() == env@[i as int]@);
        let e = chars_of(env[i].as_str());
        if starts_with_exec(&e, &p) {
            b = true;
        }
        i = i + 1;
    }
    assert(sviews(env@).take(env.len() as int) =~= sviews(env@));
    b
}

// ── WAYLAND_DISPLAY ───────────────────────────────────────────────────────

pub open spec fn wayland_display_spec(
    session: SessionType,
    in_process: bool,
    env: Seq<Seq<char>>,
) -> Seq<ResultView> {
    let in_systemd = any_entry(env, |e: Seq<char>| starts_with(e, "WAYLAND_DISPLAY="@));
    if session == SessionType::X11 {
        seq![skip_r(Layer::L6, WAYLAND_DISPLAY@, WD_X11_SKIP@)]
    } else if in_process && in_systemd {
        seq![pass_r(Layer::L6, WAYLAND_DISPLAY@, WD_BOTH@)]
    } else if in_process {
        seq![
            warn_r(
                Layer::L6,
                WAYLAND_DISPLAY@,
                WD_SHELL_ONLY@,
                Some(WD_IMPORT_BOTH@),
                Confidence::High,
            ),
        ]
    } else if in_systemd {
        seq![pass_r(Layer::L6, WAYLAND_DISPLAY@, WD_SYSTEMD_ONLY@)]
    } else {
        seq![fail_r(Layer::L6, WAYLAND_DISPLAY@, WD_NOWHERE@, WD_IMPORT@, Confidence::Medium)]
    }
}

/// `in_process`: whether the process environment sets `WAYLAND_DISPLAY`.
/// On X11 the variable is not expected and the check reports SKIP.
pub fn check_wayland_display(session: SessionType, in_process: bool, systemd_env: &Vec<String>) -> (r:
    Vec<DiagnosticResult>)
    ensures
        rviews(r@) == wayland_display_spec(session, in_process, sviews(systemd_env@)),
{
    if session == SessionType::X11 {
        return one(DiagnosticResult::skip(Layer::L6, WAYLAND_DISPLAY, WD_X11_SKIP));
    }
    let in_systemd = has_prefixed(systemd_env, "WAYLAND_DISPLAY=");
    if in_process && in_systemd {
        one(DiagnosticResult::pass(Layer::L6, WAYLAND_DISPLAY, WD_BOTH))
    } else if in_process {
        one(
            DiagnosticResult::warn(
                Layer::L6,
                WAYLAND_DISPLAY,
                WD_SHELL_ONLY,
                Some(WD_IMPORT_BOTH.to_owned()),
                Confidence::High,
            ),
        )
    } else if in_systemd {
        one(DiagnosticResult::pass(Layer::L6, WAYLAND_DISPLAY, WD_SYSTEMD_ONLY))
    } else {
        one(
            DiagnosticResult::fail(
                Layer::L6,
                WAYLAND_DISPLAY,
                WD_NOWHERE,
                WD_IMPORT,
                Confidence::Medium,
            ),
        )
    }
}

// ── XDG_CURRENT_DESKTOP ───────────────────────────────────────────────────

pub open spec fn kde_entry(e: Seq<char>) -> bool {
    starts_with(e, "XDG_CURRENT_DESKTOP="@) && contains(lowercase(e), "kde"@)
}

pub open spec fn xdg_desktop_spec(process_value: Option<Seq<char>>, env: Seq<Seq<char>>) -> Seq<
    ResultView,
> {
    let in_process = match process_value {
        Some(v) => contains(lowercase(v), "kde"@),
        None => false,
    };
    let in_systemd = any_entry(env, |e: Seq<char>| kde_entry(e));
    if !in_systemd {
        seq![
            warn_r(
                Layer::L6,
                XDG_CURRENT_DESKTOP@,
                XCD_MISSING@,
                Some(XCD_IMPORT@),
                Confidence::High,
            ),
        ]
    } else if in_process {
        seq![pass_r(Layer::L6, XDG_CURRENT_DESKTOP@, XCD_BOTH@)]
    } else {
        seq![pass_r(Layer::L6, XDG_CURRENT_DESKTOP@, XCD_SYSTEMD@)]
    }
}

fn has_kde_entry(env: &Vec<String>) -> (b: bool)
    ensures
        b == any_entry(sviews(env@), |e: Seq<char>| kde_entry(e)),
{
    let p = chars_of("XDG_CURRENT_DESKTOP=");
    let kde = chars_of("kde");
    let mut b = false;
    let mut i: usize = 0;
    while i < env.len()
        invariant
            i <= env.len(),
            p@ == "XDG_CURRENT_DESKTOP="@,
            kde@ == "kde"@,
            b == any_entry(sviews(env@).take(i as int), |e: Seq<char>| kde_entry(e)),
        decreases env.len() - i,
    {
        let ghost pre = sviews(env@).take(i as int + 1);
        assert(pre.drop_last() =~= sviews(env@).take(i as int));
        assert(pre.last() == env@[i as int]@);
        let e = chars_of(env[i].as_str());
        if starts_with_exec(&e, &p) && contains_exec(&to_lowercase(&e), &kde) {
            b = true;
        }
        i = i + 1;
    }
    assert(sviews(env@).take(env.len() as int) =~= sviews(env@));
    b
}

/// `process_value`: `XDG_CURRENT_DESKTOP` in the process environment. KDE
/// counts when "kde" appears in the lower-cased value.
pub fn check_xdg_desktop(process_value: Option<String>, systemd_env: &Vec<String>) -> (r: Vec<
    DiagnosticResult,
>)
    ensures
        rviews(r@) == xdg_desktop_spec(opt_view(process_value), sviews(systemd_env@)),
{
    let kde = chars_of("kde");
    let in_process = match process_value {
        Some(v) => {
            let c = chars_of(v.as_str());
            contains_exec(&to_lowercase(&c), &kde)
        },
        None => false,
    };
    let in_systemd = has_kde_entry(systemd_env);
    if !in_systemd {
        one(
            DiagnosticResult::warn(
                Layer::L6,
                XDG_CURRENT_DESKTOP,
                XCD_MISSING,
                Some(XCD_IMPORT.to_owned()),
                Confidence::High,
            ),
        )
    } else if in_process {
        one(DiagnosticResult::pass(Layer::L6, XDG_CURRENT_DESKTOP, XCD_BOTH))
    } else {
        one(DiagnosticResult::pass(Layer::L6, XDG_CURRENT_DESKTOP, XCD_SYSTEMD))
    }
}

// ── DBUS_SESSION_BUS_ADDRESS, XDG_RUNTIME_DIR ─────────────────────────────

pub open spec fn dbus_session_spec(env: Seq<Seq<char>>) -> Seq<ResultView> {
    if any_entry(env, |e: Seq<char>| starts_with(e, "DBUS_SESSION_BUS_ADDRESS="@)) {
        seq![pass_r(Layer::L6, DBUS_SESSION_BUS_ADDRESS@, DBUS_PRESENT@)]
    } else {
        seq![
            warn_r(
                Layer::L6,
                DBUS_SESSION_BUS_ADDRESS@,
                DBUS_MISSING@,
                Some(DBUS_IMPORT@),
                Confidence::Medium,
            ),
        ]
    }
}

pub fn check_dbus_session(systemd_env: &Vec<String>) -> (r: Vec<DiagnosticResult>)
    ensures
        rviews(r@) == dbus_session_spec(sviews(systemd_env@)),
{
    if has_prefixed(systemd_env, "DBUS_SESSION_BUS_ADDRESS=") {
        one(DiagnosticResult::pass(Layer::L6, DBUS_SESSION_BUS_ADDRESS, DBUS_PRESENT))
    } else {
        one(
            DiagnosticResult::warn(
                Layer::L6,
                DBUS_SESSION_BUS_ADDRESS,
                DBUS_MISSING,
                Some(DBUS_IMPORT.to_owned()),
                Confidence::Medium,
            ),
        )
    }
}

pub open spec fn runtime_dir_spec(env: Seq<Seq<char>>) -> Seq<ResultView> {
    if any_entry(env, |e: Seq<char>| starts_with(e, "XDG_RUNTIME_DIR="@)) {
        seq![pass_r(Layer::L6, XDG_RUNTIME_DIR@, RUNTIME_PRESENT@)]
    } else {
        seq![
            warn_r(
                Layer::L6,
                XDG_RUNTIME_DIR@,
                RUNTIME_MISSING@,
                Some(RUNTIME_IMPORT@),
                Confidence::Medium,
            ),
        ]
    }
}

pub fn check_xdg_runtime_dir(systemd_env: &Vec<String>) -> (r: Vec<DiagnosticResult>)
    ensures
        rviews(r@) == runtime_dir_spec(sviews(systemd_env@)),
{
    if has_prefixed(systemd_env, "XDG_RUNTIME_DIR=") {
        one(DiagnosticResult::pass(Layer::L6, XDG_RUNTIME_DIR, RUNTIME_PRESENT))
    } else {
        one(
            DiagnosticResult::warn(
                Layer::L6,
                XDG_RUNTIME_DIR,
                RUNTIME_MISSING,
                Some(RUNTIME_IMPORT.to_owned()),
                Confidence::Medium,
            ),
        )
    }
}

// ── The whole layer ───────────────────────────────────────────────────────

pub open spec fn environment_spec(
    session: SessionType,
    wayland_in_process: bool,
    desktop_in_process: Option<Seq<char>>,
    env: Seq<Seq<char>>,
) -> Seq<ResultView> {
    wayland_display_spec(session, wayland_in_process, env) + xdg_desktop_spec(
        desktop_in_process,
        env,
    ) + dbus_session_spec(env) + runtime_dir_spec(env)
}

/// All L6 results. `wayland_in_process`: whether the process environment
/// sets `WAYLAND_DISPLAY`; `desktop_in_process`: its `XDG_CURRENT_DESKTOP`;
/// `systemd_env`: the systemd user environment, one `KEY=value` per entry.
pub fn check_environment(
    session: SessionType,
    wayland_in_process: bool,
    desktop_in_process: Option<String>,
    systemd_env: Vec<String>,
) -> (r: Vec<DiagnosticResult>)
    ensures
        rviews(r@) == environment_spec(
            session,
            wayland_in_process,
            opt_view(desktop_in_process),
            sviews(systemd_env@),
        ),
{
    let mut out = check_wayland_display(session, wayland_in_process, &systemd_env);
    extend(&mut out, check_xdg_desktop(desktop_in_process, &systemd_env));
    extend(&mut out, check_dbus_session(&systemd_env));
    extend(&mut out, check_xdg_runtime_dir(&systemd_env));
    out
}

} // verus!
