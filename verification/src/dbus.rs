//! D-Bus portal checks (layer L1): portal presence on the session bus, the
//! ScreenCast interface version, and leftover portal session objects.

use vstd::prelude::*;

use crate::text::{
    chars_of, decimal, decimal_chars, matches_at, matches_at_exec, push_chars, push_str, str_eq,
    string_of,
};
use crate::types::{
    extend, fail_r, one, pass_r, push_result, rviews, warn_r, Confidence, DiagnosticResult, Layer,
    ResultView,
};

verus! {

pub const DBUS_SESSION: &'static str = "dbus_session";

pub const PORTAL_PRESENCE: &'static str = "portal_presence";

pub const PORTAL_IFACE: &'static str = "portal_screencast_iface";

pub const ZOMBIE_SESSIONS: &'static str = "zombie_sessions";

pub const PORTAL_NAME: &'static str = "org.freedesktop.portal.Desktop";

pub const DBUS_STATUS_FIX: &'static str = "systemctl --user status dbus";

pub const PORTAL_RESTART_FIX: &'static str = "systemctl --user restart xdg-desktop-portal";

pub const BUS_UNREACHABLE: &'static str = "Cannot connect to session bus: ";

pub const DAEMON_UNREACHABLE: &'static str = "Cannot reach D-Bus daemon: ";

pub const PORTAL_ACTIVE: &'static str = "org.freedesktop.portal.Desktop active on session bus";

pub const PORTAL_MISSING: &'static str =
    "org.freedesktop.portal.Desktop not found — portal not running";

pub const PORTAL_START_FIX: &'static str = "systemctl --user start xdg-desktop-portal";

pub const IFACE_UNAVAILABLE: &'static str = "Cannot query ScreenCast interface version: ";

pub const IFACE_UNAVAILABLE_TAIL: &'static str =
    " — inconclusive; \
     the portal may still work. The live CreateSession probe (L4) is \
     the reliable signal.";

pub const PROPERTY_UNREADABLE: &'static str = "Could not read version property: ";

pub const API_V4: &'static str = "ScreenCast API v4 — stable, no known screencast regressions";

pub const API_V5: &'static str =
    "ScreenCast API v5 — xdg-desktop-portal 1.20.x; ELOOP (Bug C) known to affect this series";

pub const API_PREFIX: &'static str = "ScreenCast API v";

pub const API_OLD_TAIL: &'static str = " — older portal, may lack ext_image_capture_source";

pub const API_NEW_TAIL: &'static str = " — newer than known-buggy 1.20.x series";

pub const INTROSPECT_FAILED: &'static str = "Introspect failed: ";

pub const NO_ZOMBIES: &'static str = "No orphaned portal session objects found";

pub const ZOMBIES_TAIL: &'static str = " session node(s) still registered — possible zombie(s)";

pub const SESSION_NODE: &'static str = "<node name=\"session";

// ── Portal presence ───────────────────────────────────────────────────────

pub open spec fn any_named(names: Seq<String>, n: Seq<char>) -> bool
    decreases names.len(),
{
    if names.len() == 0 {
        false
    } else {
        any_named(names.drop_last(), n) || names.last()@ == n
    }
}

pub open spec fn presence_spec(names: Result<Seq<String>, Seq<char>>) -> (ResultView, bool) {
    match names {
        Err(e) => (
            fail_r(
                Layer::L1,
                PORTAL_PRESENCE@,
                DAEMON_UNREACHABLE@ + e,
                DBUS_STATUS_FIX@,
                Confidence::High,
            ),
            false,
        ),
        Ok(ns) => if any_named(ns, PORTAL_NAME@) {
            (pass_r(Layer::L1, PORTAL_PRESENCE@, PORTAL_ACTIVE@), true)
        } else {
            (
                fail_r(
                    Layer::L1,
                    PORTAL_PRESENCE@,
                    PORTAL_MISSING@,
                    PORTAL_START_FIX@,
                    Confidence::High,
                ),
                false,
            )
        },
    }
}

pub open spec fn names_view(n: Result<Vec<String>, String>) -> Result<Seq<String>, Seq<char>> {
    match n {
        Ok(v) => Ok(v@),
        Err(e) => Err(e@),
    }
}

fn names_contain(names: &Vec<String>, n: &str) -> (b: bool)
    ensures
        b == any_named(names@, n@),
{
    let mut b = false;
    let mut i: usize = 0;
    while i < names.len()
        invariant
            i <= names.len(),
            b == any_named(names@.take(i as int), n@),
        decreases names.len() - i,
    {
        assert(names@.take(i as int + 1).drop_last() =~= names@.take(i as int));
        if str_eq(names[i].as_str(), n) {
            b = true;
        }
        i = i + 1;
    }
    assert(names@.take(names.len() as int) =~= names@);
    b
}

/// Whether the portal is running, from the bus names (`Err`: the D-Bus
/// daemon could not be asked).
pub fn portal_active(names: &Result<Vec<String>, String>) -> (b: bool)
    ensures
        b == presence_spec(names_view(*names)).1,
{
    match names {
        Err(_) => false,
        Ok(ns) => names_contain(ns, PORTAL_NAME),
    }
}

/// The portal-presence result and whether the portal is up.
pub fn portal_presence(names: &Result<Vec<String>, String>) -> (r: (DiagnosticResult, bool))
    ensures
        (r.0@, r.1) == presence_spec(names_view(*names)),
{
    match names {
        Err(e) => {
            let mut d = chars_of(DAEMON_UNREACHABLE);
            push_str(&mut d, e.as_str());
            let ds = string_of(&d);
            (
                DiagnosticResult::fail(
                    Layer::L1,
                    PORTAL_PRESENCE,
                    ds.as_str(),
                    DBUS_STATUS_FIX,
                    Confidence::High,
                ),
                false,
            )
        },
        Ok(ns) => {
            if names_contain(ns, PORTAL_NAME) {
                (DiagnosticResult::pass(Layer::L1, PORTAL_PRESENCE, PORTAL_ACTIVE), true)
            } else {
                (
                    DiagnosticResult::fail(
                        Layer::L1,
                        PORTAL_PRESENCE,
                        PORTAL_MISSING,
                        PORTAL_START_FIX,
                        Confidence::High,
                    ),
                    false,
                )
            }
        },
    }
}

// ── ScreenCast interface version ──────────────────────────────────────────

/// What the query of the ScreenCast `version` property gave.
pub enum PortalVersion {
    /// No proxy for the interface; the error message.
    InterfaceUnavailable(String),
    /// The property could not be read; the error message.
    PropertyUnreadable(String),
    /// The interface version.
    Version(u32),
}

pub open spec fn version_spec(v: PortalVersion) -> ResultView {
    match v {
        PortalVersion::InterfaceUnavailable(e) => warn_r(
            Layer::L1,
            PORTAL_IFACE@,
            IFACE_UNAVAILABLE@ + e@ + IFACE_UNAVAILABLE_TAIL@,
            None,
            Confidence::Low,
        ),
        PortalVersion::PropertyUnreadable(e) => warn_r(
            Layer::L1,
            PORTAL_IFACE@,
            PROPERTY_UNREADABLE@ + e@,
            None,
            Confidence::Low,
        ),
        PortalVersion::Version(v) => if v == 4 {
            pass_r(Layer::L1, PORTAL_IFACE@, API_V4@)
        } else if v == 5 {
            warn_r(Layer::L1, PORTAL_IFACE@, API_V5@, Some(PORTAL_RESTART_FIX@), Confidence::High)
        } else if v <= 3 {
            warn_r(
                Layer::L1,
                PORTAL_IFACE@,
                API_PREFIX@ + decimal(v as nat) + API_OLD_TAIL@,
                None,
                Confidence::Medium,
            )
        } else {
            pass_r(Layer::L1, PORTAL_IFACE@, API_PREFIX@ + decimal(v as nat) + API_NEW_TAIL@)
        },
    }
}

/// Classifies the ScreenCast interface version: v4 passes, v5 (the
/// xdg-desktop-portal 1.20.x series affected by the ELOOP bug) warns with a
/// portal restart, v3 and older warn, later versions pass. A failed query is
/// inconclusive (WARN, no fix).
pub fn screencast_version_result(v: PortalVersion) -> (r: DiagnosticResult)
    ensures
        r@ == version_spec(v),
{
    match v {
        PortalVersion::InterfaceUnavailable(e) => {
            let mut d = chars_of(IFACE_UNAVAILABLE);
            push_str(&mut d, e.as_str());
            push_str(&mut d, IFACE_UNAVAILABLE_TAIL);
            let ds = string_of(&d);
            DiagnosticResult::warn(Layer::L1, PORTAL_IFACE, ds.as_str(), None, Confidence::Low)
        },
        PortalVersion::PropertyUnreadable(e) => {
            let mut d = chars_of(PROPERTY_UNREADABLE);
            push_str(&mut d, e.as_str());
            let ds = string_of(&d);
            DiagnosticResult::warn(Layer::L1, PORTAL_IFACE, ds.as_str(), None, Confidence::Low)
        },
        PortalVersion::Version(v) => {
            if v == 4 {
                DiagnosticResult::pass(Layer::L1, PORTAL_IFACE, API_V4)
            } else if v == 5 {
                DiagnosticResult::warn(
                    Layer::L1,
                    PORTAL_IFACE,
                    API_V5,
                    Some(PORTAL_RESTART_FIX.to_owned()),
                    Confidence::High,
                )
            } else {
                let mut d = chars_of(API_PREFIX);
                let digits = decimal_chars(v as u64);
                push_chars(&mut d, &digits);
                if v <= 3 {
                    push_str(&mut d, API_OLD_TAIL);
                    let ds = string_of(&d);
                    DiagnosticResult::warn(
                        Layer::L1,
                        PORTAL_IFACE,
                        ds.as_str(),
                        None,
                        Confidence::Medium,
                    )
                } else {
                    push_str(&mut d, API_NEW_TAIL);
                    let ds = string_of(&d);
                    DiagnosticResult::pass(Layer::L1, PORTAL_IFACE, ds.as_str())
                }
            }
        },
    }
}

// ── Zombie sessions ───────────────────────────────────────────────────────

/// Non-overlapping occurrences of `p` (non-empty) at or after `i`, found
/// left to right (`str::matches(..).count()`).
pub open spec fn occurrences_from(s: Seq<char>, p: Seq<char>, i: int) -> nat
    decreases s.len() - i,
{
    if p.len() == 0 || i < 0 || i + p.len() > s.len() {
        0
    } else if matches_at(s, p, i) {
        1 + occurrences_from(s, p, i + p.len())
    } else {
        occurrences_from(s, p, i + 1)
    }
}

proof fn lemma_occurrences_bound(s: Seq<char>, p: Seq<char>, i: int)
    requires
        0 <= i,
    ensures
        occurrences_from(s, p, i) <= if i <= s.len() {
            s.len() - i
        } else {
            0
        },
    decreases s.len() - i,
{
    if p.len() == 0 || i + p.len() > s.len() {
    } else if matches_at(s, p, i) {
        lemma_occurrences_bound(s, p, i + p.len());
    } else {
        lemma_occurrences_bound(s, p, i + 1);
    }
}

/// The number of `<node name="session` elements in an introspection XML.
pub fn count_session_nodes(xml: &str) -> (n: usize)
    ensures
        n == occurrences_from(xml@, SESSION_NODE@, 0),
{
    let s = chars_of(xml);
    let p = chars_of(SESSION_NODE);
    proof {
        reveal_strlit("<node name=\"session");
        lemma_occurrences_bound(s@, p@, 0);
    }
    let mut n: usize = 0;
    let mut i: usize = 0;
    while p.len() <= s.len() && i <= s.len() - p.len()
        invariant
            p@ == SESSION_NODE@,
            p@.len() > 0,
            i <= s.len() + p.len(),
            n + occurrences_from(s@, p@, i as int) == occurrences_from(s@, p@, 0),
            occurrences_from(s@, p@, 0) <= s.len(),
        decreases s.len() + p.len() - i,
    {
        if matches_at_exec(&s, &p, i) {
            n = n + 1;
            i = i + p.len();
        } else {
            i = i + 1;
        }
    }
    n
}

/// What the introspection of the portal object gave.
pub enum Introspection {
    /// No proxy for the Introspectable interface.
    Unavailable,
    /// The call failed; the error message.
    Failed(String),
    /// The introspection XML.
    Xml(String),
}

pub open spec fn zombie_spec(i: Introspection) -> Seq<ResultView> {
    match i {
        Introspection::Unavailable => seq![],
        Introspection::Failed(e) => seq![
            warn_r(Layer::L1, ZOMBIE_SESSIONS@, INTROSPECT_FAILED@ + e@, None, Confidence::Low),
        ],
        Introspection::Xml(x) => {
            let n = occurrences_from(x@, SESSION_NODE@, 0);
            if n == 0 {
                seq![pass_r(Layer::L1, ZOMBIE_SESSIONS@, NO_ZOMBIES@)]
            } else {
                seq![
                    warn_r(
                        Layer::L1,
                        ZOMBIE_SESSIONS@,
                        decimal(n) + ZOMBIES_TAIL@,
                        Some(PORTAL_RESTART_FIX@),
                        Confidence::Medium,
                    ),
                ]
            }
        },
    }
}

/// Session objects still registered under the portal suggest sessions that
/// were never closed.
pub fn check_zombie_sessions(i: Introspection) -> (r: Vec<DiagnosticResult>)
    ensures
        rviews(r@) == zombie_spec(i),
{
    match i {
        Introspection::Unavailable => {
            let r: Vec<DiagnosticResult> = Vec::new();
            assert(rviews(r@) =~= Seq::<ResultView>::empty());
            r
        },
        Introspection::Failed(e) => {
            let mut d = chars_of(INTROSPECT_FAILED);
            push_str(&mut d, e.as_str());
            let ds = string_of(&d);
            one(DiagnosticResult::warn(Layer::L1, ZOMBIE_SESSIONS, ds.as_str(), None, Confidence::Low))
        },
        Introspection::Xml(x) => {
            let n = count_session_nodes(x.as_str());
            if n == 0 {
                one(DiagnosticResult::pass(Layer::L1, ZOMBIE_SESSIONS, NO_ZOMBIES))
            } else {
                let mut d = decimal_chars(n as u64);
                push_str(&mut d, ZOMBIES_TAIL);
                let ds = string_of(&d);
                one(
                    DiagnosticResult::warn(
                        Layer::L1,
                        ZOMBIE_SESSIONS,
                        ds.as_str(),
                        Some(PORTAL_RESTART_FIX.to_owned()),
                        Confidence::Medium,
                    ),
                )
            }
        },
    }
}

// ── The whole layer ───────────────────────────────────────────────────────

/// What the L1 probes found on a reachable session bus.
pub struct PortalProbe {
    /// The names on the bus (`Err`: the D-Bus daemon could not be asked).
    pub names: Result<Vec<String>, String>,
    /// The version query and the introspection, made only when the portal
    /// is up.
    pub details: Option<(PortalVersion, Introspection)>,
}

pub open spec fn portal_layer_spec(bus: Result<PortalProbe, Seq<char>>) -> Seq<ResultView> {
    match bus {
        Err(e) => seq![
            fail_r(
                Layer::L1,
                DBUS_SESSION@,
                BUS_UNREACHABLE@ + e,
                DBUS_STATUS_FIX@,
                Confidence::High,
            ),
        ],
        Ok(p) => {
            let (presence, up) = presence_spec(names_view(p.names));
            seq![presence] + if up {
                match p.details {
                    Some((v, i)) => seq![version_spec(v)] + zombie_spec(i),
                    None => seq![],
                }
            } else {
                seq![]
            }
        },
    }
}

pub open spec fn bus_view(bus: Result<PortalProbe, String>) -> Result<PortalProbe, Seq<char>> {
    match bus {
        Ok(p) => Ok(p),
        Err(e) => Err(e@),
    }
}

/// All L1 results: a session-bus failure alone, or the presence result
/// followed, when the portal is up, by the version and zombie-session checks.
pub fn check_dbus_portal(bus: Result<PortalProbe, String>) -> (r: Vec<DiagnosticResult>)
    ensures
        rviews(r@) == portal_layer_spec(bus_view(bus)),
{
    match bus {
        Err(e) => {
            let mut d = chars_of(BUS_UNREACHABLE);
            push_str(&mut d, e.as_str());
            let ds = string_of(&d);
            one(
                DiagnosticResult::fail(
                    Layer::L1,
                    DBUS_SESSION,
                    ds.as_str(),
                    DBUS_STATUS_FIX,
                    Confidence::High,
                ),
            )
        },
        Ok(p) => {
            let (presence, up) = portal_presence(&p.names);
            let mut out = one(presence);
            if up {
                match p.details {
                    Some((v, i)) => {
                        push_result(&mut out, screencast_version_result(v));
                        extend(&mut out, check_zombie_sessions(i));
                    },
                    None => {},
                }
            }
            out
        },
    }
}

} // verus!
