//! Laws on what the session classification, the portal checks, the capture
//! test and the explicit-sync check decide, stated over their inputs.

use vstd::prelude::*;

use crate::dbus::{
    any_named, occurrences_from, presence_spec, zombie_spec, Introspection, PORTAL_NAME,
    PORTAL_RESTART_FIX, PORTAL_START_FIX, SESSION_NODE,
};
use crate::nvidia::{
    all_digits, digits_value, explicit_sync_spec, major_version_spec, parse_u32_spec,
    EXPLICIT_SYNC, SYNC_DEFAULT_ON, SYNC_PARAM_MISSING,
};
use crate::pipewire::{capture_spec, PortalOutcome, CREATE_SESSION_ERROR, ELOOP_CONFIRMS};
use crate::session::classify_spec;
use crate::text::{contains, decimal, digit_char, find_from, is_digit, starts_with, trim};
use crate::types::{pass_r, skip_r, CheckStatus, Layer, SessionType};

verus! {

// ── Session type ──────────────────────────────────────────────────────────

/// An `XDG_SESSION_TYPE` that is neither `wayland` nor `x11` once trimmed
/// (unset, empty, `tty`, anything else) decides nothing: `WAYLAND_DISPLAY`
/// wins, then `DISPLAY`, else the session is unknown.
pub proof fn law_other_session_types_fall_back(
    s: Seq<char>,
    wayland_display: bool,
    display: bool,
)
    requires
        trim(s) != "wayland"@,
        trim(s) != "x11"@,
    ensures
        classify_spec(Some(s), wayland_display, display) == if wayland_display {
            SessionType::Wayland
        } else if display {
            SessionType::X11
        } else {
            SessionType::Unknown
        },
        classify_spec(Some(s), wayland_display, display) == classify_spec(
            None,
            wayland_display,
            display,
        ),
{
}

// ── Portal presence ───────────────────────────────────────────────────────

proof fn lemma_any_named_exists(names: Seq<String>, n: Seq<char>)
    ensures
        any_named(names, n) <==> exists|i: int|
            0 <= i < names.len() && (#[trigger] names[i])@ == n,
    decreases names.len(),
{
    if names.len() > 0 {
        let d = names.drop_last();
        lemma_any_named_exists(d, n);
        if exists|i: int| 0 <= i < d.len() && (#[trigger] d[i])@ == n {
            let i = choose|i: int| 0 <= i < d.len() && (#[trigger] d[i])@ == n;
            assert(names[i] == d[i]);
        }
        if exists|i: int| 0 <= i < names.len() && (#[trigger] names[i])@ == n {
            let i = choose|i: int| 0 <= i < names.len() && (#[trigger] names[i])@ == n;
            if i < names.len() - 1 {
                assert(d[i] == names[i]);
            }
        }
    }
}

/// The portal is active exactly when some name of the bus listing, at any
/// position, is `org.freedesktop.portal.Desktop`: then the presence check
/// passes, otherwise it fails with the portal start command.
pub proof fn law_portal_found_anywhere(names: Seq<String>)
    ensures
        ({
            let (r, up) = presence_spec(Ok(names));
            let listed = exists|i: int|
                0 <= i < names.len() && (#[trigger] names[i])@ == PORTAL_NAME@;
            &&& up <==> listed
            &&& r.status == CheckStatus::Pass <==> listed
            &&& !listed ==> r.status == CheckStatus::Fail && r.fix == Some(PORTAL_START_FIX@)
        }),
{
    lemma_any_named_exists(names, PORTAL_NAME@);
}

// ── Zombie sessions ───────────────────────────────────────────────────────

proof fn lemma_no_occurrence(s: Seq<char>, p: Seq<char>, i: int)
    requires
        p.len() > 0,
        0 <= i,
    ensures
        occurrences_from(s, p, i) == 0 <==> find_from(s, p, i as nat) is None,
    decreases s.len() - i,
{
    if i + p.len() > s.len() {
    } else if crate::text::matches_at(s, p, i) {
    } else {
        lemma_no_occurrence(s, p, i + 1);
    }
}

/// The zombie check passes exactly when the introspection XML holds no
/// `<node name="session`; with one or more it warns, with the portal
/// restart as fix and a detail that starts with the number found.
pub proof fn law_zombie_sessions_warn_on_any(xml: String)
    ensures
        ({
            let r = zombie_spec(Introspection::Xml(xml));
            let n = occurrences_from(xml@, SESSION_NODE@, 0);
            &&& r.len() == 1
            &&& r[0].status == CheckStatus::Pass <==> !contains(xml@, SESSION_NODE@)
            &&& contains(xml@, SESSION_NODE@) ==> n >= 1 && r[0].status == CheckStatus::Warn
                && r[0].fix == Some(PORTAL_RESTART_FIX@) && starts_with(r[0].detail, decimal(n))
        }),
{
    reveal_strlit("<node name=\"session");
    assert(SESSION_NODE@.len() > 0);
    lemma_no_occurrence(xml@, SESSION_NODE@, 0);
    let n = occurrences_from(xml@, SESSION_NODE@, 0);
    let r = zombie_spec(Introspection::Xml(xml));
    if n > 0 {
        assert((decimal(n) + crate::dbus::ZOMBIES_TAIL@).take(decimal(n).len() as int) =~= decimal(
            n,
        ));
    }
}

// ── Capture test ──────────────────────────────────────────────────────────

/// A failed CreateSession call is a failed capture. Its error confirms
/// Bug C exactly when the message mentions "ELOOP", "Too many levels" or
/// "symbolic links"; any other message is reported as a CreateSession
/// error. Either way the message follows the prefix unchanged.
pub proof fn law_call_failure_diagnoses_eloop(m: String)
    ensures
        ({
            let r = capture_spec(PortalOutcome::CallFailed(m));
            let eloop = contains(m@, "ELOOP"@) || contains(m@, "Too many levels"@) || contains(
                m@,
                "symbolic links"@,
            );
            &&& r is Ok
            &&& !r->Ok_0.success
            &&& eloop ==> r->Ok_0.error == Some(ELOOP_CONFIRMS@ + m@)
            &&& !eloop ==> r->Ok_0.error == Some(CREATE_SESSION_ERROR@ + m@)
        }),
{
}

// ── Explicit sync ─────────────────────────────────────────────────────────

proof fn lemma_decimal_digits(n: nat)
    ensures
        decimal(n).len() > 0,
        all_digits(decimal(n)),
        digits_value(decimal(n)) == n,
    decreases n,
{
    if n >= 10 {
        lemma_decimal_digits(n / 10);
        let d = decimal(n);
        assert(d.drop_last() =~= decimal(n / 10));
        assert forall|i: int| 0 <= i < d.len() implies is_digit(#[trigger] d[i]) by {
            if i < d.len() - 1 {
                assert(d[i] == decimal(n / 10)[i]);
            }
        }
    }
    let d = decimal(n);
    assert(d.last() == digit_char(n % 10));
    assert((digit_char(n % 10) as u32) == 48 + n % 10);
    if n < 10 {
        assert(d.drop_last() =~= Seq::<char>::empty());
        assert(digits_value(d.drop_last()) == 0);
    } else {
        assert(d.drop_last() =~= decimal(n / 10));
        assert(digits_value(d.drop_last()) == n / 10);
        assert((n / 10) * 10 + n % 10 == n);
    }
    assert(digits_value(d) == digits_value(d.drop_last()) * 10 + ((d.last() as u32) - 48) as nat);
}

/// A version number written in decimal reads back as itself.
pub proof fn law_version_number_round_trip(n: nat)
    requires
        n <= u32::MAX,
    ensures
        parse_u32_spec(decimal(n)) == Some(n),
{
    lemma_decimal_digits(n);
    assert(is_digit(decimal(n)[0]));
}

/// Without an `explicit_sync` parameter the check passes as "on by default"
/// exactly when the driver's major version is 570 or more, and is skipped
/// otherwise (including when no version can be read).
pub proof fn law_explicit_sync_default_from_570(content: Seq<char>)
    ensures
        explicit_sync_spec(None, content) == if major_version_spec(content) is Some
            && major_version_spec(content)->0 >= 570 {
            seq![pass_r(Layer::L0, EXPLICIT_SYNC@, SYNC_DEFAULT_ON@)]
        } else {
            seq![skip_r(Layer::L0, EXPLICIT_SYNC@, SYNC_PARAM_MISSING@)]
        },
        major_version_spec(content) is Some && major_version_spec(content)->0 < 570
            ==> explicit_sync_spec(None, content)[0].status == CheckStatus::Skip,
{
}

/// A portal Response with a non-zero code is a failed capture whose error
/// names the code, and says "ELOOP Bug C" exactly when the portal's error
/// text mentions "ELOOP" or "Too many levels".
pub proof fn law_response_failure_diagnoses_eloop(code: u32, error: Option<String>)
    requires
        code != 0,
    ensures
        ({
            let r = capture_spec(
                PortalOutcome::Responded { code, session_handle: None, error },
            );
            let text = match error {
                Some(e) => e@,
                None => Seq::<char>::empty(),
            };
            let eloop = contains(text, "ELOOP"@) || contains(text, "Too many levels"@);
            &&& r is Ok
            &&& !r->Ok_0.success
            &&& eloop ==> r->Ok_0.error == Some(
                "Response "@ + decimal(code as nat) + " ELOOP Bug C: "@ + text,
            )
            &&& !eloop ==> r->Ok_0.error == Some("Response "@ + decimal(code as nat) + ": "@ + text)
        }),
{
}

/// With an `explicit_sync` parameter, `Y` or `1` passes, `N` or `0` warns
/// with the kernel-argument fix, and any other value passes as enabled.
pub proof fn law_explicit_sync_parameter(v: Seq<char>, content: Seq<char>)
    ensures
        ({
            let r = explicit_sync_spec(Some(v), content);
            &&& r.len() == 1
            &&& (v == "Y"@ || v == "1"@) ==> r[0].status == CheckStatus::Pass
                && r[0].detail == crate::nvidia::SYNC_ON@
            &&& (v == "N"@ || v == "0"@) ==> r[0].status == CheckStatus::Warn
                && r[0].fix == Some(crate::nvidia::SYNC_FIX@)
            &&& !(v == "Y"@ || v == "1"@ || v == "N"@ || v == "0"@) ==> r[0].status
                == CheckStatus::Pass
        }),
{
    reveal_strlit("Y");
    reveal_strlit("1");
    reveal_strlit("N");
    reveal_strlit("0");
    assert("Y"@[0] == 'Y' && "1"@[0] == '1' && "N"@[0] == 'N' && "0"@[0] == '0');
}

/// The ScreenCast interface version: 4 passes, 5 (the ELOOP-affected
/// 1.20.x series) warns with the portal restart, 3 or less warns without a
/// fix, and anything newer passes.
pub proof fn law_screencast_version_verdict(v: u32)
    ensures
        ({
            let r = crate::dbus::version_spec(crate::dbus::PortalVersion::Version(v));
            &&& v == 4 ==> r.status == CheckStatus::Pass
            &&& v == 5 ==> r.status == CheckStatus::Warn && r.fix == Some(PORTAL_RESTART_FIX@)
            &&& v <= 3 ==> r.status == CheckStatus::Warn && r.fix is None
            &&& v > 5 ==> r.status == CheckStatus::Pass
        }),
{
}

} // verus!
