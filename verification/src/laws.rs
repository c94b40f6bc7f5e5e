//! Properties of the diagnostic as a whole, over every input.

use vstd::prelude::*;

use crate::cli::{
    bold_text, exit_code_spec, fg, header_spec, keep_layer, label_spec, layer_named,
    short_label_spec,
};
use crate::commands::{
    entries_text, is_unsafe_command, optional_line, plan_fix_spec, repeat, section_text,
    summary_text_spec,
};
use crate::kwin::{
    analyse_spec, any_line, check_effect_spec, check_plugin_spec, check_render_backend_spec,
    check_tiled_spec, check_version_spec, dp_count, effect_active_spec, is_backend_line,
    kwin_layer_spec, kwinrc_spec, plugin_listed_spec, render_backend_spec,
    section_has_screencast, EFFECT_AND_PLUGIN_ABSENT, EFFECT_STUCK, EGL_CONFIRMED, GBM_SUFFIX,
    KWIN_RENDER_BACKEND, KWIN_SCREENCAST_EFFECT_ACTIVE, KWIN_SCREENCAST_LOADED,
    KWIN_TILED_DISPLAY, KwinProbe, PLUGIN_INCONCLUSIVE, TILED_FIX, TILED_WARN_TAIL,
};
use crate::session::classify_spec;
use crate::text::{
    contains, decimal, ends_with, find, lemma_contains_middle, lemma_contains_prefix,
    lemma_contains_suffix, lemma_first_char_absent, lemma_match_found, lines, lowercase,
    matches_at, starts_with, trim, uppercase,
};
use crate::types::{count_status, skip_r, CheckStatus, Layer, ResultView, SessionType};
use crate::wayland::{
    bug_d_results, build_checks_spec, count_named, has_named, protocol_table, row_result,
    wayland_layer_spec, x11_skip_spec, GlobalView, X11_SKIP_DETAIL,
};

verus! {

/// Pass and skip results carry no fix; every failure carries one.
pub open spec fn fixes_consistent(rs: Seq<ResultView>) -> bool {
    forall|i: int|
        0 <= i < rs.len() ==> {
            &&& (#[trigger] rs[i]).status == CheckStatus::Fail ==> rs[i].fix is Some
            &&& rs[i].status == CheckStatus::Pass ==> rs[i].fix is None
            &&& rs[i].status == CheckStatus::Skip ==> rs[i].fix is None
        }
}

proof fn lemma_fixes_concat(a: Seq<ResultView>, b: Seq<ResultView>)
    requires
        fixes_consistent(a),
        fixes_consistent(b),
    ensures
        fixes_consistent(a + b),
{
    assert forall|i: int| 0 <= i < (a + b).len() implies {
        &&& (#[trigger] (a + b)[i]).status == CheckStatus::Fail ==> (a + b)[i].fix is Some
        &&& (a + b)[i].status == CheckStatus::Pass ==> (a + b)[i].fix is None
        &&& (a + b)[i].status == CheckStatus::Skip ==> (a + b)[i].fix is None
    } by {
        if i < a.len() {
            assert((a + b)[i] == a[i]);
        } else {
            assert((a + b)[i] == b[i - a.len()]);
        }
    }
}

/// On X11 the Wayland layers are not applicable: every L2/L3 result is a
/// SKIP without a fix whose detail names the X11 session, and the connection,
/// the compositor type, the output count and every protocol of the table
/// each get one.
pub proof fn law_x11_wayland_layers_skip(enumeration: Result<Seq<GlobalView>, Seq<char>>)
    ensures
        ({
            let rs = wayland_layer_spec(SessionType::X11, enumeration);
            &&& rs == x11_skip_spec()
            &&& rs.len() == 3 + protocol_table().len()
            &&& forall|i: int|
                0 <= i < rs.len() ==> (#[trigger] rs[i]).status == CheckStatus::Skip && rs[i].fix
                    is None && rs[i].detail == X11_SKIP_DETAIL@
            &&& forall|k: int|
                0 <= k < protocol_table().len() ==> rs[3 + k].check
                    == (#[trigger] protocol_table()[k]).interface
        }),
{
    let rs = wayland_layer_spec(SessionType::X11, enumeration);
    assert forall|i: int| 0 <= i < rs.len() implies (#[trigger] rs[i]).status
        == CheckStatus::Skip && rs[i].fix is None && rs[i].detail == X11_SKIP_DETAIL@ by {
        if i >= 3 {
            assert(rs[i] == skip_r(Layer::L3, protocol_table()[i - 3].interface, X11_SKIP_DETAIL@));
        }
    }
}

/// Under X11 the KWin version and tiled-display checks still run as under
/// Wayland, while the render-backend, screencast-plugin and screencast-effect
/// checks report SKIP without a fix.
pub proof fn law_x11_kwin_skips_screencast_path(info: Seq<char>, other: SessionType)
    ensures
        ({
            let x = analyse_spec(info, SessionType::X11);
            let w = analyse_spec(info, other);
            &&& x.len() == w.len()
            &&& x[0] == w[0]
            &&& x.skip(4) == w.skip(4)
            &&& x.skip(4) == check_tiled_spec(info)
            &&& forall|i: int| 1 <= i < 4 ==> (#[trigger] x[i]).status == CheckStatus::Skip
                && x[i].fix is None && x[i].layer == Layer::L7
        }),
{
    let x = analyse_spec(info, SessionType::X11);
    let w = analyse_spec(info, other);
    assert(check_version_spec(info).len() == 1);
    assert(check_render_backend_spec(info, other).len() == 1);
    assert(check_plugin_spec(info, other).len() == 1);
    assert(check_effect_spec(info, other).len() == 1);
    assert(x.skip(4) =~= check_tiled_spec(info));
    assert(w.skip(4) =~= check_tiled_spec(info));
}

/// The kwinrc check, the KWin layer and its supportInformation analysis keep
/// the fix discipline: failures carry a fix, passes and skips do not.
pub proof fn law_kwin_fix_discipline(
    kwinrc: Option<Seq<char>>,
    probe: KwinProbe,
    session: SessionType,
)
    ensures
        fixes_consistent(kwin_layer_spec(kwinrc, probe, session)),
{
    match probe {
        KwinProbe::SupportInfo(info) => {
            let a = analyse_spec(info@, session);
            let v = check_version_spec(info@);
            let rb = check_render_backend_spec(info@, session);
            let pl = check_plugin_spec(info@, session);
            let ef = check_effect_spec(info@, session);
            let ti = check_tiled_spec(info@);
            assert(fixes_consistent(v));
            assert(fixes_consistent(rb));
            assert(fixes_consistent(pl));
            assert(fixes_consistent(ef));
            assert(fixes_consistent(ti));
            lemma_fixes_concat(v, rb);
            lemma_fixes_concat(v + rb, pl);
            lemma_fixes_concat(v + rb + pl, ef);
            lemma_fixes_concat(v + rb + pl + ef, ti);
            let head = seq![
                crate::types::pass_r(
                    Layer::L7,
                    crate::kwin::KWIN_RUNNING@,
                    if session == SessionType::X11 {
                        crate::kwin::KWIN_RESPONDING_X11@
                    } else {
                        crate::kwin::KWIN_RESPONDING@
                    },
                ),
            ];
            assert(fixes_consistent(head));
            lemma_fixes_concat(head, a);
            assert(fixes_consistent(kwinrc_spec(kwinrc)));
            lemma_fixes_concat(kwinrc_spec(kwinrc), head + a);
        },
        _ => {
            assert(fixes_consistent(kwinrc_spec(kwinrc)));
            let rest = kwin_layer_spec(kwinrc, probe, session).skip(
                kwinrc_spec(kwinrc).len() as int,
            );
            assert(kwin_layer_spec(kwinrc, probe, session) =~= kwinrc_spec(kwinrc) + rest);
            assert(fixes_consistent(rest));
            lemma_fixes_concat(kwinrc_spec(kwinrc), rest);
        },
    }
}

/// Every L2/L3 result keeps the fix discipline.
pub proof fn law_wayland_fix_discipline(
    session: SessionType,
    enumeration: Result<Seq<GlobalView>, Seq<char>>,
)
    ensures
        fixes_consistent(wayland_layer_spec(session, enumeration)),
{
    if session == SessionType::X11 {
        law_x11_wayland_layers_skip(enumeration);
    } else {
        match enumeration {
            Err(e) => {},
            Ok(gs) => {
                let n = crate::wayland::count_named(gs, "wl_output"@);
                let z = crate::wayland::has_named(gs, crate::wayland::ZKDE_SCREENCAST@);
                let x = crate::wayland::has_named(gs, crate::wayland::EXT_IMAGE_CAPTURE@);
                let head = seq![
                    crate::wayland::backend_result(gs),
                    crate::wayland::output_result(n),
                ];
                let t = crate::wayland::tiled_results(n, z);
                let tab = crate::wayland::table_results(gs, protocol_table());
                let d = bug_d_results(n, z, x);
                assert(fixes_consistent(head));
                assert(fixes_consistent(t));
                assert(fixes_consistent(tab)) by {
                    assert forall|i: int| 0 <= i < tab.len() implies {
                        &&& (#[trigger] tab[i]).status == CheckStatus::Fail ==> tab[i].fix is Some
                        &&& tab[i].status == CheckStatus::Pass ==> tab[i].fix is None
                        &&& tab[i].status == CheckStatus::Skip ==> tab[i].fix is None
                    } by {
                        assert(tab[i] == row_result(gs, protocol_table()[i]));
                    }
                }
                assert(fixes_consistent(d));
                lemma_fixes_concat(head, t);
                lemma_fixes_concat(head + t, tab);
                lemma_fixes_concat(head + t + tab, d);
            },
        }
    }
}

/// Every L0 result keeps the fix discipline.
pub proof fn law_nvidia_fix_discipline(p: crate::nvidia::NvidiaProbe)
    ensures
        fixes_consistent(crate::nvidia::nvidia_layer_spec(p)),
{
    let version = crate::types::opt_view(p.version_file);
    let a = crate::nvidia::driver_loaded_spec(version);
    let b = crate::nvidia::open_modules_spec(crate::nvidia::version_text(version));
    let c = crate::nvidia::modeset_spec(
        crate::types::opt_view(p.modeset),
        crate::types::opt_view(p.modeset_dash),
    );
    let d = crate::nvidia::egl_spec(p.egl_icd_found);
    let e = crate::nvidia::explicit_sync_spec(
        crate::types::opt_view(p.explicit_sync),
        crate::nvidia::version_text(version),
    );
    let f = crate::nvidia::drm_syncobj_spec(
        match p.drm {
            Some(v) => Some(crate::nvidia::drm_views(v@)),
            None => None,
        },
    );
    assert(fixes_consistent(a));
    assert(fixes_consistent(b));
    assert(fixes_consistent(c));
    assert(fixes_consistent(d));
    assert(fixes_consistent(e));
    assert(fixes_consistent(f));
    lemma_fixes_concat(a, b);
    lemma_fixes_concat(a + b, c);
    lemma_fixes_concat(a + b + c, d);
    lemma_fixes_concat(a + b + c + d, e);
    lemma_fixes_concat(a + b + c + d + e, f);
}

/// Every L1 result keeps the fix discipline.
pub proof fn law_portal_fix_discipline(bus: Result<crate::dbus::PortalProbe, Seq<char>>)
    ensures
        fixes_consistent(crate::dbus::portal_layer_spec(bus)),
{
    match bus {
        Err(_) => {},
        Ok(p) => {
            let (presence, up) = crate::dbus::presence_spec(crate::dbus::names_view(p.names));
            let head = seq![presence];
            assert(fixes_consistent(head));
            if up {
                match p.details {
                    Some((v, i)) => {
                        let tail = seq![crate::dbus::version_spec(v)] + crate::dbus::zombie_spec(i);
                        assert(fixes_consistent(seq![crate::dbus::version_spec(v)]));
                        assert(fixes_consistent(crate::dbus::zombie_spec(i)));
                        lemma_fixes_concat(
                            seq![crate::dbus::version_spec(v)],
                            crate::dbus::zombie_spec(i),
                        );
                        lemma_fixes_concat(head, tail);
                    },
                    None => {
                        assert(head + Seq::<ResultView>::empty() =~= head);
                    },
                }
            } else {
                assert(head + Seq::<ResultView>::empty() =~= head);
            }
        },
    }
}

/// Every L4 result keeps the fix discipline.
pub proof fn law_pipewire_fix_discipline(
    exists: bool,
    path: Seq<char>,
    probe: Result<crate::types::CaptureView, Seq<char>>,
)
    ensures
        fixes_consistent(
            seq![
                crate::pipewire::socket_spec(exists, path),
                crate::pipewire::create_session_spec(probe),
            ],
        ),
{
}

/// Every L5 result keeps the fix discipline.
pub proof fn law_flatpak_fix_discipline(
    exists: bool,
    path: Seq<char>,
    listing: Option<(bool, Seq<char>, Seq<char>)>,
)
    ensures
        fixes_consistent(
            seq![crate::flatpak::store_spec(exists, path)] + crate::flatpak::denies_spec(listing),
        ),
{
    assert(fixes_consistent(seq![crate::flatpak::store_spec(exists, path)]));
    assert(fixes_consistent(crate::flatpak::denies_spec(listing)));
    lemma_fixes_concat(
        seq![crate::flatpak::store_spec(exists, path)],
        crate::flatpak::denies_spec(listing),
    );
}

/// Every L6 result keeps the fix discipline.
pub proof fn law_environment_fix_discipline(
    session: SessionType,
    wayland_in_process: bool,
    desktop: Option<Seq<char>>,
    env: Seq<Seq<char>>,
)
    ensures
        fixes_consistent(
            crate::env::environment_spec(session, wayland_in_process, desktop, env),
        ),
{
    let a = crate::env::wayland_display_spec(session, wayland_in_process, env);
    let b = crate::env::xdg_desktop_spec(desktop, env);
    let c = crate::env::dbus_session_spec(env);
    let d = crate::env::runtime_dir_spec(env);
    assert(fixes_consistent(a));
    assert(fixes_consistent(b));
    assert(fixes_consistent(c));
    assert(fixes_consistent(d));
    lemma_fixes_concat(a, b);
    lemma_fixes_concat(a + b, c);
    lemma_fixes_concat(a + b + c, d);
}

/// A global that only authorised clients can see never fails the check:
/// present it passes, absent it is skipped.
pub proof fn law_permission_gated_never_fails(gs: Seq<GlobalView>, k: int)
    requires
        0 <= k < protocol_table().len(),
        protocol_table()[k].class == crate::wayland::GlobalClass::PermissionGated,
    ensures
        row_result(gs, protocol_table()[k]).status == CheckStatus::Pass || row_result(
            gs,
            protocol_table()[k],
        ).status == CheckStatus::Skip,
{
}

/// The Bug D synthesis appears exactly when neither screencast global is
/// visible, and then only as a warning, never a failure.
pub proof fn law_bug_d_is_inconclusive(n: nat, has_zkde: bool, has_ext: bool)
    ensures
        bug_d_results(n, has_zkde, has_ext).len() == if !has_zkde && !has_ext {
            1nat
        } else {
            0nat
        },
        forall|i: int|
            0 <= i < bug_d_results(n, has_zkde, has_ext).len() ==> (#[trigger] bug_d_results(
                n,
                has_zkde,
                has_ext,
            )[i]).status == CheckStatus::Warn,
{
}

proof fn lemma_count_positive(rs: Seq<ResultView>, s: CheckStatus)
    ensures
        count_status(rs, s) > 0 <==> exists|i: int| 0 <= i < rs.len() && (#[trigger] rs[i]).status
            == s,
    decreases rs.len(),
{
    if rs.len() > 0 {
        lemma_count_positive(rs.drop_last(), s);
        if exists|i: int| 0 <= i < rs.len() && (#[trigger] rs[i]).status == s {
            let i = choose|i: int| 0 <= i < rs.len() && (#[trigger] rs[i]).status == s;
            if i < rs.len() - 1 {
                assert(rs.drop_last()[i] == rs[i]);
            }
        }
        if exists|i: int| 0 <= i < rs.drop_last().len() && (#[trigger] rs.drop_last()[i]).status
            == s {
            let i = choose|i: int|
                0 <= i < rs.drop_last().len() && (#[trigger] rs.drop_last()[i]).status == s;
            assert(rs[i] == rs.drop_last()[i]);
        }
    }
}

/// The command line exits 1 exactly when some check failed: warnings and
/// skips (an all-skip X11 run among them) leave the exit code at 0.
pub proof fn law_exit_code_counts_failures_only(rs: Seq<ResultView>)
    ensures
        exit_code_spec(rs) == 1 <==> exists|i: int| 0 <= i < rs.len() && (#[trigger] rs[i]).status
            == CheckStatus::Fail,
        exit_code_spec(rs) == 0 <==> forall|i: int| 0 <= i < rs.len() ==> (#[trigger] rs[i]).status
            != CheckStatus::Fail,
{
    lemma_count_positive(rs, CheckStatus::Fail);
}

/// Every result has exactly one status: the four counts add up to the
/// number of results.
pub proof fn law_status_counts_partition(rs: Seq<ResultView>)
    ensures
        count_status(rs, CheckStatus::Pass) + count_status(rs, CheckStatus::Warn) + count_status(
            rs,
            CheckStatus::Fail,
        ) + count_status(rs, CheckStatus::Skip) == rs.len(),
    decreases rs.len(),
{
    if rs.len() > 0 {
        law_status_counts_partition(rs.drop_last());
    }
}

/// Filtering by a layer keeps exactly that layer's results: all of them
/// belong to it, and filtering again changes nothing.
pub proof fn law_layer_filter_selects_layer(rs: Seq<ResultView>, l: Layer)
    ensures
        forall|i: int| 0 <= i < keep_layer(rs, l).len() ==> (#[trigger] keep_layer(rs, l)[i]).layer
            == l,
        keep_layer(keep_layer(rs, l), l) == keep_layer(rs, l),
        keep_layer(rs, l).len() <= rs.len(),
    decreases rs.len(),
{
    if rs.len() > 0 {
        law_layer_filter_selects_layer(rs.drop_last(), l);
        let k = keep_layer(rs.drop_last(), l);
        let tail = if rs.last().layer == l {
            seq![rs.last()]
        } else {
            Seq::<ResultView>::empty()
        };
        assert forall|i: int| 0 <= i < keep_layer(rs, l).len() implies (#[trigger] keep_layer(
            rs,
            l,
        )[i]).layer == l by {
            if i < k.len() {
                assert(keep_layer(rs, l)[i] == k[i]);
            } else {
                assert(keep_layer(rs, l)[i] == tail[i - k.len()]);
            }
        }
        lemma_keep_all(keep_layer(rs, l), l);
    }
}

proof fn lemma_keep_all(rs: Seq<ResultView>, l: Layer)
    requires
        forall|i: int| 0 <= i < rs.len() ==> (#[trigger] rs[i]).layer == l,
    ensures
        keep_layer(rs, l) == rs,
    decreases rs.len(),
{
    if rs.len() > 0 {
        assert forall|i: int| 0 <= i < rs.drop_last().len() implies (#[trigger] rs.drop_last()[
            i]).layer == l by {
            assert(rs.drop_last()[i] == rs[i]);
        }
        lemma_keep_all(rs.drop_last(), l);
        assert(rs.drop_last() + seq![rs.last()] =~= rs);
    } else {
        assert(rs =~= Seq::<ResultView>::empty());
    }
}

/// A layer's own name selects it.
pub proof fn law_layer_name_parses_back(l: Layer)
    ensures
        layer_named(l.name()) == Some(l),
{
    reveal_strlit("L0");
    reveal_strlit("L1");
    reveal_strlit("L2");
    reveal_strlit("L3");
    reveal_strlit("L4");
    reveal_strlit("L5");
    reveal_strlit("L6");
    reveal_strlit("L7");
    assert("L0"@[1] == '0');
    assert("L1"@[1] == '1');
    assert("L2"@[1] == '2');
    assert("L3"@[1] == '3');
    assert("L4"@[1] == '4');
    assert("L5"@[1] == '5');
    assert("L6"@[1] == '6');
    assert("L7"@[1] == '7');
}

/// A fix command holding a shell metacharacter is refused, whatever else it
/// holds; a command free of them with at least one word runs as its words.
pub proof fn law_unsafe_fix_refused(s: Seq<char>)
    ensures
        is_unsafe_command(s) ==> plan_fix_spec(s) is Err,
        !is_unsafe_command(s) && crate::text::words(s).len() > 0 ==> plan_fix_spec(s) == Ok::<
            Seq<Seq<char>>,
            Seq<char>,
        >(crate::text::words(s)),
{
}

/// A section that does not exist never mentions the screencast plugin.
pub proof fn law_absent_section_is_false(info: Seq<char>, section: Seq<char>)
    requires
        find(lowercase(info), lowercase(section) + seq![':']) is None,
    ensures
        !section_has_screencast(info, section),
{
}

/// The CRTC-mismatch diagnosis of a missing screencast effect is given only
/// when the plugin itself is listed as loaded.
pub proof fn law_effect_diagnosis_follows_plugin(info: Seq<char>, session: SessionType)
    ensures
        check_effect_spec(info, session)[0].status == CheckStatus::Fail && plugin_listed_spec(info)
            ==> check_effect_spec(info, session)[0].detail == EFFECT_STUCK@,
        check_effect_spec(info, session)[0].status == CheckStatus::Fail && !plugin_listed_spec(info)
            ==> check_effect_spec(info, session)[0].detail == EFFECT_AND_PLUGIN_ABSENT@,
{
}

/// An explicit `XDG_SESSION_TYPE` of `wayland` or `x11` decides the session,
/// whatever the display variables say; without it the display variables do.
pub proof fn law_explicit_session_type_wins(s: Seq<char>, w: bool, d: bool)
    ensures
        trim(s) == "wayland"@ ==> classify_spec(Some(s), w, d) == SessionType::Wayland,
        trim(s) == "x11"@ ==> classify_spec(Some(s), w, d) == SessionType::X11,
        classify_spec(None, w, d) == if w {
            SessionType::Wayland
        } else if d {
            SessionType::X11
        } else {
            SessionType::Unknown
        },
{
    reveal_strlit("wayland");
    reveal_strlit("x11");
    assert("wayland"@.len() == 7);
    assert("x11"@.len() == 3);
}

/// The plugin listing in KWin's supportInformation is inconclusive: its
/// check never fails. On X11 it is skipped; otherwise it passes when the
/// plugin is listed and is a fix-less warning otherwise, whose detail calls
/// the listing inconclusive and points at `kwin_screencast_effect_active`.
pub proof fn law_plugin_listing_never_fails(info: Seq<char>, session: SessionType)
    ensures
        ({
            let r = check_plugin_spec(info, session);
            &&& r.len() == 1
            &&& r[0].check == KWIN_SCREENCAST_LOADED@
            &&& r[0].layer == Layer::L7
            &&& r[0].status != CheckStatus::Fail
            &&& session == SessionType::X11 ==> r[0].status == CheckStatus::Skip && r[0].fix is None
            &&& session != SessionType::X11 ==> r[0].status == if plugin_listed_spec(info) {
                CheckStatus::Pass
            } else {
                CheckStatus::Warn
            }
            &&& r[0].status == CheckStatus::Warn ==> r[0].fix is None && contains(
                r[0].detail,
                "inconclusive"@,
            ) && contains(r[0].detail, "kwin_screencast_effect_active"@)
        }),
{
    lemma_inconclusive_detail();
}

proof fn lemma_inconclusive_detail()
    ensures
        contains(PLUGIN_INCONCLUSIVE@, "inconclusive"@),
        contains(PLUGIN_INCONCLUSIVE@, "kwin_screencast_effect_active"@),
{
    reveal_strlit(
        "KWin screencast plugin not listed in 'Loaded Plugins' — inconclusive: this \
        listing is unreliable for the screencast plugin and can be absent on systems \
        where screen sharing works (upstream-confirmed). See \
        kwin_screencast_effect_active (L7) for the signal that distinguishes \
        plugin-loaded from effect-activated.",
    );
    let p = PLUGIN_INCONCLUSIVE@;
    reveal_strlit("inconclusive");
    reveal_strlit("kwin_screencast_effect_active");
    assert(p.subrange(56, 68) =~= "inconclusive"@);
    lemma_match_found(p, "inconclusive"@, 56, 0);
    assert(p.subrange(205, 234) =~= "kwin_screencast_effect_active"@);
    lemma_match_found(p, "kwin_screencast_effect_active"@, 205, 0);
}

proof fn lemma_any_line_exists(ls: Seq<Seq<char>>, p: spec_fn(Seq<char>) -> bool)
    ensures
        any_line(ls, p) <==> exists|k: int| 0 <= k < ls.len() && p(#[trigger] ls[k]),
    decreases ls.len(),
{
    if ls.len() > 0 {
        lemma_any_line_exists(ls.drop_last(), p);
        if exists|k: int| 0 <= k < ls.drop_last().len() && p(#[trigger] ls.drop_last()[k]) {
            let k = choose|k: int| 0 <= k < ls.drop_last().len() && p(#[trigger] ls.drop_last()[k]);
            assert(ls[k] == ls.drop_last()[k]);
        }
        if exists|k: int| 0 <= k < ls.len() && p(#[trigger] ls[k]) {
            let k = choose|k: int| 0 <= k < ls.len() && p(#[trigger] ls[k]);
            if k < ls.len() - 1 {
                assert(ls.drop_last()[k] == ls[k]);
            }
        }
    }
}

/// The render backend is read line by line: EGL and GLX count on a line
/// that, upper-cased, names a backend, platform, OpenGL or compositor; GBM
/// counts on any line.
pub proof fn law_render_backend_by_lines(info: Seq<char>)
    ensures
        render_backend_spec(info).0 <==> exists|k: int|
            0 <= k < lines(info).len() && is_backend_line(uppercase(#[trigger] lines(info)[k]))
                && contains(uppercase(lines(info)[k]), "EGL"@),
        render_backend_spec(info).1 <==> exists|k: int|
            0 <= k < lines(info).len() && contains(uppercase(#[trigger] lines(info)[k]), "GBM"@),
        render_backend_spec(info).2 <==> exists|k: int|
            0 <= k < lines(info).len() && is_backend_line(uppercase(#[trigger] lines(info)[k]))
                && contains(uppercase(lines(info)[k]), "GLX"@),
{
    let ls = lines(info);
    lemma_any_line_exists(ls, |l: Seq<char>| crate::kwin::egl_line(l));
    lemma_any_line_exists(ls, |l: Seq<char>| crate::kwin::gbm_line(l));
    lemma_any_line_exists(ls, |l: Seq<char>| crate::kwin::glx_line(l));
}

/// Under Wayland (or an unknown session) the render-backend check fails on
/// GLX with a fix, passes on EGL (noting GBM when seen), and is otherwise
/// a fix-less, low-confidence warning.
pub proof fn law_render_backend_verdict(info: Seq<char>, session: SessionType)
    requires
        session != SessionType::X11,
    ensures
        ({
            let (egl, gbm, glx) = render_backend_spec(info);
            let r = check_render_backend_spec(info, session);
            &&& r.len() == 1
            &&& r[0].check == KWIN_RENDER_BACKEND@
            &&& r[0].layer == Layer::L7
            &&& glx ==> r[0].status == CheckStatus::Fail && r[0].fix is Some && r[0].confidence
                == crate::types::Confidence::High
            &&& !glx && egl ==> r[0].status == CheckStatus::Pass && (ends_with(
                r[0].detail,
                GBM_SUFFIX@,
            ) <==> gbm)
            &&& !glx && !egl ==> r[0].status == CheckStatus::Warn && r[0].fix is None
                && r[0].confidence == crate::types::Confidence::Low
        }),
{
    reveal_strlit("KWin EGL backend confirmed");
    reveal_strlit(" (GBM)");
    let e = EGL_CONFIRMED@;
    let g = GBM_SUFFIX@;
    assert((e + g).skip(e.len() as int) =~= g);
    assert(e.skip(e.len() - g.len())[5] == e[e.len() - 1]);
}

/// The screencast effect check: skipped on X11 or without a "Loaded
/// Effects" section; passes when the effect is listed there; otherwise
/// fails with the KWin restart fix, and its detail names the CRTC mismatch
/// exactly when the plugin itself is listed as loaded.
pub proof fn law_effect_check(info: Seq<char>, session: SessionType)
    ensures
        ({
            let r = check_effect_spec(info, session);
            &&& r.len() == 1
            &&& r[0].check == KWIN_SCREENCAST_EFFECT_ACTIVE@
            &&& r[0].layer == Layer::L7
            &&& session == SessionType::X11 ==> r[0].status == CheckStatus::Skip && r[0].fix is None
            &&& session != SessionType::X11 && !contains(lowercase(info), "loaded effects:"@)
                ==> r[0].status == CheckStatus::Skip && r[0].fix is None
            &&& session != SessionType::X11 && contains(lowercase(info), "loaded effects:"@)
                ==> (r[0].status == CheckStatus::Pass <==> effect_active_spec(info))
            &&& r[0].status == CheckStatus::Fail ==> r[0].fix == Some(
                crate::kwin::RESTART_KWIN@,
            ) && r[0].confidence == crate::types::Confidence::High && (contains(
                r[0].detail,
                "CRTC"@,
            ) <==> plugin_listed_spec(info))
        }),
{
    reveal_strlit("CRTC");
    reveal_strlit(
        "KWin screencast plugin is present in 'Loaded Plugins' but absent from \
        'Loaded Effects' — effect failed to activate at compositor startup. \
        This is the precise failure point explaining why zkde_screencast_unstable_v1 \
        and ext_image_capture_source_v1 are never advertised on the Wayland bus. \
        Root cause: CRTC format mismatch (AB30 vs AB4H) on tiled Dell UP3214Q \
        prevents KWin from registering the screencast effect (NVIDIA forum 331077, \
        KDE bugs 493277 + 503870). \
        To inspect startup errors: \
        journalctl --user -u plasma-kwin_wayland -b | grep -iE 'screencast|effect|crtc|format'. \
        Note: kwin_wayland --replace is not available in KDE Plasma 6 when KWin \
        is managed by plasma-kwin_wayland.service — only a service restart is viable.",
    );
    reveal_strlit(
        "KWin screencast effect absent from 'Loaded Effects'. \
        Plugin also absent from 'Loaded Plugins' — screencast plugin likely disabled, \
        missing from the KWin plugin path, or crashed before reaching effect registration.",
    );
    let st = EFFECT_STUCK@;
    assert(st.subrange(300, 304) =~= "CRTC"@);
    lemma_match_found(st, "CRTC"@, 300, 0);
    let ab = EFFECT_AND_PLUGIN_ABSENT@;
    assert(forall|k: int| 0 <= k < ab.len() ==> ab[k] != 'C');
    lemma_first_char_absent(ab, "CRTC"@);
}

/// The tiled-display check: nothing without DP outputs, a pass for one, and
/// for two or more a high-confidence warning whose detail starts with the
/// count and cites KDE bug 493277, with the bug page as its fix.
pub proof fn law_tiled_display_check(info: Seq<char>)
    ensures
        ({
            let n = dp_count(info);
            let r = check_tiled_spec(info);
            &&& n == 0 ==> r.len() == 0
            &&& n == 1 ==> r.len() == 1 && r[0].check == KWIN_TILED_DISPLAY@ && r[0].status
                == CheckStatus::Pass
            &&& n >= 2 ==> r.len() == 1 && r[0].check == KWIN_TILED_DISPLAY@ && r[0].status
                == CheckStatus::Warn && starts_with(r[0].detail, decimal(n)) && contains(
                r[0].detail,
                "493277"@,
            ) && r[0].fix == Some(TILED_FIX@) && r[0].confidence
                == crate::types::Confidence::High
        }),
{
    let n = dp_count(info);
    reveal_strlit("493277");
    reveal_strlit(
        " DP outputs detected — tiled 4K display (e.g. Dell UP3214Q) appears as \
        two DP tiles. KDE bugs 493277 + 503870: CRTC format mismatch (AB30 vs AB4H) \
        on tiled panels prevents KWin screencast plugin from advertising \
        zkde_screencast_unstable_v1 and ext_image_capture_source_v1. \
        This is the probable root cause of the L3 FAILs. \
        Tracked at NVIDIA forum 331077.",
    );
    let t = TILED_WARN_TAIL@;
    assert(t.subrange(94, 100) =~= "493277"@);
    lemma_match_found(t, "493277"@, 94, 0);
    lemma_contains_suffix(decimal(n), t, "493277"@);
    assert((decimal(n) + t).take(decimal(n).len() as int) =~= decimal(n));
}

/// Whatever the portal answers about its ScreenCast interface version, the
/// check never fails; a failed query is a warning without a fix.
pub proof fn law_portal_version_never_fails(v: crate::dbus::PortalVersion)
    ensures
        crate::dbus::version_spec(v).status != CheckStatus::Fail,
        !(v is Version) ==> crate::dbus::version_spec(v).status == CheckStatus::Warn
            && crate::dbus::version_spec(v).fix is None,
{
}

// ── The Wayland registry checks, result by result ────────────────────────

proof fn lemma_no_metachar(s: Seq<char>)
    requires
        forall|k: int|
            0 <= k < s.len() ==> #[trigger] s[k] != '|' && s[k] != ';' && s[k] != '&' && s[k]
                != '>' && s[k] != '<' && s[k] != '$' && s[k] != '`',
    ensures
        !is_unsafe_command(s),
{
    lemma_first_char_absent(s, seq!['|']);
    lemma_first_char_absent(s, seq![';']);
    lemma_first_char_absent(s, seq!['&']);
    lemma_first_char_absent(s, seq!['>']);
    lemma_first_char_absent(s, seq!['<']);
    lemma_first_char_absent(s, seq!['$']);
    lemma_first_char_absent(s, seq!['`']);
}

/// The fix commands of the registry checks hold no shell metacharacter.
proof fn lemma_registry_fixes_safe()
    ensures
        !is_unsafe_command(crate::wayland::NO_OUTPUTS_FIX@),
        !is_unsafe_command(crate::wayland::KWIN_JOURNAL@),
        !is_unsafe_command(crate::wayland::RESTART_KWIN@),
{
    reveal_strlit("echo 'Check display connection'");
    reveal_strlit("journalctl --user -u plasma-kwin_wayland -n 100");
    reveal_strlit("systemctl --user restart plasma-kwin_wayland");
    lemma_no_metachar(crate::wayland::NO_OUTPUTS_FIX@);
    lemma_no_metachar(crate::wayland::KWIN_JOURNAL@);
    lemma_no_metachar(crate::wayland::RESTART_KWIN@);
}

/// The check names of the registry checks are pairwise distinct.
proof fn lemma_registry_names()
    ensures
        forall|k: int|
            0 <= k < protocol_table().len() ==> {
                &&& #[trigger] protocol_table()[k].interface != crate::wayland::WAYLAND_BACKEND@
                &&& protocol_table()[k].interface != crate::wayland::WL_OUTPUT_COUNT@
                &&& protocol_table()[k].interface != crate::wayland::TILED_CORRELATION@
                &&& protocol_table()[k].interface != crate::wayland::BUG_D@
            },
        forall|j: int, k: int|
            0 <= j < protocol_table().len() && 0 <= k < protocol_table().len() && j != k
                ==> #[trigger] protocol_table()[j].interface != #[trigger] protocol_table()[k].interface,
        crate::wayland::WAYLAND_BACKEND@ != crate::wayland::WL_OUTPUT_COUNT@,
        crate::wayland::WAYLAND_BACKEND@ != crate::wayland::TILED_CORRELATION@,
        crate::wayland::WAYLAND_BACKEND@ != crate::wayland::BUG_D@,
        crate::wayland::WL_OUTPUT_COUNT@ != crate::wayland::TILED_CORRELATION@,
        crate::wayland::WL_OUTPUT_COUNT@ != crate::wayland::BUG_D@,
        crate::wayland::TILED_CORRELATION@ != crate::wayland::BUG_D@,
        protocol_table().len() == 7,
{
    reveal_strlit("wayland_backend");
    reveal_strlit("wl_output_count");
    reveal_strlit("wl_output_tiled_correlation");
    reveal_strlit("bug_d_screencast_globals");
    reveal_strlit("zwp_linux_dmabuf_v1");
    reveal_strlit("zkde_screencast_unstable_v1");
    reveal_strlit("ext_image_capture_source_v1");
    reveal_strlit("wp_linux_drm_syncobj_manager_v1");
    reveal_strlit("wp_viewporter");
    reveal_strlit("wp_presentation");
    reveal_strlit("zwlr_screencopy_manager_v1");
    let names = seq![
        crate::wayland::WAYLAND_BACKEND@,
        crate::wayland::WL_OUTPUT_COUNT@,
        crate::wayland::TILED_CORRELATION@,
        crate::wayland::BUG_D@,
        crate::wayland::ZWP_LINUX_DMABUF@,
        crate::wayland::ZKDE_SCREENCAST@,
        crate::wayland::EXT_IMAGE_CAPTURE@,
        crate::wayland::DRM_SYNCOBJ@,
        crate::wayland::WP_VIEWPORTER@,
        crate::wayland::WP_PRESENTATION@,
        crate::wayland::WLR_SCREENCOPY@,
    ];
    assert forall|i: int| 0 <= i < 11 implies #[trigger] names[i].len() >= 2 by {}
    assert(names[0][1] == 'a' && names[1][1] == 'l' && names[9][1] == 'p');
    assert(names[2][0] == 'w' && names[5][0] == 'z' && names[6][0] == 'e');
    let t = protocol_table();
    assert(t[0].interface == names[4]);
    assert(t[1].interface == names[5]);
    assert(t[2].interface == names[6]);
    assert(t[3].interface == names[7]);
    assert(t[4].interface == names[8]);
    assert(t[5].interface == names[9]);
    assert(t[6].interface == names[10]);
    assert forall|i: int, j: int| 0 <= i < 11 && 0 <= j < 11 && i != j implies #[trigger] names[i]
        != #[trigger] names[j] by {
        if names[i] == names[j] {
            assert(names[i].len() == names[j].len());
            assert(names[i][0] == names[j][0]);
            assert(names[i][1] == names[j][1]);
        }
    }
    assert forall|j: int, k: int|
        0 <= j < t.len() && 0 <= k < t.len() && j != k implies #[trigger] t[j].interface
        != #[trigger] t[k].interface by {
        assert(t[j].interface == names[j + 4]);
        assert(t[k].interface == names[k + 4]);
    }
    assert forall|k: int| 0 <= k < t.len() implies {
        &&& #[trigger] t[k].interface != names[0]
        &&& t[k].interface != names[1]
        &&& t[k].interface != names[2]
        &&& t[k].interface != names[3]
    } by {
        assert(t[k].interface == names[k + 4]);
    }
    assert(names[0] != names[1] && names[0] != names[2] && names[0] != names[3]);
    assert(names[1] != names[2] && names[1] != names[3] && names[2] != names[3]);
}

/// Where each registry result stands: compositor type, output count, the
/// tiled correlation when present, one result per protocol row, and Bug D
/// when present.
proof fn lemma_registry_layout(gs: Seq<GlobalView>)
    ensures
        ({
            let n = count_named(gs, "wl_output"@);
            let z = has_named(gs, crate::wayland::ZKDE_SCREENCAST@);
            let x = has_named(gs, crate::wayland::EXT_IMAGE_CAPTURE@);
            let rs = build_checks_spec(gs);
            let t = crate::wayland::tiled_results(n, z).len() as int;
            let d = bug_d_results(n, z, x).len() as int;
            &&& t == if n >= 2 && !z { 1int } else { 0int }
            &&& d == if !z && !x { 1int } else { 0int }
            &&& rs.len() == 9 + t + d
            &&& rs[0] == crate::wayland::backend_result(gs)
            &&& rs[1] == crate::wayland::output_result(n)
            &&& t == 1 ==> rs[2] == crate::wayland::tiled_results(n, z)[0]
            &&& forall|k: int|
                0 <= k < 7 ==> rs[2 + t + k] == row_result(gs, #[trigger] protocol_table()[k])
            &&& d == 1 ==> rs[9 + t] == bug_d_results(n, z, x)[0]
        }),
{
    let n = count_named(gs, "wl_output"@);
    let z = has_named(gs, crate::wayland::ZKDE_SCREENCAST@);
    let x = has_named(gs, crate::wayland::EXT_IMAGE_CAPTURE@);
    let head = seq![crate::wayland::backend_result(gs), crate::wayland::output_result(n)];
    let tl = crate::wayland::tiled_results(n, z);
    let tab = crate::wayland::table_results(gs, protocol_table());
    let bd = bug_d_results(n, z, x);
    let rs = build_checks_spec(gs);
    assert(rs == head + tl + tab + bd);
    assert(tab.len() == 7);
    assert forall|k: int| 0 <= k < 7 implies rs[2 + tl.len() + k] == row_result(
        gs,
        #[trigger] protocol_table()[k],
    ) by {
        assert(tab[k] == row_result(gs, protocol_table()[k]));
        assert((head + tl + tab + bd)[2 + tl.len() + k] == tab[k]);
    }
    if bd.len() == 1 {
        assert((head + tl + tab + bd)[9 + tl.len() as int] == bd[0]);
    }
    if tl.len() == 1 {
        assert((head + tl + tab + bd)[2] == tl[0]);
    }
}

proof fn lemma_has_named_exists(gs: Seq<GlobalView>, name: Seq<char>)
    ensures
        has_named(gs, name) <==> exists|i: int| 0 <= i < gs.len() && (#[trigger] gs[i]).interface
            == name,
    decreases gs.len(),
{
    if gs.len() > 0 {
        lemma_has_named_exists(gs.drop_first(), name);
        if exists|i: int| 0 <= i < gs.len() && (#[trigger] gs[i]).interface == name {
            let i = choose|i: int| 0 <= i < gs.len() && (#[trigger] gs[i]).interface == name;
            if i > 0 {
                assert(gs.drop_first()[i - 1] == gs[i]);
            }
        }
        if exists|i: int| 0 <= i < gs.drop_first().len() && (#[trigger] gs.drop_first()[i]).interface
            == name {
            let i = choose|i: int|
                0 <= i < gs.drop_first().len() && (#[trigger] gs.drop_first()[i]).interface == name;
            assert(gs[i + 1] == gs.drop_first()[i]);
        }
    }
}

proof fn lemma_count_named_exists(gs: Seq<GlobalView>, name: Seq<char>)
    ensures
        count_named(gs, name) > 0 <==> exists|i: int| 0 <= i < gs.len() && (#[trigger] gs[i]).interface
            == name,
    decreases gs.len(),
{
    if gs.len() > 0 {
        lemma_count_named_exists(gs.drop_last(), name);
        if exists|i: int| 0 <= i < gs.len() && (#[trigger] gs[i]).interface == name {
            let i = choose|i: int| 0 <= i < gs.len() && (#[trigger] gs[i]).interface == name;
            if i < gs.len() - 1 {
                assert(gs.drop_last()[i] == gs[i]);
            }
        }
        if exists|i: int| 0 <= i < gs.drop_last().len() && (#[trigger] gs.drop_last()[i]).interface
            == name {
            let i = choose|i: int|
                0 <= i < gs.drop_last().len() && (#[trigger] gs.drop_last()[i]).interface == name;
            assert(gs[i] == gs.drop_last()[i]);
        }
    }
}

proof fn lemma_any_global_exists(gs: Seq<GlobalView>, p: spec_fn(Seq<char>) -> bool)
    ensures
        crate::wayland::any_global(gs, p) <==> exists|i: int| 0 <= i < gs.len() && p(
            (#[trigger] gs[i]).interface,
        ),
    decreases gs.len(),
{
    if gs.len() > 0 {
        lemma_any_global_exists(gs.drop_last(), p);
        if exists|i: int| 0 <= i < gs.len() && p((#[trigger] gs[i]).interface) {
            let i = choose|i: int| 0 <= i < gs.len() && p((#[trigger] gs[i]).interface);
            if i < gs.len() - 1 {
                assert(gs.drop_last()[i] == gs[i]);
            }
        }
        if exists|i: int| 0 <= i < gs.drop_last().len() && p(
            (#[trigger] gs.drop_last()[i]).interface,
        ) {
            let i = choose|i: int|
                0 <= i < gs.drop_last().len() && p((#[trigger] gs.drop_last()[i]).interface);
            assert(gs[i] == gs.drop_last()[i]);
        }
    }
}

/// The first two registry results: exactly one `wayland_backend` (L2),
/// passing when some global is a KDE one (`org_kde_…` or `kde_…`) and
/// `xdg_wm_base` is present, a warning otherwise; exactly one
/// `wl_output_count` (L3), passing when a `wl_output` is present, failing
/// otherwise. No fix of any registry result holds a shell metacharacter.
pub proof fn law_registry_backend_and_outputs(gs: Seq<GlobalView>)
    ensures
        ({
            let rs = build_checks_spec(gs);
            &&& rs[0].check == crate::wayland::WAYLAND_BACKEND@
            &&& rs[0].layer == Layer::L2
            &&& rs[0].status == if (exists|i: int|
                0 <= i < gs.len() && crate::wayland::is_kde_name((#[trigger] gs[i]).interface))
                && (exists|i: int| 0 <= i < gs.len() && (#[trigger] gs[i]).interface
                == "xdg_wm_base"@) {
                CheckStatus::Pass
            } else {
                CheckStatus::Warn
            }
            &&& rs[1].check == crate::wayland::WL_OUTPUT_COUNT@
            &&& rs[1].layer == Layer::L3
            &&& rs[1].status == if exists|i: int|
                0 <= i < gs.len() && (#[trigger] gs[i]).interface == "wl_output"@ {
                CheckStatus::Pass
            } else {
                CheckStatus::Fail
            }
            &&& forall|i: int|
                0 < i < rs.len() ==> (#[trigger] rs[i]).check != crate::wayland::WAYLAND_BACKEND@
            &&& forall|i: int|
                0 <= i < rs.len() && i != 1 ==> (#[trigger] rs[i]).check
                    != crate::wayland::WL_OUTPUT_COUNT@
            &&& forall|i: int|
                0 <= i < rs.len() && (#[trigger] rs[i]).fix is Some ==> !is_unsafe_command(
                    rs[i].fix->0,
                )
        }),
{
    let rs = build_checks_spec(gs);
    let n = count_named(gs, "wl_output"@);
    lemma_registry_layout(gs);
    lemma_registry_names();
    lemma_registry_fixes_safe();
    lemma_has_named_exists(gs, "xdg_wm_base"@);
    lemma_count_named_exists(gs, "wl_output"@);
    lemma_any_global_exists(gs, |i: Seq<char>| crate::wayland::is_kde_name(i));
    let z = has_named(gs, crate::wayland::ZKDE_SCREENCAST@);
    let t = crate::wayland::tiled_results(n, z).len() as int;
    assert forall|i: int| 0 <= i < rs.len() implies {
        &&& (i > 0 ==> (#[trigger] rs[i]).check != crate::wayland::WAYLAND_BACKEND@)
        &&& (i != 1 ==> rs[i].check != crate::wayland::WL_OUTPUT_COUNT@)
        &&& (rs[i].fix is Some ==> !is_unsafe_command(rs[i].fix->0))
    } by {
        if 2 + t <= i < 9 + t {
            let k = i - 2 - t;
            assert(rs[i] == row_result(gs, protocol_table()[k]));
            assert(protocol_table()[k].fix == crate::wayland::KWIN_JOURNAL@ || protocol_table()[k].fix
                == crate::wayland::RESTART_KWIN@ || protocol_table()[k].class
                != crate::wayland::GlobalClass::Required) by {
                if k == 0 {
            } else if k == 1 {
            } else if k == 2 {
            } else if k == 3 {
            } else if k == 4 {
            } else if k == 5 {
            } else {
            }
            }
        }
    }
}

/// The tiled-display correlation appears exactly when two or more
/// `wl_output` globals are advertised and `zkde_screencast_unstable_v1` is
/// not; it then appears once, as a fix-less L3 warning.
pub proof fn law_tiled_correlation_once(gs: Seq<GlobalView>)
    ensures
        ({
            let rs = build_checks_spec(gs);
            let tiled = count_named(gs, "wl_output"@) >= 2 && !(exists|j: int|
                0 <= j < gs.len() && (#[trigger] gs[j]).interface
                == crate::wayland::ZKDE_SCREENCAST@);
            &&& (exists|i: int| 0 <= i < rs.len() && (#[trigger] rs[i]).check
                == crate::wayland::TILED_CORRELATION@) <==> tiled
            &&& forall|i: int|
                0 <= i < rs.len() && (#[trigger] rs[i]).check == crate::wayland::TILED_CORRELATION@
                    ==> i == 2 && rs[i].layer == Layer::L3 && rs[i].status == CheckStatus::Warn
                    && rs[i].fix is None
        }),
{
    let rs = build_checks_spec(gs);
    let n = count_named(gs, "wl_output"@);
    let z = has_named(gs, crate::wayland::ZKDE_SCREENCAST@);
    lemma_registry_layout(gs);
    lemma_registry_names();
    lemma_has_named_exists(gs, crate::wayland::ZKDE_SCREENCAST@);
    let t = crate::wayland::tiled_results(n, z).len() as int;
    assert forall|i: int| 0 <= i < rs.len() && (#[trigger] rs[i]).check
        == crate::wayland::TILED_CORRELATION@ implies i == 2 && t == 1 by {
        if 2 + t <= i < 9 + t {
            assert(rs[i] == row_result(gs, protocol_table()[i - 2 - t]));
        }
    }
    if t == 1 {
        assert(rs[2].check == crate::wayland::TILED_CORRELATION@);
    }
}

/// The Bug D synthesis appears exactly when neither
/// `zkde_screencast_unstable_v1` nor `ext_image_capture_source_v1` is
/// advertised; it then appears once, last, as an L3 warning whose fix
/// restarts KWin.
pub proof fn law_bug_d_once(gs: Seq<GlobalView>)
    ensures
        ({
            let rs = build_checks_spec(gs);
            let absent = !(exists|j: int|
                0 <= j < gs.len() && (#[trigger] gs[j]).interface
                == crate::wayland::ZKDE_SCREENCAST@) && !(exists|j: int|
                0 <= j < gs.len() && (#[trigger] gs[j]).interface
                == crate::wayland::EXT_IMAGE_CAPTURE@);
            &&& (exists|i: int| 0 <= i < rs.len() && (#[trigger] rs[i]).check
                == crate::wayland::BUG_D@) <==> absent
            &&& forall|i: int|
                0 <= i < rs.len() && (#[trigger] rs[i]).check == crate::wayland::BUG_D@ ==> i
                    == rs.len() - 1 && rs[i].layer == Layer::L3 && rs[i].status == CheckStatus::Warn
                    && rs[i].fix == Some(crate::wayland::RESTART_KWIN@)
        }),
{
    let rs = build_checks_spec(gs);
    let n = count_named(gs, "wl_output"@);
    let z = has_named(gs, crate::wayland::ZKDE_SCREENCAST@);
    let x = has_named(gs, crate::wayland::EXT_IMAGE_CAPTURE@);
    lemma_registry_layout(gs);
    lemma_registry_names();
    lemma_has_named_exists(gs, crate::wayland::ZKDE_SCREENCAST@);
    lemma_has_named_exists(gs, crate::wayland::EXT_IMAGE_CAPTURE@);
    let t = crate::wayland::tiled_results(n, z).len() as int;
    let d = bug_d_results(n, z, x).len() as int;
    assert forall|i: int| 0 <= i < rs.len() && (#[trigger] rs[i]).check == crate::wayland::BUG_D@
        implies i == 9 + t && d == 1 by {
        if 2 + t <= i < 9 + t {
            assert(rs[i] == row_result(gs, protocol_table()[i - 2 - t]));
        }
    }
    if d == 1 {
        assert(rs[9 + t].check == crate::wayland::BUG_D@);
    }
}

/// Each protocol of the table has exactly one L3 result, named after its
/// interface: a pass when the compositor advertises it; otherwise a failure
/// carrying the row's fix for a required protocol, a fix-less skip for a
/// permission-gated one, and a fix-less warning for an optional one.
pub proof fn law_protocol_row_once(gs: Seq<GlobalView>, k: int)
    requires
        0 <= k < protocol_table().len(),
    ensures
        ({
            let rs = build_checks_spec(gs);
            let row = protocol_table()[k];
            let present = exists|j: int| 0 <= j < gs.len() && (#[trigger] gs[j]).interface
                == row.interface;
            &&& exists|i: int| 0 <= i < rs.len() && (#[trigger] rs[i]).check == row.interface
            &&& forall|i: int|
                0 <= i < rs.len() && (#[trigger] rs[i]).check == row.interface ==> {
                    &&& rs[i].layer == Layer::L3
                    &&& present ==> rs[i].status == CheckStatus::Pass
                    &&& !present && row.class == crate::wayland::GlobalClass::Required
                        ==> rs[i].status == CheckStatus::Fail && rs[i].fix == Some(row.fix)
                    &&& !present && row.class == crate::wayland::GlobalClass::PermissionGated
                        ==> rs[i].status == CheckStatus::Skip && rs[i].fix is None
                    &&& !present && row.class == crate::wayland::GlobalClass::Optional
                        ==> rs[i].status == CheckStatus::Warn && rs[i].fix is None
                }
            &&& forall|i: int, j: int|
                0 <= i < rs.len() && 0 <= j < rs.len() && (#[trigger] rs[i]).check == row.interface
                    && (#[trigger] rs[j]).check == row.interface ==> i == j
        }),
{
    let rs = build_checks_spec(gs);
    let row = protocol_table()[k];
    let n = count_named(gs, "wl_output"@);
    let z = has_named(gs, crate::wayland::ZKDE_SCREENCAST@);
    lemma_registry_layout(gs);
    lemma_registry_names();
    lemma_has_named_exists(gs, row.interface);
    let t = crate::wayland::tiled_results(n, z).len() as int;
    assert(rs[2 + t + k] == row_result(gs, protocol_table()[k]));
    assert forall|i: int| 0 <= i < rs.len() && (#[trigger] rs[i]).check == row.interface implies i
        == 2 + t + k by {
        if 2 + t <= i < 9 + t {
            assert(rs[i] == row_result(gs, protocol_table()[i - 2 - t]));
        }
    }
}

// ── The section search, stated line by line ───────────────────────────────

/// Line `k` of a section still belongs to it: no line before it is blank
/// after a non-blank line (or at all, once `past` content was seen).
pub open spec fn within_section(ls: Seq<Seq<char>>, past: bool, k: int) -> bool {
    forall|j: int|
        0 <= j < k ==> !(trim(#[trigger] ls[j]).len() == 0 && (past || exists|m: int|
            0 <= m < j && trim(#[trigger] ls[m]).len() > 0))
}

proof fn lemma_section_scan_exists(ls: Seq<Seq<char>>, past: bool)
    ensures
        crate::kwin::section_scan(ls, past) <==> exists|k: int|
            0 <= k < ls.len() && contains(trim(#[trigger] ls[k]), crate::kwin::SCREENCAST@)
                && within_section(ls, past, k),
    decreases ls.len(),
{
    reveal_strlit("screencast");
    let sc = crate::kwin::SCREENCAST@;
    if ls.len() > 0 {
        let rest = ls.drop_first();
        let t = trim(ls[0]);
        let next_past = past || t.len() > 0;
        lemma_section_scan_exists(rest, t.len() > 0);
        if t.len() == 0 {
            assert(!contains(t, sc)) by {
                crate::text::lemma_find_from_bounds(t, sc, 0);
            }
        }
        // Line k of `ls` is line k - 1 of `rest`.
        assert forall|k: int| 1 <= k < ls.len() && (past || t.len() > 0 ==> t.len() > 0)
            implies (within_section(ls, past, k) <==> within_section(rest, t.len() > 0, k - 1))
            by {
            if within_section(ls, past, k) {
                assert forall|j: int| 0 <= j < k - 1 implies !(trim(#[trigger] rest[j]).len() == 0
                    && (t.len() > 0 || exists|m: int| 0 <= m < j && trim(#[trigger] rest[m]).len()
                    > 0)) by {
                    assert(rest[j] == ls[j + 1]);
                    if trim(rest[j]).len() == 0 && exists|m: int|
                        0 <= m < j && trim(#[trigger] rest[m]).len() > 0 {
                        let m = choose|m: int| 0 <= m < j && trim(#[trigger] rest[m]).len() > 0;
                        assert(rest[m] == ls[m + 1]);
                        assert(trim(ls[m + 1]).len() > 0);
                        assert(!(trim(ls[j + 1]).len() == 0 && (past || exists|m2: int|
                            0 <= m2 < j + 1 && trim(#[trigger] ls[m2]).len() > 0)));
                    }
                    if trim(rest[j]).len() == 0 && t.len() > 0 {
                        assert(trim(ls[0]).len() > 0);
                        assert(!(trim(ls[j + 1]).len() == 0 && (past || exists|m2: int|
                            0 <= m2 < j + 1 && trim(#[trigger] ls[m2]).len() > 0)));
                    }
                }
            }
            if within_section(rest, t.len() > 0, k - 1) {
                assert forall|j: int| 0 <= j < k implies !(trim(#[trigger] ls[j]).len() == 0 && (
                past || exists|m: int| 0 <= m < j && trim(#[trigger] ls[m]).len() > 0)) by {
                    if j > 0 {
                        assert(ls[j] == rest[j - 1]);
                        if trim(ls[j]).len() == 0 && exists|m: int|
                            0 <= m < j && trim(#[trigger] ls[m]).len() > 0 {
                            let m = choose|m: int| 0 <= m < j && trim(#[trigger] ls[m]).len() > 0;
                            if m > 0 {
                                assert(ls[m] == rest[m - 1]);
                                assert(trim(rest[m - 1]).len() > 0);
                            }
                            assert(!(trim(rest[j - 1]).len() == 0 && (t.len() > 0 || exists|m2: int|
                                0 <= m2 < j - 1 && trim(#[trigger] rest[m2]).len() > 0)));
                        }
                        if trim(ls[j]).len() == 0 && past {
                            assert(!(trim(rest[j - 1]).len() == 0 && (t.len() > 0 || exists|m2: int|
                                0 <= m2 < j - 1 && trim(#[trigger] rest[m2]).len() > 0)));
                        }
                    }
                }
            }
        }
        if exists|k: int|
            0 <= k < ls.len() && contains(trim(#[trigger] ls[k]), sc) && within_section(ls, past, k) {
            let k = choose|k: int|
                0 <= k < ls.len() && contains(trim(#[trigger] ls[k]), sc) && within_section(
                    ls,
                    past,
                    k,
                );
            if k > 0 {
                if t.len() == 0 && past {
                    assert(!(trim(ls[0]).len() == 0 && (past || exists|m: int|
                        0 <= m < 0 && trim(#[trigger] ls[m]).len() > 0)));
                }
                assert(rest[k - 1] == ls[k]);
            }
        }
        if exists|k: int|
            0 <= k < rest.len() && contains(trim(#[trigger] rest[k]), sc) && within_section(
                rest,
                t.len() > 0,
                k,
            ) {
            let k = choose|k: int|
                0 <= k < rest.len() && contains(trim(#[trigger] rest[k]), sc) && within_section(
                    rest,
                    t.len() > 0,
                    k,
                );
            assert(ls[k + 1] == rest[k]);
        }
        if t.len() > 0 && contains(t, sc) {
            assert(within_section(ls, past, 0));
        }
    }
}

/// The section search, line by line: with the text and the section name
/// lower-cased and a colon after the name, a missing header gives false;
/// otherwise the answer is whether some line after the header mentions
/// "screencast" before the section ends at the first blank line that
/// follows a non-blank one.
pub proof fn law_section_search_by_lines(info: Seq<char>, section: Seq<char>)
    ensures
        ({
            let low = lowercase(info);
            let h = lowercase(section) + seq![':'];
            &&& !contains(low, h) ==> !section_has_screencast(info, section)
            &&& contains(low, h) ==> {
                let ls = lines(low.skip((find(low, h)->0 + h.len()) as int));
                section_has_screencast(info, section) <==> exists|k: int|
                    0 <= k < ls.len() && contains(
                        trim(#[trigger] ls[k]),
                        crate::kwin::SCREENCAST@,
                    ) && within_section(ls, false, k)
            }
        }),
{
    let low = lowercase(info);
    let h = lowercase(section) + seq![':'];
    if contains(low, h) {
        let ls = lines(low.skip((find(low, h)->0 + h.len()) as int));
        lemma_section_scan_exists(ls, false);
    }
}

// ── Layer headers ─────────────────────────────────────────────────────────

pub open spec fn no_escape(s: Seq<char>) -> bool {
    forall|k: int| 0 <= k < s.len() ==> #[trigger] s[k] != '\x1b'
}

proof fn lemma_no_escape_concat(a: Seq<char>, b: Seq<char>)
    requires
        no_escape(a),
        no_escape(b),
    ensures
        no_escape(a + b),
{
    assert forall|k: int| 0 <= k < (a + b).len() implies #[trigger] (a + b)[k] != '\x1b' by {
        if k < a.len() {
            assert((a + b)[k] == a[k]);
        } else {
            assert((a + b)[k] == b[k - a.len()]);
        }
    }
}

/// A plain layer header is `[`, the layer's name, a space, its one-word
/// label and `]`; it holds no escape character when the name holds none.
pub proof fn law_plain_header_has_no_escape(layer: Seq<char>)
    requires
        no_escape(layer),
    ensures
        header_spec(layer, false) == "["@ + layer + " "@ + short_label_spec(layer) + "]"@,
        no_escape(header_spec(layer, false)),
{
    reveal_strlit("[");
    reveal_strlit(" ");
    reveal_strlit("]");
    reveal_strlit("gpu");
    reveal_strlit("session");
    reveal_strlit("connection");
    reveal_strlit("protocols");
    reveal_strlit("pipewire");
    reveal_strlit("permissions");
    reveal_strlit("environment");
    reveal_strlit("plugins");
    reveal_strlit("");
    let short = short_label_spec(layer);
    assert(no_escape(short));
    assert(no_escape("["@));
    assert(no_escape(" "@));
    assert(no_escape("]"@));
    lemma_no_escape_concat("["@, layer);
    lemma_no_escape_concat("["@ + layer, " "@);
    lemma_no_escape_concat("["@ + layer + " "@, short);
    lemma_no_escape_concat("["@ + layer + " "@ + short, "]"@);
}

/// In colour mode each of the eight layers' headers is its name and label,
/// bold, in a foreground colour of its own: no two layers share one.
pub proof fn law_layer_colours_distinct()
    ensures
        ({
            let names = seq!["L0"@, "L1"@, "L2"@, "L3"@, "L4"@, "L5"@, "L6"@, "L7"@];
            let colours = seq![
                crate::cli::FG_BRIGHT_BLUE@,
                crate::cli::FG_CYAN@,
                crate::cli::FG_MAGENTA@,
                crate::cli::FG_YELLOW@,
                crate::cli::FG_GREEN@,
                crate::cli::FG_BRIGHT_CYAN@,
                crate::cli::FG_WHITE@,
                crate::cli::FG_BRIGHT_RED@,
            ];
            &&& forall|i: int|
                0 <= i < 8 ==> header_spec(#[trigger] names[i], true) == bold_text(
                    fg(colours[i], names[i] + "  "@ + label_spec(names[i])),
                )
            &&& forall|i: int, j: int|
                0 <= i < 8 && 0 <= j < 8 && i != j ==> #[trigger] colours[i] != #[trigger] colours[j]
        }),
{
    let names = seq!["L0"@, "L1"@, "L2"@, "L3"@, "L4"@, "L5"@, "L6"@, "L7"@];
    let colours = seq![
        crate::cli::FG_BRIGHT_BLUE@,
        crate::cli::FG_CYAN@,
        crate::cli::FG_MAGENTA@,
        crate::cli::FG_YELLOW@,
        crate::cli::FG_GREEN@,
        crate::cli::FG_BRIGHT_CYAN@,
        crate::cli::FG_WHITE@,
        crate::cli::FG_BRIGHT_RED@,
    ];
    reveal_strlit("L0");
    reveal_strlit("L1");
    reveal_strlit("L2");
    reveal_strlit("L3");
    reveal_strlit("L4");
    reveal_strlit("L5");
    reveal_strlit("L6");
    reveal_strlit("L7");
    assert("L0"@[1] == '0' && "L1"@[1] == '1' && "L2"@[1] == '2' && "L3"@[1] == '3');
    assert("L4"@[1] == '4' && "L5"@[1] == '5' && "L6"@[1] == '6' && "L7"@[1] == '7');
    reveal_strlit("\x1b[94m");
    reveal_strlit("\x1b[36m");
    reveal_strlit("\x1b[35m");
    reveal_strlit("\x1b[33m");
    reveal_strlit("\x1b[32m");
    reveal_strlit("\x1b[96m");
    reveal_strlit("\x1b[37m");
    reveal_strlit("\x1b[91m");
    assert forall|i: int| 0 <= i < 8 implies (#[trigger] colours[i]).len() == 5 by {}
    assert(colours[0][2] == '9' && colours[0][3] == '4');
    assert(colours[1][2] == '3' && colours[1][3] == '6');
    assert(colours[2][2] == '3' && colours[2][3] == '5');
    assert(colours[3][2] == '3' && colours[3][3] == '3');
    assert(colours[4][2] == '3' && colours[4][3] == '2');
    assert(colours[5][2] == '9' && colours[5][3] == '6');
    assert(colours[6][2] == '3' && colours[6][3] == '7');
    assert(colours[7][2] == '9' && colours[7][3] == '1');
    assert forall|i: int, j: int| 0 <= i < 8 && 0 <= j < 8 && i != j implies #[trigger] colours[i]
        != #[trigger] colours[j] by {
        if colours[i] == colours[j] {
            assert(colours[i][2] == colours[j][2]);
            assert(colours[i][3] == colours[j][3]);
        }
    }
}

// ── Counting DP outputs ───────────────────────────────────────────────────

/// Whether a `DP-<digit>` (case-sensitive, ASCII digit) starts at `i`.
pub open spec fn dp_at(s: Seq<char>, i: int) -> bool {
    matches_at(s, "DP-"@, i) && i + 3 < s.len() && crate::text::is_digit(s[i + 3])
}

/// The number of offsets at or after `i` where `DP-<digit>` starts.
pub open spec fn dp_offsets_from(s: Seq<char>, i: int) -> nat
    decreases s.len() - i,
{
    if i < 0 || i >= s.len() {
        0
    } else {
        (if dp_at(s, i) {
            1nat
        } else {
            0nat
        }) + dp_offsets_from(s, i + 1)
    }
}

proof fn lemma_no_dp_near_end(s: Seq<char>, i: int)
    requires
        0 <= i,
        i + 3 > s.len(),
    ensures
        dp_offsets_from(s, i) == 0,
    decreases s.len() - i,
{
    if i < s.len() {
        lemma_no_dp_near_end(s, i + 1);
    }
}

proof fn lemma_dp_count_offsets(s: Seq<char>, i: int)
    requires
        0 <= i,
    ensures
        crate::kwin::dp_count_from(s, i) == dp_offsets_from(s, i),
    decreases s.len() - i,
{
    reveal_strlit("DP-");
    let p = "DP-"@;
    if i + 3 > s.len() {
        lemma_no_dp_near_end(s, i);
    } else if matches_at(s, p, i) {
        lemma_dp_count_offsets(s, i + 3);
        assert(s[i + 1] == s.subrange(i, i + 3)[1]);
        assert(s[i + 2] == s.subrange(i, i + 3)[2]);
        if matches_at(s, p, i + 1) {
            assert(s[i + 1] == s.subrange(i + 1, i + 4)[0]);
        }
        if matches_at(s, p, i + 2) {
            assert(s[i + 2] == s.subrange(i + 2, i + 5)[0]);
        }
        assert(!dp_at(s, i + 1) && !dp_at(s, i + 2));
        assert(dp_offsets_from(s, i + 2) == dp_offsets_from(s, i + 3));
        assert(dp_offsets_from(s, i + 1) == dp_offsets_from(s, i + 2));
    } else {
        lemma_dp_count_offsets(s, i + 1);
    }
}

/// The DP-output count is the number of offsets where `DP-` is followed by
/// an ASCII digit, counted at every offset (`DP-` never overlaps itself).
pub proof fn law_dp_count_every_offset(s: Seq<char>)
    ensures
        dp_count(s) == dp_offsets_from(s, 0),
{
    lemma_dp_count_offsets(s, 0);
}

// ── SUMMARY.txt ───────────────────────────────────────────────────────────

/// The header block of SUMMARY.txt: title, rule, generation time, host,
/// kernel, and the optional NVIDIA and Bazzite lines.
pub open spec fn summary_head(sys: crate::types::SystemInfo) -> Seq<char> {
    "wayland-spectre diagnostic report\n"@ + repeat('=', 50) + "\n"@ + "Generated : "@
        + sys.generated_at@ + "\n"@ + "Hostname  : "@ + sys.hostname@ + "\n"@ + "Kernel    : "@
        + sys.kernel@ + "\n"@ + optional_line(
        "NVIDIA    : "@,
        crate::types::opt_view(sys.nvidia_driver),
    ) + optional_line("Bazzite   : "@, crate::types::opt_view(sys.bazzite_image)) + "\n"@
}

/// The `Summary:` line of SUMMARY.txt, without its line break.
pub open spec fn summary_count_line(pass: nat, warn: nat, fail: nat) -> Seq<char> {
    "Summary: "@ + decimal(pass) + " pass  "@ + decimal(warn) + " warn  "@ + decimal(fail)
        + " fail"@
}

#[verifier::rlimit(40)]
proof fn lemma_summary_shape(
    sys: crate::types::SystemInfo,
    rs: Seq<ResultView>,
    pass: nat,
    warn: nat,
    fail: nat,
)
    ensures
        summary_text_spec(sys, rs, pass, warn, fail) == summary_head(sys) + summary_count_line(
            pass,
            warn,
            fail,
        ) + "\n\n"@ + (section_text(rs, CheckStatus::Fail, "FAILURES\n"@) + section_text(
            rs,
            CheckStatus::Warn,
            "WARNINGS\n"@,
        )) + (repeat('-', 50) + "\n"@ + crate::commands::FOOTER@),
{
    reveal_strlit(" fail\n\n");
    reveal_strlit(" fail");
    reveal_strlit("\n\n");
    assert(" fail\n\n"@ =~= " fail"@ + "\n\n"@);
    let h = summary_head(sys);
    let c = summary_count_line(pass, warn, fail);
    let f = section_text(rs, CheckStatus::Fail, "FAILURES\n"@);
    let w = section_text(rs, CheckStatus::Warn, "WARNINGS\n"@);
    let tail = repeat('-', 50) + "\n"@ + crate::commands::FOOTER@;
    assert(summary_text_spec(sys, rs, pass, warn, fail) =~= h + c + "\n\n"@ + (f + w) + tail);
}

/// SUMMARY.txt copies the report's summary counts verbatim into its
/// `Summary:` line, has an `NVIDIA` line for a known driver and a `Bazzite`
/// line for a known image, and lists a FAILURES section exactly when some
/// result failed and a WARNINGS section exactly when some result warned,
/// the failures directly before the warnings. Each section lists the
/// entries of its status only, in report order.
pub proof fn law_summary_text(
    sys: crate::types::SystemInfo,
    rs: Seq<ResultView>,
    pass: nat,
    warn: nat,
    fail: nat,
)
    ensures
        ({
            let t = summary_text_spec(sys, rs, pass, warn, fail);
            let fails = section_text(rs, CheckStatus::Fail, "FAILURES\n"@);
            let warns = section_text(rs, CheckStatus::Warn, "WARNINGS\n"@);
            &&& contains(t, summary_count_line(pass, warn, fail))
            &&& sys.nvidia_driver is Some ==> contains(
                t,
                "NVIDIA    : "@ + sys.nvidia_driver->0@ + "\n"@,
            )
            &&& sys.bazzite_image is Some ==> contains(
                t,
                "Bazzite   : "@ + sys.bazzite_image->0@ + "\n"@,
            )
            &&& (fails.len() > 0 <==> exists|i: int|
                0 <= i < rs.len() && (#[trigger] rs[i]).status == CheckStatus::Fail)
            &&& (warns.len() > 0 <==> exists|i: int|
                0 <= i < rs.len() && (#[trigger] rs[i]).status == CheckStatus::Warn)
            &&& fails.len() > 0 ==> fails == "FAILURES\n"@ + repeat('-', 40) + "\n"@
                + entries_text(rs, CheckStatus::Fail)
            &&& warns.len() > 0 ==> warns == "WARNINGS\n"@ + repeat('-', 40) + "\n"@
                + entries_text(rs, CheckStatus::Warn)
            &&& fails.len() + warns.len() > 0 ==> contains(t, fails + warns)
        }),
{
    reveal_strlit("FAILURES\n");
    reveal_strlit("WARNINGS\n");
    reveal_strlit("Summary: ");
    reveal_strlit("NVIDIA    : ");
    reveal_strlit("Bazzite   : ");
    lemma_count_positive(rs, CheckStatus::Fail);
    lemma_count_positive(rs, CheckStatus::Warn);
    lemma_summary_shape(sys, rs, pass, warn, fail);
    let h = summary_head(sys);
    let c = summary_count_line(pass, warn, fail);
    let secs = section_text(rs, CheckStatus::Fail, "FAILURES\n"@) + section_text(
        rs,
        CheckStatus::Warn,
        "WARNINGS\n"@,
    );
    let tail = repeat('-', 50) + "\n"@ + crate::commands::FOOTER@;
    lemma_contains_middle(h, c, "\n\n"@);
    lemma_contains_prefix(h + c + "\n\n"@, secs, c);
    lemma_contains_prefix(h + c + "\n\n"@ + secs, tail, c);
    if secs.len() > 0 {
        lemma_contains_middle(h + c + "\n\n"@, secs, tail);
    }
    lemma_summary_head_lines(sys);
    if sys.nvidia_driver is Some {
        let n = "NVIDIA    : "@ + sys.nvidia_driver->0@ + "\n"@;
        lemma_contains_prefix(h, c + "\n\n"@ + secs + tail, n);
        assert(h + (c + "\n\n"@ + secs + tail) =~= h + c + "\n\n"@ + secs + tail);
    }
    if sys.bazzite_image is Some {
        let b = "Bazzite   : "@ + sys.bazzite_image->0@ + "\n"@;
        lemma_contains_prefix(h, c + "\n\n"@ + secs + tail, b);
        assert(h + (c + "\n\n"@ + secs + tail) =~= h + c + "\n\n"@ + secs + tail);
    }
}

proof fn lemma_summary_head_lines(sys: crate::types::SystemInfo)
    ensures
        sys.nvidia_driver is Some ==> contains(
            summary_head(sys),
            "NVIDIA    : "@ + sys.nvidia_driver->0@ + "\n"@,
        ),
        sys.bazzite_image is Some ==> contains(
            summary_head(sys),
            "Bazzite   : "@ + sys.bazzite_image->0@ + "\n"@,
        ),
{
    reveal_strlit("NVIDIA    : ");
    reveal_strlit("Bazzite   : ");
    let h1 = "wayland-spectre diagnostic report\n"@ + repeat('=', 50) + "\n"@ + "Generated : "@
        + sys.generated_at@ + "\n"@ + "Hostname  : "@ + sys.hostname@ + "\n"@ + "Kernel    : "@
        + sys.kernel@ + "\n"@;
    let nv = optional_line("NVIDIA    : "@, crate::types::opt_view(sys.nvidia_driver));
    let bz = optional_line("Bazzite   : "@, crate::types::opt_view(sys.bazzite_image));
    assert(summary_head(sys) == h1 + nv + bz + "\n"@);
    if sys.nvidia_driver is Some {
        lemma_contains_middle(h1, nv, bz);
        lemma_contains_prefix(h1 + nv + bz, "\n"@, nv);
    }
    if sys.bazzite_image is Some {
        lemma_contains_middle(h1 + nv, bz, "\n"@);
    }
}

// ── Trimming does not change what a line mentions ─────────────────────────

proof fn lemma_contains_trim_start(s: Seq<char>, n: Seq<char>)
    requires
        n.len() > 0,
        !crate::text::is_ws(n[0]),
    ensures
        contains(crate::text::trim_start(s), n) <==> contains(s, n),
    decreases s.len(),
{
    if s.len() > 0 && crate::text::is_ws(s[0]) {
        let d = s.drop_first();
        lemma_contains_trim_start(d, n);
        assert(s =~= seq![s[0]] + d);
        if contains(d, n) {
            lemma_contains_suffix(seq![s[0]], d, n);
        }
        if contains(s, n) {
            crate::text::lemma_find_from_bounds(s, n, 0);
            let p = crate::text::find_from(s, n, 0)->0 as int;
            assert(s.subrange(p, p + n.len())[0] == s[p]);
            assert(p > 0);
            assert(d.subrange(p - 1, p - 1 + n.len()) =~= s.subrange(p, p + n.len()));
            lemma_match_found(d, n, p - 1, 0);
        }
    }
}

proof fn lemma_contains_trim_end(s: Seq<char>, n: Seq<char>)
    requires
        n.len() > 0,
        !crate::text::is_ws(n[n.len() - 1]),
    ensures
        contains(crate::text::trim_end(s), n) <==> contains(s, n),
    decreases s.len(),
{
    if s.len() > 0 && crate::text::is_ws(s.last()) {
        let d = s.drop_last();
        lemma_contains_trim_end(d, n);
        assert(s =~= d + seq![s.last()]);
        if contains(d, n) {
            lemma_contains_prefix(d, seq![s.last()], n);
        }
        if contains(s, n) {
            crate::text::lemma_find_from_bounds(s, n, 0);
            let p = crate::text::find_from(s, n, 0)->0 as int;
            assert(s.subrange(p, p + n.len())[n.len() - 1] == s[p + n.len() - 1]);
            assert(p + n.len() < s.len());
            assert(d.subrange(p, p + n.len()) =~= s.subrange(p, p + n.len()));
            lemma_match_found(d, n, p, 0);
        }
    }
}

/// The section search over untrimmed lines: a line mentions "screencast"
/// whether or not its surrounding whitespace is trimmed, so the search is
/// whether some untrimmed line of the section mentions it.
pub proof fn law_section_search_untrimmed(info: Seq<char>, section: Seq<char>)
    ensures
        ({
            let low = lowercase(info);
            let h = lowercase(section) + seq![':'];
            &&& !contains(low, h) ==> !section_has_screencast(info, section)
            &&& contains(low, h) ==> {
                let ls = lines(low.skip((find(low, h)->0 + h.len()) as int));
                section_has_screencast(info, section) <==> exists|k: int|
                    0 <= k < ls.len() && contains(#[trigger] ls[k], crate::kwin::SCREENCAST@)
                        && within_section(ls, false, k)
            }
        }),
{
    reveal_strlit("screencast");
    let sc = crate::kwin::SCREENCAST@;
    assert(sc[0] == 's' && sc[sc.len() - 1] == 't');
    law_section_search_by_lines(info, section);
    let low = lowercase(info);
    let h = lowercase(section) + seq![':'];
    if contains(low, h) {
        let ls = lines(low.skip((find(low, h)->0 + h.len()) as int));
        assert forall|k: int| 0 <= k < ls.len() implies contains(trim(#[trigger] ls[k]), sc)
            <==> contains(ls[k], sc) by {
            lemma_contains_trim_end(crate::text::trim_start(ls[k]), sc);
            lemma_contains_trim_start(ls[k], sc);
        }
    }
}

// ── Flatpak deny entries ──────────────────────────────────────────────────

pub open spec fn names_denied_app(l: Seq<char>) -> bool {
    crate::flatpak::is_deny_line(l) && crate::text::words(l).len() > 0
}

proof fn lemma_denied_first(ls: Seq<Seq<char>>)
    ensures
        crate::flatpak::denied_apps(ls).len() == 0 <==> forall|k: int|
            0 <= k < ls.len() ==> !names_denied_app(#[trigger] ls[k]),
        crate::flatpak::denied_apps(ls).len() > 0 ==> exists|k: int|
            0 <= k < ls.len() && names_denied_app(#[trigger] ls[k])
                && crate::flatpak::denied_apps(ls)[0] == crate::text::words(ls[k])[0] && forall|j: int|
                0 <= j < k ==> !names_denied_app(#[trigger] ls[j]),
    decreases ls.len(),
{
    if ls.len() > 0 {
        let d = ls.drop_last();
        lemma_denied_first(d);
        let apps = crate::flatpak::denied_apps(ls);
        let before = crate::flatpak::denied_apps(d);
        assert forall|k: int| 0 <= k < d.len() implies #[trigger] d[k] == ls[k] by {}
        if before.len() > 0 {
            let k = choose|k: int|
                0 <= k < d.len() && names_denied_app(#[trigger] d[k]) && before[0]
                    == crate::text::words(d[k])[0] && forall|j: int|
                    0 <= j < k ==> !names_denied_app(#[trigger] d[j]);
            assert(apps[0] == before[0]);
            assert(ls[k] == d[k]);
            assert forall|j: int| 0 <= j < k implies !names_denied_app(#[trigger] ls[j]) by {
                assert(ls[j] == d[j]);
            }
        } else {
            assert forall|j: int| 0 <= j < d.len() implies !names_denied_app(#[trigger] ls[j]) by {
                assert(ls[j] == d[j]);
                assert(!names_denied_app(d[j]));
            }
            if names_denied_app(ls.last()) {
                assert(apps[0] == crate::text::words(ls.last())[0]);
                assert(ls[ls.len() - 1] == ls.last());
            } else {
                assert(apps.len() == 0);
                assert forall|k: int| 0 <= k < ls.len() implies !names_denied_app(#[trigger] ls[k])
                    by {
                    if k < d.len() {
                        assert(ls[k] == d[k]);
                    }
                }
            }
        }
        if apps.len() == 0 {
            assert forall|k: int| 0 <= k < d.len() implies !names_denied_app(#[trigger] d[k]) by {
                assert(d[k] == ls[k]);
            }
        }
    }
}

/// The standard output of a `flatpak permission-show` listing.
pub open spec fn listing_stdout(listing: Option<(bool, Seq<char>, Seq<char>)>) -> Seq<char> {
    match listing {
        Some((_, stdout, _)) => stdout,
        None => Seq::<char>::empty(),
    }
}

/// A warning about stale Flatpak screencast denies resets the first app
/// named on a deny line: its fix is `flatpak permission-reset screencast`
/// followed by the first word of the first deny line that has a word, or
/// the bare reset when no deny line has one.
pub proof fn law_deny_fix_names_first_app(listing: Option<(bool, Seq<char>, Seq<char>)>)
    ensures
        ({
            let r = crate::flatpak::denies_spec(listing);
            &&& r.len() == 1
            &&& r[0].status == CheckStatus::Warn ==> listing is Some && {
                let ls = lines(listing_stdout(listing));
                ||| exists|k: int|
                    0 <= k < ls.len() && names_denied_app(#[trigger] ls[k]) && (forall|j: int|
                        0 <= j < k ==> !names_denied_app(#[trigger] ls[j])) && r[0].fix == Some(
                        crate::flatpak::RESET_FIX@ + " "@ + crate::text::words(ls[k])[0],
                    )
                ||| (forall|k: int| 0 <= k < ls.len() ==> !names_denied_app(#[trigger] ls[k]))
                    && r[0].fix == Some(crate::flatpak::RESET_FIX@)
            }
        }),
{
    match listing {
        None => {},
        Some((success, stdout, stderr)) => {
            let ls = lines(stdout);
            lemma_denied_first(ls);
            let apps = crate::flatpak::denied_apps(ls);
            assert(crate::flatpak::RESET_FIX@ + Seq::<char>::empty() =~= crate::flatpak::RESET_FIX@);
            assert(crate::flatpak::RESET_FIX@ + (" "@ + apps[0]) =~= crate::flatpak::RESET_FIX@ + " "@
                + apps[0]);
        },
    }
}

} // verus!
