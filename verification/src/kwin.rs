//! KWin checks (layer L7): analysis of KWin's `supportInformation` text and
//! of the `kwinrc` configuration file.
//!
//! `supportInformation` is organised in sections separated by blank lines:
//!
//! ```text
//! Loaded Plugins:
//! kwin4_effect_blur
//! kwin_screencast
//!
//! Loaded Effects:
//! blur
//! ```
//!
//! A plugin listed under "Loaded Plugins" was loaded; an effect listed under
//! "Loaded Effects" is actually running. The screencast effect failing to
//! activate while its plugin is loaded is the failure this layer pins down.

use vstd::prelude::*;

use crate::text::{
    chars_of, contains, contains_exec, copy_range, decimal, decimal_chars, ends_with,
    ends_with_exec, find, find_from_exec, home_or_root, join_path, join_path_exec,
    is_ascii_digit, is_digit, lemma_find_from_bounds, lines, lowercase, matches_at,
    matches_at_exec, push_chars, push_str, split_lines, starts_with, starts_with_exec,
    string_of, to_lowercase, to_uppercase, trim, trim_chars, uppercase, views,
};
use crate::types::{
    extend, fail_r, one, opt_view, pass_r, push_result, rviews, skip_r, warn_r, Confidence,
    DiagnosticResult, Layer, ResultView, SessionType,
};

verus! {

// ── Check names and messages ──────────────────────────────────────────────

pub const SCREENCAST: &'static str = "screencast";

pub const KWIN_VERSION: &'static str = "kwin_version";

pub const KWIN_RENDER_BACKEND: &'static str = "kwin_render_backend";

pub const KWIN_SCREENCAST_LOADED: &'static str = "kwin_screencast_loaded";

pub const KWIN_SCREENCAST_EFFECT_ACTIVE: &'static str = "kwin_screencast_effect_active";

pub const KWIN_TILED_DISPLAY: &'static str = "kwin_tiled_display";

pub const KWIN_SCREENCAST_PLUGIN_KWINRC: &'static str = "kwin_screencast_plugin_kwinrc";

pub const KWIN_DBUS_CONNECT: &'static str = "kwin_dbus_connect";

pub const KWIN_RUNNING: &'static str = "kwin_running";

pub const VERSION_MISSING: &'static str = "KWin is running but version not found in supportInformation";

pub const X11_RENDER_SKIP: &'static str =
    "X11 session — EGL/GBM requirement applies to the kwin_wayland screencast path";

pub const GLX_DETAIL: &'static str =
    "KWin GLX backend detected — screencasting requires EGL/GBM. \
     Verify nvidia-drm.modeset=1 and that __EGL_VENDOR_LIBRARY_FILENAMES \
     is not overridden in the environment.";

pub const GLX_FIX: &'static str =
    "Add __EGL_VENDOR_LIBRARY_FILENAMES=/usr/share/glvnd/egl_vendor.d/10_nvidia.json \
     to /etc/environment then reboot";

pub const EGL_CONFIRMED: &'static str = "KWin EGL backend confirmed";

pub const GBM_SUFFIX: &'static str = " (GBM)";

pub const BACKEND_UNKNOWN: &'static str =
    "KWin rendering backend not identifiable from supportInformation";

pub const X11_PLUGIN_SKIP: &'static str =
    "X11 session — kwin_screencast is a kwin_wayland plugin; not expected under kwin_x11";

pub const PLUGIN_PRESENT: &'static str =
    "KWin screencast plugin present in 'Loaded Plugins' — plugin initialised by KWin";

pub const PLUGIN_INCONCLUSIVE: &'static str =
    "KWin screencast plugin not listed in 'Loaded Plugins' — inconclusive: this \
     listing is unreliable for the screencast plugin and can be absent on systems \
     where screen sharing works (upstream-confirmed). See \
     kwin_screencast_effect_active (L7) for the signal that distinguishes \
     plugin-loaded from effect-activated.";

pub const X11_EFFECT_SKIP: &'static str =
    "X11 session — the screencast effect only exists under kwin_wayland";

pub const EFFECTS_SECTION_ABSENT: &'static str =
    "Cannot determine effect activation state: 'Loaded Effects' section absent \
     from supportInformation (older KWin format or truncated output)";

pub const EFFECT_ACTIVE: &'static str = "KWin screencast effect confirmed active in 'Loaded Effects'";

pub const EFFECT_STUCK: &'static str =
    "KWin screencast plugin is present in 'Loaded Plugins' but absent from \
     'Loaded Effects' — effect failed to activate at compositor startup. \
     This is the precise failure point explaining why zkde_screencast_unstable_v1 \
     and ext_image_capture_source_v1 are never advertised on the Wayland bus. \
     Root cause: CRTC format mismatch (AB30 vs AB4H) on tiled Dell UP3214Q \
     prevents KWin from registering the screencast effect (NVIDIA forum 331077, \
     KDE bugs 493277 + 503870). \
     To inspect startup errors: \
     journalctl --user -u plasma-kwin_wayland -b | grep -iE 'screencast|effect|crtc|format'. \
     Note: kwin_wayland --replace is not available in KDE Plasma 6 when KWin \
     is managed by plasma-kwin_wayland.service — only a service restart is viable.";

pub const EFFECT_AND_PLUGIN_ABSENT: &'static str =
    "KWin screencast effect absent from 'Loaded Effects'. \
     Plugin also absent from 'Loaded Plugins' — screencast plugin likely disabled, \
     missing from the KWin plugin path, or crashed before reaching effect registration.";

pub const RESTART_KWIN: &'static str = "systemctl --user restart plasma-kwin_wayland";

pub const SINGLE_DP: &'static str = "Single DP output — no tiled display split detected";

pub const TILED_WARN_TAIL: &'static str =
    " DP outputs detected — tiled 4K display (e.g. Dell UP3214Q) appears as \
     two DP tiles. KDE bugs 493277 + 503870: CRTC format mismatch (AB30 vs AB4H) \
     on tiled panels prevents KWin screencast plugin from advertising \
     zkde_screencast_unstable_v1 and ext_image_capture_source_v1. \
     This is the probable root cause of the L3 FAILs. \
     Tracked at NVIDIA forum 331077.";

pub const TILED_FIX: &'static str = "xdg-open https://bugs.kde.org/show_bug.cgi?id=493277";

pub const KWINRC_MISSING: &'static str = "kwinrc not found — cannot check plugin key";

pub const KWINRC_DISABLED: &'static str =
    "KWin screencast plugin explicitly disabled in kwinrc — all screen sharing fails";

pub const KWINRC_FIX: &'static str =
    "busctl --user call org.kde.KWin /Plugins org.kde.KWin.Plugins loadPlugin 's' screencast";

pub const KWINRC_OK: &'static str = "KWin screencast plugin not explicitly disabled in kwinrc";

pub const BUS_UNREACHABLE: &'static str = "Cannot reach session bus for KWin checks: ";

pub const DBUS_STATUS_FIX: &'static str = "systemctl --user status dbus";

pub const KWIN_NOT_RESPONDING: &'static str = "KWin not responding on D-Bus: ";

pub const KWIN_RESPONDING_X11: &'static str = "KWin responding on D-Bus (kwin_x11 — X11 session)";

pub const KWIN_RESPONDING: &'static str = "KWin responding on D-Bus (native zbus)";

// ── Line predicates over a list of lines ──────────────────────────────────

/// Whether some line satisfies `p`.
pub open spec fn any_line(ls: Seq<Seq<char>>, p: spec_fn(Seq<char>) -> bool) -> bool
    decreases ls.len(),
{
    if ls.len() == 0 {
        false
    } else {
        any_line(ls.drop_last(), p) || p(ls.last())
    }
}

// ── Section-aware search ───────────────────────────────────────────────────

/// Scans the lines that follow a section header: leading blank lines are
/// skipped, the section ends at the first blank line after content, and the
/// result is whether a content line (trimmed) mentions "screencast".
pub open spec fn section_scan(ls: Seq<Seq<char>>, past_first: bool) -> bool
    decreases ls.len(),
{
    if ls.len() == 0 {
        false
    } else {
        let t = trim(ls[0]);
        if t.len() == 0 {
            if past_first {
                false
            } else {
                section_scan(ls.drop_first(), false)
            }
        } else {
            contains(t, SCREENCAST@) || section_scan(ls.drop_first(), true)
        }
    }
}

/// The section search on text already lower-cased, with `header` the
/// lower-cased header including its colon.
pub open spec fn lowered_section_has_screencast(lower: Seq<char>, header: Seq<char>) -> bool {
    match find(lower, header) {
        None => false,
        Some(p) => section_scan(lines(lower.skip((p + header.len()) as int)), false),
    }
}

pub open spec fn section_has_screencast(info: Seq<char>, section: Seq<char>) -> bool {
    lowered_section_has_screencast(lowercase(info), lowercase(section) + seq![':'])
}

fn section_scan_exec(ls: &Vec<Vec<char>>) -> (b: bool)
    ensures
        b == section_scan(views(ls@), false),
{
    let needle = chars_of(SCREENCAST);
    let mut past_first = false;
    let mut i: usize = 0;
    assert(views(ls@).skip(0) =~= views(ls@));
    while i < ls.len()
        invariant
            i <= ls.len(),
            needle@ == SCREENCAST@,
            section_scan(views(ls@), false) == section_scan(views(ls@).skip(i as int), past_first),
        decreases ls.len() - i,
    {
        let ghost rest = views(ls@).skip(i as int);
        assert(rest.drop_first() =~= views(ls@).skip(i as int + 1));
        assert(rest[0] == ls@[i as int]@);
        let t = trim_chars(&ls[i]);
        if t.len() == 0 {
            if past_first {
                return false;
            }
        } else {
            past_first = true;
            if contains_exec(&t, &needle) {
                return true;
            }
        }
        i = i + 1;
    }
    false
}

fn lowered_section_exec(lower: &Vec<char>, header: &Vec<char>) -> (b: bool)
    ensures
        b == lowered_section_has_screencast(lower@, header@),
{
    match find_from_exec(lower, header, 0) {
        None => false,
        Some(p) => {
            proof {
                lemma_find_from_bounds(lower@, header@, 0);
            }
            let after = copy_range(lower, p + header.len(), lower.len());
            assert(after@ =~= lower@.skip(p + header.len()));
            let ls = split_lines(&after);
            section_scan_exec(&ls)
        },
    }
}

/// Section search on already lower-cased text: finds `header` (the
/// lower-cased section name with its colon) in `lower` and reports whether
/// the section's content mentions "screencast".
pub fn screencast_in_lowered_section(lower: &str, header: &str) -> (b: bool)
    ensures
        b == lowered_section_has_screencast(lower@, header@),
{
    let l = chars_of(lower);
    let h = chars_of(header);
    lowered_section_exec(&l, &h)
}

fn section_exec(info: &Vec<char>, section: &Vec<char>) -> (b: bool)
    ensures
        b == section_has_screencast(info@, section@),
{
    let lower = to_lowercase(info);
    let mut header = to_lowercase(section);
    header.push(':');
    assert(header@ =~= lowercase(section@) + seq![':']);
    lowered_section_exec(&lower, &header)
}

/// Whether the section `section_name` of `info` (case-insensitive) mentions
/// "screencast". False when the section header is absent.
pub fn screencast_in_section(info: &str, section_name: &str) -> (b: bool)
    ensures
        b == section_has_screencast(info@, section_name@),
{
    let i = chars_of(info);
    let s = chars_of(section_name);
    section_exec(&i, &s)
}

// ── KWin version ──────────────────────────────────────────────────────────

/// `line.splitn(2, ':').nth(1)`, or empty when there is no colon.
pub open spec fn after_colon(line: Seq<char>) -> Seq<char> {
    match find(line, seq![':']) {
        Some(i) => line.skip((i + 1) as int),
        None => seq![],
    }
}

pub open spec fn version_of_line(line: Seq<char>) -> Option<Seq<char>> {
    let lower = lowercase(line);
    if starts_with(lower, "kwin version"@) || starts_with(lower, "application version"@) {
        let v = trim(after_colon(line));
        if v.len() > 0 {
            Some(v)
        } else {
            None
        }
    } else {
        None
    }
}

/// The version given on the first version line that carries one.
pub open spec fn first_version(ls: Seq<Seq<char>>) -> Option<Seq<char>>
    decreases ls.len(),
{
    if ls.len() == 0 {
        None
    } else {
        match version_of_line(ls[0]) {
            Some(v) => Some(v),
            None => first_version(ls.drop_first()),
        }
    }
}

pub open spec fn check_version_spec(info: Seq<char>) -> Seq<ResultView> {
    match first_version(lines(info)) {
        Some(v) => seq![pass_r(Layer::L7, KWIN_VERSION@, "KWin "@ + v)],
        None => seq![warn_r(Layer::L7, KWIN_VERSION@, VERSION_MISSING@, None, Confidence::Low)],
    }
}

fn after_colon_exec(line: &Vec<char>) -> (r: Vec<char>)
    ensures
        r@ == after_colon(line@),
{
    let mut colon: Vec<char> = Vec::new();
    colon.push(':');
    assert(colon@ =~= seq![':']);
    match find_from_exec(line, &colon, 0) {
        Some(i) => {
            proof {
                lemma_find_from_bounds(line@, colon@, 0);
            }
            let r = copy_range(line, i + 1, line.len());
            assert(r@ =~= line@.skip(i + 1));
            r
        },
        None => {
            let r: Vec<char> = Vec::new();
            assert(r@ =~= Seq::<char>::empty());
            r
        },
    }
}

fn version_of_line_exec(line: &Vec<char>) -> (r: Option<Vec<char>>)
    ensures
        match r {
            Some(v) => version_of_line(line@) == Some(v@),
            None => version_of_line(line@) is None,
        },
{
    let lower = to_lowercase(line);
    let p1 = chars_of("kwin version");
    let p2 = chars_of("application version");
    if starts_with_exec(&lower, &p1) || starts_with_exec(&lower, &p2) {
        let v = trim_chars(&after_colon_exec(line));
        if v.len() > 0 {
            Some(v)
        } else {
            None
        }
    } else {
        None
    }
}

fn check_version(info: &Vec<char>) -> (r: Vec<DiagnosticResult>)
    ensures
        rviews(r@) == check_version_spec(info@),
{
    let ls = split_lines(info);
    let mut i: usize = 0;
    assert(views(ls@).skip(0) =~= views(ls@));
    while i < ls.len()
        invariant
            i <= ls.len(),
            views(ls@) == lines(info@),
            first_version(lines(info@)) == first_version(views(ls@).skip(i as int)),
        decreases ls.len() - i,
    {
        let ghost rest = views(ls@).skip(i as int);
        assert(rest.drop_first() =~= views(ls@).skip(i as int + 1));
        assert(rest[0] == ls@[i as int]@);
        match version_of_line_exec(&ls[i]) {
            Some(v) => {
                let mut d = chars_of("KWin ");
                push_chars(&mut d, &v);
                let ds = string_of(&d);
                return one(DiagnosticResult::pass(Layer::L7, KWIN_VERSION, ds.as_str()));
            },
            None => {},
        }
        i = i + 1;
    }
    one(DiagnosticResult::warn(Layer::L7, KWIN_VERSION, VERSION_MISSING, None, Confidence::Low))
}

// ── Rendering backend ─────────────────────────────────────────────────────

pub open spec fn is_backend_line(upper: Seq<char>) -> bool {
    contains(upper, "BACKEND"@) || contains(upper, "PLATFORM"@) || contains(upper, "OPENGL"@)
        || contains(upper, "COMPOSITOR"@)
}

pub open spec fn egl_line(l: Seq<char>) -> bool {
    is_backend_line(uppercase(l)) && contains(uppercase(l), "EGL"@)
}

pub open spec fn glx_line(l: Seq<char>) -> bool {
    is_backend_line(uppercase(l)) && contains(uppercase(l), "GLX"@)
}

pub open spec fn gbm_line(l: Seq<char>) -> bool {
    contains(uppercase(l), "GBM"@)
}

/// `(has_egl, has_gbm, has_glx)`: EGL and GLX count only on lines that name a
/// backend, platform, OpenGL or compositor; GBM counts on any line.
pub open spec fn render_backend_spec(info: Seq<char>) -> (bool, bool, bool) {
    let ls = lines(info);
    (
        any_line(ls, |l: Seq<char>| egl_line(l)),
        any_line(ls, |l: Seq<char>| gbm_line(l)),
        any_line(ls, |l: Seq<char>| glx_line(l)),
    )
}

fn parse_render_backend_chars(info: &Vec<char>) -> (r: (bool, bool, bool))
    ensures
        r == render_backend_spec(info@),
{
    let ls = split_lines(info);
    let backend = chars_of("BACKEND");
    let platform = chars_of("PLATFORM");
    let opengl = chars_of("OPENGL");
    let compositor = chars_of("COMPOSITOR");
    let egl = chars_of("EGL");
    let gbm = chars_of("GBM");
    let glx = chars_of("GLX");
    let mut has_egl = false;
    let mut has_gbm = false;
    let mut has_glx = false;
    let mut i: usize = 0;
    while i < ls.len()
        invariant
            i <= ls.len(),
            views(ls@) == lines(info@),
            backend@ == "BACKEND"@,
            platform@ == "PLATFORM"@,
            opengl@ == "OPENGL"@,
            compositor@ == "COMPOSITOR"@,
            egl@ == "EGL"@,
            gbm@ == "GBM"@,
            glx@ == "GLX"@,
            has_egl == any_line(views(ls@).take(i as int), |l: Seq<char>| egl_line(l)),
            has_gbm == any_line(views(ls@).take(i as int), |l: Seq<char>| gbm_line(l)),
            has_glx == any_line(views(ls@).take(i as int), |l: Seq<char>| glx_line(l)),
        decreases ls.len() - i,
    {
        let ghost pre = views(ls@).take(i as int + 1);
        assert(pre.drop_last() =~= views(ls@).take(i as int));
        assert(pre.last() == ls@[i as int]@);
        let upper = to_uppercase(&ls[i]);
        let is_backend = contains_exec(&upper, &backend) || contains_exec(&upper, &platform)
            || contains_exec(&upper, &opengl) || contains_exec(&upper, &compositor);
        if is_backend {
            if contains_exec(&upper, &egl) {
                has_egl = true;
            }
            if contains_exec(&upper, &glx) {
                has_glx = true;
            }
        }
        if contains_exec(&upper, &gbm) {
            has_gbm = true;
        }
        i = i + 1;
    }
    assert(views(ls@).take(ls.len() as int) =~= views(ls@));
    (has_egl, has_gbm, has_glx)
}

/// Returns `(has_egl, has_gbm, has_glx)` for a supportInformation text.
pub fn parse_render_backend(info: &str) -> (r: (bool, bool, bool))
    ensures
        r == render_backend_spec(info@),
{
    let i = chars_of(info);
    parse_render_backend_chars(&i)
}

pub open spec fn check_render_backend_spec(info: Seq<char>, session: SessionType) -> Seq<
    ResultView,
> {
    if session == SessionType::X11 {
        seq![skip_r(Layer::L7, KWIN_RENDER_BACKEND@, X11_RENDER_SKIP@)]
    } else {
        let (egl, gbm, glx) = render_backend_spec(info);
        if glx {
            seq![fail_r(Layer::L7, KWIN_RENDER_BACKEND@, GLX_DETAIL@, GLX_FIX@, Confidence::High)]
        } else if egl {
            seq![
                pass_r(
                    Layer::L7,
                    KWIN_RENDER_BACKEND@,
                    EGL_CONFIRMED@ + if gbm {
                        GBM_SUFFIX@
                    } else {
                        Seq::<char>::empty()
                    },
                ),
            ]
        } else {
            seq![
                warn_r(Layer::L7, KWIN_RENDER_BACKEND@, BACKEND_UNKNOWN@, None, Confidence::Low),
            ]
        }
    }
}

fn check_render_backend(info: &Vec<char>, session: SessionType) -> (r: Vec<DiagnosticResult>)
    ensures
        rviews(r@) == check_render_backend_spec(info@, session),
{
    if session == SessionType::X11 {
        return one(DiagnosticResult::skip(Layer::L7, KWIN_RENDER_BACKEND, X11_RENDER_SKIP));
    }
    let (has_egl, has_gbm, has_glx) = parse_render_backend_chars(info);
    if has_glx {
        return one(
            DiagnosticResult::fail(
                Layer::L7,
                KWIN_RENDER_BACKEND,
                GLX_DETAIL,
                GLX_FIX,
                Confidence::High,
            ),
        );
    }
    if has_egl {
        let mut d = chars_of(EGL_CONFIRMED);
        if has_gbm {
            push_str(&mut d, GBM_SUFFIX);
        } else {
            assert(d@ =~= EGL_CONFIRMED@ + Seq::<char>::empty());
        }
        let ds = string_of(&d);
        return one(DiagnosticResult::pass(Layer::L7, KWIN_RENDER_BACKEND, ds.as_str()));
    }
    one(
        DiagnosticResult::warn(
            Layer::L7,
            KWIN_RENDER_BACKEND,
            BACKEND_UNKNOWN,
            None,
            Confidence::Low,
        ),
    )
}

// ── Screencast plugin in "Loaded Plugins" ─────────────────────────────────

/// Section-aware when a "Loaded Plugins:" header is present, otherwise a
/// search of the whole text (older or truncated output).
pub open spec fn plugin_listed_spec(info: Seq<char>) -> bool {
    if contains(lowercase(info), "loaded plugins:"@) {
        section_has_screencast(info, "Loaded Plugins"@)
    } else {
        contains(lowercase(info), SCREENCAST@)
    }
}

fn plugin_listed_exec(info: &Vec<char>) -> (b: bool)
    ensures
        b == plugin_listed_spec(info@),
{
    let lower = to_lowercase(info);
    let header = chars_of("loaded plugins:");
    if contains_exec(&lower, &header) {
        let section = chars_of("Loaded Plugins");
        section_exec(info, &section)
    } else {
        let needle = chars_of(SCREENCAST);
        contains_exec(&lower, &needle)
    }
}

/// Whether the screencast plugin is listed in "Loaded Plugins" (or, without
/// such a section, mentioned anywhere in the text).
pub fn screencast_in_support_info(info: &str) -> (b: bool)
    ensures
        b == plugin_listed_spec(info@),
{
    let i = chars_of(info);
    plugin_listed_exec(&i)
}

pub open spec fn check_plugin_spec(info: Seq<char>, session: SessionType) -> Seq<ResultView> {
    if session == SessionType::X11 {
        seq![skip_r(Layer::L7, KWIN_SCREENCAST_LOADED@, X11_PLUGIN_SKIP@)]
    } else if plugin_listed_spec(info) {
        seq![pass_r(Layer::L7, KWIN_SCREENCAST_LOADED@, PLUGIN_PRESENT@)]
    } else {
        seq![
            warn_r(
                Layer::L7,
                KWIN_SCREENCAST_LOADED@,
                PLUGIN_INCONCLUSIVE@,
                None,
                Confidence::Low,
            ),
        ]
    }
}

fn check_screencast_plugin_info(info: &Vec<char>, session: SessionType) -> (r: Vec<
    DiagnosticResult,
>)
    ensures
        rviews(r@) == check_plugin_spec(info@, session),
{
    if session == SessionType::X11 {
        return one(DiagnosticResult::skip(Layer::L7, KWIN_SCREENCAST_LOADED, X11_PLUGIN_SKIP));
    }
    if plugin_listed_exec(info) {
        one(DiagnosticResult::pass(Layer::L7, KWIN_SCREENCAST_LOADED, PLUGIN_PRESENT))
    } else {
        one(
            DiagnosticResult::warn(
                Layer::L7,
                KWIN_SCREENCAST_LOADED,
                PLUGIN_INCONCLUSIVE,
                None,
                Confidence::Low,
            ),
        )
    }
}

// ── Screencast effect in "Loaded Effects" ─────────────────────────────────

pub open spec fn effect_active_spec(info: Seq<char>) -> bool {
    section_has_screencast(info, "Loaded Effects"@)
}

/// Whether the screencast effect is listed in the "Loaded Effects" section.
pub fn screencast_effect_active(info: &str) -> (b: bool)
    ensures
        b == effect_active_spec(info@),
{
    let i = chars_of(info);
    let s = chars_of("Loaded Effects");
    section_exec(&i, &s)
}

pub open spec fn check_effect_spec(info: Seq<char>, session: SessionType) -> Seq<ResultView> {
    if session == SessionType::X11 {
        seq![skip_r(Layer::L7, KWIN_SCREENCAST_EFFECT_ACTIVE@, X11_EFFECT_SKIP@)]
    } else if !contains(lowercase(info), "loaded effects:"@) {
        seq![skip_r(Layer::L7, KWIN_SCREENCAST_EFFECT_ACTIVE@, EFFECTS_SECTION_ABSENT@)]
    } else if effect_active_spec(info) {
        seq![pass_r(Layer::L7, KWIN_SCREENCAST_EFFECT_ACTIVE@, EFFECT_ACTIVE@)]
    } else {
        seq![
            fail_r(
                Layer::L7,
                KWIN_SCREENCAST_EFFECT_ACTIVE@,
                if plugin_listed_spec(info) {
                    EFFECT_STUCK@
                } else {
                    EFFECT_AND_PLUGIN_ABSENT@
                },
                RESTART_KWIN@,
                Confidence::High,
            ),
        ]
    }
}

fn check_screencast_effect_active(info: &Vec<char>, session: SessionType) -> (r: Vec<
    DiagnosticResult,
>)
    ensures
        rviews(r@) == check_effect_spec(info@, session),
{
    if session == SessionType::X11 {
        return one(
            DiagnosticResult::skip(Layer::L7, KWIN_SCREENCAST_EFFECT_ACTIVE, X11_EFFECT_SKIP),
        );
    }
    let lower = to_lowercase(info);
    let header = chars_of("loaded effects:");
    if !contains_exec(&lower, &header) {
        return one(
            DiagnosticResult::skip(
                Layer::L7,
                KWIN_SCREENCAST_EFFECT_ACTIVE,
                EFFECTS_SECTION_ABSENT,
            ),
        );
    }
    let section = chars_of("Loaded Effects");
    if section_exec(info, &section) {
        return one(DiagnosticResult::pass(Layer::L7, KWIN_SCREENCAST_EFFECT_ACTIVE, EFFECT_ACTIVE));
    }
    let detail = if plugin_listed_exec(info) {
        EFFECT_STUCK
    } else {
        EFFECT_AND_PLUGIN_ABSENT
    };
    one(
        DiagnosticResult::fail(
            Layer::L7,
            KWIN_SCREENCAST_EFFECT_ACTIVE,
            detail,
            RESTART_KWIN,
            Confidence::High,
        ),
    )
}

// ── Tiled display ─────────────────────────────────────────────────────────

/// The number of `DP-<digit>` occurrences at or after position `i`.
pub open spec fn dp_count_from(s: Seq<char>, i: int) -> nat
    decreases s.len() - i,
{
    if i < 0 || i + 3 > s.len() {
        0
    } else if matches_at(s, "DP-"@, i) {
        (if i + 3 < s.len() && is_digit(s[i + 3]) {
            1nat
        } else {
            0nat
        }) + dp_count_from(s, i + 3)
    } else {
        dp_count_from(s, i + 1)
    }
}

pub open spec fn dp_count(s: Seq<char>) -> nat {
    dp_count_from(s, 0)
}

proof fn lemma_dp_count_bound(s: Seq<char>, i: int)
    requires
        0 <= i,
    ensures
        dp_count_from(s, i) <= if i <= s.len() {
            s.len() - i
        } else {
            0
        },
    decreases s.len() - i,
{
    if i + 3 > s.len() {
    } else if matches_at(s, "DP-"@, i) {
        lemma_dp_count_bound(s, i + 3);
    } else {
        lemma_dp_count_bound(s, i + 1);
    }
}

fn count_dp_chars(s: &Vec<char>) -> (n: usize)
    ensures
        n == dp_count(s@),
{
    let dp = chars_of("DP-");
    proof {
        reveal_strlit("DP-");
    }
    assert(dp@.len() == 3);
    let mut n: usize = 0;
    let mut i: usize = 0;
    proof {
        lemma_dp_count_bound(s@, 0);
    }
    while s.len() >= 3 && i <= s.len() - 3
        invariant
            dp@ == "DP-"@,
            dp@.len() == 3,
            i <= s.len() + 3,
            n + dp_count_from(s@, i as int) == dp_count(s@),
            dp_count(s@) <= s.len(),
        decreases s.len() + 3 - i,
    {
        if matches_at_exec(s, &dp, i) {
            if i + 3 < s.len() && is_ascii_digit(s[i + 3]) {
                n = n + 1;
            }
            i = i + 3;
        } else {
            i = i + 1;
        }
    }
    n
}

/// Counts `DP-N` style output references (`DP-` followed by a digit).
pub fn count_dp_outputs(info: &str) -> (n: usize)
    ensures
        n == dp_count(info@),
{
    let s = chars_of(info);
    count_dp_chars(&s)
}

pub open spec fn check_tiled_spec(info: Seq<char>) -> Seq<ResultView> {
    let n = dp_count(info);
    if n == 0 {
        seq![]
    } else if n == 1 {
        seq![pass_r(Layer::L7, KWIN_TILED_DISPLAY@, SINGLE_DP@)]
    } else {
        seq![
            warn_r(
                Layer::L7,
                KWIN_TILED_DISPLAY@,
                decimal(n) + TILED_WARN_TAIL@,
                Some(TILED_FIX@),
                Confidence::High,
            ),
        ]
    }
}

fn check_tiled_display(info: &Vec<char>) -> (r: Vec<DiagnosticResult>)
    ensures
        rviews(r@) == check_tiled_spec(info@),
{
    let n = count_dp_chars(info);
    if n == 0 {
        let r: Vec<DiagnosticResult> = Vec::new();
        assert(rviews(r@) =~= Seq::<ResultView>::empty());
        r
    } else if n == 1 {
        one(DiagnosticResult::pass(Layer::L7, KWIN_TILED_DISPLAY, SINGLE_DP))
    } else {
        let mut d = decimal_chars(n as u64);
        push_str(&mut d, TILED_WARN_TAIL);
        let ds = string_of(&d);
        one(
            DiagnosticResult::warn(
                Layer::L7,
                KWIN_TILED_DISPLAY,
                ds.as_str(),
                Some(TILED_FIX.to_owned()),
                Confidence::High,
            ),
        )
    }
}

// ── Whole supportInformation analysis ─────────────────────────────────────

pub open spec fn analyse_spec(info: Seq<char>, session: SessionType) -> Seq<ResultView> {
    check_version_spec(info) + check_render_backend_spec(info, session) + check_plugin_spec(
        info,
        session,
    ) + check_effect_spec(info, session) + check_tiled_spec(info)
}

/// Runs every supportInformation check: version, render backend, screencast
/// plugin, screencast effect, tiled display. Under X11 the checks specific to
/// the kwin_wayland screencast path report SKIP.
pub fn analyse_support_info(info: &str, session: SessionType) -> (r: Vec<DiagnosticResult>)
    ensures
        rviews(r@) == analyse_spec(info@, session),
{
    let i = chars_of(info);
    let mut out = check_version(&i);
    extend(&mut out, check_render_backend(&i, session));
    extend(&mut out, check_screencast_plugin_info(&i, session));
    extend(&mut out, check_screencast_effect_active(&i, session));
    extend(&mut out, check_tiled_display(&i));
    out
}

// ── kwinrc ─────────────────────────────────────────────────────────────────

pub open spec fn disables_screencast(l: Seq<char>) -> bool {
    (starts_with(l, "screencaslPlugin="@) || starts_with(l, "screencastPlugin="@)) && ends_with(
        l,
        "false"@,
    )
}

pub open spec fn kwinrc_spec(content: Option<Seq<char>>) -> Seq<ResultView> {
    match content {
        None => seq![skip_r(Layer::L7, KWIN_SCREENCAST_PLUGIN_KWINRC@, KWINRC_MISSING@)],
        Some(c) => if any_line(lines(c), |l: Seq<char>| disables_screencast(l)) {
            seq![
                fail_r(
                    Layer::L7,
                    KWIN_SCREENCAST_PLUGIN_KWINRC@,
                    KWINRC_DISABLED@,
                    KWINRC_FIX@,
                    Confidence::High,
                ),
            ]
        } else {
            seq![pass_r(Layer::L7, KWIN_SCREENCAST_PLUGIN_KWINRC@, KWINRC_OK@)]
        },
    }
}

/// Checks the screencast plugin key of `kwinrc` (`None`: the file could not
/// be read). Both the current key and the historical `screencasl` spelling
/// count; the plugin is disabled when such a line ends in `false`.
pub fn check_screencast_plugin_kwinrc(content: Option<String>) -> (r: Vec<DiagnosticResult>)
    ensures
        rviews(r@) == kwinrc_spec(opt_view(content)),
{
    let c = match content {
        None => {
            return one(
                DiagnosticResult::skip(Layer::L7, KWIN_SCREENCAST_PLUGIN_KWINRC, KWINRC_MISSING),
            );
        },
        Some(c) => c,
    };
    let cs = chars_of(c.as_str());
    let ls = split_lines(&cs);
    let k1 = chars_of("screencaslPlugin=");
    let k2 = chars_of("screencastPlugin=");
    let f = chars_of("false");
    let mut disabled = false;
    let mut i: usize = 0;
    while i < ls.len()
        invariant
            i <= ls.len(),
            views(ls@) == lines(c@),
            k1@ == "screencaslPlugin="@,
            k2@ == "screencastPlugin="@,
            f@ == "false"@,
            disabled == any_line(views(ls@).take(i as int), |l: Seq<char>| disables_screencast(l)),
        decreases ls.len() - i,
    {
        let ghost pre = views(ls@).take(i as int + 1);
        assert(pre.drop_last() =~= views(ls@).take(i as int));
        assert(pre.last() == ls@[i as int]@);
        if (starts_with_exec(&ls[i], &k1) || starts_with_exec(&ls[i], &k2)) && ends_with_exec(
            &ls[i],
            &f,
        ) {
            disabled = true;
        }
        i = i + 1;
    }
    assert(views(ls@).take(ls.len() as int) =~= views(ls@));
    if disabled {
        one(
            DiagnosticResult::fail(
                Layer::L7,
                KWIN_SCREENCAST_PLUGIN_KWINRC,
                KWINRC_DISABLED,
                KWINRC_FIX,
                Confidence::High,
            ),
        )
    } else {
        one(DiagnosticResult::pass(Layer::L7, KWIN_SCREENCAST_PLUGIN_KWINRC, KWINRC_OK))
    }
}

/// `$HOME/.config/kwinrc` (`/root` for an unset HOME).
pub fn kwinrc_path(home: Option<String>) -> (p: String)
    ensures
        p@ == join_path(home_or_root(opt_view(home)), ".config/kwinrc"@),
{
    match home {
        Some(h) => join_path_exec(h.as_str(), ".config/kwinrc"),
        None => join_path_exec("/root", ".config/kwinrc"),
    }
}

// ── The whole layer ───────────────────────────────────────────────────────

/// What the D-Bus side of the KWin probe found.
pub enum KwinProbe {
    /// The session bus could not be reached; the error message.
    BusUnavailable(String),
    /// KWin did not answer `supportInformation`; the error message.
    KwinUnresponsive(String),
    /// KWin's `supportInformation` text.
    SupportInfo(String),
}

pub open spec fn kwin_layer_spec(
    kwinrc: Option<Seq<char>>,
    probe: KwinProbe,
    session: SessionType,
) -> Seq<ResultView> {
    kwinrc_spec(kwinrc) + match probe {
        KwinProbe::BusUnavailable(e) => seq![
            fail_r(
                Layer::L7,
                KWIN_DBUS_CONNECT@,
                BUS_UNREACHABLE@ + e@,
                DBUS_STATUS_FIX@,
                Confidence::High,
            ),
        ],
        KwinProbe::KwinUnresponsive(e) => seq![
            fail_r(
                Layer::L7,
                KWIN_RUNNING@,
                KWIN_NOT_RESPONDING@ + e@,
                RESTART_KWIN@,
                Confidence::High,
            ),
        ],
        KwinProbe::SupportInfo(info) => seq![
            pass_r(
                Layer::L7,
                KWIN_RUNNING@,
                if session == SessionType::X11 {
                    KWIN_RESPONDING_X11@
                } else {
                    KWIN_RESPONDING@
                },
            ),
        ] + analyse_spec(info@, session),
    }
}

/// All L7 results: the kwinrc check (which runs on X11 too), then either the
/// failure to reach the bus or KWin, or KWin's liveness and the
/// supportInformation analysis.
pub fn check_kwin_plugins(kwinrc: Option<String>, probe: KwinProbe, session: SessionType) -> (r:
    Vec<DiagnosticResult>)
    ensures
        rviews(r@) == kwin_layer_spec(opt_view(kwinrc), probe, session),
{
    let mut out = check_screencast_plugin_kwinrc(kwinrc);
    match probe {
        KwinProbe::BusUnavailable(e) => {
            let mut d = chars_of(BUS_UNREACHABLE);
            push_str(&mut d, e.as_str());
            let ds = string_of(&d);
            push_result(
                &mut out,
                DiagnosticResult::fail(
                    Layer::L7,
                    KWIN_DBUS_CONNECT,
                    ds.as_str(),
                    DBUS_STATUS_FIX,
                    Confidence::High,
                ),
            );
        },
        KwinProbe::KwinUnresponsive(e) => {
            let mut d = chars_of(KWIN_NOT_RESPONDING);
            push_str(&mut d, e.as_str());
            let ds = string_of(&d);
            push_result(
                &mut out,
                DiagnosticResult::fail(
                    Layer::L7,
                    KWIN_RUNNING,
                    ds.as_str(),
                    RESTART_KWIN,
                    Confidence::High,
                ),
            );
        },
        KwinProbe::SupportInfo(info) => {
            let detail = if session == SessionType::X11 {
                KWIN_RESPONDING_X11
            } else {
                KWIN_RESPONDING
            };
            let ghost before = rviews(out@);
            push_result(&mut out, DiagnosticResult::pass(Layer::L7, KWIN_RUNNING, detail));
            extend(&mut out, analyse_support_info(info.as_str(), session));
            assert(rviews(out@) =~= kwinrc_spec(opt_view(kwinrc)) + (seq![
                pass_r(Layer::L7, KWIN_RUNNING@, detail@),
            ] + analyse_spec(info@, session)));
        },
    }
    out
}

} // verus!
