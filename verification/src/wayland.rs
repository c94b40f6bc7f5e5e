//! Wayland protocol checks (layers L2 and L3): classification of the globals
//! a compositor advertises in its `wl_registry`.

use vstd::prelude::*;

use crate::text::{
    chars_of, decimal, decimal_chars, push_chars, push_str, starts_with, starts_with_exec,
    str_eq, string_of,
};
use crate::types::{
    fail_r, one, pass_r, push_result, rviews, skip_r, warn_r, Confidence, DiagnosticResult,
    Layer, ResultView, SessionType,
};

verus! {

// ── Globals ───────────────────────────────────────────────────────────────

/// One global announced by the compositor's registry.
#[derive(Debug, Clone)]
pub struct WlGlobal {
    pub interface: String,
    pub version: u32,
}

pub struct GlobalView {
    pub interface: Seq<char>,
    pub version: u32,
}

impl View for WlGlobal {
    type V = GlobalView;

    open spec fn view(&self) -> GlobalView {
        GlobalView { interface: self.interface@, version: self.version }
    }
}

pub open spec fn gviews(gs: Seq<WlGlobal>) -> Seq<GlobalView> {
    gs.map_values(|g: WlGlobal| g@)
}

/// How a screencast-relevant global's absence is reported.
#[derive(Debug, Clone, Copy, PartialEq, Eq, Structural)]
pub enum GlobalClass {
    /// FAIL if absent, with the table's fix command.
    Required,
    /// WARN if absent (informational, no fix).
    Optional,
    /// SKIP if absent: the compositor only advertises it to authorised
    /// clients, so absence seen by this client is no evidence of breakage.
    PermissionGated,
}

/// A row of the screencast protocol table.
pub struct ProtocolRow {
    pub interface: &'static str,
    pub label: &'static str,
    pub class: GlobalClass,
    pub fix: &'static str,
}

pub struct RowView {
    pub interface: Seq<char>,
    pub label: Seq<char>,
    pub class: GlobalClass,
    pub fix: Seq<char>,
}

impl View for ProtocolRow {
    type V = RowView;

    open spec fn view(&self) -> RowView {
        RowView {
            interface: self.interface@,
            label: self.label@,
            class: self.class,
            fix: self.fix@,
        }
    }
}

pub const ZWP_LINUX_DMABUF: &'static str = "zwp_linux_dmabuf_v1";

pub const ZKDE_SCREENCAST: &'static str = "zkde_screencast_unstable_v1";

pub const EXT_IMAGE_CAPTURE: &'static str = "ext_image_capture_source_v1";

pub const DRM_SYNCOBJ: &'static str = "wp_linux_drm_syncobj_manager_v1";

pub const WP_VIEWPORTER: &'static str = "wp_viewporter";

pub const WP_PRESENTATION: &'static str = "wp_presentation";

pub const WLR_SCREENCOPY: &'static str = "zwlr_screencopy_manager_v1";

pub const KWIN_JOURNAL: &'static str = "journalctl --user -u plasma-kwin_wayland -n 100";

pub const RESTART_KWIN: &'static str = "systemctl --user restart plasma-kwin_wayland";

pub open spec fn row(i: Seq<char>, l: Seq<char>, c: GlobalClass, f: Seq<char>) -> RowView {
    RowView { interface: i, label: l, class: c, fix: f }
}

/// The screencast-relevant globals, in report order.
pub open spec fn protocol_table() -> Seq<RowView> {
    seq![
        row(ZWP_LINUX_DMABUF@, "Linux DMA-BUF"@, GlobalClass::Required, KWIN_JOURNAL@),
        row(
            ZKDE_SCREENCAST@,
            "KDE ScreenCast (kde-screencast)"@,
            GlobalClass::PermissionGated,
            ""@,
        ),
        row(EXT_IMAGE_CAPTURE@, "ext-image-capture-source"@, GlobalClass::Required, RESTART_KWIN@),
        row(
            DRM_SYNCOBJ@,
            "Linux DRM syncobj (explicit sync)"@,
            GlobalClass::Required,
            KWIN_JOURNAL@,
        ),
        row(WP_VIEWPORTER@, "wp-viewporter"@, GlobalClass::Optional, ""@),
        row(WP_PRESENTATION@, "wp-presentation"@, GlobalClass::Optional, ""@),
        row(WLR_SCREENCOPY@, "wlroots screencopy (fallback)"@, GlobalClass::Optional, ""@),
    ]
}

pub open spec fn row_views(v: Seq<ProtocolRow>) -> Seq<RowView> {
    v.map_values(|r: ProtocolRow| r@)
}

fn push_row(
    v: &mut Vec<ProtocolRow>,
    interface: &'static str,
    label: &'static str,
    class: GlobalClass,
    fix: &'static str,
)
    ensures
        row_views(final(v)@) == row_views(old(v)@).push(row(interface@, label@, class, fix@)),
{
    v.push(ProtocolRow { interface, label, class, fix });
    assert(row_views(v@) =~= row_views(old(v)@).push(row(interface@, label@, class, fix@)));
}

/// The screencast protocol table: (interface, label, class, fix command).
pub fn screencast_globals() -> (t: Vec<ProtocolRow>)
    ensures
        row_views(t@) == protocol_table(),
{
    let mut t: Vec<ProtocolRow> = Vec::new();
    push_row(&mut t, ZWP_LINUX_DMABUF, "Linux DMA-BUF", GlobalClass::Required, KWIN_JOURNAL);
    push_row(
        &mut t,
        ZKDE_SCREENCAST,
        "KDE ScreenCast (kde-screencast)",
        GlobalClass::PermissionGated,
        "",
    );
    push_row(
        &mut t,
        EXT_IMAGE_CAPTURE,
        "ext-image-capture-source",
        GlobalClass::Required,
        RESTART_KWIN,
    );
    push_row(
        &mut t,
        DRM_SYNCOBJ,
        "Linux DRM syncobj (explicit sync)",
        GlobalClass::Required,
        KWIN_JOURNAL,
    );
    push_row(&mut t, WP_VIEWPORTER, "wp-viewporter", GlobalClass::Optional, "");
    push_row(&mut t, WP_PRESENTATION, "wp-presentation", GlobalClass::Optional, "");
    push_row(&mut t, WLR_SCREENCOPY, "wlroots screencopy (fallback)", GlobalClass::Optional, "");
    assert(row_views(t@) =~= protocol_table());
    t
}

// ── Messages ──────────────────────────────────────────────────────────────

pub const WAYLAND_CONNECT: &'static str = "wayland_connect";

pub const WAYLAND_BACKEND: &'static str = "wayland_backend";

pub const WL_OUTPUT_COUNT: &'static str = "wl_output_count";

pub const TILED_CORRELATION: &'static str = "wl_output_tiled_correlation";

pub const BUG_D: &'static str = "bug_d_screencast_globals";

pub const X11_SKIP_DETAIL: &'static str = "X11 session — Wayland screencast path not in use";

pub const CONNECT_FAILED: &'static str = "Cannot connect to $WAYLAND_DISPLAY: ";

pub const CONNECT_FIX: &'static str = "echo 'Check WAYLAND_DISPLAY is set'";

pub const KWIN_CONFIRMED: &'static str = "KWin/Wayland confirmed — ";

pub const GLOBALS_WL_DRM: &'static str = " globals, wl_drm=";

pub const XWAYLAND_SUSPECTED: &'static str =
    "wl_drm present without KDE globals — possible XWayland compositor";

pub const COMPOSITOR_UNCLEAR: &'static str = "Compositor type unclear — ";

pub const GLOBALS: &'static str = " globals";

pub const OUTPUTS_ADVERTISED: &'static str = " output(s) advertised";

pub const NO_OUTPUTS: &'static str = "No wl_output globals";

pub const NO_OUTPUTS_FIX: &'static str = "echo 'Check display connection'";

pub const TILED_TAIL: &'static str =
    " wl_outputs present but zkde_screencast_unstable_v1 absent — \
     consistent with tiled 4K display (KDE bugs 493277 + 503870). \
     KWin screencast plugin may fail to init when CRTC tiling triggers \
     format mismatch (AB30 vs AB4H). See L7 kwin_tiled_display.";

pub const ADVERTISED_AT: &'static str = " advertised at version ";

pub const NOT_ADVERTISED: &'static str = " not advertised by compositor";

pub const GATED_TAIL: &'static str =
    " not visible to this client — KWin only advertises it \
     to authorised portal processes, so absence here is not evidence \
     of breakage. See kwin_screencast_effect_active (L7) for the \
     reliable signal.";

pub const OPTIONAL_ABSENT: &'static str = " not advertised (optional)";

pub const BUG_D_HEAD: &'static str =
    "Bug D signature — none of KWin's screencast protocol globals are \
     visible to this client. Inconclusive on its own: current KWin only \
     advertises them to authorised portal processes, so a healthy system \
     can look identical from here. Treat as a fault only if \
     kwin_screencast_effect_active (L7) also fails or the live portal \
     CreateSession probe (L4) does not pass.";

pub const BUG_D_TAIL: &'static str =
    "\n\
     Investigation steps:\n\
     (1) Check L7 kwin_screencast_effect_active — the reliable signal.\n\
     (2) journalctl --user -u plasma-kwin_wayland -n 100 | grep -i screen\n\
     Upstream: https://bugs.kde.org/show_bug.cgi?id=493277  \
     https://forums.developer.nvidia.com/t/331077";

pub const TILED_CONTEXT_TAIL: &'static str =
    " wl_outputs detected — consistent with a tiled 4K display \
     (e.g. Dell UP3214Q split across DP-4 + DP-5), where the CRTC format \
     mismatch (AB30 vs AB4H) on NVIDIA open modules has been confirmed to \
     block plugin init. See KDE bugs 493277 + 503870 and NVIDIA forum 331077.";

pub const PLUGIN_CONTEXT: &'static str =
    " Check L7 kwin_screencast_loaded — the plugin may have crashed or been \
     disabled in kwinrc.";

// ── Queries over the globals ──────────────────────────────────────────────

pub open spec fn any_global(gs: Seq<GlobalView>, p: spec_fn(Seq<char>) -> bool) -> bool
    decreases gs.len(),
{
    if gs.len() == 0 {
        false
    } else {
        any_global(gs.drop_last(), p) || p(gs.last().interface)
    }
}

pub open spec fn count_named(gs: Seq<GlobalView>, name: Seq<char>) -> nat
    decreases gs.len(),
{
    if gs.len() == 0 {
        0
    } else {
        count_named(gs.drop_last(), name) + if gs.last().interface == name {
            1nat
        } else {
            0nat
        }
    }
}

/// The first global with the given interface name.
pub open spec fn first_named(gs: Seq<GlobalView>, name: Seq<char>) -> Option<GlobalView>
    decreases gs.len(),
{
    if gs.len() == 0 {
        None
    } else if gs[0].interface == name {
        Some(gs[0])
    } else {
        first_named(gs.drop_first(), name)
    }
}

pub open spec fn is_kde_name(i: Seq<char>) -> bool {
    starts_with(i, "org_kde_"@) || starts_with(i, "kde_"@)
}

pub open spec fn has_named(gs: Seq<GlobalView>, name: Seq<char>) -> bool {
    first_named(gs, name) is Some
}

pub open spec fn bool_text(b: bool) -> Seq<char> {
    if b {
        "true"@
    } else {
        "false"@
    }
}

// ── The checks, as values ─────────────────────────────────────────────────

pub open spec fn backend_result(gs: Seq<GlobalView>) -> ResultView {
    let has_kde = any_global(gs, |i: Seq<char>| is_kde_name(i));
    let has_xdg = has_named(gs, "xdg_wm_base"@);
    let has_drm = has_named(gs, "wl_drm"@);
    if has_kde && has_xdg {
        pass_r(
            Layer::L2,
            WAYLAND_BACKEND@,
            KWIN_CONFIRMED@ + decimal(gs.len()) + GLOBALS_WL_DRM@ + bool_text(has_drm),
        )
    } else if has_drm && !has_kde {
        warn_r(Layer::L2, WAYLAND_BACKEND@, XWAYLAND_SUSPECTED@, None, Confidence::Medium)
    } else {
        warn_r(
            Layer::L2,
            WAYLAND_BACKEND@,
            COMPOSITOR_UNCLEAR@ + decimal(gs.len()) + GLOBALS@,
            None,
            Confidence::Low,
        )
    }
}

pub open spec fn output_result(n: nat) -> ResultView {
    if n > 0 {
        pass_r(Layer::L3, WL_OUTPUT_COUNT@, decimal(n) + OUTPUTS_ADVERTISED@)
    } else {
        fail_r(Layer::L3, WL_OUTPUT_COUNT@, NO_OUTPUTS@, NO_OUTPUTS_FIX@, Confidence::High)
    }
}

pub open spec fn tiled_results(n: nat, has_zkde: bool) -> Seq<ResultView> {
    if n >= 2 && !has_zkde {
        seq![
            warn_r(
                Layer::L3,
                TILED_CORRELATION@,
                decimal(n) + TILED_TAIL@,
                None,
                Confidence::High,
            ),
        ]
    } else {
        seq![]
    }
}

pub open spec fn row_result(gs: Seq<GlobalView>, r: RowView) -> ResultView {
    match first_named(gs, r.interface) {
        Some(g) => pass_r(
            Layer::L3,
            r.interface,
            r.label + ADVERTISED_AT@ + decimal(g.version as nat),
        ),
        None => match r.class {
            GlobalClass::Required => fail_r(
                Layer::L3,
                r.interface,
                r.interface + NOT_ADVERTISED@,
                r.fix,
                Confidence::High,
            ),
            GlobalClass::PermissionGated => skip_r(
                Layer::L3,
                r.interface,
                r.interface + GATED_TAIL@,
            ),
            GlobalClass::Optional => warn_r(
                Layer::L3,
                r.interface,
                r.interface + OPTIONAL_ABSENT@,
                None,
                Confidence::Low,
            ),
        },
    }
}

pub open spec fn table_results(gs: Seq<GlobalView>, rows: Seq<RowView>) -> Seq<ResultView> {
    rows.map_values(|r: RowView| row_result(gs, r))
}

pub open spec fn bug_d_results(n: nat, has_zkde: bool, has_ext: bool) -> Seq<ResultView> {
    if !has_zkde && !has_ext {
        let context = if n >= 2 {
            " "@ + decimal(n) + TILED_CONTEXT_TAIL@
        } else {
            PLUGIN_CONTEXT@
        };
        seq![
            warn_r(
                Layer::L3,
                BUG_D@,
                BUG_D_HEAD@ + context + BUG_D_TAIL@,
                Some(RESTART_KWIN@),
                Confidence::Medium,
            ),
        ]
    } else {
        seq![]
    }
}

/// Every L2/L3 result for a registry listing, in report order: compositor
/// type, output count, the tiled-display correlation, one result per
/// screencast protocol, and the Bug D synthesis.
pub open spec fn build_checks_spec(gs: Seq<GlobalView>) -> Seq<ResultView> {
    let n = count_named(gs, "wl_output"@);
    let has_zkde = has_named(gs, ZKDE_SCREENCAST@);
    let has_ext = has_named(gs, EXT_IMAGE_CAPTURE@);
    seq![backend_result(gs), output_result(n)] + tiled_results(n, has_zkde) + table_results(
        gs,
        protocol_table(),
    ) + bug_d_results(n, has_zkde, has_ext)
}

// ── Executable queries ────────────────────────────────────────────────────

fn first_named_exec(gs: &Vec<WlGlobal>, name: &str) -> (r: Option<u32>)
    ensures
        match first_named(gviews(gs@), name@) {
            Some(g) => r == Some(g.version),
            None => r is None,
        },
{
    let mut i: usize = 0;
    assert(gviews(gs@).skip(0) =~= gviews(gs@));
    while i < gs.len()
        invariant
            i <= gs.len(),
            first_named(gviews(gs@), name@) == first_named(gviews(gs@).skip(i as int), name@),
        decreases gs.len() - i,
    {
        let ghost rest = gviews(gs@).skip(i as int);
        assert(rest.drop_first() =~= gviews(gs@).skip(i as int + 1));
        assert(rest[0] == gs@[i as int]@);
        if str_eq(gs[i].interface.as_str(), name) {
            return Some(gs[i].version);
        }
        i = i + 1;
    }
    None
}

fn count_named_exec(gs: &Vec<WlGlobal>, name: &str) -> (n: usize)
    ensures
        n == count_named(gviews(gs@), name@),
{
    let mut n: usize = 0;
    let mut i: usize = 0;
    while i < gs.len()
        invariant
            i <= gs.len(),
            n == count_named(gviews(gs@).take(i as int), name@),
            n <= i,
        decreases gs.len() - i,
    {
        let ghost pre = gviews(gs@).take(i as int + 1);
        assert(pre.drop_last() =~= gviews(gs@).take(i as int));
        assert(pre.last() == gs@[i as int]@);
        if str_eq(gs[i].interface.as_str(), name) {
            n = n + 1;
        }
        i = i + 1;
    }
    assert(gviews(gs@).take(gs.len() as int) =~= gviews(gs@));
    n
}

fn has_kde_exec(gs: &Vec<WlGlobal>) -> (b: bool)
    ensures
        b == any_global(gviews(gs@), |i: Seq<char>| is_kde_name(i)),
{
    let p1 = chars_of("org_kde_");
    let p2 = chars_of("kde_");
    let mut b = false;
    let mut i: usize = 0;
    while i < gs.len()
        invariant
            i <= gs.len(),
            p1@ == "org_kde_"@,
            p2@ == "kde_"@,
            b == any_global(gviews(gs@).take(i as int), |i: Seq<char>| is_kde_name(i)),
        decreases gs.len() - i,
    {
        let ghost pre = gviews(gs@).take(i as int + 1);
        assert(pre.drop_last() =~= gviews(gs@).take(i as int));
        assert(pre.last() == gs@[i as int]@);
        let name = chars_of(gs[i].interface.as_str());
        if starts_with_exec(&name, &p1) || starts_with_exec(&name, &p2) {
            b = true;
        }
        i = i + 1;
    }
    assert(gviews(gs@).take(gs.len() as int) =~= gviews(gs@));
    b
}

fn text_with_count(head: &str, n: u64, tail: &str) -> (s: String)
    ensures
        s@ == head@ + decimal(n as nat) + tail@,
{
    let mut d = chars_of(head);
    let digits = decimal_chars(n);
    push_chars(&mut d, &digits);
    push_str(&mut d, tail);
    string_of(&d)
}

fn backend_check(gs: &Vec<WlGlobal>) -> (r: DiagnosticResult)
    ensures
        r@ == backend_result(gviews(gs@)),
{
    let has_kde = has_kde_exec(gs);
    let has_xdg = first_named_exec(gs, "xdg_wm_base").is_some();
    let has_drm = first_named_exec(gs, "wl_drm").is_some();
    assert(gviews(gs@).len() == gs.len());
    if has_kde && has_xdg {
        let tail = if has_drm {
            "true"
        } else {
            "false"
        };
        let mut d = chars_of(KWIN_CONFIRMED);
        let digits = decimal_chars(gs.len() as u64);
        push_chars(&mut d, &digits);
        push_str(&mut d, GLOBALS_WL_DRM);
        push_str(&mut d, tail);
        let ds = string_of(&d);
        DiagnosticResult::pass(Layer::L2, WAYLAND_BACKEND, ds.as_str())
    } else if has_drm && !has_kde {
        DiagnosticResult::warn(Layer::L2, WAYLAND_BACKEND, XWAYLAND_SUSPECTED, None, Confidence::Medium)
    } else {
        let ds = text_with_count(COMPOSITOR_UNCLEAR, gs.len() as u64, GLOBALS);
        DiagnosticResult::warn(Layer::L2, WAYLAND_BACKEND, ds.as_str(), None, Confidence::Low)
    }
}

fn row_check(gs: &Vec<WlGlobal>, r: &ProtocolRow) -> (res: DiagnosticResult)
    ensures
        res@ == row_result(gviews(gs@), r@),
{
    match first_named_exec(gs, r.interface) {
        Some(version) => {
            let mut d = chars_of(r.label);
            push_str(&mut d, ADVERTISED_AT);
            let digits = decimal_chars(version as u64);
            push_chars(&mut d, &digits);
            let ds = string_of(&d);
            DiagnosticResult::pass(Layer::L3, r.interface, ds.as_str())
        },
        None => match r.class {
            GlobalClass::Required => {
                let mut d = chars_of(r.interface);
                push_str(&mut d, NOT_ADVERTISED);
                let ds = string_of(&d);
                DiagnosticResult::fail(Layer::L3, r.interface, ds.as_str(), r.fix, Confidence::High)
            },
            GlobalClass::PermissionGated => {
                let mut d = chars_of(r.interface);
                push_str(&mut d, GATED_TAIL);
                let ds = string_of(&d);
                DiagnosticResult::skip(Layer::L3, r.interface, ds.as_str())
            },
            GlobalClass::Optional => {
                let mut d = chars_of(r.interface);
                push_str(&mut d, OPTIONAL_ABSENT);
                let ds = string_of(&d);
                DiagnosticResult::warn(Layer::L3, r.interface, ds.as_str(), None, Confidence::Low)
            },
        },
    }
}

/// All L2/L3 results for the globals a compositor advertised.
pub fn build_checks(globals: Vec<WlGlobal>) -> (r: Vec<DiagnosticResult>)
    ensures
        rviews(r@) == build_checks_spec(gviews(globals@)),
{
    let gs = &globals;
    let ghost g = gviews(gs@);
    let mut out: Vec<DiagnosticResult> = Vec::new();
    push_result(&mut out, backend_check(gs));

    let n = count_named_exec(gs, "wl_output");
    if n > 0 {
        let mut d = decimal_chars(n as u64);
        push_str(&mut d, OUTPUTS_ADVERTISED);
        let ds = string_of(&d);
        push_result(&mut out, DiagnosticResult::pass(Layer::L3, WL_OUTPUT_COUNT, ds.as_str()));
    } else {
        push_result(
            &mut out,
            DiagnosticResult::fail(
                Layer::L3,
                WL_OUTPUT_COUNT,
                NO_OUTPUTS,
                NO_OUTPUTS_FIX,
                Confidence::High,
            ),
        );
    }
    assert(rviews(out@) =~= seq![backend_result(g), output_result(n as nat)]);

    let has_zkde = first_named_exec(gs, ZKDE_SCREENCAST).is_some();
    if n >= 2 && !has_zkde {
        let mut d = decimal_chars(n as u64);
        push_str(&mut d, TILED_TAIL);
        let ds = string_of(&d);
        push_result(
            &mut out,
            DiagnosticResult::warn(
                Layer::L3,
                TILED_CORRELATION,
                ds.as_str(),
                None,
                Confidence::High,
            ),
        );
    }
    assert(rviews(out@) =~= seq![backend_result(g), output_result(n as nat)] + tiled_results(
        n as nat,
        has_zkde,
    ));

    let table = screencast_globals();
    let ghost before = rviews(out@);
    let mut k: usize = 0;
    while k < table.len()
        invariant
            k <= table.len(),
            row_views(table@) == protocol_table(),
            g == gviews(gs@),
            rviews(out@) == before + table_results(g, protocol_table()).take(k as int),
        decreases table.len() - k,
    {
        let res = row_check(gs, &table[k]);
        push_result(&mut out, res);
        assert(table_results(g, protocol_table()).take(k as int + 1) =~= table_results(
            g,
            protocol_table(),
        ).take(k as int).push(row_result(g, table@[k as int]@)));
        k = k + 1;
    }
    assert(table_results(g, protocol_table()).take(k as int) =~= table_results(
        g,
        protocol_table(),
    ));

    let has_ext = first_named_exec(gs, EXT_IMAGE_CAPTURE).is_some();
    let ghost before_d = rviews(out@);
    if !has_zkde && !has_ext {
        let mut d = chars_of(BUG_D_HEAD);
        let ghost context = if n >= 2 {
            " "@ + decimal(n as nat) + TILED_CONTEXT_TAIL@
        } else {
            PLUGIN_CONTEXT@
        };
        if n >= 2 {
            push_str(&mut d, " ");
            let digits = decimal_chars(n as u64);
            push_chars(&mut d, &digits);
            push_str(&mut d, TILED_CONTEXT_TAIL);
        } else {
            push_str(&mut d, PLUGIN_CONTEXT);
        }
        assert(d@ =~= BUG_D_HEAD@ + context);
        push_str(&mut d, BUG_D_TAIL);
        let ds = string_of(&d);
        push_result(
            &mut out,
            DiagnosticResult::warn(
                Layer::L3,
                BUG_D,
                ds.as_str(),
                Some(RESTART_KWIN.to_owned()),
                Confidence::Medium,
            ),
        );
        assert(rviews(out@) =~= before_d + bug_d_results(n as nat, has_zkde, has_ext));
    } else {
        assert(rviews(out@) =~= before_d + bug_d_results(n as nat, has_zkde, has_ext));
    }
    out
}

// ── X11 and the whole layer ───────────────────────────────────────────────

pub open spec fn x11_skip_spec() -> Seq<ResultView> {
    seq![
        skip_r(Layer::L2, WAYLAND_CONNECT@, X11_SKIP_DETAIL@),
        skip_r(Layer::L2, WAYLAND_BACKEND@, X11_SKIP_DETAIL@),
        skip_r(Layer::L3, WL_OUTPUT_COUNT@, X11_SKIP_DETAIL@),
    ] + protocol_table().map_values(|r: RowView| skip_r(Layer::L3, r.interface, X11_SKIP_DETAIL@))
}

/// One SKIP per unconditional L2/L3 check: the connection, the compositor
/// type, the output count and every protocol of the table.
pub fn x11_skip_results() -> (r: Vec<DiagnosticResult>)
    ensures
        rviews(r@) == x11_skip_spec(),
{
    let mut out: Vec<DiagnosticResult> = Vec::new();
    push_result(&mut out, DiagnosticResult::skip(Layer::L2, WAYLAND_CONNECT, X11_SKIP_DETAIL));
    push_result(&mut out, DiagnosticResult::skip(Layer::L2, WAYLAND_BACKEND, X11_SKIP_DETAIL));
    push_result(&mut out, DiagnosticResult::skip(Layer::L3, WL_OUTPUT_COUNT, X11_SKIP_DETAIL));
    let table = screencast_globals();
    let ghost head = rviews(out@);
    let ghost skips = protocol_table().map_values(
        |r: RowView| skip_r(Layer::L3, r.interface, X11_SKIP_DETAIL@),
    );
    let mut k: usize = 0;
    while k < table.len()
        invariant
            k <= table.len(),
            row_views(table@) == protocol_table(),
            skips == protocol_table().map_values(
                |r: RowView| skip_r(Layer::L3, r.interface, X11_SKIP_DETAIL@),
            ),
            rviews(out@) == head + skips.take(k as int),
        decreases table.len() - k,
    {
        push_result(&mut out, DiagnosticResult::skip(Layer::L3, table[k].interface, X11_SKIP_DETAIL));
        assert(skips.take(k as int + 1) =~= skips.take(k as int).push(
            skip_r(Layer::L3, table@[k as int]@.interface, X11_SKIP_DETAIL@),
        ));
        k = k + 1;
    }
    assert(skips.take(k as int) =~= skips);
    out
}

/// Whether the layer needs a connection to the compositor: not on X11, where
/// the whole layer reports SKIP.
pub fn needs_wayland_connection(session: SessionType) -> (b: bool)
    ensures
        b == (session != SessionType::X11),
{
    session != SessionType::X11
}

pub open spec fn wayland_layer_spec(
    session: SessionType,
    enumeration: Result<Seq<GlobalView>, Seq<char>>,
) -> Seq<ResultView> {
    if session == SessionType::X11 {
        x11_skip_spec()
    } else {
        match enumeration {
            Err(e) => seq![
                fail_r(
                    Layer::L2,
                    WAYLAND_CONNECT@,
                    CONNECT_FAILED@ + e,
                    CONNECT_FIX@,
                    Confidence::High,
                ),
            ],
            Ok(gs) => build_checks_spec(gs),
        }
    }
}

pub open spec fn enumeration_view(e: Result<Vec<WlGlobal>, String>) -> Result<
    Seq<GlobalView>,
    Seq<char>,
> {
    match e {
        Ok(gs) => Ok(gviews(gs@)),
        Err(m) => Err(m@),
    }
}

/// All L2/L3 results. On X11 the layer is not applicable and every check
/// reports SKIP (the enumeration is ignored); otherwise a failed connection
/// is a FAIL and a registry listing goes through `build_checks`.
pub fn check_wayland_protocols(
    session: SessionType,
    enumeration: Result<Vec<WlGlobal>, String>,
) -> (r: Vec<DiagnosticResult>)
    ensures
        rviews(r@) == wayland_layer_spec(session, enumeration_view(enumeration)),
{
    if session == SessionType::X11 {
        return x11_skip_results();
    }
    match enumeration {
        Err(e) => {
            let mut d = chars_of(CONNECT_FAILED);
            push_str(&mut d, e.as_str());
            let ds = string_of(&d);
            one(
                DiagnosticResult::fail(
                    Layer::L2,
                    WAYLAND_CONNECT,
                    ds.as_str(),
                    CONNECT_FIX,
                    Confidence::High,
                ),
            )
        },
        Ok(globals) => build_checks(globals),
    }
}

} // verus!
