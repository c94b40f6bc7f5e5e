//! NVIDIA checks (layer L0): driver version and flavour from
//! `/proc/driver/nvidia/version`, `nvidia_drm` module parameters, the EGL
//! Wayland ICD and the DRM card bound to the NVIDIA driver.

use vstd::prelude::*;

use crate::text::{
    chars_of, contains, contains_exec, has_char, has_char_exec, is_ascii_digit, is_digit, lines,
    push_chars, push_str, split_lines, split_words, starts_with, starts_with_exec, str_eq,
    string_of, trim, trim_chars, views, words,
};
use crate::types::{
    extend, one, opt_view, pass_r, rviews, skip_r, warn_r, fail_r, Confidence, DiagnosticResult,
    Layer, ResultView,
};

verus! {

pub const DRIVER_LOADED: &'static str = "nvidia_driver_loaded";

pub const OPEN_MODULES: &'static str = "nvidia_open_modules";

pub const DRM_MODESET: &'static str = "nvidia_drm_modeset";

pub const EGL_WAYLAND_ICD: &'static str = "egl_wayland_icd";

pub const EXPLICIT_SYNC: &'static str = "nvidia_explicit_sync";

pub const DRM_SYNCOBJ: &'static str = "drm_syncobj";

pub const VERSION_FILE: &'static str = "/proc/driver/nvidia/version";

pub const DRIVER_NOT_DETECTED: &'static str = "NVIDIA driver not detected — skipping GPU checks";

pub const OPEN_CONFIRMED: &'static str =
    "nvidia-open (open kernel modules) confirmed — required for Wayland DMA-BUF";

pub const PROPRIETARY_WARN: &'static str =
    "Proprietary NVIDIA modules detected. Open modules are recommended for Wayland. \
     Bazzite: switch to bazzite-nvidia-open image.";

pub const MODESET_ON: &'static str = "nvidia-drm.modeset=1 — kernel modesetting enabled";

pub const MODESET_OFF_TAIL: &'static str =
    " — modesetting disabled, Wayland will not work correctly";

pub const MODESET_FIX: &'static str =
    "Add nvidia-drm.modeset=1 to kernel cmdline in /etc/kernel/cmdline then rpm-ostree kargs";

pub const MODESET_UNREADABLE: &'static str = "Could not read nvidia_drm module parameter";

pub const ICD_WAYLAND: &'static str =
    "/usr/share/egl/egl_external_platform.d/10_nvidia_wayland.json";

pub const ICD_GBM: &'static str = "/usr/share/egl/egl_external_platform.d/15_nvidia_gbm.json";

pub const ICD_FOUND: &'static str = "NVIDIA EGL Wayland ICD found";

pub const ICD_MISSING: &'static str =
    "NVIDIA EGL Wayland ICD not found — egl-wayland2 may not be installed";

pub const ICD_FIX: &'static str = "sudo dnf install egl-wayland";

pub const SYNC_ON: &'static str =
    "nvidia-drm.explicit_sync=1 — fence sync enabled, black frame bug mitigated";

pub const SYNC_OFF: &'static str =
    "nvidia-drm.explicit_sync=0 — explicit sync disabled. \
     May cause black frames after screen share chooser on NVIDIA. \
     Add nvidia-drm.explicit_sync=1 to kernel cmdline.";

pub const SYNC_FIX: &'static str = "rpm-ostree kargs --append=nvidia-drm.explicit_sync=1";

pub const SYNC_ODD_TAIL: &'static str = " — unexpected value, treating as enabled";

pub const SYNC_DEFAULT_ON: &'static str = "Driver ≥570 — explicit sync on by default";

pub const SYNC_PARAM_MISSING: &'static str =
    "explicit_sync parameter not found (driver <555 may not support it)";

pub const DRM_DIR: &'static str = "/sys/class/drm";

pub const DRM_UNREADABLE: &'static str = "Could not read /sys/class/drm";

pub const NO_DRM_CARDS: &'static str = "No DRM cards found in /sys/class/drm";

pub const NO_NVIDIA_CARD: &'static str = "Could not identify NVIDIA DRM card";

pub const NVIDIA_CARD_FOUND: &'static str = "NVIDIA DRM device found at ";

pub const NVIDIA_CARD_TAIL: &'static str = " — syncobj assumed available with open modules";

// ── Driver version ────────────────────────────────────────────────────────

/// A word that starts with an ASCII digit and contains a dot.
pub open spec fn is_version_token(w: Seq<char>) -> bool {
    w.len() > 0 && is_digit(w[0]) && has_char(w, '.')
}

pub open spec fn first_version_token(ws: Seq<Seq<char>>) -> Option<Seq<char>>
    decreases ws.len(),
{
    if ws.len() == 0 {
        None
    } else if is_version_token(ws[0]) {
        Some(ws[0])
    } else {
        first_version_token(ws.drop_first())
    }
}

/// The first version-looking word of the first line.
pub open spec fn driver_version_spec(content: Seq<char>) -> Option<Seq<char>> {
    if lines(content).len() == 0 {
        None
    } else {
        first_version_token(words(lines(content)[0]))
    }
}

fn first_line(s: &Vec<char>) -> (r: Option<Vec<char>>)
    ensures
        match r {
            Some(l) => lines(s@).len() > 0 && l@ == lines(s@)[0],
            None => lines(s@).len() == 0,
        },
{
    let mut ls = split_lines(s);
    if ls.len() == 0 {
        None
    } else {
        let ghost v = views(ls@);
        assert(v[0] == ls@[0]@);
        Some(ls.swap_remove(0))
    }
}

fn version_token_exec(line: &Vec<char>) -> (r: Option<Vec<char>>)
    ensures
        match r {
            Some(w) => first_version_token(words(line@)) == Some(w@),
            None => first_version_token(words(line@)) is None,
        },
{
    let mut ws = split_words(line);
    let mut i: usize = 0;
    assert(views(ws@).skip(0) =~= views(ws@));
    while i < ws.len()
        invariant
            i <= ws.len(),
            first_version_token(words(line@)) == first_version_token(views(ws@).skip(i as int)),
        decreases ws.len() - i,
    {
        let ghost rest = views(ws@).skip(i as int);
        assert(rest.drop_first() =~= views(ws@).skip(i as int + 1));
        assert(rest[0] == ws@[i as int]@);
        if ws[i].len() > 0 && is_ascii_digit(ws[i][0]) && has_char_exec(&ws[i], '.') {
            return Some(ws.swap_remove(i));
        }
        i = i + 1;
    }
    None
}

fn driver_version_chars(s: &Vec<char>) -> (r: Option<Vec<char>>)
    ensures
        match r {
            Some(w) => driver_version_spec(s@) == Some(w@),
            None => driver_version_spec(s@) is None,
        },
{
    match first_line(s) {
        None => None,
        Some(l) => version_token_exec(&l),
    }
}

/// The driver version string from `/proc/driver/nvidia/version` content: the
/// first word of the first line that starts with a digit and contains a dot.
pub fn parse_driver_version(proc_content: &str) -> (r: Option<String>)
    ensures
        opt_view(r) == driver_version_spec(proc_content@),
{
    let s = chars_of(proc_content);
    match driver_version_chars(&s) {
        Some(w) => Some(string_of(&w)),
        None => None,
    }
}

pub open spec fn open_module_spec(content: Seq<char>) -> bool {
    lines(content).len() > 0 && contains(lines(content)[0], "Open"@)
}

fn open_module_chars(s: &Vec<char>) -> (b: bool)
    ensures
        b == open_module_spec(s@),
{
    match first_line(s) {
        None => false,
        Some(l) => {
            let needle = chars_of("Open");
            contains_exec(&l, &needle)
        },
    }
}

/// Whether the first line of the version file names the open kernel modules.
pub fn is_open_module(proc_content: &str) -> (b: bool)
    ensures
        b == open_module_spec(proc_content@),
{
    let s = chars_of(proc_content);
    open_module_chars(&s)
}

// ── Driver loaded, open modules ───────────────────────────────────────────

pub open spec fn driver_loaded_spec(content: Option<Seq<char>>) -> Seq<ResultView> {
    match content {
        None => seq![skip_r(Layer::L0, DRIVER_LOADED@, DRIVER_NOT_DETECTED@)],
        Some(c) => {
            let version = match driver_version_spec(c) {
                Some(v) => v,
                None => "unknown"@,
            };
            let flavour = if contains(c, "Open"@) || contains(c, "open"@) {
                "open modules"@
            } else {
                "proprietary"@
            };
            seq![
                pass_r(
                    Layer::L0,
                    DRIVER_LOADED@,
                    "NVIDIA driver "@ + version + " loaded ("@ + flavour + ")"@,
                ),
            ]
        },
    }
}

/// `content`: the version file, `None` when it cannot be read.
pub fn check_driver_loaded(content: Option<String>) -> (r: Vec<DiagnosticResult>)
    ensures
        rviews(r@) == driver_loaded_spec(opt_view(content)),
{
    match content {
        None => one(DiagnosticResult::skip(Layer::L0, DRIVER_LOADED, DRIVER_NOT_DETECTED)),
        Some(c) => {
            let s = chars_of(c.as_str());
            let mut d = chars_of("NVIDIA driver ");
            match driver_version_chars(&s) {
                Some(v) => push_chars(&mut d, &v),
                None => push_str(&mut d, "unknown"),
            }
            push_str(&mut d, " loaded (");
            let o1 = chars_of("Open");
            let o2 = chars_of("open");
            if contains_exec(&s, &o1) || contains_exec(&s, &o2) {
                push_str(&mut d, "open modules");
            } else {
                push_str(&mut d, "proprietary");
            }
            push_str(&mut d, ")");
            let ds = string_of(&d);
            one(DiagnosticResult::pass(Layer::L0, DRIVER_LOADED, ds.as_str()))
        },
    }
}

pub open spec fn open_modules_spec(content: Seq<char>) -> Seq<ResultView> {
    if content.len() == 0 {
        seq![]
    } else if open_module_spec(content) {
        seq![pass_r(Layer::L0, OPEN_MODULES@, OPEN_CONFIRMED@)]
    } else {
        seq![warn_r(Layer::L0, OPEN_MODULES@, PROPRIETARY_WARN@, None, Confidence::Medium)]
    }
}

/// `content`: the version file, empty when it cannot be read (then the
/// driver is reported missing by `check_driver_loaded` and nothing is added).
pub fn check_open_modules(content: &str) -> (r: Vec<DiagnosticResult>)
    ensures
        rviews(r@) == open_modules_spec(content@),
{
    let s = chars_of(content);
    if s.len() == 0 {
        let r: Vec<DiagnosticResult> = Vec::new();
        assert(rviews(r@) =~= Seq::<ResultView>::empty());
        return r;
    }
    if open_module_chars(&s) {
        one(DiagnosticResult::pass(Layer::L0, OPEN_MODULES, OPEN_CONFIRMED))
    } else {
        one(
            DiagnosticResult::warn(
                Layer::L0,
                OPEN_MODULES,
                PROPRIETARY_WARN,
                None,
                Confidence::Medium,
            ),
        )
    }
}

// ── Module parameters ─────────────────────────────────────────────────────

/// The sysfs path of a module parameter.
pub fn module_param_path(module: &str, param: &str) -> (p: String)
    ensures
        p@ == "/sys/module/"@ + module@ + "/parameters/"@ + param@,
{
    let mut d = chars_of("/sys/module/");
    push_str(&mut d, module);
    push_str(&mut d, "/parameters/");
    push_str(&mut d, param);
    string_of(&d)
}

/// A module parameter's value: the file content, trimmed.
pub fn module_param_value(raw: Option<String>) -> (v: Option<String>)
    ensures
        opt_view(v) == match opt_view(raw) {
            Some(r) => Some(trim(r)),
            None => None,
        },
{
    match raw {
        None => None,
        Some(r) => {
            let c = chars_of(r.as_str());
            let t = trim_chars(&c);
            Some(string_of(&t))
        },
    }
}

pub open spec fn is_truthy(v: Seq<char>) -> bool {
    v == "Y"@ || v == "1"@
}

pub open spec fn modeset_spec(p: Option<Seq<char>>, q: Option<Seq<char>>) -> Seq<ResultView> {
    let value = match p {
        Some(v) => Some(v),
        None => q,
    };
    match value {
        Some(v) => if is_truthy(v) {
            seq![pass_r(Layer::L0, DRM_MODESET@, MODESET_ON@)]
        } else {
            seq![
                fail_r(
                    Layer::L0,
                    DRM_MODESET@,
                    "nvidia-drm.modeset="@ + v + MODESET_OFF_TAIL@,
                    MODESET_FIX@,
                    Confidence::High,
                ),
            ]
        },
        None => seq![skip_r(Layer::L0, DRM_MODESET@, MODESET_UNREADABLE@)],
    }
}

/// `nvidia_drm` / `nvidia-drm`: the trimmed `modeset` parameter of the module
/// under either name (`None`: unreadable). The first one present decides.
pub fn check_kernel_modesetting(nvidia_drm: Option<String>, nvidia_dash_drm: Option<String>) -> (r:
    Vec<DiagnosticResult>)
    ensures
        rviews(r@) == modeset_spec(opt_view(nvidia_drm), opt_view(nvidia_dash_drm)),
{
    let value = match nvidia_drm {
        Some(v) => Some(v),
        None => nvidia_dash_drm,
    };
    match value {
        Some(v) => {
            if str_eq(v.as_str(), "Y") || str_eq(v.as_str(), "1") {
                one(DiagnosticResult::pass(Layer::L0, DRM_MODESET, MODESET_ON))
            } else {
                let mut d = chars_of("nvidia-drm.modeset=");
                push_str(&mut d, v.as_str());
                push_str(&mut d, MODESET_OFF_TAIL);
                let ds = string_of(&d);
                one(
                    DiagnosticResult::fail(
                        Layer::L0,
                        DRM_MODESET,
                        ds.as_str(),
                        MODESET_FIX,
                        Confidence::High,
                    ),
                )
            }
        },
        None => one(DiagnosticResult::skip(Layer::L0, DRM_MODESET, MODESET_UNREADABLE)),
    }
}

// ── EGL Wayland ICD ───────────────────────────────────────────────────────

pub open spec fn egl_spec(found: bool) -> Seq<ResultView> {
    if found {
        seq![pass_r(Layer::L0, EGL_WAYLAND_ICD@, ICD_FOUND@)]
    } else {
        seq![
            warn_r(
                Layer::L0,
                EGL_WAYLAND_ICD@,
                ICD_MISSING@,
                Some(ICD_FIX@),
                Confidence::Medium,
            ),
        ]
    }
}

/// `found`: whether one of `ICD_WAYLAND`, `ICD_GBM` exists.
pub fn check_egl_wayland(found: bool) -> (r: Vec<DiagnosticResult>)
    ensures
        rviews(r@) == egl_spec(found),
{
    if found {
        one(DiagnosticResult::pass(Layer::L0, EGL_WAYLAND_ICD, ICD_FOUND))
    } else {
        one(
            DiagnosticResult::warn(
                Layer::L0,
                EGL_WAYLAND_ICD,
                ICD_MISSING,
                Some(ICD_FIX.to_owned()),
                Confidence::Medium,
            ),
        )
    }
}

// ── Unsigned decimal parsing (u32::from_str) ──────────────────────────────

pub open spec fn digits_value(d: Seq<char>) -> nat
    decreases d.len(),
{
    if d.len() == 0 {
        0
    } else {
        digits_value(d.drop_last()) * 10 + ((d.last() as u32) - 48) as nat
    }
}

pub open spec fn all_digits(d: Seq<char>) -> bool {
    forall|i: int| 0 <= i < d.len() ==> is_digit(#[trigger] d[i])
}

/// `u32::from_str`: an optional `+`, then one or more ASCII digits whose
/// value fits in 32 bits.
pub open spec fn parse_u32_spec(s: Seq<char>) -> Option<nat> {
    let d = if s.len() > 0 && s[0] == '+' {
        s.drop_first()
    } else {
        s
    };
    if d.len() == 0 || !all_digits(d) || digits_value(d) > u32::MAX {
        None
    } else {
        Some(digits_value(d))
    }
}

proof fn lemma_digits_value_mono(d: Seq<char>, i: int)
    requires
        0 <= i <= d.len(),
        all_digits(d),
    ensures
        digits_value(d.take(i)) <= digits_value(d),
    decreases d.len() - i,
{
    if i < d.len() {
        lemma_digits_value_mono(d, i + 1);
        assert(d.take(i + 1).drop_last() =~= d.take(i));
        assert(is_digit(d[i]));
    } else {
        assert(d.take(i) =~= d);
    }
}

pub fn parse_u32(s: &Vec<char>) -> (r: Option<u32>)
    ensures
        match r {
            Some(v) => parse_u32_spec(s@) == Some(v as nat),
            None => parse_u32_spec(s@) is None,
        },
{
    let start: usize = if s.len() > 0 && s[0] == '+' {
        1
    } else {
        0
    };
    let ghost d = s@.skip(start as int);
    assert(start == 1 ==> d =~= s@.drop_first());
    assert(start == 0 ==> d =~= s@);
    if start >= s.len() {
        return None;
    }
    let mut acc: u64 = 0;
    let mut i = start;
    while i < s.len()
        invariant
            start <= i <= s.len(),
            d == s@.skip(start as int),
            acc == digits_value(d.take(i - start)),
            acc <= u32::MAX,
            start == (if s@.len() > 0 && s@[0] == '+' {
                1int
            } else {
                0int
            }),
            d.len() == s@.len() - start,
            d.len() > 0,
            d == (if s@.len() > 0 && s@[0] == '+' {
                s@.drop_first()
            } else {
                s@
            }),
            forall|k: int| 0 <= k < i - start ==> is_digit(#[trigger] d[k]),
        decreases s.len() - i,
    {
        let c = s[i];
        if !is_ascii_digit(c) {
            assert(!is_digit(d[i - start]));
            return None;
        }
        let ghost pre = d.take(i - start + 1);
        assert(pre.drop_last() =~= d.take(i - start));
        assert(pre.last() == c);
        let dig = (c as u32 - 48) as u64;
        if acc * 10 + dig > 4294967295 {
            proof {
                assert(digits_value(pre) == digits_value(pre.drop_last()) * 10 + ((c as u32)
                    - 48) as nat);
                assert(digits_value(pre) > u32::MAX);
                if all_digits(d) {
                    lemma_digits_value_mono(d, i - start + 1);
                }
            }
            return None;
        }
        acc = acc * 10 + dig;
        i = i + 1;
    }
    assert(d.take(i - start) =~= d);
    Some(acc as u32)
}

// ── Explicit sync ─────────────────────────────────────────────────────────

pub open spec fn first_dotted(ws: Seq<Seq<char>>) -> Option<Seq<char>>
    decreases ws.len(),
{
    if ws.len() == 0 {
        None
    } else if has_char(ws[0], '.') {
        Some(ws[0])
    } else {
        first_dotted(ws.drop_first())
    }
}

/// The text before the first `.` (`split('.').next()`).
pub open spec fn before_dot(w: Seq<char>) -> Seq<char> {
    match crate::text::find(w, seq!['.']) {
        Some(i) => w.take(i as int),
        None => w,
    }
}

/// The driver's major version: the part before the first dot of the first
/// dotted word of the first line, as a `u32`.
pub open spec fn major_version_spec(content: Seq<char>) -> Option<nat> {
    if lines(content).len() == 0 {
        None
    } else {
        match first_dotted(words(lines(content)[0])) {
            None => None,
            Some(w) => parse_u32_spec(before_dot(w)),
        }
    }
}

fn major_version(content: &Vec<char>) -> (r: Option<u32>)
    ensures
        match r {
            Some(v) => major_version_spec(content@) == Some(v as nat),
            None => major_version_spec(content@) is None,
        },
{
    let line = match first_line(content) {
        None => {
            return None;
        },
        Some(l) => l,
    };
    let ws = split_words(&line);
    let mut i: usize = 0;
    assert(views(ws@).skip(0) =~= views(ws@));
    while i < ws.len()
        invariant
            i <= ws.len(),
            lines(content@).len() > 0,
            line@ == lines(content@)[0],
            first_dotted(words(line@)) == first_dotted(views(ws@).skip(i as int)),
        decreases ws.len() - i,
    {
        let ghost rest = views(ws@).skip(i as int);
        assert(rest.drop_first() =~= views(ws@).skip(i as int + 1));
        assert(rest[0] == ws@[i as int]@);
        if has_char_exec(&ws[i], '.') {
            let mut dot: Vec<char> = Vec::new();
            dot.push('.');
            assert(dot@ =~= seq!['.']);
            let head = match crate::text::find_from_exec(&ws[i], &dot, 0) {
                Some(p) => crate::text::copy_range(&ws[i], 0, p),
                None => crate::text::copy_range(&ws[i], 0, ws[i].len()),
            };
            assert(ws@[i as int]@.take(head@.len() as int) =~= head@);
            assert(head@ == before_dot(ws@[i as int]@)) by {
                assert(ws@[i as int]@.subrange(0, ws@[i as int]@.len() as int) =~= ws@[i as int]@);
            }
            assert(first_dotted(words(line@)) == Some(ws@[i as int]@));
            let r = parse_u32(&head);
            assert(major_version_spec(content@) == parse_u32_spec(head@));
            return r;
        }
        i = i + 1;
    }
    None
}

pub open spec fn explicit_sync_spec(param: Option<Seq<char>>, content: Seq<char>) -> Seq<
    ResultView,
> {
    match param {
        Some(v) => if is_truthy(v) {
            seq![pass_r(Layer::L0, EXPLICIT_SYNC@, SYNC_ON@)]
        } else if v == "0"@ || v == "N"@ {
            seq![warn_r(Layer::L0, EXPLICIT_SYNC@, SYNC_OFF@, Some(SYNC_FIX@), Confidence::High)]
        } else {
            seq![
                pass_r(
                    Layer::L0,
                    EXPLICIT_SYNC@,
                    "nvidia-drm.explicit_sync="@ + v + SYNC_ODD_TAIL@,
                ),
            ]
        },
        None => match major_version_spec(content) {
            Some(m) if m >= 570 => seq![pass_r(Layer::L0, EXPLICIT_SYNC@, SYNC_DEFAULT_ON@)],
            _ => seq![skip_r(Layer::L0, EXPLICIT_SYNC@, SYNC_PARAM_MISSING@)],
        },
    }
}

/// `param`: the trimmed `nvidia_drm` `explicit_sync` parameter (`None`:
/// absent); `version_content`: the version file (empty when unreadable),
/// consulted only when the parameter is absent — drivers 570 and later
/// enable explicit sync by default.
pub fn check_explicit_sync(param: Option<String>, version_content: &str) -> (r: Vec<
    DiagnosticResult,
>)
    ensures
        rviews(r@) == explicit_sync_spec(opt_view(param), version_content@),
{
    match param {
        Some(v) => {
            if str_eq(v.as_str(), "Y") || str_eq(v.as_str(), "1") {
                one(DiagnosticResult::pass(Layer::L0, EXPLICIT_SYNC, SYNC_ON))
            } else if str_eq(v.as_str(), "0") || str_eq(v.as_str(), "N") {
                one(
                    DiagnosticResult::warn(
                        Layer::L0,
                        EXPLICIT_SYNC,
                        SYNC_OFF,
                        Some(SYNC_FIX.to_owned()),
                        Confidence::High,
                    ),
                )
            } else {
                let mut d = chars_of("nvidia-drm.explicit_sync=");
                push_str(&mut d, v.as_str());
                push_str(&mut d, SYNC_ODD_TAIL);
                let ds = string_of(&d);
                one(DiagnosticResult::pass(Layer::L0, EXPLICIT_SYNC, ds.as_str()))
            }
        },
        None => {
            let c = chars_of(version_content);
            match major_version(&c) {
                Some(m) if m >= 570 => one(
                    DiagnosticResult::pass(Layer::L0, EXPLICIT_SYNC, SYNC_DEFAULT_ON),
                ),
                _ => one(DiagnosticResult::skip(Layer::L0, EXPLICIT_SYNC, SYNC_PARAM_MISSING)),
            }
        },
    }
}

// ── DRM syncobj ───────────────────────────────────────────────────────────

/// An entry of `/sys/class/drm`: its name and, where the entry has one, the
/// target of its `device/driver` link.
#[derive(Debug, Clone)]
pub struct DrmEntry {
    pub name: String,
    pub driver: Option<String>,
}

pub struct DrmEntryView {
    pub name: Seq<char>,
    pub driver: Option<Seq<char>>,
}

impl View for DrmEntry {
    type V = DrmEntryView;

    open spec fn view(&self) -> DrmEntryView {
        DrmEntryView { name: self.name@, driver: opt_view(self.driver) }
    }
}

/// A card node (`cardN`), not a connector (`cardN-DP-1`).
pub open spec fn is_card(name: Seq<char>) -> bool {
    starts_with(name, "card"@) && !has_char(name, '-')
}

pub open spec fn is_nvidia_card(e: DrmEntryView) -> bool {
    is_card(e.name) && match e.driver {
        Some(d) => contains(d, "nvidia"@),
        None => false,
    }
}

pub open spec fn any_card(es: Seq<DrmEntryView>) -> bool
    decreases es.len(),
{
    if es.len() == 0 {
        false
    } else {
        is_card(es[0].name) || any_card(es.drop_first())
    }
}

pub open spec fn first_nvidia_card(es: Seq<DrmEntryView>) -> Option<Seq<char>>
    decreases es.len(),
{
    if es.len() == 0 {
        None
    } else if is_nvidia_card(es[0]) {
        Some(es[0].name)
    } else {
        first_nvidia_card(es.drop_first())
    }
}

pub open spec fn drm_views(v: Seq<DrmEntry>) -> Seq<DrmEntryView> {
    v.map_values(|e: DrmEntry| e@)
}

pub open spec fn drm_syncobj_spec(dir: Option<Seq<DrmEntryView>>) -> Seq<ResultView> {
    match dir {
        None => seq![skip_r(Layer::L0, DRM_SYNCOBJ@, DRM_UNREADABLE@)],
        Some(es) => if !any_card(es) {
            seq![skip_r(Layer::L0, DRM_SYNCOBJ@, NO_DRM_CARDS@)]
        } else {
            match first_nvidia_card(es) {
                None => seq![skip_r(Layer::L0, DRM_SYNCOBJ@, NO_NVIDIA_CARD@)],
                Some(card) => seq![
                    pass_r(Layer::L0, DRM_SYNCOBJ@, NVIDIA_CARD_FOUND@ + card + NVIDIA_CARD_TAIL@),
                ],
            }
        },
    }
}

/// The path of a DRM entry's driver link.
pub fn drm_driver_link_path(entry: &str) -> (p: String)
    ensures
        p@ == DRM_DIR@ + "/"@ + entry@ + "/device/driver"@,
{
    let mut d = chars_of(DRM_DIR);
    push_str(&mut d, "/");
    push_str(&mut d, entry);
    push_str(&mut d, "/device/driver");
    string_of(&d)
}

fn is_card_exec(name: &str) -> (b: bool)
    ensures
        b == is_card(name@),
{
    let n = chars_of(name);
    let p = chars_of("card");
    starts_with_exec(&n, &p) && !has_char_exec(&n, '-')
}

fn drm_cards_result(es: &Vec<DrmEntry>) -> (r: Vec<DiagnosticResult>)
    ensures
        rviews(r@) == drm_syncobj_spec(Some(drm_views(es@))),
{
    let ghost ev = drm_views(es@);
    let nv = chars_of("nvidia");
    let mut seen_card = false;
    let mut i: usize = 0;
    assert(ev.skip(0) =~= ev);
    while i < es.len()
        invariant
            i <= es.len(),
            ev == drm_views(es@),
            nv@ == "nvidia"@,
            any_card(ev) == (seen_card || any_card(ev.skip(i as int))),
            seen_card ==> any_card(ev),
            first_nvidia_card(ev) == first_nvidia_card(ev.skip(i as int)),
        decreases es.len() - i,
    {
        let ghost rest = ev.skip(i as int);
        assert(rest.drop_first() =~= ev.skip(i as int + 1));
        assert(rest[0] == es@[i as int]@);
        if is_card_exec(es[i].name.as_str()) {
            seen_card = true;
            let is_nv = match &es[i].driver {
                Some(d) => {
                    let dc = chars_of(d.as_str());
                    contains_exec(&dc, &nv)
                },
                None => false,
            };
            if is_nv {
                assert(is_nvidia_card(rest[0]));
                let mut d = chars_of(NVIDIA_CARD_FOUND);
                push_str(&mut d, es[i].name.as_str());
                push_str(&mut d, NVIDIA_CARD_TAIL);
                let ds = string_of(&d);
                return one(DiagnosticResult::pass(Layer::L0, DRM_SYNCOBJ, ds.as_str()));
            }
        }
        i = i + 1;
    }
    if !seen_card {
        one(DiagnosticResult::skip(Layer::L0, DRM_SYNCOBJ, NO_DRM_CARDS))
    } else {
        one(DiagnosticResult::skip(Layer::L0, DRM_SYNCOBJ, NO_NVIDIA_CARD))
    }
}

/// `dir`: the entries of `/sys/class/drm` in directory order (`None`: the
/// directory cannot be read). The first card node whose driver link names
/// `nvidia` is reported.
pub fn check_drm_syncobj(dir: Option<Vec<DrmEntry>>) -> (r: Vec<DiagnosticResult>)
    ensures
        rviews(r@) == drm_syncobj_spec(
            match dir {
                Some(v) => Some(drm_views(v@)),
                None => None,
            },
        ),
{
    match dir {
        None => one(DiagnosticResult::skip(Layer::L0, DRM_SYNCOBJ, DRM_UNREADABLE)),
        Some(es) => drm_cards_result(&es),
    }
}

// ── The whole layer ───────────────────────────────────────────────────────

/// What the L0 probes read from the system.
pub struct NvidiaProbe {
    /// `/proc/driver/nvidia/version`, `None` when unreadable.
    pub version_file: Option<String>,
    /// The trimmed `modeset` parameter of `nvidia_drm`.
    pub modeset: Option<String>,
    /// The trimmed `modeset` parameter of `nvidia-drm`.
    pub modeset_dash: Option<String>,
    /// Whether an NVIDIA EGL Wayland ICD file exists.
    pub egl_icd_found: bool,
    /// The trimmed `explicit_sync` parameter of `nvidia_drm`.
    pub explicit_sync: Option<String>,
    /// The entries of `/sys/class/drm`, `None` when unreadable.
    pub drm: Option<Vec<DrmEntry>>,
}

pub open spec fn version_text(v: Option<Seq<char>>) -> Seq<char> {
    match v {
        Some(c) => c,
        None => Seq::<char>::empty(),
    }
}

pub open spec fn nvidia_layer_spec(p: NvidiaProbe) -> Seq<ResultView> {
    let version = opt_view(p.version_file);
    driver_loaded_spec(version) + open_modules_spec(version_text(version)) + modeset_spec(
        opt_view(p.modeset),
        opt_view(p.modeset_dash),
    ) + egl_spec(p.egl_icd_found) + explicit_sync_spec(
        opt_view(p.explicit_sync),
        version_text(version),
    ) + drm_syncobj_spec(
        match p.drm {
            Some(v) => Some(drm_views(v@)),
            None => None,
        },
    )
}

/// All L0 results, in report order.
pub fn check_nvidia(probe: NvidiaProbe) -> (r: Vec<DiagnosticResult>)
    ensures
        rviews(r@) == nvidia_layer_spec(probe),
{
    let ghost p = probe;
    let NvidiaProbe { version_file, modeset, modeset_dash, egl_icd_found, explicit_sync, drm } =
        probe;
    let content: String = match &version_file {
        Some(c) => c.clone(),
        None => String::new(),
    };
    let mut out = check_driver_loaded(version_file);
    extend(&mut out, check_open_modules(content.as_str()));
    extend(&mut out, check_kernel_modesetting(modeset, modeset_dash));
    extend(&mut out, check_egl_wayland(egl_icd_found));
    extend(&mut out, check_explicit_sync(explicit_sync, content.as_str()));
    extend(&mut out, check_drm_syncobj(drm));
    out
}

} // verus!
