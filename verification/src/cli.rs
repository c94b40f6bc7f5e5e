//! Command-line presentation: layer labels and filter, the rendering of
//! results into terminal lines (plain, or coloured through `owo-colors`),
//! the summary line and the exit code.

use vstd::prelude::*;

use crate::text::{
    chars_of, decimal, decimal_chars, push_str, str_eq, string_of, to_uppercase, uppercase,
};
use crate::types::{
    count_status, count_with_status, rviews, CheckStatus, DiagnosticResult, Layer, ResultView,
    SessionType,
};

use owo_colors::OwoColorize;

verus! {

// ── owo-colors ────────────────────────────────────────────────────────────

pub const BOLD: &'static str = "\x1b[1m";

pub const DIM: &'static str = "\x1b[2m";

pub const RESET: &'static str = "\x1b[0m";

pub const FG_RESET: &'static str = "\x1b[39m";

pub const FG_RED: &'static str = "\x1b[31m";

pub const FG_GREEN: &'static str = "\x1b[32m";

pub const FG_YELLOW: &'static str = "\x1b[33m";

pub const FG_MAGENTA: &'static str = "\x1b[35m";

pub const FG_CYAN: &'static str = "\x1b[36m";

pub const FG_WHITE: &'static str = "\x1b[37m";

pub const FG_BRIGHT_RED: &'static str = "\x1b[91m";

pub const FG_BRIGHT_BLUE: &'static str = "\x1b[94m";

pub const FG_BRIGHT_CYAN: &'static str = "\x1b[96m";

/// Text in a foreground colour: the colour's escape, the text, the
/// default-foreground escape.
pub open spec fn fg(colour: Seq<char>, s: Seq<char>) -> Seq<char> {
    colour + s + FG_RESET@
}

pub open spec fn bold_text(s: Seq<char>) -> Seq<char> {
    BOLD@ + s + RESET@
}

pub open spec fn dim_text(s: Seq<char>) -> Seq<char> {
    DIM@ + s + RESET@
}

/// `OwoColorize::bold`, rendered with `to_string`.
/// Trusted: the text wrapped in `ESC[1m` … `ESC[0m`.
#[verifier::external_body]
fn bold(s: &str) -> (r: String)
    ensures
        r@ == bold_text(s@),
{
    s.bold().to_string()
}

/// `OwoColorize::dimmed`, rendered with `to_string`.
/// Trusted: the text wrapped in `ESC[2m` … `ESC[0m`.
#[verifier::external_body]
fn dimmed(s: &str) -> (r: String)
    ensures
        r@ == dim_text(s@),
{
    s.dimmed().to_string()
}

/// `OwoColorize::red`, rendered with `to_string`.
/// Trusted: the text wrapped in `ESC[31m` … `ESC[39m`.
#[verifier::external_body]
fn red(s: &str) -> (r: String)
    ensures
        r@ == fg(FG_RED@, s@),
{
    s.red().to_string()
}

/// `OwoColorize::green`, rendered with `to_string`.
/// Trusted: the text wrapped in `ESC[32m` … `ESC[39m`.
#[verifier::external_body]
fn green(s: &str) -> (r: String)
    ensures
        r@ == fg(FG_GREEN@, s@),
{
    s.green().to_string()
}

/// `OwoColorize::yellow`, rendered with `to_string`.
/// Trusted: the text wrapped in `ESC[33m` … `ESC[39m`.
#[verifier::external_body]
fn yellow(s: &str) -> (r: String)
    ensures
        r@ == fg(FG_YELLOW@, s@),
{
    s.yellow().to_string()
}

/// `OwoColorize::magenta`, rendered with `to_string`.
/// Trusted: the text wrapped in `ESC[35m` … `ESC[39m`.
#[verifier::external_body]
fn magenta(s: &str) -> (r: String)
    ensures
        r@ == fg(FG_MAGENTA@, s@),
{
    s.magenta().to_string()
}

/// `OwoColorize::cyan`, rendered with `to_string`.
/// Trusted: the text wrapped in `ESC[36m` … `ESC[39m`.
#[verifier::external_body]
fn cyan(s: &str) -> (r: String)
    ensures
        r@ == fg(FG_CYAN@, s@),
{
    s.cyan().to_string()
}

/// `OwoColorize::white`, rendered with `to_string`.
/// Trusted: the text wrapped in `ESC[37m` … `ESC[39m`.
#[verifier::external_body]
fn white(s: &str) -> (r: String)
    ensures
        r@ == fg(FG_WHITE@, s@),
{
    s.white().to_string()
}

/// `OwoColorize::bright_red`, rendered with `to_string`.
/// Trusted: the text wrapped in `ESC[91m` … `ESC[39m`.
#[verifier::external_body]
fn bright_red(s: &str) -> (r: String)
    ensures
        r@ == fg(FG_BRIGHT_RED@, s@),
{
    s.bright_red().to_string()
}

/// `OwoColorize::bright_blue`, rendered with `to_string`.
/// Trusted: the text wrapped in `ESC[94m` … `ESC[39m`.
#[verifier::external_body]
fn bright_blue(s: &str) -> (r: String)
    ensures
        r@ == fg(FG_BRIGHT_BLUE@, s@),
{
    s.bright_blue().to_string()
}

/// `OwoColorize::bright_cyan`, rendered with `to_string`.
/// Trusted: the text wrapped in `ESC[96m` … `ESC[39m`.
#[verifier::external_body]
fn bright_cyan(s: &str) -> (r: String)
    ensures
        r@ == fg(FG_BRIGHT_CYAN@, s@),
{
    s.bright_cyan().to_string()
}

// ── Layers ────────────────────────────────────────────────────────────────

pub open spec fn label_spec(layer: Seq<char>) -> Seq<char> {
    if layer == "L0"@ {
        "hardware / gpu"@
    } else if layer == "L1"@ {
        "d-bus / portal session"@
    } else if layer == "L2"@ {
        "compositor connection"@
    } else if layer == "L3"@ {
        "wayland protocols"@
    } else if layer == "L4"@ {
        "pipewire"@
    } else if layer == "L5"@ {
        "flatpak permissions"@
    } else if layer == "L6"@ {
        "environment"@
    } else if layer == "L7"@ {
        "kwin plugins"@
    } else {
        ""@
    }
}

/// Short human-readable label for a layer name (empty for an unknown name).
pub fn layer_label(layer_str: &str) -> (l: &'static str)
    ensures
        l@ == label_spec(layer_str@),
{
    if str_eq(layer_str, "L0") {
        "hardware / gpu"
    } else if str_eq(layer_str, "L1") {
        "d-bus / portal session"
    } else if str_eq(layer_str, "L2") {
        "compositor connection"
    } else if str_eq(layer_str, "L3") {
        "wayland protocols"
    } else if str_eq(layer_str, "L4") {
        "pipewire"
    } else if str_eq(layer_str, "L5") {
        "flatpak permissions"
    } else if str_eq(layer_str, "L6") {
        "environment"
    } else if str_eq(layer_str, "L7") {
        "kwin plugins"
    } else {
        ""
    }
}

pub open spec fn layer_named(s: Seq<char>) -> Option<Layer> {
    if s == "L0"@ {
        Some(Layer::L0)
    } else if s == "L1"@ {
        Some(Layer::L1)
    } else if s == "L2"@ {
        Some(Layer::L2)
    } else if s == "L3"@ {
        Some(Layer::L3)
    } else if s == "L4"@ {
        Some(Layer::L4)
    } else if s == "L5"@ {
        Some(Layer::L5)
    } else if s == "L6"@ {
        Some(Layer::L6)
    } else if s == "L7"@ {
        Some(Layer::L7)
    } else {
        None
    }
}

/// Parses an exact layer name `L0` .. `L7`.
pub fn parse_layer_filter(s: &str) -> (l: Option<Layer>)
    ensures
        l == layer_named(s@),
{
    if str_eq(s, "L0") {
        Some(Layer::L0)
    } else if str_eq(s, "L1") {
        Some(Layer::L1)
    } else if str_eq(s, "L2") {
        Some(Layer::L2)
    } else if str_eq(s, "L3") {
        Some(Layer::L3)
    } else if str_eq(s, "L4") {
        Some(Layer::L4)
    } else if str_eq(s, "L5") {
        Some(Layer::L5)
    } else if str_eq(s, "L6") {
        Some(Layer::L6)
    } else if str_eq(s, "L7") {
        Some(Layer::L7)
    } else {
        None
    }
}

/// The colour of a layer's header (the text unchanged for an unknown name).
pub open spec fn layer_colour(layer: Seq<char>, s: Seq<char>) -> Seq<char> {
    if layer == "L0"@ {
        fg(FG_BRIGHT_BLUE@, s)
    } else if layer == "L1"@ {
        fg(FG_CYAN@, s)
    } else if layer == "L2"@ {
        fg(FG_MAGENTA@, s)
    } else if layer == "L3"@ {
        fg(FG_YELLOW@, s)
    } else if layer == "L4"@ {
        fg(FG_GREEN@, s)
    } else if layer == "L5"@ {
        fg(FG_BRIGHT_CYAN@, s)
    } else if layer == "L6"@ {
        fg(FG_WHITE@, s)
    } else if layer == "L7"@ {
        fg(FG_BRIGHT_RED@, s)
    } else {
        s
    }
}

/// The one-word label of plain mode: the last word of the layer's label.
pub open spec fn short_label_spec(layer: Seq<char>) -> Seq<char> {
    if layer == "L0"@ {
        "gpu"@
    } else if layer == "L1"@ {
        "session"@
    } else if layer == "L2"@ {
        "connection"@
    } else if layer == "L3"@ {
        "protocols"@
    } else if layer == "L4"@ {
        "pipewire"@
    } else if layer == "L5"@ {
        "permissions"@
    } else if layer == "L6"@ {
        "environment"@
    } else if layer == "L7"@ {
        "plugins"@
    } else {
        ""@
    }
}

/// Plain mode: `[L3 protocols]`. Colour mode: `L3  wayland protocols`, bold,
/// in the layer's own colour.
pub open spec fn header_spec(layer: Seq<char>, use_color: bool) -> Seq<char> {
    if !use_color {
        "["@ + layer + " "@ + short_label_spec(layer) + "]"@
    } else {
        bold_text(layer_colour(layer, layer + "  "@ + label_spec(layer)))
    }
}

fn short_label(layer_str: &str) -> (l: &'static str)
    ensures
        l@ == short_label_spec(layer_str@),
{
    if str_eq(layer_str, "L0") {
        "gpu"
    } else if str_eq(layer_str, "L1") {
        "session"
    } else if str_eq(layer_str, "L2") {
        "connection"
    } else if str_eq(layer_str, "L3") {
        "protocols"
    } else if str_eq(layer_str, "L4") {
        "pipewire"
    } else if str_eq(layer_str, "L5") {
        "permissions"
    } else if str_eq(layer_str, "L6") {
        "environment"
    } else if str_eq(layer_str, "L7") {
        "plugins"
    } else {
        ""
    }
}

fn paint_layer(layer_str: &str, full: &str) -> (r: String)
    ensures
        r@ == layer_colour(layer_str@, full@),
{
    if str_eq(layer_str, "L0") {
        bright_blue(full)
    } else if str_eq(layer_str, "L1") {
        cyan(full)
    } else if str_eq(layer_str, "L2") {
        magenta(full)
    } else if str_eq(layer_str, "L3") {
        yellow(full)
    } else if str_eq(layer_str, "L4") {
        green(full)
    } else if str_eq(layer_str, "L5") {
        bright_cyan(full)
    } else if str_eq(layer_str, "L6") {
        white(full)
    } else if str_eq(layer_str, "L7") {
        bright_red(full)
    } else {
        full.to_owned()
    }
}

/// Layer header: `[L3 protocols]` in plain mode; in colour mode
/// `L3  wayland protocols`, bold, in the layer's own colour.
pub fn format_layer_header(layer_str: &str, use_color: bool) -> (h: String)
    ensures
        h@ == header_spec(layer_str@, use_color),
{
    if !use_color {
        let mut d = chars_of("[");
        push_str(&mut d, layer_str);
        push_str(&mut d, " ");
        push_str(&mut d, short_label(layer_str));
        push_str(&mut d, "]");
        return string_of(&d);
    }
    let mut f = chars_of(layer_str);
    push_str(&mut f, "  ");
    push_str(&mut f, layer_label(layer_str));
    let full = string_of(&f);
    let painted = paint_layer(layer_str, full.as_str());
    bold(painted.as_str())
}

// ── Layer filter ──────────────────────────────────────────────────────────

pub open spec fn keep_layer(rs: Seq<ResultView>, l: Layer) -> Seq<ResultView>
    decreases rs.len(),
{
    if rs.len() == 0 {
        seq![]
    } else {
        keep_layer(rs.drop_last(), l) + if rs.last().layer == l {
            seq![rs.last()]
        } else {
            seq![]
        }
    }
}

/// The results of the layer named by `wanted` (case-insensitive), in order;
/// `None` when `wanted` names no layer.
pub fn apply_layer_filter(results: Vec<DiagnosticResult>, wanted: &str) -> (r: Option<
    Vec<DiagnosticResult>,
>)
    ensures
        match layer_named(uppercase(wanted@)) {
            None => r is None,
            Some(l) => r is Some && rviews(r->0@) == keep_layer(rviews(results@), l),
        },
{
    let w = chars_of(wanted);
    let up = string_of(&to_uppercase(&w));
    let target = match parse_layer_filter(up.as_str()) {
        None => {
            return None;
        },
        Some(l) => l,
    };
    let ghost rs = rviews(results@);
    let mut out: Vec<DiagnosticResult> = Vec::new();
    let mut results = results;
    assert(rviews(out@) =~= keep_layer(rs.take(0), target));
    assert(rviews(results@) =~= rs.skip(0));
    let mut i: usize = 0;
    let n = results.len();
    while results.len() > 0
        invariant
            n == rs.len(),
            i + results.len() == rs.len(),
            rviews(results@) == rs.skip(i as int),
            rviews(out@) == keep_layer(rs.take(i as int), target),
        decreases results.len(),
    {
        let ghost before_list = results@;
        let r = results.remove(0);
        assert(r@ == rviews(before_list)[0]);
        assert(results@ =~= before_list.skip(1));
        assert forall|k: int| 0 <= k < results@.len() implies #[trigger] rviews(results@)[k] == rs.skip(
            i as int + 1,
        )[k] by {
            assert(rviews(results@)[k] == results@[k]@);
            assert(results@[k] == before_list[k + 1]);
            assert(rviews(before_list)[k + 1] == rs.skip(i as int)[k + 1]);
        }
        assert(rviews(results@) =~= rs.skip(i as int + 1));
        assert(rs.take(i as int + 1).drop_last() =~= rs.take(i as int));
        assert(rs.take(i as int + 1).last() == rs[i as int]);
        if r.layer == target {
            let ghost before = rviews(out@);
            out.push(r);
            assert(rviews(out@) =~= before + seq![rs[i as int]]);
        } else {
            assert(keep_layer(rs.take(i as int), target) + seq![] =~= keep_layer(
                rs.take(i as int),
                target,
            ));
        }
        i = i + 1;
    }
    assert(rs.take(i as int) =~= rs);
    Some(out)
}

// ── Rendering ─────────────────────────────────────────────────────────────

pub open spec fn marker(s: CheckStatus) -> Seq<char> {
    match s {
        CheckStatus::Pass => "  ✓ "@,
        CheckStatus::Warn => "  ⚠ "@,
        CheckStatus::Fail => "  ✗ "@,
        CheckStatus::Skip => "  – "@,
    }
}

pub open spec fn status_text(s: CheckStatus, use_color: bool) -> Seq<char> {
    if !use_color {
        s.name()
    } else {
        match s {
            CheckStatus::Pass => fg(FG_GREEN@, "PASS"@),
            CheckStatus::Warn => fg(FG_YELLOW@, "WARN"@),
            CheckStatus::Fail => bold_text(fg(FG_RED@, "FAIL"@)),
            CheckStatus::Skip => dim_text("SKIP"@),
        }
    }
}

pub open spec fn result_line(r: ResultView, use_color: bool) -> Seq<char> {
    marker(r.status) + "["@ + status_text(r.status, use_color) + "] "@ + r.check + " — "@
        + r.detail
}

/// The fix line, shown for failures and warnings that carry a fix.
pub open spec fn fix_lines(r: ResultView, use_color: bool) -> Seq<Seq<char>> {
    match r.fix {
        Some(f) => if r.status == CheckStatus::Fail || r.status == CheckStatus::Warn {
            seq![
                "        fix: "@ + if use_color {
                    fg(FG_CYAN@, f)
                } else {
                    f
                },
            ]
        } else {
            seq![]
        },
        None => seq![],
    }
}

/// The lines of a result list: before the first result of each run of one
/// layer, an empty line and the layer header; then each result's line and
/// its fix line.
pub open spec fn report_lines(rs: Seq<ResultView>, current: Seq<char>, use_color: bool) -> Seq<
    Seq<char>,
>
    decreases rs.len(),
{
    if rs.len() == 0 {
        seq![]
    } else {
        let l = rs[0].layer.name();
        let head = if l != current {
            seq![Seq::<char>::empty(), "  "@ + header_spec(l, use_color)]
        } else {
            seq![]
        };
        head + seq![result_line(rs[0], use_color)] + fix_lines(rs[0], use_color) + report_lines(
            rs.drop_first(),
            l,
            use_color,
        )
    }
}

fn status_word(s: CheckStatus, use_color: bool) -> (t: String)
    ensures
        t@ == status_text(s, use_color),
{
    if !use_color {
        return s.as_str().to_owned();
    }
    match s {
        CheckStatus::Pass => green("PASS"),
        CheckStatus::Warn => yellow("WARN"),
        CheckStatus::Fail => {
            let r = red("FAIL");
            bold(r.as_str())
        },
        CheckStatus::Skip => dimmed("SKIP"),
    }
}

fn marker_exec(s: CheckStatus) -> (m: &'static str)
    ensures
        m@ == marker(s),
{
    match s {
        CheckStatus::Pass => "  ✓ ",
        CheckStatus::Warn => "  ⚠ ",
        CheckStatus::Fail => "  ✗ ",
        CheckStatus::Skip => "  – ",
    }
}

pub open spec fn sviews(v: Seq<String>) -> Seq<Seq<char>> {
    v.map_values(|s: String| s@)
}

fn push_line(out: &mut Vec<String>, s: String)
    ensures
        sviews(final(out)@) == sviews(old(out)@).push(s@),
{
    out.push(s);
    assert(sviews(out@) =~= sviews(old(out)@).push(s@));
}

/// The terminal lines for a list of results, grouped under layer headers.
pub fn render_results(results: &Vec<DiagnosticResult>, use_color: bool) -> (lines: Vec<String>)
    ensures
        sviews(lines@) == report_lines(rviews(results@), Seq::<char>::empty(), use_color),
{
    let ghost rs = rviews(results@);
    let mut out: Vec<String> = Vec::new();
    let mut current = String::new();
    let mut i: usize = 0;
    assert(rs.skip(0) =~= rs);
    assert(sviews(out@) + report_lines(rs, current@, use_color) =~= report_lines(
        rs,
        Seq::<char>::empty(),
        use_color,
    ));
    while i < results.len()
        invariant
            i <= results.len(),
            rs == rviews(results@),
            sviews(out@) + report_lines(rs.skip(i as int), current@, use_color) == report_lines(
                rs,
                Seq::<char>::empty(),
                use_color,
            ),
        decreases results.len() - i,
    {
        let ghost rest = rs.skip(i as int);
        assert(rest.drop_first() =~= rs.skip(i as int + 1));
        assert(rest[0] == results@[i as int]@);
        let ghost before = sviews(out@);
        let r = &results[i];
        let layer_str = r.layer.as_str();
        let ghost l = r.layer.name();
        if !str_eq(layer_str, current.as_str()) {
            current = layer_str.to_owned();
            push_line(&mut out, String::new());
            let mut h = chars_of("  ");
            let header = format_layer_header(layer_str, use_color);
            push_str(&mut h, header.as_str());
            push_line(&mut out, string_of(&h));
        }
        let ghost mid = sviews(out@);
        let mut line = chars_of(marker_exec(r.status));
        push_str(&mut line, "[");
        let sw = status_word(r.status, use_color);
        push_str(&mut line, sw.as_str());
        push_str(&mut line, "] ");
        push_str(&mut line, r.check.as_str());
        push_str(&mut line, " — ");
        push_str(&mut line, r.detail.as_str());
        push_line(&mut out, string_of(&line));
        if r.status == CheckStatus::Fail || r.status == CheckStatus::Warn {
            match &r.fix {
                Some(f) => {
                    let mut fl = chars_of("        fix: ");
                    if use_color {
                        let c = cyan(f.as_str());
                        push_str(&mut fl, c.as_str());
                    } else {
                        push_str(&mut fl, f.as_str());
                    }
                    push_line(&mut out, string_of(&fl));
                },
                None => {},
            }
        }
        assert(current@ == l);
        assert(sviews(out@) =~= mid + seq![result_line(rest[0], use_color)] + fix_lines(
            rest[0],
            use_color,
        ));
        i = i + 1;
    }
    assert(rs.skip(i as int) =~= Seq::<ResultView>::empty());
    assert(sviews(out@) + report_lines(rs.skip(i as int), current@, use_color) =~= sviews(out@));
    out
}

// ── Summary, header, notes, exit code ─────────────────────────────────────

pub open spec fn summary_spec(rs: Seq<ResultView>, use_color: bool) -> Seq<char> {
    let p = decimal(count_status(rs, CheckStatus::Pass));
    let w = decimal(count_status(rs, CheckStatus::Warn));
    let f = decimal(count_status(rs, CheckStatus::Fail));
    let s = decimal(count_status(rs, CheckStatus::Skip));
    if use_color {
        "  "@ + bold_text(fg(FG_GREEN@, p)) + " pass  "@ + bold_text(fg(FG_YELLOW@, w))
            + " warn  "@ + bold_text(fg(FG_RED@, f)) + " fail  "@ + dim_text(s) + " skip"@
    } else {
        "  "@ + p + " pass  "@ + w + " warn  "@ + f + " fail  "@ + s + " skip"@
    }
}

fn count_text(results: &Vec<DiagnosticResult>, s: CheckStatus) -> (t: String)
    ensures
        t@ == decimal(count_status(rviews(results@), s)),
{
    let n = count_with_status(results, s);
    string_of(&decimal_chars(n as u64))
}

/// The summary line: pass, warn, fail and skip counts.
pub fn summary_line(results: &Vec<DiagnosticResult>, use_color: bool) -> (line: String)
    ensures
        line@ == summary_spec(rviews(results@), use_color),
{
    let p = count_text(results, CheckStatus::Pass);
    let w = count_text(results, CheckStatus::Warn);
    let f = count_text(results, CheckStatus::Fail);
    let s = count_text(results, CheckStatus::Skip);
    let mut d = chars_of("  ");
    if use_color {
        let pg = green(p.as_str());
        push_str(&mut d, bold(pg.as_str()).as_str());
        push_str(&mut d, " pass  ");
        let wy = yellow(w.as_str());
        push_str(&mut d, bold(wy.as_str()).as_str());
        push_str(&mut d, " warn  ");
        let fr = red(f.as_str());
        push_str(&mut d, bold(fr.as_str()).as_str());
        push_str(&mut d, " fail  ");
        push_str(&mut d, dimmed(s.as_str()).as_str());
        push_str(&mut d, " skip");
    } else {
        push_str(&mut d, p.as_str());
        push_str(&mut d, " pass  ");
        push_str(&mut d, w.as_str());
        push_str(&mut d, " warn  ");
        push_str(&mut d, f.as_str());
        push_str(&mut d, " fail  ");
        push_str(&mut d, s.as_str());
        push_str(&mut d, " skip");
    }
    string_of(&d)
}

pub const SUBTITLE: &'static str = "Wayland screen sharing diagnostics · KDE Plasma / Bazzite";

pub open spec fn banner_spec(use_color: bool) -> Seq<char> {
    if use_color {
        "\n  "@ + bold_text(fg(FG_WHITE@, "wayland"@)) + bold_text(fg(FG_RED@, "-spectre"@))
            + "\n"@ + "  "@ + dim_text(SUBTITLE@) + "\n\n"@
    } else {
        "\n  wayland-spectre\n"@ + "  "@ + SUBTITLE@ + "\n\n"@
    }
}

/// The banner printed before human-readable output.
pub fn banner(use_color: bool) -> (b: String)
    ensures
        b@ == banner_spec(use_color),
{
    if use_color {
        let mut d = chars_of("\n  ");
        let w = white("wayland");
        push_str(&mut d, bold(w.as_str()).as_str());
        let r = red("-spectre");
        push_str(&mut d, bold(r.as_str()).as_str());
        push_str(&mut d, "\n");
        push_str(&mut d, "  ");
        push_str(&mut d, dimmed(SUBTITLE).as_str());
        push_str(&mut d, "\n\n");
        string_of(&d)
    } else {
        let mut d = chars_of("\n  wayland-spectre\n");
        push_str(&mut d, "  ");
        push_str(&mut d, SUBTITLE);
        push_str(&mut d, "\n\n");
        string_of(&d)
    }
}

pub const X11_NOTE: &'static str =
    "X11 session detected — Wayland-specific checks are reported as SKIP";

pub const UNKNOWN_NOTE: &'static str =
    "Session type unknown (XDG_SESSION_TYPE unset) — all checks run";

pub open spec fn session_note_spec(session: SessionType) -> Option<Seq<char>> {
    match session {
        SessionType::Wayland => None,
        SessionType::X11 => Some(X11_NOTE@),
        SessionType::Unknown => Some(UNKNOWN_NOTE@),
    }
}

/// The note printed outside a Wayland session.
pub fn session_note(session: SessionType) -> (n: Option<&'static str>)
    ensures
        match n {
            Some(t) => session_note_spec(session) == Some(t@),
            None => session_note_spec(session) is None,
        },
{
    match session {
        SessionType::Wayland => None,
        SessionType::X11 => Some(X11_NOTE),
        SessionType::Unknown => Some(UNKNOWN_NOTE),
    }
}

/// An indented note line, dimmed in colour mode.
pub fn note_line(note: &str, use_color: bool) -> (line: String)
    ensures
        line@ == "  "@ + if use_color {
            dim_text(note@)
        } else {
            note@
        },
{
    let mut d = chars_of("  ");
    if use_color {
        push_str(&mut d, dimmed(note).as_str());
    } else {
        push_str(&mut d, note);
    }
    string_of(&d)
}

/// The text of the layer-filter note.
pub fn layer_filter_note(filter: &str) -> (t: String)
    ensures
        t@ == "layer filter: "@ + filter@,
{
    let mut d = chars_of("layer filter: ");
    push_str(&mut d, filter);
    string_of(&d)
}

pub open spec fn exit_code_spec(rs: Seq<ResultView>) -> i32 {
    if count_status(rs, CheckStatus::Fail) > 0 {
        1
    } else {
        0
    }
}

/// 1 when some check failed, else 0: warnings and skips never fail a run.
pub fn exit_code(results: &Vec<DiagnosticResult>) -> (code: i32)
    ensures
        code == exit_code_spec(rviews(results@)),
{
    if count_with_status(results, CheckStatus::Fail) > 0 {
        1
    } else {
        0
    }
}

} // verus!
