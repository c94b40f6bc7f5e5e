//! Report assembly, the plain-text bug-report summary, the safety filter for
//! fix commands, and the small parsers used when gathering system details.

use vstd::prelude::*;

use crate::text::{
    chars_of, decimal, decimal_chars, has_char, has_char_exec, lines, push_chars, push_str,
    replace_all, replace_all_exec, split_lines, split_words, starts_with, starts_with_exec,
    string_of, strip_leading, strip_leading_exec, strip_prefix_all, strip_prefix_all_exec,
    strip_trailing, strip_trailing_exec, trim, trim_chars, trim_end, trim_end_chars, trim_start,
    trim_start_chars, views, words,
};
use crate::types::{
    count_status, count_with_status, opt_view, rviews, summarize, CheckStatus, DiagnosticReport,
    DiagnosticResult, ResultView, SystemInfo,
};

verus! {

// ── Report ────────────────────────────────────────────────────────────────

/// A report over `results`, with their pass / warn / fail counts.
pub fn build_report(system: SystemInfo, results: Vec<DiagnosticResult>) -> (r: DiagnosticReport)
    ensures
        r.schema_version@ == "1"@,
        r.system == system,
        r.results@ == results@,
        r.summary.pass == count_status(rviews(results@), CheckStatus::Pass),
        r.summary.warn == count_status(rviews(results@), CheckStatus::Warn),
        r.summary.fail == count_status(rviews(results@), CheckStatus::Fail),
{
    let summary = summarize(&results);
    DiagnosticReport { schema_version: "1".to_owned(), system, results, summary }
}

// ── SUMMARY.txt ───────────────────────────────────────────────────────────

pub const FOOTER: &'static str =
    "Generated by wayland-spectre — https://forgejo.wanderingmonster.dev/WanderingMonster/wayland-spectre\n";

pub open spec fn repeat(c: char, n: nat) -> Seq<char> {
    Seq::new(n, |i: int| c)
}

fn repeat_char(c: char, n: usize) -> (v: Vec<char>)
    ensures
        v@ == repeat(c, n as nat),
{
    let mut v: Vec<char> = Vec::new();
    let mut i: usize = 0;
    while i < n
        invariant
            i <= n,
            v@ == repeat(c, i as nat),
        decreases n - i,
    {
        v.push(c);
        i = i + 1;
        assert(v@ =~= repeat(c, i as nat));
    }
    v
}

/// One result in SUMMARY.txt: `[L3] check: detail`, the fix line if any,
/// and a blank line.
pub open spec fn entry_text(r: ResultView) -> Seq<char> {
    "["@ + r.layer.name() + "] "@ + r.check + ": "@ + r.detail + "\n"@ + match r.fix {
        Some(f) => "  fix: "@ + f + "\n"@,
        None => Seq::<char>::empty(),
    } + "\n"@
}

/// The entries of the results with status `s`, in order.
pub open spec fn entries_text(rs: Seq<ResultView>, s: CheckStatus) -> Seq<char>
    decreases rs.len(),
{
    if rs.len() == 0 {
        Seq::<char>::empty()
    } else {
        entries_text(rs.drop_last(), s) + if rs.last().status == s {
            entry_text(rs.last())
        } else {
            Seq::<char>::empty()
        }
    }
}

pub open spec fn section_text(rs: Seq<ResultView>, s: CheckStatus, title: Seq<char>) -> Seq<char> {
    if count_status(rs, s) > 0 {
        title + repeat('-', 40) + "\n"@ + entries_text(rs, s)
    } else {
        Seq::<char>::empty()
    }
}

pub open spec fn optional_line(label: Seq<char>, v: Option<Seq<char>>) -> Seq<char> {
    match v {
        Some(x) => label + x + "\n"@,
        None => Seq::<char>::empty(),
    }
}

pub open spec fn summary_text_spec(
    sys: SystemInfo,
    rs: Seq<ResultView>,
    pass: nat,
    warn: nat,
    fail: nat,
) -> Seq<char> {
    "wayland-spectre diagnostic report\n"@ + repeat('=', 50) + "\n"@ + "Generated : "@
        + sys.generated_at@ + "\n"@ + "Hostname  : "@ + sys.hostname@ + "\n"@ + "Kernel    : "@
        + sys.kernel@ + "\n"@ + optional_line("NVIDIA    : "@, opt_view(sys.nvidia_driver))
        + optional_line("Bazzite   : "@, opt_view(sys.bazzite_image)) + "\n"@ + "Summary: "@
        + decimal(pass) + " pass  "@ + decimal(warn) + " warn  "@ + decimal(fail) + " fail\n\n"@
        + section_text(rs, CheckStatus::Fail, "FAILURES\n"@) + section_text(
        rs,
        CheckStatus::Warn,
        "WARNINGS\n"@,
    ) + repeat('-', 50) + "\n"@ + FOOTER@
}

fn push_entries(out: &mut Vec<char>, results: &Vec<DiagnosticResult>, s: CheckStatus)
    ensures
        final(out)@ == old(out)@ + entries_text(rviews(results@), s),
{
    let ghost rs = rviews(results@);
    let mut i: usize = 0;
    while i < results.len()
        invariant
            i <= results.len(),
            rs == rviews(results@),
            out@ == old(out)@ + entries_text(rs.take(i as int), s),
        decreases results.len() - i,
    {
        assert(rs.take(i as int + 1).drop_last() =~= rs.take(i as int));
        assert(rs.take(i as int + 1).last() == results@[i as int]@);
        let ghost before = out@;
        let r = &results[i];
        if r.status == s {
            push_str(out, "[");
            push_str(out, r.layer.as_str());
            push_str(out, "] ");
            push_str(out, r.check.as_str());
            push_str(out, ": ");
            push_str(out, r.detail.as_str());
            push_str(out, "\n");
            let ghost mid = out@;
            match &r.fix {
                Some(f) => {
                    push_str(out, "  fix: ");
                    push_str(out, f.as_str());
                    push_str(out, "\n");
                },
                None => {
                    assert(out@ =~= mid + Seq::<char>::empty());
                },
            }
            push_str(out, "\n");
            assert(out@ =~= before + entry_text(r@));
        } else {
            assert(out@ =~= before + Seq::<char>::empty());
        }
        i = i + 1;
    }
    assert(rs.take(i as int) =~= rs);
}

fn push_section(out: &mut Vec<char>, results: &Vec<DiagnosticResult>, s: CheckStatus, title: &str)
    ensures
        final(out)@ == old(out)@ + section_text(rviews(results@), s, title@),
{
    if count_with_status(results, s) > 0 {
        push_str(out, title);
        let dashes = repeat_char('-', 40);
        push_chars(out, &dashes);
        push_str(out, "\n");
        push_entries(out, results, s);
    } else {
        assert(out@ =~= old(out)@ + Seq::<char>::empty());
    }
}

fn push_optional(out: &mut Vec<char>, label: &str, v: &Option<String>)
    ensures
        final(out)@ == old(out)@ + optional_line(label@, opt_view(*v)),
{
    match v {
        Some(x) => {
            push_str(out, label);
            push_str(out, x.as_str());
            push_str(out, "\n");
        },
        None => {
            assert(out@ =~= old(out)@ + Seq::<char>::empty());
        },
    }
}

fn push_count(out: &mut Vec<char>, n: usize)
    ensures
        final(out)@ == old(out)@ + decimal(n as nat),
{
    let d = decimal_chars(n as u64);
    push_chars(out, &d);
}

/// The plain-text SUMMARY.txt of a report: system details, the counts, every
/// failure and then every warning with its fix, and a footer.
pub fn build_summary_text(report: &DiagnosticReport) -> (s: String)
    ensures
        s@ == summary_text_spec(
            report.system,
            rviews(report.results@),
            report.summary.pass as nat,
            report.summary.warn as nat,
            report.summary.fail as nat,
        ),
{
    let mut out = chars_of("wayland-spectre diagnostic report\n");
    let eq = repeat_char('=', 50);
    push_chars(&mut out, &eq);
    push_str(&mut out, "\n");
    push_str(&mut out, "Generated : ");
    push_str(&mut out, report.system.generated_at.as_str());
    push_str(&mut out, "\n");
    push_str(&mut out, "Hostname  : ");
    push_str(&mut out, report.system.hostname.as_str());
    push_str(&mut out, "\n");
    push_str(&mut out, "Kernel    : ");
    push_str(&mut out, report.system.kernel.as_str());
    push_str(&mut out, "\n");
    push_optional(&mut out, "NVIDIA    : ", &report.system.nvidia_driver);
    push_optional(&mut out, "Bazzite   : ", &report.system.bazzite_image);
    push_str(&mut out, "\n");
    push_str(&mut out, "Summary: ");
    push_count(&mut out, report.summary.pass);
    push_str(&mut out, " pass  ");
    push_count(&mut out, report.summary.warn);
    push_str(&mut out, " warn  ");
    push_count(&mut out, report.summary.fail);
    push_str(&mut out, " fail\n\n");
    push_section(&mut out, &report.results, CheckStatus::Fail, "FAILURES\n");
    push_section(&mut out, &report.results, CheckStatus::Warn, "WARNINGS\n");
    let dashes = repeat_char('-', 50);
    push_chars(&mut out, &dashes);
    push_str(&mut out, "\n");
    push_str(&mut out, FOOTER);
    string_of(&out)
}

// ── Fix commands ──────────────────────────────────────────────────────────

/// A fix command holding one of `| ; & > < $ `` ` is refused.
pub open spec fn is_unsafe_command(s: Seq<char>) -> bool {
    has_char(s, '|') || has_char(s, ';') || has_char(s, '&') || has_char(s, '>') || has_char(
        s,
        '<',
    ) || has_char(s, '$') || has_char(s, '`')
}

pub open spec fn sviews(v: Seq<String>) -> Seq<Seq<char>> {
    v.map_values(|s: String| s@)
}

pub open spec fn plan_fix_spec(s: Seq<char>) -> Result<Seq<Seq<char>>, Seq<char>> {
    if is_unsafe_command(s) {
        Err("Refused unsafe fix command: "@ + s)
    } else if words(s).len() == 0 {
        Err("Empty fix command"@)
    } else {
        Ok(words(s))
    }
}

/// The program and arguments to run for a fix command, split on whitespace;
/// an error for a command with shell metacharacters or with no word.
pub fn plan_fix(fix_command: &str) -> (r: Result<Vec<String>, String>)
    ensures
        match r {
            Ok(parts) => plan_fix_spec(fix_command@) == Ok::<Seq<Seq<char>>, Seq<char>>(
                sviews(parts@),
            ),
            Err(e) => plan_fix_spec(fix_command@) == Err::<Seq<Seq<char>>, Seq<char>>(e@),
        },
{
    let c = chars_of(fix_command);
    if has_char_exec(&c, '|') || has_char_exec(&c, ';') || has_char_exec(&c, '&') || has_char_exec(
        &c,
        '>',
    ) || has_char_exec(&c, '<') || has_char_exec(&c, '$') || has_char_exec(&c, '`') {
        let mut d = chars_of("Refused unsafe fix command: ");
        push_str(&mut d, fix_command);
        return Err(string_of(&d));
    }
    let ws = split_words(&c);
    if ws.len() == 0 {
        return Err("Empty fix command".to_owned());
    }
    let mut parts: Vec<String> = Vec::new();
    let mut i: usize = 0;
    while i < ws.len()
        invariant
            i <= ws.len(),
            sviews(parts@) == views(ws@).take(i as int),
        decreases ws.len() - i,
    {
        let s = string_of(&ws[i]);
        let ghost before = sviews(parts@);
        parts.push(s);
        assert(sviews(parts@) =~= before.push(ws@[i as int]@));
        assert(views(ws@).take(i as int + 1) =~= views(ws@).take(i as int).push(ws@[i as int]@));
        i = i + 1;
    }
    assert(views(ws@).take(ws.len() as int) =~= views(ws@));
    Ok(parts)
}

pub open spec fn fix_outcome_spec(
    success: bool,
    status: Seq<char>,
    stdout: Seq<char>,
    stderr: Seq<char>,
) -> Result<Seq<char>, Seq<char>> {
    let combined = trim(stdout + stderr);
    if success {
        Ok(
            if combined.len() == 0 {
                "Done."@
            } else {
                combined
            },
        )
    } else {
        Err("Command exited "@ + status + ": "@ + combined)
    }
}

/// What the user is shown after running a fix: the trimmed output (or
/// `Done.`) on success, else the exit status and the output.
pub fn fix_outcome(success: bool, status: &str, stdout: &str, stderr: &str) -> (r: Result<
    String,
    String,
>)
    ensures
        match r {
            Ok(s) => fix_outcome_spec(success, status@, stdout@, stderr@) == Ok::<
                Seq<char>,
                Seq<char>,
            >(s@),
            Err(e) => fix_outcome_spec(success, status@, stdout@, stderr@) == Err::<
                Seq<char>,
                Seq<char>,
            >(e@),
        },
{
    let mut all = chars_of(stdout);
    push_str(&mut all, stderr);
    let combined = trim_chars(&all);
    if success {
        if combined.len() == 0 {
            Ok("Done.".to_owned())
        } else {
            Ok(string_of(&combined))
        }
    } else {
        let mut d = chars_of("Command exited ");
        push_str(&mut d, status);
        push_str(&mut d, ": ");
        push_chars(&mut d, &combined);
        Err(string_of(&d))
    }
}

// ── busctl output ─────────────────────────────────────────────────────────

pub open spec fn unwrap_busctl_spec(raw: Seq<char>) -> Seq<char> {
    let t = trim_start(raw);
    if starts_with(t, "s \""@) {
        let c = strip_trailing(trim_end(strip_prefix_all(t, "s \""@)), '"');
        replace_all(replace_all(c, "\\n"@, "\n"@), "\\t"@, "\t"@)
    } else {
        raw
    }
}

/// busctl prints a string reply as `s "…"` with escaped newlines and tabs;
/// this unwraps it. Other output is kept as it is.
pub fn unwrap_busctl_output(raw: &str) -> (s: String)
    ensures
        s@ == unwrap_busctl_spec(raw@),
{
    let r = chars_of(raw);
    let t = trim_start_chars(&r);
    let prefix = chars_of("s \"");
    if !starts_with_exec(&t, &prefix) {
        return raw.to_owned();
    }
    let c1 = strip_prefix_all_exec(&t, &prefix);
    let c2 = trim_end_chars(&c1);
    let c3 = strip_trailing_exec(&c2, '"');
    let c4 = replace_all_exec(&c3, &chars_of("\\n"), &chars_of("\n"));
    let c5 = replace_all_exec(&c4, &chars_of("\\t"), &chars_of("\t"));
    string_of(&c5)
}

// ── os-release, nvidia-smi ────────────────────────────────────────────────

pub open spec fn image_version_of(ls: Seq<Seq<char>>) -> Option<Seq<char>>
    decreases ls.len(),
{
    if ls.len() == 0 {
        None
    } else if starts_with(ls[0], "IMAGE_VERSION="@) {
        Some(
            strip_trailing(
                strip_leading(strip_prefix_all(ls[0], "IMAGE_VERSION="@), '"'),
                '"',
            ),
        )
    } else {
        image_version_of(ls.drop_first())
    }
}

/// The `IMAGE_VERSION` of an os-release file, unquoted.
pub fn image_version_from_os_release(content: &str) -> (v: Option<String>)
    ensures
        opt_view(v) == image_version_of(lines(content@)),
{
    let c = chars_of(content);
    let ls = split_lines(&c);
    let key = chars_of("IMAGE_VERSION=");
    let mut i: usize = 0;
    assert(views(ls@).skip(0) =~= views(ls@));
    while i < ls.len()
        invariant
            i <= ls.len(),
            key@ == "IMAGE_VERSION="@,
            image_version_of(lines(content@)) == image_version_of(views(ls@).skip(i as int)),
        decreases ls.len() - i,
    {
        let ghost rest = views(ls@).skip(i as int);
        assert(rest.drop_first() =~= views(ls@).skip(i as int + 1));
        assert(rest[0] == ls@[i as int]@);
        if starts_with_exec(&ls[i], &key) {
            let a = strip_prefix_all_exec(&ls[i], &key);
            let b = strip_leading_exec(&a, '"');
            let v = strip_trailing_exec(&b, '"');
            return Some(string_of(&v));
        }
        i = i + 1;
    }
    None
}

/// The driver version printed by `nvidia-smi`, trimmed; `None` when empty.
pub fn nvidia_smi_version(stdout: &str) -> (v: Option<String>)
    ensures
        opt_view(v) == if trim(stdout@).len() == 0 {
            None
        } else {
            Some(trim(stdout@))
        },
{
    let c = chars_of(stdout);
    let t = trim_chars(&c);
    if t.len() == 0 {
        None
    } else {
        Some(string_of(&t))
    }
}

// ── Bazzite image ─────────────────────────────────────────────────────────

/// What `rpm-ostree status --json` output gives as the booted image's
/// version: the string at `deployments[0].version` when the output parses
/// as JSON and holds a string there.
pub uninterp spec fn rpm_ostree_version_of(stdout: Seq<u8>) -> Option<Seq<char>>;

/// Parses `rpm-ostree status --json` output with `serde_json::from_slice`
/// into a `serde_json::Value` and reads `["deployments"][0]["version"]`
/// with `Value::as_str`. Trusted: the result is a function of the bytes
/// alone (named `rpm_ostree_version_of`); what it is for given bytes is
/// left to serde_json.
#[verifier::external_body]
pub fn rpm_ostree_version(stdout: &[u8]) -> (v: Option<String>)
    ensures
        opt_view(v) == rpm_ostree_version_of(stdout@),
{
    let value: serde_json::Value = match serde_json::from_slice(stdout) {
        Ok(value) => value,
        Err(_) => return None,
    };
    match value["deployments"][0]["version"].as_str() {
        Some(s) => Some(s.to_owned()),
        None => None,
    }
}

pub open spec fn bazzite_image_spec(os_release: Option<Seq<char>>, rpm_ostree: Option<Seq<u8>>) -> Option<
    Seq<char>,
> {
    let from_file = match os_release {
        Some(c) => image_version_of(lines(c)),
        None => None,
    };
    match from_file {
        Some(v) => Some(v),
        None => match rpm_ostree {
            Some(b) => rpm_ostree_version_of(b),
            None => None,
        },
    }
}

/// The Bazzite image: `IMAGE_VERSION` from `/etc/os-release` when present,
/// otherwise the booted deployment's version from `rpm-ostree status --json`
/// (`None` where the file or the command could not be read).
pub fn bazzite_image(os_release: Option<&str>, rpm_ostree_stdout: Option<&[u8]>) -> (v: Option<
    String,
>)
    ensures
        opt_view(v) == bazzite_image_spec(
            match os_release {
                Some(c) => Some(c@),
                None => None,
            },
            match rpm_ostree_stdout {
                Some(b) => Some(b@),
                None => None,
            },
        ),
{
    let from_file = match os_release {
        Some(c) => image_version_from_os_release(c),
        None => None,
    };
    match from_file {
        Some(v) => Some(v),
        None => match rpm_ostree_stdout {
            Some(b) => rpm_ostree_version(b),
            None => None,
        },
    }
}

/// A command's output or a file's content without surrounding whitespace.
pub fn trimmed(raw: &str) -> (t: String)
    ensures
        t@ == trim(raw@),
{
    let c = chars_of(raw);
    string_of(&trim_chars(&c))
}

} // verus!
