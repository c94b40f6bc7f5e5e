//! Domain types: check status, confidence, the eight diagnostic layers, the
//! session type, a single check result and the report types.

use vstd::prelude::*;

verus! {

// ── Status / confidence ───────────────────────────────────────────────────

#[derive(Debug, Clone, Copy, PartialEq, Eq, Structural)]
pub enum CheckStatus {
    Pass,
    Warn,
    Fail,
    Skip,
}

impl CheckStatus {
    pub open spec fn name(self) -> Seq<char> {
        match self {
            CheckStatus::Pass => "PASS"@,
            CheckStatus::Warn => "WARN"@,
            CheckStatus::Fail => "FAIL"@,
            CheckStatus::Skip => "SKIP"@,
        }
    }

    /// The upper-case display name.
    pub fn as_str(&self) -> (s: &'static str)
        ensures
            s@ == self.name(),
    {
        match self {
            CheckStatus::Pass => "PASS",
            CheckStatus::Warn => "WARN",
            CheckStatus::Fail => "FAIL",
            CheckStatus::Skip => "SKIP",
        }
    }
}

#[derive(Debug, Clone, Copy, PartialEq, Eq, Structural)]
pub enum Confidence {
    High,
    Medium,
    Low,
}

impl Confidence {
    pub open spec fn name(self) -> Seq<char> {
        match self {
            Confidence::High => "HIGH"@,
            Confidence::Medium => "MEDIUM"@,
            Confidence::Low => "LOW"@,
        }
    }

    /// The upper-case display name.
    pub fn as_str(&self) -> (s: &'static str)
        ensures
            s@ == self.name(),
    {
        match self {
            Confidence::High => "HIGH",
            Confidence::Medium => "MEDIUM",
            Confidence::Low => "LOW",
        }
    }
}

// ── Layers ────────────────────────────────────────────────────────────────

/// The eight diagnostic layers.
#[derive(Debug, Clone, Copy, PartialEq, Eq, Structural)]
pub enum Layer {
    L0,  // GPU / NVIDIA driver
    L1,  // D-Bus / portal session
    L2,  // Portal backend / ScreenCast interface
    L3,  // Wayland compositor protocols
    L4,  // PipeWire graph
    L5,  // Flatpak permissions
    L6,  // Environment variables
    L7,  // KWin plugins
}

impl Layer {
    pub open spec fn name(self) -> Seq<char> {
        match self {
            Layer::L0 => "L0"@,
            Layer::L1 => "L1"@,
            Layer::L2 => "L2"@,
            Layer::L3 => "L3"@,
            Layer::L4 => "L4"@,
            Layer::L5 => "L5"@,
            Layer::L6 => "L6"@,
            Layer::L7 => "L7"@,
        }
    }

    /// The layer's name, `L0` .. `L7`.
    pub fn as_str(&self) -> (s: &'static str)
        ensures
            s@ == self.name(),
    {
        match self {
            Layer::L0 => "L0",
            Layer::L1 => "L1",
            Layer::L2 => "L2",
            Layer::L3 => "L3",
            Layer::L4 => "L4",
            Layer::L5 => "L5",
            Layer::L6 => "L6",
            Layer::L7 => "L7",
        }
    }
}

// ── Session type ──────────────────────────────────────────────────────────

/// The graphical session the diagnostic runs in.
#[derive(Debug, Clone, Copy, PartialEq, Eq, Structural)]
pub enum SessionType {
    Wayland,
    X11,
    Unknown,
}

impl SessionType {
    pub open spec fn name(self) -> Seq<char> {
        match self {
            SessionType::Wayland => "WAYLAND"@,
            SessionType::X11 => "X11"@,
            SessionType::Unknown => "UNKNOWN"@,
        }
    }

    /// The upper-case name used in machine-readable output.
    pub fn as_str(&self) -> (s: &'static str)
        ensures
            s@ == self.name(),
    {
        match self {
            SessionType::Wayland => "WAYLAND",
            SessionType::X11 => "X11",
            SessionType::Unknown => "UNKNOWN",
        }
    }
}

// ── Check result ──────────────────────────────────────────────────────────

/// A single check result. `fix` is a complete, pasteable shell command, or
/// `None` where no automated fix exists.
#[derive(Debug, Clone)]
pub struct DiagnosticResult {
    pub layer: Layer,
    pub check: String,
    pub status: CheckStatus,
    pub detail: String,
    pub fix: Option<String>,
    pub confidence: Confidence,
}

/// The mathematical content of a `DiagnosticResult`.
pub struct ResultView {
    pub layer: Layer,
    pub check: Seq<char>,
    pub status: CheckStatus,
    pub detail: Seq<char>,
    pub fix: Option<Seq<char>>,
    pub confidence: Confidence,
}

pub open spec fn opt_view(o: Option<String>) -> Option<Seq<char>> {
    match o {
        Some(s) => Some(s@),
        None => None,
    }
}

impl View for DiagnosticResult {
    type V = ResultView;

    open spec fn view(&self) -> ResultView {
        ResultView {
            layer: self.layer,
            check: self.check@,
            status: self.status,
            detail: self.detail@,
            fix: opt_view(self.fix),
            confidence: self.confidence,
        }
    }
}

pub open spec fn rviews(v: Seq<DiagnosticResult>) -> Seq<ResultView> {
    v.map_values(|r: DiagnosticResult| r@)
}

pub open spec fn pass_r(layer: Layer, check: Seq<char>, detail: Seq<char>) -> ResultView {
    ResultView {
        layer,
        check,
        status: CheckStatus::Pass,
        detail,
        fix: None,
        confidence: Confidence::High,
    }
}

pub open spec fn fail_r(
    layer: Layer,
    check: Seq<char>,
    detail: Seq<char>,
    fix: Seq<char>,
    confidence: Confidence,
) -> ResultView {
    ResultView { layer, check, status: CheckStatus::Fail, detail, fix: Some(fix), confidence }
}

pub open spec fn warn_r(
    layer: Layer,
    check: Seq<char>,
    detail: Seq<char>,
    fix: Option<Seq<char>>,
    confidence: Confidence,
) -> ResultView {
    ResultView { layer, check, status: CheckStatus::Warn, detail, fix, confidence }
}

pub open spec fn skip_r(layer: Layer, check: Seq<char>, reason: Seq<char>) -> ResultView {
    ResultView {
        layer,
        check,
        status: CheckStatus::Skip,
        detail: reason,
        fix: None,
        confidence: Confidence::Low,
    }
}

impl DiagnosticResult {
    /// A passing check.
    pub fn pass(layer: Layer, check: &str, detail: &str) -> (r: Self)
        ensures
            r@ == pass_r(layer, check@, detail@),
    {
        DiagnosticResult {
            layer,
            check: check.to_owned(),
            status: CheckStatus::Pass,
            detail: detail.to_owned(),
            fix: None,
            confidence: Confidence::High,
        }
    }

    /// A failing check with its fix command.
    pub fn fail(layer: Layer, check: &str, detail: &str, fix: &str, confidence: Confidence) -> (r:
        Self)
        ensures
            r@ == fail_r(layer, check@, detail@, fix@, confidence),
    {
        DiagnosticResult {
            layer,
            check: check.to_owned(),
            status: CheckStatus::Fail,
            detail: detail.to_owned(),
            fix: Some(fix.to_owned()),
            confidence,
        }
    }

    /// A warning, with an optional fix command.
    pub fn warn(
        layer: Layer,
        check: &str,
        detail: &str,
        fix: Option<String>,
        confidence: Confidence,
    ) -> (r: Self)
        ensures
            r@ == warn_r(layer, check@, detail@, opt_view(fix), confidence),
    {
        DiagnosticResult {
            layer,
            check: check.to_owned(),
            status: CheckStatus::Warn,
            detail: detail.to_owned(),
            fix,
            confidence,
        }
    }

    /// A skipped check (a prerequisite is missing or the check does not apply).
    pub fn skip(layer: Layer, check: &str, reason: &str) -> (r: Self)
        ensures
            r@ == skip_r(layer, check@, reason@),
    {
        DiagnosticResult {
            layer,
            check: check.to_owned(),
            status: CheckStatus::Skip,
            detail: reason.to_owned(),
            fix: None,
            confidence: Confidence::Low,
        }
    }
}

/// A list holding one result.
pub fn one(r: DiagnosticResult) -> (v: Vec<DiagnosticResult>)
    ensures
        rviews(v@) == seq![r@],
{
    let mut v: Vec<DiagnosticResult> = Vec::new();
    v.push(r);
    assert(rviews(v@) =~= seq![r@]);
    v
}

/// Appends `more` to `out`.
pub fn extend(out: &mut Vec<DiagnosticResult>, more: Vec<DiagnosticResult>)
    ensures
        rviews(final(out)@) == rviews(old(out)@) + rviews(more@),
{
    let ghost m = more@;
    let mut more = more;
    out.append(&mut more);
    assert(rviews(out@) =~= rviews(old(out)@) + rviews(m));
}

/// Appends one result to `out`.
pub fn push_result(out: &mut Vec<DiagnosticResult>, r: DiagnosticResult)
    ensures
        rviews(final(out)@) == rviews(old(out)@).push(r@),
{
    out.push(r);
    assert(rviews(out@) =~= rviews(old(out)@).push(r@));
}

// ── Report types ──────────────────────────────────────────────────────────

#[derive(Debug, Clone)]
pub struct DiagnosticSummary {
    pub pass: usize,
    pub warn: usize,
    pub fail: usize,
}

#[derive(Debug, Clone)]
pub struct SystemInfo {
    pub generated_at: String,
    pub hostname: String,
    pub kernel: String,
    pub nvidia_driver: Option<String>,
    pub bazzite_image: Option<String>,
}

#[derive(Debug, Clone)]
pub struct DiagnosticReport {
    pub schema_version: String,
    pub system: SystemInfo,
    pub results: Vec<DiagnosticResult>,
    pub summary: DiagnosticSummary,
}

/// Outcome of the live portal screencast probe.
#[derive(Debug, Clone)]
pub struct CaptureTestResult {
    pub success: bool,
    pub node_id: Option<u32>,
    pub width: Option<u32>,
    pub height: Option<u32>,
    pub format: Option<String>,
    pub error: Option<String>,
}

pub struct CaptureView {
    pub success: bool,
    pub node_id: Option<u32>,
    pub width: Option<u32>,
    pub height: Option<u32>,
    pub format: Option<Seq<char>>,
    pub error: Option<Seq<char>>,
}

impl View for CaptureTestResult {
    type V = CaptureView;

    open spec fn view(&self) -> CaptureView {
        CaptureView {
            success: self.success,
            node_id: self.node_id,
            width: self.width,
            height: self.height,
            format: opt_view(self.format),
            error: opt_view(self.error),
        }
    }
}

// ── Counting results by status ────────────────────────────────────────────

pub open spec fn count_status(rs: Seq<ResultView>, s: CheckStatus) -> nat
    decreases rs.len(),
{
    if rs.len() == 0 {
        0
    } else {
        count_status(rs.drop_last(), s) + if rs.last().status == s {
            1nat
        } else {
            0nat
        }
    }
}

pub proof fn lemma_count_status_bound(rs: Seq<ResultView>, s: CheckStatus)
    ensures
        count_status(rs, s) <= rs.len(),
    decreases rs.len(),
{
    if rs.len() > 0 {
        lemma_count_status_bound(rs.drop_last(), s);
    }
}

/// The number of results with status `s`.
pub fn count_with_status(results: &Vec<DiagnosticResult>, s: CheckStatus) -> (n: usize)
    ensures
        n == count_status(rviews(results@), s),
{
    let mut n: usize = 0;
    let mut i: usize = 0;
    while i < results.len()
        invariant
            i <= results.len(),
            n == count_status(rviews(results@.take(i as int)), s),
            n <= i,
        decreases results.len() - i,
    {
        assert(rviews(results@.take(i as int + 1)).drop_last() =~= rviews(
            results@.take(i as int),
        ));
        if results[i].status == s {
            n = n + 1;
        }
        i = i + 1;
    }
    assert(results@.take(results.len() as int) =~= results@);
    n
}

/// The pass / warn / fail counts of a list of results.
pub fn summarize(results: &Vec<DiagnosticResult>) -> (s: DiagnosticSummary)
    ensures
        s.pass == count_status(rviews(results@), CheckStatus::Pass),
        s.warn == count_status(rviews(results@), CheckStatus::Warn),
        s.fail == count_status(rviews(results@), CheckStatus::Fail),
{
    DiagnosticSummary {
        pass: count_with_status(results, CheckStatus::Pass),
        warn: count_with_status(results, CheckStatus::Warn),
        fail: count_with_status(results, CheckStatus::Fail),
    }
}

} // verus!
