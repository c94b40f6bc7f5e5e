//! Flatpak checks (layer L5): the permission store and stale "deny" entries
//! in its screencast table, which silently reject screen-share requests.

use vstd::prelude::*;

use crate::text::{
    chars_of, contains, contains_exec, home_or_root, join_path, join_path_exec, lines,
    lowercase, push_chars, push_str, split_lines, split_words, string_of, to_lowercase, trim,
    trim_chars, views, words,
};
use crate::types::{
    extend, one, opt_view, pass_r, rviews, skip_r, warn_r, Confidence, DiagnosticResult, Layer,
    ResultView,
};

verus! {

pub const PERMISSION_STORE: &'static str = "flatpak_permission_store";

pub const SCREENCAST_DENIES: &'static str = "flatpak_screencast_denies";

pub const STORE_REL: &'static str = ".local/share/xdg-permission-store";

pub const NO_STORE: &'static str = "No Flatpak permission store found — no stale denies possible";

pub const STORE_FOUND: &'static str = "Permission store found at ";

pub const FLATPAK_MISSING: &'static str = "flatpak not installed — permission store check skipped";

pub const CLEAN_STATE: &'static str = "No Flatpak screencast permissions in store (clean state)";

pub const NO_STALE: &'static str = "No stale deny entries in Flatpak screencast permission store";

pub const STALE_HEAD: &'static str = "Stale screencast deny entries found for: ";

pub const STALE_TAIL: &'static str =
    ". \
     These will silently reject screen share requests.";

pub const RESET_FIX: &'static str = "flatpak permission-reset screencast";

// ── Permission store ──────────────────────────────────────────────────────

pub open spec fn store_path_spec(home: Option<Seq<char>>) -> Seq<char> {
    join_path(home_or_root(home), STORE_REL@)
}

/// `$HOME/.local/share/xdg-permission-store` (`/root` for an unset HOME).
pub fn permission_store_path(home: Option<String>) -> (p: String)
    ensures
        p@ == store_path_spec(opt_view(home)),
{
    match home {
        Some(h) => join_path_exec(h.as_str(), STORE_REL),
        None => join_path_exec("/root", STORE_REL),
    }
}

pub open spec fn store_spec(exists: bool, path: Seq<char>) -> ResultView {
    if exists {
        pass_r(Layer::L5, PERMISSION_STORE@, STORE_FOUND@ + path)
    } else {
        pass_r(Layer::L5, PERMISSION_STORE@, NO_STORE@)
    }
}

/// Either way the store itself is no fault; the result says whether it exists.
pub fn check_permission_store(exists: bool, path: &str) -> (r: DiagnosticResult)
    ensures
        r@ == store_spec(exists, path@),
{
    if !exists {
        return DiagnosticResult::pass(Layer::L5, PERMISSION_STORE, NO_STORE);
    }
    let mut d = chars_of(STORE_FOUND);
    push_str(&mut d, path);
    let ds = string_of(&d);
    DiagnosticResult::pass(Layer::L5, PERMISSION_STORE, ds.as_str())
}

// ── Screencast denies ─────────────────────────────────────────────────────

/// The output of `flatpak permission-show screencast`, decoded lossily.
pub struct FlatpakOutput {
    pub success: bool,
    pub stdout: String,
    pub stderr: String,
}

/// A line of the listing that records a refusal: "no" or "deny" in it,
/// case-insensitively.
pub open spec fn is_deny_line(l: Seq<char>) -> bool {
    contains(lowercase(l), "no"@) || contains(lowercase(l), "deny"@)
}

/// The application of each deny line (its first word), in order.
pub open spec fn denied_apps(ls: Seq<Seq<char>>) -> Seq<Seq<char>>
    decreases ls.len(),
{
    if ls.len() == 0 {
        seq![]
    } else {
        denied_apps(ls.drop_last()) + if is_deny_line(ls.last()) && words(ls.last()).len() > 0 {
            seq![words(ls.last())[0]]
        } else {
            seq![]
        }
    }
}

pub open spec fn any_deny(ls: Seq<Seq<char>>) -> bool
    decreases ls.len(),
{
    if ls.len() == 0 {
        false
    } else {
        any_deny(ls.drop_last()) || is_deny_line(ls.last())
    }
}

/// `parts.join(", ")`.
pub open spec fn join_comma(parts: Seq<Seq<char>>) -> Seq<char>
    decreases parts.len(),
{
    if parts.len() == 0 {
        Seq::<char>::empty()
    } else if parts.len() == 1 {
        parts[0]
    } else {
        join_comma(parts.drop_last()) + ", "@ + parts.last()
    }
}

pub open spec fn denies_spec(out: Option<(bool, Seq<char>, Seq<char>)>) -> Seq<ResultView> {
    match out {
        None => seq![skip_r(Layer::L5, SCREENCAST_DENIES@, FLATPAK_MISSING@)],
        Some((success, stdout, stderr)) => if !success || trim(stdout).len() == 0 || contains(
            stderr,
            "No permissions"@,
        ) {
            seq![pass_r(Layer::L5, SCREENCAST_DENIES@, CLEAN_STATE@)]
        } else if !any_deny(lines(stdout)) {
            seq![pass_r(Layer::L5, SCREENCAST_DENIES@, NO_STALE@)]
        } else {
            let apps = denied_apps(lines(stdout));
            seq![
                warn_r(
                    Layer::L5,
                    SCREENCAST_DENIES@,
                    STALE_HEAD@ + join_comma(apps) + STALE_TAIL@,
                    Some(
                        RESET_FIX@ + if apps.len() == 0 {
                            Seq::<char>::empty()
                        } else {
                            " "@ + apps[0]
                        },
                    ),
                    Confidence::High,
                ),
            ]
        }
    }
}

pub open spec fn output_view(o: Option<FlatpakOutput>) -> Option<(bool, Seq<char>, Seq<char>)> {
    match o {
        Some(f) => Some((f.success, f.stdout@, f.stderr@)),
        None => None,
    }
}

fn scan_denies(ls: &Vec<Vec<char>>) -> (r: (bool, Vec<Vec<char>>))
    ensures
        r.0 == any_deny(views(ls@)),
        views(r.1@) == denied_apps(views(ls@)),
{
    let no = chars_of("no");
    let deny = chars_of("deny");
    let mut any = false;
    let mut apps: Vec<Vec<char>> = Vec::new();
    let mut i: usize = 0;
    while i < ls.len()
        invariant
            i <= ls.len(),
            no@ == "no"@,
            deny@ == "deny"@,
            any == any_deny(views(ls@).take(i as int)),
            views(apps@) == denied_apps(views(ls@).take(i as int)),
        decreases ls.len() - i,
    {
        let ghost pre = views(ls@).take(i as int + 1);
        assert(pre.drop_last() =~= views(ls@).take(i as int));
        assert(pre.last() == ls@[i as int]@);
        let lower = to_lowercase(&ls[i]);
        let ghost before = views(apps@);
        if contains_exec(&lower, &no) || contains_exec(&lower, &deny) {
            any = true;
            let mut ws = split_words(&ls[i]);
            if ws.len() > 0 {
                assert(views(ws@)[0] == ws@[0]@);
                let first = ws.swap_remove(0);
                apps.push(first);
                assert(views(apps@) =~= before + seq![words(ls@[i as int]@)[0]]);
            } else {
                assert(views(apps@) =~= before + Seq::<Seq<char>>::empty());
            }
        } else {
            assert(views(apps@) =~= before + Seq::<Seq<char>>::empty());
        }
        i = i + 1;
    }
    assert(views(ls@).take(ls.len() as int) =~= views(ls@));
    (any, apps)
}

fn join_comma_exec(parts: &Vec<Vec<char>>) -> (r: Vec<char>)
    ensures
        r@ == join_comma(views(parts@)),
{
    let mut out: Vec<char> = Vec::new();
    let mut i: usize = 0;
    assert(out@ =~= join_comma(views(parts@).take(0)));
    while i < parts.len()
        invariant
            i <= parts.len(),
            out@ == join_comma(views(parts@).take(i as int)),
        decreases parts.len() - i,
    {
        let ghost pre = views(parts@).take(i as int + 1);
        assert(pre.drop_last() =~= views(parts@).take(i as int));
        assert(pre.last() == parts@[i as int]@);
        if i > 0 {
            push_str(&mut out, ", ");
        } else {
            assert(pre.len() == 1);
            assert(out@ =~= Seq::<char>::empty());
        }
        push_chars(&mut out, &parts[i]);
        i = i + 1;
    }
    assert(views(parts@).take(parts.len() as int) =~= views(parts@));
    out
}

/// `out`: the listing command's result, `None` when flatpak is not installed.
/// A failed or empty listing, or one saying "No permissions", is clean.
pub fn check_screencast_denies(out: Option<FlatpakOutput>) -> (r: Vec<DiagnosticResult>)
    ensures
        rviews(r@) == denies_spec(output_view(out)),
{
    let o = match out {
        None => {
            return one(DiagnosticResult::skip(Layer::L5, SCREENCAST_DENIES, FLATPAK_MISSING));
        },
        Some(o) => o,
    };
    let stdout = chars_of(o.stdout.as_str());
    let stderr = chars_of(o.stderr.as_str());
    let no_perms = chars_of("No permissions");
    if !o.success || trim_chars(&stdout).len() == 0 || contains_exec(&stderr, &no_perms) {
        return one(DiagnosticResult::pass(Layer::L5, SCREENCAST_DENIES, CLEAN_STATE));
    }
    let ls = split_lines(&stdout);
    let (any, apps) = scan_denies(&ls);
    if !any {
        return one(DiagnosticResult::pass(Layer::L5, SCREENCAST_DENIES, NO_STALE));
    }
    let mut d = chars_of(STALE_HEAD);
    push_chars(&mut d, &join_comma_exec(&apps));
    push_str(&mut d, STALE_TAIL);
    let ds = string_of(&d);
    let mut f = chars_of(RESET_FIX);
    if apps.len() > 0 {
        push_str(&mut f, " ");
        push_chars(&mut f, &apps[0]);
        assert(views(apps@)[0] == apps@[0]@);
        assert(f@ =~= RESET_FIX@ + (" "@ + views(apps@)[0]));
    } else {
        assert(f@ =~= RESET_FIX@ + Seq::<char>::empty());
    }
    let fs = string_of(&f);
    one(DiagnosticResult::warn(Layer::L5, SCREENCAST_DENIES, ds.as_str(), Some(fs), Confidence::High))
}

// ── The whole layer ───────────────────────────────────────────────────────

/// All L5 results: the permission store, then the screencast denies.
pub fn check_flatpak_permissions(
    store_exists: bool,
    store_path: &str,
    listing: Option<FlatpakOutput>,
) -> (r: Vec<DiagnosticResult>)
    ensures
        rviews(r@) == seq![store_spec(store_exists, store_path@)] + denies_spec(output_view(listing)),
{
    let mut out = one(check_permission_store(store_exists, store_path));
    extend(&mut out, check_screencast_denies(listing));
    out
}

} // verus!
