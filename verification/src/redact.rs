//! Bug-report redaction: the home path, the user name and the host name are
//! replaced by placeholders before a report is saved, so that it can be
//! shared publicly.

use vstd::prelude::*;

use crate::text::{
    chars_of, contains, find_from, lemma_find_from_bounds, lemma_match_found, matches_at,
    replace_all, replace_all_exec, starts_with, string_of,
};

verus! {

pub const HOME_PLACEHOLDER: &'static str = "<home>";

pub const USER_PLACEHOLDER: &'static str = "<user>";

pub const HOST_PLACEHOLDER: &'static str = "<hostname>";

/// The text with every occurrence of the home path, then of the user name,
/// then of the host name replaced by its placeholder. The home path goes
/// first because it usually contains the user name; an empty identity is
/// left alone.
pub open spec fn redact_spec(
    text: Seq<char>,
    hostname: Seq<char>,
    username: Seq<char>,
    home: Seq<char>,
) -> Seq<char> {
    replace_all(
        replace_all(replace_all(text, home, HOME_PLACEHOLDER@), username, USER_PLACEHOLDER@),
        hostname,
        HOST_PLACEHOLDER@,
    )
}

/// Replaces the home path, the user name and the host name in `text` by
/// `<home>`, `<user>` and `<hostname>`, in that order.
pub fn redact_text(text: &str, hostname: &str, username: &str, home: &str) -> (r: String)
    ensures
        r@ == redact_spec(text@, hostname@, username@, home@),
{
    let t = chars_of(text);
    let a = replace_all_exec(&t, &chars_of(home), &chars_of(HOME_PLACEHOLDER));
    let b = replace_all_exec(&a, &chars_of(username), &chars_of(USER_PLACEHOLDER));
    let c = replace_all_exec(&b, &chars_of(hostname), &chars_of(HOST_PLACEHOLDER));
    string_of(&c)
}

// ── Why redaction leaves no identity behind ──────────────────────────────

/// A placeholder is opened by `<` and closed by `>`.
pub open spec fn is_placeholder(r: Seq<char>) -> bool {
    r.len() >= 2 && r[0] == '<' && r[r.len() - 1] == '>'
}

/// An identity that redaction can remove: non-empty, without `<` or `>`.
pub open spec fn redactable(q: Seq<char>) -> bool {
    q.len() > 0 && forall|k: int| 0 <= k < q.len() ==> #[trigger] q[k] != '<' && q[k] != '>'
}

proof fn lemma_contains_shift(t: Seq<char>, q: Seq<char>, n: int)
    requires
        0 <= n <= t.len(),
        q.len() > 0,
        contains(t.skip(n), q),
    ensures
        contains(t, q),
{
    lemma_find_from_bounds(t.skip(n), q, 0);
    let j = find_from(t.skip(n), q, 0)->0 as int;
    assert(t.subrange(j + n, j + n + q.len()) =~= t.skip(n).subrange(j, j + q.len()));
    lemma_match_found(t, q, j + n, 0);
}

/// As long as the output shows no `<`, no replacement has started: the
/// output begins with the input's own characters.
proof fn lemma_kept_prefix(t: Seq<char>, p: Seq<char>, r: Seq<char>, m: int)
    requires
        is_placeholder(r),
        0 <= m <= replace_all(t, p, r).len(),
        forall|k: int| 0 <= k < m ==> #[trigger] replace_all(t, p, r)[k] != '<',
    ensures
        m <= t.len(),
        replace_all(t, p, r).take(m) == t.take(m),
    decreases t.len(),
{
    let out = replace_all(t, p, r);
    if p.len() == 0 || t.len() < p.len() {
    } else if starts_with(t, p) {
        if m > 0 {
            assert(out[0] == r[0]);
        }
        assert(out.take(m) =~= t.take(m));
    } else {
        let out1 = replace_all(t.drop_first(), p, r);
        assert(out == seq![t[0]] + out1);
        if m > 0 {
            assert forall|k: int| 0 <= k < m - 1 implies #[trigger] out1[k] != '<' by {
                assert(out[k + 1] == out1[k]);
            }
            lemma_kept_prefix(t.drop_first(), p, r, m - 1);
            assert forall|k: int| 0 <= k < m implies #[trigger] out.take(m)[k] == t.take(m)[k] by {
                if k > 0 {
                    assert(out1.take(m - 1)[k - 1] == t.drop_first().take(m - 1)[k - 1]);
                }
            }
        }
        assert(out.take(m) =~= t.take(m));
    }
}

/// An occurrence of a redactable `q` in the output of replacing `p` by a
/// placeholder `r` that does not contain `q` was already in the input, and
/// is not an occurrence of `p` itself.
proof fn lemma_no_new_occurrence(t: Seq<char>, p: Seq<char>, r: Seq<char>, q: Seq<char>, i: int)
    requires
        is_placeholder(r),
        redactable(q),
        !contains(r, q),
        matches_at(replace_all(t, p, r), q, i),
    ensures
        contains(t, q),
        p.len() > 0 ==> q != p,
    decreases t.len(),
{
    let out = replace_all(t, p, r);
    assert(forall|k: int| 0 <= k < q.len() ==> out[i + k] == #[trigger] q[k]) by {
        assert forall|k: int| 0 <= k < q.len() implies out[i + k] == #[trigger] q[k] by {
            assert(out.subrange(i, i + q.len())[k] == out[i + k]);
        }
    }
    if p.len() == 0 || t.len() < p.len() {
        lemma_match_found(t, q, i, 0);
    } else if starts_with(t, p) {
        let out1 = replace_all(t.skip(p.len() as int), p, r);
        assert(out == r + out1);
        if i >= r.len() {
            assert(out1.subrange(i - r.len(), i - r.len() + q.len()) =~= out.subrange(
                i,
                i + q.len(),
            ));
            lemma_no_new_occurrence(t.skip(p.len() as int), p, r, q, i - r.len());
            lemma_contains_shift(t, q, p.len() as int);
        } else if i == 0 {
            assert(q[0] == out[0]);
        } else if i + q.len() <= r.len() {
            assert(r.subrange(i, i + q.len()) =~= out.subrange(i, i + q.len()));
            lemma_match_found(r, q, i, 0);
        } else {
            let k = r.len() - 1 - i;
            assert(q[k] == out[i + k]);
            assert(out[r.len() - 1] == r[r.len() - 1]);
        }
    } else {
        let out1 = replace_all(t.drop_first(), p, r);
        assert(out == seq![t[0]] + out1);
        if i >= 1 {
            assert(out1.subrange(i - 1, i - 1 + q.len()) =~= out.subrange(i, i + q.len()));
            lemma_no_new_occurrence(t.drop_first(), p, r, q, i - 1);
            lemma_contains_shift(t, q, 1);
        } else {
            assert forall|k: int| 0 <= k < q.len() implies #[trigger] out[k] != '<' by {
                assert(out[i + k] == q[k]);
            }
            lemma_kept_prefix(t, p, r, q.len() as int);
            assert(t.take(q.len() as int) =~= q);
            assert(t.subrange(0, q.len() as int) =~= q);
            lemma_match_found(t, q, 0, 0);
        }
    }
}

proof fn lemma_absent_after(t: Seq<char>, p: Seq<char>, r: Seq<char>, q: Seq<char>)
    requires
        is_placeholder(r),
        redactable(q),
        !contains(r, q),
        contains(replace_all(t, p, r), q),
    ensures
        contains(t, q),
        p.len() > 0 ==> q != p,
{
    lemma_find_from_bounds(replace_all(t, p, r), q, 0);
    lemma_no_new_occurrence(t, p, r, q, find_from(replace_all(t, p, r), q, 0)->0 as int);
}

/// A redacted text holds neither the host name, nor the user name, nor the
/// home path, provided none of them holds `<` or `>` or is part of a
/// placeholder that replaces it or comes after it.
pub proof fn law_redaction_hides_identities(
    text: Seq<char>,
    hostname: Seq<char>,
    username: Seq<char>,
    home: Seq<char>,
)
    requires
        redactable(hostname),
        redactable(username),
        redactable(home),
        !contains(HOST_PLACEHOLDER@, hostname),
        !contains(USER_PLACEHOLDER@, username),
        !contains(HOST_PLACEHOLDER@, username),
        !contains(HOME_PLACEHOLDER@, home),
        !contains(USER_PLACEHOLDER@, home),
        !contains(HOST_PLACEHOLDER@, home),
    ensures
        !contains(redact_spec(text, hostname, username, home), hostname),
        !contains(redact_spec(text, hostname, username, home), username),
        !contains(redact_spec(text, hostname, username, home), home),
{
    reveal_strlit("<home>");
    reveal_strlit("<user>");
    reveal_strlit("<hostname>");
    let a = replace_all(text, home, HOME_PLACEHOLDER@);
    let b = replace_all(a, username, USER_PLACEHOLDER@);
    let c = replace_all(b, hostname, HOST_PLACEHOLDER@);
    assert(is_placeholder(HOME_PLACEHOLDER@));
    assert(is_placeholder(USER_PLACEHOLDER@));
    assert(is_placeholder(HOST_PLACEHOLDER@));
    if contains(c, hostname) {
        lemma_absent_after(b, hostname, HOST_PLACEHOLDER@, hostname);
    }
    if contains(c, username) {
        lemma_absent_after(b, hostname, HOST_PLACEHOLDER@, username);
        lemma_absent_after(a, username, USER_PLACEHOLDER@, username);
    }
    if contains(c, home) {
        lemma_absent_after(b, hostname, HOST_PLACEHOLDER@, home);
        lemma_absent_after(a, username, USER_PLACEHOLDER@, home);
        lemma_absent_after(text, home, HOME_PLACEHOLDER@, home);
    }
}

} // verus!
