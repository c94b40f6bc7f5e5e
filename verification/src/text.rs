//! Character-level text handling shared by every probe parser.
//!
//! Text is modelled as `Seq<char>` (the view of `str`, `String` and
//! `Vec<char>`). The spec functions here state, in a few lines each, what the
//! std string operations used by the parsers compute: line splitting,
//! whitespace trimming and splitting, substring search, decimal rendering.
//! Unicode case mapping is the one operation whose full statement would take
//! pages; it is named (`lowercase`, `uppercase`) and only its ASCII behaviour
//! is stated.

use vstd::prelude::*;

verus! {

// ── Whitespace (char::is_whitespace) ──────────────────────────────────────

/// The Unicode `White_Space` property, as `char::is_whitespace` documents it.
pub open spec fn is_ws(c: char) -> bool {
    let u = c as u32;
    ||| 9 <= u <= 13
    ||| u == 32
    ||| u == 0x85
    ||| u == 0xA0
    ||| u == 0x1680
    ||| 0x2000 <= u <= 0x200A
    ||| u == 0x2028
    ||| u == 0x2029
    ||| u == 0x202F
    ||| u == 0x205F
    ||| u == 0x3000
}

pub fn is_whitespace(c: char) -> (b: bool)
    ensures
        b == is_ws(c),
{
    let u = c as u32;
    (9 <= u && u <= 13) || u == 32 || u == 0x85 || u == 0xA0 || u == 0x1680 || (0x2000 <= u && u
        <= 0x200A) || u == 0x2028 || u == 0x2029 || u == 0x202F || u == 0x205F || u == 0x3000
}

pub open spec fn is_digit(c: char) -> bool {
    '0' <= c && c <= '9'
}

pub fn is_ascii_digit(c: char) -> (b: bool)
    ensures
        b == is_digit(c),
{
    '0' <= c && c <= '9'
}

// ── Trimming (str::trim, trim_start, trim_end) ────────────────────────────

pub open spec fn trim_start(s: Seq<char>) -> Seq<char>
    decreases s.len(),
{
    if s.len() > 0 && is_ws(s[0]) {
        trim_start(s.drop_first())
    } else {
        s
    }
}

pub open spec fn trim_end(s: Seq<char>) -> Seq<char>
    decreases s.len(),
{
    if s.len() > 0 && is_ws(s.last()) {
        trim_end(s.drop_last())
    } else {
        s
    }
}

pub open spec fn trim(s: Seq<char>) -> Seq<char> {
    trim_end(trim_start(s))
}

/// Copies `v[from..to]`.
pub fn copy_range(v: &Vec<char>, from: usize, to: usize) -> (r: Vec<char>)
    requires
        from <= to <= v.len(),
    ensures
        r@ == v@.subrange(from as int, to as int),
{
    let mut r: Vec<char> = Vec::new();
    let mut i = from;
    while i < to
        invariant
            from <= i <= to <= v.len(),
            r@ == v@.subrange(from as int, i as int),
        decreases to - i,
    {
        r.push(v[i]);
        i = i + 1;
        assert(r@ =~= v@.subrange(from as int, i as int));
    }
    r
}

pub fn trim_start_chars(v: &Vec<char>) -> (r: Vec<char>)
    ensures
        r@ == trim_start(v@),
{
    let mut i: usize = 0;
    assert(v@.skip(0) =~= v@);
    while i < v.len() && is_whitespace(v[i])
        invariant
            i <= v.len(),
            trim_start(v@) == trim_start(v@.skip(i as int)),
        decreases v.len() - i,
    {
        assert(v@.skip(i as int).drop_first() =~= v@.skip(i as int + 1));
        i = i + 1;
    }
    assert(v@.subrange(i as int, v@.len() as int) =~= v@.skip(i as int));
    copy_range(v, i, v.len())
}

pub fn trim_end_chars(v: &Vec<char>) -> (r: Vec<char>)
    ensures
        r@ == trim_end(v@),
{
    let mut j: usize = v.len();
    assert(v@.take(v.len() as int) =~= v@);
    while j > 0 && is_whitespace(v[j - 1])
        invariant
            j <= v.len(),
            trim_end(v@) == trim_end(v@.take(j as int)),
        decreases j,
    {
        assert(v@.take(j as int).drop_last() =~= v@.take(j as int - 1));
        j = j - 1;
    }
    assert(v@.subrange(0, j as int) =~= v@.take(j as int));
    copy_range(v, 0, j)
}

pub fn trim_chars(v: &Vec<char>) -> (r: Vec<char>)
    ensures
        r@ == trim(v@),
{
    let s = trim_start_chars(v);
    trim_end_chars(&s)
}

// ── Substring search (str::find, contains, starts_with, ends_with) ────────

pub open spec fn matches_at(h: Seq<char>, n: Seq<char>, i: int) -> bool {
    0 <= i && i + n.len() <= h.len() && h.subrange(i, i + n.len()) == n
}

/// The first position at or after `i` where `n` occurs in `h`.
pub open spec fn find_from(h: Seq<char>, n: Seq<char>, i: nat) -> Option<nat>
    decreases h.len() - i,
{
    if i + n.len() > h.len() {
        None
    } else if n.len() == 0 || matches_at(h, n, i as int) {
        Some(i)
    } else {
        find_from(h, n, i + 1)
    }
}

pub open spec fn find(h: Seq<char>, n: Seq<char>) -> Option<nat> {
    find_from(h, n, 0)
}

pub open spec fn contains(h: Seq<char>, n: Seq<char>) -> bool {
    find(h, n) is Some
}

pub open spec fn starts_with(h: Seq<char>, n: Seq<char>) -> bool {
    n.len() <= h.len() && h.take(n.len() as int) == n
}

pub open spec fn ends_with(h: Seq<char>, n: Seq<char>) -> bool {
    n.len() <= h.len() && h.skip(h.len() - n.len()) == n
}

pub proof fn lemma_find_from_bounds(h: Seq<char>, n: Seq<char>, i: nat)
    ensures
        find_from(h, n, i) is Some ==> i <= find_from(h, n, i)->0 && find_from(h, n, i)->0
            + n.len() <= h.len() && matches_at(h, n, find_from(h, n, i)->0 as int),
    decreases h.len() - i,
{
    if i + n.len() > h.len() {
    } else if n.len() == 0 || matches_at(h, n, i as int) {
        if n.len() == 0 {
            assert(h.subrange(i as int, i as int) =~= n);
        }
    } else {
        lemma_find_from_bounds(h, n, i + 1);
    }
}

/// An occurrence of `n` at `i` is found by a search that starts at or
/// before `i`.
pub proof fn lemma_match_found(h: Seq<char>, n: Seq<char>, i: int, j: nat)
    requires
        n.len() > 0,
        matches_at(h, n, i),
        j <= i,
    ensures
        find_from(h, n, j) is Some,
    decreases i - j,
{
    if !matches_at(h, n, j as int) {
        lemma_match_found(h, n, i, j + 1);
    }
}

/// A text without `n`'s first character does not contain `n`.
pub proof fn lemma_first_char_absent(h: Seq<char>, n: Seq<char>)
    requires
        n.len() > 0,
        forall|k: int| 0 <= k < h.len() ==> h[k] != n[0],
    ensures
        !contains(h, n),
{
    lemma_find_from_bounds(h, n, 0);
    if contains(h, n) {
        let p = find_from(h, n, 0)->0 as int;
        assert(h.subrange(p, p + n.len())[0] == h[p]);
    }
}

/// An occurrence in `b` is an occurrence in `a + b`.
pub proof fn lemma_contains_suffix(a: Seq<char>, b: Seq<char>, n: Seq<char>)
    requires
        n.len() > 0,
        contains(b, n),
    ensures
        contains(a + b, n),
{
    lemma_find_from_bounds(b, n, 0);
    let p = find_from(b, n, 0)->0 as int;
    assert((a + b).subrange(a.len() + p, a.len() + p + n.len()) =~= b.subrange(p, p + n.len()));
    lemma_match_found(a + b, n, a.len() + p, 0);
}

/// An occurrence in `a` is an occurrence in `a + b`.
pub proof fn lemma_contains_prefix(a: Seq<char>, b: Seq<char>, n: Seq<char>)
    requires
        n.len() > 0,
        contains(a, n),
    ensures
        contains(a + b, n),
{
    lemma_find_from_bounds(a, n, 0);
    let p = find_from(a, n, 0)->0 as int;
    assert((a + b).subrange(p, p + n.len()) =~= a.subrange(p, p + n.len()));
    lemma_match_found(a + b, n, p, 0);
}

/// `n` occurs in `a + n + b`.
pub proof fn lemma_contains_middle(a: Seq<char>, n: Seq<char>, b: Seq<char>)
    requires
        n.len() > 0,
    ensures
        contains(a + n + b, n),
{
    assert((a + n + b).subrange(a.len() as int, (a.len() + n.len()) as int) =~= n);
    lemma_match_found(a + n + b, n, a.len() as int, 0);
}

/// Whether `n` occurs in `h` at position `i`.
pub fn matches_at_exec(h: &Vec<char>, n: &Vec<char>, i: usize) -> (b: bool)
    requires
        i + n.len() <= h.len(),
    ensures
        b == matches_at(h@, n@, i as int),
{
    let mut k: usize = 0;
    while k < n.len()
        invariant
            i + n.len() <= h.len(),
            k <= n.len(),
            h@.subrange(i as int, i + k) =~= n@.take(k as int),
        decreases n.len() - k,
    {
        if h[i + k] != n[k] {
            assert(h@.subrange(i as int, i + n.len())[k as int] != n@[k as int]);
            return false;
        }
        k = k + 1;
        assert(h@.subrange(i as int, i + k) =~= n@.take(k as int));
    }
    assert(n@.take(n.len() as int) =~= n@);
    true
}

pub fn find_from_exec(h: &Vec<char>, n: &Vec<char>, from: usize) -> (r: Option<usize>)
    ensures
        match r {
            Some(p) => find_from(h@, n@, from as nat) == Some(p as nat) && from <= p && p + n.len()
                <= h.len() && matches_at(h@, n@, p as int),
            None => find_from(h@, n@, from as nat) is None,
        },
{
    let mut i = from;
    loop
        invariant
            from <= i,
            find_from(h@, n@, from as nat) == find_from(h@, n@, i as nat),
        decreases h.len() - i,
    {
        if n.len() > h.len() || i > h.len() - n.len() {
            return None;
        }
        if n.len() == 0 || matches_at_exec(h, n, i) {
            proof {
                lemma_find_from_bounds(h@, n@, from as nat);
            }
            return Some(i);
        }
        i = i + 1;
    }
}

pub fn contains_exec(h: &Vec<char>, n: &Vec<char>) -> (b: bool)
    ensures
        b == contains(h@, n@),
{
    find_from_exec(h, n, 0).is_some()
}

pub fn starts_with_exec(h: &Vec<char>, n: &Vec<char>) -> (b: bool)
    ensures
        b == starts_with(h@, n@),
{
    if n.len() > h.len() {
        return false;
    }
    let b = matches_at_exec(h, n, 0);
    assert(h@.subrange(0, n.len() as int) =~= h@.take(n.len() as int));
    b
}

pub fn ends_with_exec(h: &Vec<char>, n: &Vec<char>) -> (b: bool)
    ensures
        b == ends_with(h@, n@),
{
    if n.len() > h.len() {
        return false;
    }
    let start = h.len() - n.len();
    let b = matches_at_exec(h, n, start);
    assert(h@.subrange(start as int, start + n.len()) =~= h@.skip(start as int));
    b
}

/// Character-wise equality of two strings.
pub fn str_eq(a: &str, b: &str) -> (r: bool)
    ensures
        r == (a@ == b@),
{
    let x = chars_of(a);
    let y = chars_of(b);
    if x.len() != y.len() {
        return false;
    }
    let r = matches_at_exec(&x, &y, 0);
    assert(x@.subrange(0, y.len() as int) =~= x@);
    r
}

/// Whether `c` occurs in `s`.
pub open spec fn has_char(s: Seq<char>, c: char) -> bool {
    contains(s, seq![c])
}

pub fn has_char_exec(s: &Vec<char>, c: char) -> (b: bool)
    ensures
        b == has_char(s@, c),
{
    let mut n: Vec<char> = Vec::new();
    n.push(c);
    assert(n@ =~= seq![c]);
    contains_exec(s, &n)
}

// ── Prefix / suffix stripping and replacement ───────────────────────────

/// `trim_start_matches(p)`: every leading copy of `p` removed.
pub open spec fn strip_prefix_all(s: Seq<char>, p: Seq<char>) -> Seq<char>
    decreases s.len(),
{
    if p.len() > 0 && starts_with(s, p) {
        strip_prefix_all(s.skip(p.len() as int), p)
    } else {
        s
    }
}

/// `trim_start_matches(c)` for one character.
pub open spec fn strip_leading(s: Seq<char>, c: char) -> Seq<char>
    decreases s.len(),
{
    if s.len() > 0 && s[0] == c {
        strip_leading(s.drop_first(), c)
    } else {
        s
    }
}

/// `trim_end_matches(c)` for one character.
pub open spec fn strip_trailing(s: Seq<char>, c: char) -> Seq<char>
    decreases s.len(),
{
    if s.len() > 0 && s.last() == c {
        strip_trailing(s.drop_last(), c)
    } else {
        s
    }
}

/// `str::replace`: non-overlapping occurrences of `p`, left to right.
pub open spec fn replace_all(s: Seq<char>, p: Seq<char>, r: Seq<char>) -> Seq<char>
    decreases s.len(),
{
    if p.len() == 0 || s.len() < p.len() {
        s
    } else if starts_with(s, p) {
        r + replace_all(s.skip(p.len() as int), p, r)
    } else {
        seq![s[0]] + replace_all(s.drop_first(), p, r)
    }
}

pub fn strip_prefix_all_exec(s: &Vec<char>, p: &Vec<char>) -> (r: Vec<char>)
    ensures
        r@ == strip_prefix_all(s@, p@),
{
    let mut i: usize = 0;
    assert(s@.skip(0) =~= s@);
    while p.len() > 0 && i <= s.len() && s.len() - i >= p.len() && matches_at_exec(s, p, i)
        invariant
            i <= s.len(),
            strip_prefix_all(s@, p@) == strip_prefix_all(s@.skip(i as int), p@),
        decreases s.len() - i,
    {
        assert(s@.skip(i as int).take(p.len() as int) =~= s@.subrange(i as int, i + p.len()));
        assert(s@.skip(i as int).skip(p.len() as int) =~= s@.skip(i + p.len()));
        i = i + p.len();
    }
    proof {
        if p.len() > 0 && s.len() - i >= p.len() {
            assert(s@.skip(i as int).take(p.len() as int) =~= s@.subrange(i as int, i + p.len()));
        }
    }
    let r = copy_range(s, i, s.len());
    assert(r@ =~= s@.skip(i as int));
    r
}

pub fn strip_leading_exec(s: &Vec<char>, c: char) -> (r: Vec<char>)
    ensures
        r@ == strip_leading(s@, c),
{
    let mut i: usize = 0;
    assert(s@.skip(0) =~= s@);
    while i < s.len() && s[i] == c
        invariant
            i <= s.len(),
            strip_leading(s@, c) == strip_leading(s@.skip(i as int), c),
        decreases s.len() - i,
    {
        assert(s@.skip(i as int).drop_first() =~= s@.skip(i as int + 1));
        i = i + 1;
    }
    let r = copy_range(s, i, s.len());
    assert(r@ =~= s@.skip(i as int));
    r
}

pub fn strip_trailing_exec(s: &Vec<char>, c: char) -> (r: Vec<char>)
    ensures
        r@ == strip_trailing(s@, c),
{
    let mut j: usize = s.len();
    assert(s@.take(s.len() as int) =~= s@);
    while j > 0 && s[j - 1] == c
        invariant
            j <= s.len(),
            strip_trailing(s@, c) == strip_trailing(s@.take(j as int), c),
        decreases j,
    {
        assert(s@.take(j as int).drop_last() =~= s@.take(j as int - 1));
        j = j - 1;
    }
    let r = copy_range(s, 0, j);
    assert(r@ =~= s@.take(j as int));
    r
}

pub fn replace_all_exec(s: &Vec<char>, p: &Vec<char>, r: &Vec<char>) -> (out: Vec<char>)
    ensures
        out@ == replace_all(s@, p@, r@),
{
    let mut out: Vec<char> = Vec::new();
    let mut i: usize = 0;
    assert(s@.skip(0) =~= s@);
    while i < s.len()
        invariant
            i <= s.len(),
            replace_all(s@, p@, r@) == out@ + replace_all(s@.skip(i as int), p@, r@),
        decreases s.len() - i,
    {
        let ghost rest = s@.skip(i as int);
        if p.len() == 0 || s.len() - i < p.len() {
            assert(replace_all(rest, p@, r@) == rest);
            let tail = copy_range(s, i, s.len());
            assert(tail@ =~= rest);
            push_chars(&mut out, &tail);
            return out;
        }
        if matches_at_exec(s, p, i) {
            assert(rest.take(p.len() as int) =~= s@.subrange(i as int, i + p.len()));
            assert(rest.skip(p.len() as int) =~= s@.skip(i + p.len()));
            let ghost before = out@;
            push_chars(&mut out, r);
            assert(before + replace_all(rest, p@, r@) =~= out@ + replace_all(
                s@.skip(i + p.len()),
                p@,
                r@,
            ));
            i = i + p.len();
        } else {
            assert(rest.take(p.len() as int) =~= s@.subrange(i as int, i + p.len()));
            assert(rest.drop_first() =~= s@.skip(i as int + 1));
            let ghost before = out@;
            out.push(s[i]);
            assert(before + replace_all(rest, p@, r@) =~= out@ + replace_all(
                s@.skip(i as int + 1),
                p@,
                r@,
            ));
            i = i + 1;
        }
    }
    assert(s@.skip(i as int) =~= Seq::<char>::empty());
    assert(out@ + replace_all(s@.skip(i as int), p@, r@) =~= out@);
    out
}

// ── Paths (Path::join with a relative path) ──────────────────────────────

/// `Path::new(base).join(rel)` for a relative `rel`: a separator is added
/// unless `base` is empty or already ends with one.
pub open spec fn join_path(base: Seq<char>, rel: Seq<char>) -> Seq<char> {
    if base.len() == 0 {
        rel
    } else if base.last() == '/' {
        base + rel
    } else {
        base + seq!['/'] + rel
    }
}

pub fn join_path_exec(base: &str, rel: &str) -> (p: String)
    ensures
        p@ == join_path(base@, rel@),
{
    let mut b = chars_of(base);
    if b.len() > 0 && b[b.len() - 1] != '/' {
        b.push('/');
    }
    push_str(&mut b, rel);
    string_of(&b)
}

/// `$HOME`, or `/root` when unset.
pub open spec fn home_or_root(home: Option<Seq<char>>) -> Seq<char> {
    match home {
        Some(h) => h,
        None => "/root"@,
    }
}

// ── Line splitting (str::lines) ───────────────────────────────────────────

pub open spec fn strip_cr(l: Seq<char>) -> Seq<char> {
    if l.len() > 0 && l.last() == '\r' {
        l.drop_last()
    } else {
        l
    }
}

/// Lines of `s` given the partial line `cur` read so far: a line ends at
/// `\n` (with one `\r` before it dropped); a final line without `\n` is kept
/// as it is, and an empty final segment is no line.
pub open spec fn lines_acc(s: Seq<char>, cur: Seq<char>) -> Seq<Seq<char>>
    decreases s.len(),
{
    if s.len() == 0 {
        if cur.len() == 0 {
            seq![]
        } else {
            seq![cur]
        }
    } else if s[0] == '\n' {
        seq![strip_cr(cur)] + lines_acc(s.drop_first(), seq![])
    } else {
        lines_acc(s.drop_first(), cur.push(s[0]))
    }
}

pub open spec fn lines(s: Seq<char>) -> Seq<Seq<char>> {
    lines_acc(s, seq![])
}

pub open spec fn views(v: Seq<Vec<char>>) -> Seq<Seq<char>> {
    v.map_values(|x: Vec<char>| x@)
}

pub fn strip_cr_exec(l: Vec<char>) -> (r: Vec<char>)
    ensures
        r@ == strip_cr(l@),
{
    let mut l = l;
    if l.len() > 0 && l[l.len() - 1] == '\r' {
        l.pop();
    }
    l
}

pub fn split_lines(s: &Vec<char>) -> (r: Vec<Vec<char>>)
    ensures
        views(r@) == lines(s@),
{
    let mut out: Vec<Vec<char>> = Vec::new();
    let mut cur: Vec<char> = Vec::new();
    let mut i: usize = 0;
    assert(s@.skip(0) =~= s@);
    assert(views(out@) + lines_acc(s@, cur@) =~= lines_acc(s@, seq![]));
    while i < s.len()
        invariant
            i <= s.len(),
            lines(s@) == views(out@) + lines_acc(s@.skip(i as int), cur@),
        decreases s.len() - i,
    {
        let ghost rest = s@.skip(i as int);
        assert(rest.drop_first() =~= s@.skip(i as int + 1));
        if s[i] == '\n' {
            let line = strip_cr_exec(cur);
            let ghost lv = line@;
            out.push(line);
            cur = Vec::new();
            assert(views(out@) =~= views(out@.drop_last()) + seq![lv]);
            assert(views(out@.drop_last()) + (seq![lv] + lines_acc(s@.skip(i as int + 1), seq![]))
                =~= views(out@) + lines_acc(s@.skip(i as int + 1), cur@));
        } else {
            cur.push(s[i]);
        }
        i = i + 1;
    }
    assert(s@.skip(i as int) =~= Seq::<char>::empty());
    if cur.len() > 0 {
        let ghost cv = cur@;
        out.push(cur);
        assert(views(out@) =~= views(out@.drop_last()) + seq![cv]);
    } else {
        assert(views(out@) + lines_acc(s@.skip(i as int), cur@) =~= views(out@));
    }
    out
}

// ── Whitespace splitting (str::split_whitespace) ──────────────────────────

pub open spec fn flush(cur: Seq<char>) -> Seq<Seq<char>> {
    if cur.len() == 0 {
        seq![]
    } else {
        seq![cur]
    }
}

pub open spec fn words_acc(s: Seq<char>, cur: Seq<char>) -> Seq<Seq<char>>
    decreases s.len(),
{
    if s.len() == 0 {
        flush(cur)
    } else if is_ws(s[0]) {
        flush(cur) + words_acc(s.drop_first(), seq![])
    } else {
        words_acc(s.drop_first(), cur.push(s[0]))
    }
}

/// The maximal runs of non-whitespace characters of `s`, in order.
pub open spec fn words(s: Seq<char>) -> Seq<Seq<char>> {
    words_acc(s, seq![])
}

pub fn split_words(s: &Vec<char>) -> (r: Vec<Vec<char>>)
    ensures
        views(r@) == words(s@),
{
    let mut out: Vec<Vec<char>> = Vec::new();
    let mut cur: Vec<char> = Vec::new();
    let mut i: usize = 0;
    assert(s@.skip(0) =~= s@);
    assert(views(out@) + words_acc(s@, cur@) =~= words_acc(s@, seq![]));
    while i < s.len()
        invariant
            i <= s.len(),
            words(s@) == views(out@) + words_acc(s@.skip(i as int), cur@),
        decreases s.len() - i,
    {
        assert(s@.skip(i as int).drop_first() =~= s@.skip(i as int + 1));
        if is_whitespace(s[i]) {
            if cur.len() > 0 {
                let ghost cv = cur@;
                out.push(cur);
                cur = Vec::new();
                assert(views(out@) =~= views(out@.drop_last()) + seq![cv]);
                assert(views(out@.drop_last()) + (flush(cv) + words_acc(
                    s@.skip(i as int + 1),
                    seq![],
                )) =~= views(out@) + words_acc(s@.skip(i as int + 1), cur@));
            } else {
                assert(cur@ =~= Seq::<char>::empty());
                assert(flush(cur@) =~= Seq::<Seq<char>>::empty());
                assert(views(out@) + (flush(cur@) + words_acc(s@.skip(i as int + 1), seq![]))
                    =~= views(out@) + words_acc(s@.skip(i as int + 1), cur@));
            }
        } else {
            cur.push(s[i]);
        }
        i = i + 1;
    }
    assert(s@.skip(i as int) =~= Seq::<char>::empty());
    if cur.len() > 0 {
        let ghost cv = cur@;
        out.push(cur);
        assert(views(out@) =~= views(out@.drop_last()) + seq![cv]);
    } else {
        assert(views(out@) + words_acc(s@.skip(i as int), cur@) =~= views(out@));
    }
    out
}

// ── Conversions between str, String and Vec<char> ─────────────────────────

/// The characters of a string slice, in order.
pub fn chars_of(s: &str) -> (v: Vec<char>)
    ensures
        v@ == s@,
{
    let mut v: Vec<char> = Vec::new();
    for c in it: s.chars()
        invariant
            v@ == it.seq().take(it.index() as int),
    {
        v.push(c);
    }
    v
}

/// Builds a `String` from its characters (`String: FromIterator<&char>`).
/// Trusted: the collected string holds exactly the given characters, in order.
#[verifier::external_body]
pub(crate) fn string_of(v: &Vec<char>) -> (s: String)
    ensures
        s@ == v@,
{
    v.iter().collect()
}

/// Appends the characters of `s` to `v`.
pub fn push_str(v: &mut Vec<char>, s: &str)
    ensures
        final(v)@ == old(v)@ + s@,
{
    let c = chars_of(s);
    let mut i: usize = 0;
    while i < c.len()
        invariant
            i <= c.len(),
            c@ == s@,
            v@ == old(v)@ + c@.take(i as int),
        decreases c.len() - i,
    {
        v.push(c[i]);
        i = i + 1;
        assert(v@ =~= old(v)@ + c@.take(i as int));
    }
    assert(c@.take(c.len() as int) =~= c@);
}

/// Appends the characters of `s` to `v`.
pub fn push_chars(v: &mut Vec<char>, s: &Vec<char>)
    ensures
        final(v)@ == old(v)@ + s@,
{
    let mut i: usize = 0;
    while i < s.len()
        invariant
            i <= s.len(),
            v@ == old(v)@ + s@.take(i as int),
        decreases s.len() - i,
    {
        v.push(s[i]);
        i = i + 1;
        assert(v@ =~= old(v)@ + s@.take(i as int));
    }
    assert(s@.take(s.len() as int) =~= s@);
}

// ── Decimal rendering (Display for unsigned integers) ─────────────────────

pub open spec fn digit_char(d: nat) -> char {
    (48 + d) as char
}

pub open spec fn decimal(n: nat) -> Seq<char>
    decreases n,
{
    if n < 10 {
        seq![digit_char(n)]
    } else {
        decimal(n / 10).push(digit_char(n % 10))
    }
}

pub fn digit_exec(d: u64) -> (c: char)
    requires
        d < 10,
    ensures
        c == digit_char(d as nat),
{
    let b: u8 = 48u8 + d as u8;
    b as char
}

pub fn decimal_chars(n: u64) -> (v: Vec<char>)
    ensures
        v@ == decimal(n as nat),
    decreases n,
{
    if n < 10 {
        let mut v: Vec<char> = Vec::new();
        v.push(digit_exec(n));
        assert(v@ =~= seq![digit_char(n as nat)]);
        v
    } else {
        let mut v = decimal_chars(n / 10);
        v.push(digit_exec(n % 10));
        v
    }
}

// ── Case mapping (str::to_lowercase, str::to_uppercase) ───────────────────

pub open spec fn is_ascii_text(s: Seq<char>) -> bool {
    forall|i: int| 0 <= i < s.len() ==> (#[trigger] s[i]) as u32 <= 127
}

pub open spec fn ascii_lower(c: char) -> char {
    if 'A' <= c && c <= 'Z' {
        ((c as u32) + 32) as char
    } else {
        c
    }
}

pub open spec fn ascii_upper(c: char) -> char {
    if 'a' <= c && c <= 'z' {
        ((c as u32) - 32) as char
    } else {
        c
    }
}

/// What `str::to_lowercase` returns for a string: its Unicode lowercase mapping.
pub uninterp spec fn lowercase(s: Seq<char>) -> Seq<char>;

/// What `str::to_uppercase` returns for a string: its Unicode uppercase mapping.
pub uninterp spec fn uppercase(s: Seq<char>) -> Seq<char>;

/// Calls `str::to_lowercase` on the string made of `v`'s characters.
/// Trusted: the result is a function of the input alone (named `lowercase`),
/// and on ASCII input it maps `A`..`Z` to `a`..`z` and keeps every other
/// character. What it does to other characters is left to the Unicode tables.
#[verifier::external_body]
pub(crate) fn to_lowercase(v: &Vec<char>) -> (r: Vec<char>)
    ensures
        r@ == lowercase(v@),
        is_ascii_text(v@) ==> r@ == v@.map_values(|c: char| ascii_lower(c)),
{
    let s: String = v.iter().collect();
    s.to_lowercase().chars().collect()
}

/// Calls `str::to_uppercase` on the string made of `v`'s characters.
/// Trusted: the result is a function of the input alone (named `uppercase`),
/// and on ASCII input it maps `a`..`z` to `A`..`Z` and keeps every other
/// character. What it does to other characters is left to the Unicode tables.
#[verifier::external_body]
pub(crate) fn to_uppercase(v: &Vec<char>) -> (r: Vec<char>)
    ensures
        r@ == uppercase(v@),
        is_ascii_text(v@) ==> r@ == v@.map_values(|c: char| ascii_upper(c)),
{
    let s: String = v.iter().collect();
    s.to_uppercase().chars().collect()
}

} // verus!
