//! Character-level helpers shared by the path and naming rules.

use vstd::prelude::*;

verus! {

broadcast use vstd::string::group_string_axioms;

/// `String::push` appends one character.
pub assume_specification[ String::push ](s: &mut String, ch: char)
    ensures
        final(s)@ == old(s)@.push(ch),
;

/// The characters of `s`, in order.
pub fn chars_of(s: &str) -> (r: Vec<char>)
    ensures
        r@ == s@,
{
    let mut r: Vec<char> = Vec::new();
    for c in it: s.chars()
        invariant
            r@ == it.seq().take(it.index() as int),
    {
        r.push(c);
    }
    r
}

/// A path that every platform splits the same way: its only separator is
/// `/` (it holds no `\\`), it holds no `:` (so no drive or share prefix), and
/// it does not start with `//`.
pub open spec fn portable_path(p: Seq<char>) -> bool {
    &&& !p.contains('\\')
    &&& !p.contains(':')
    &&& !(p.len() >= 2 && p[0] == '/' && p[1] == '/')
}

/// The name `.`.
pub open spec fn cur_dir_name() -> Seq<char> {
    seq!['.']
}

/// The name `..`.
pub open spec fn parent_dir_name() -> Seq<char> {
    seq!['.', '.']
}

/// `p` split at every `/`: `"a//b/"` gives `a`, ``, `b`, ``.
pub open spec fn slash_pieces(p: Seq<char>) -> Seq<Seq<char>>
    decreases p.len(),
{
    if p.len() == 0 {
        seq![Seq::empty()]
    } else {
        let w = slash_pieces(p.drop_last());
        if p.last() == '/' {
            w.push(Seq::empty())
        } else {
            w.update(w.len() - 1, w.last().push(p.last()))
        }
    }
}

/// The last of the first `n` pieces that is neither empty nor `.`, if any.
pub open spec fn last_name_upto(ps: Seq<Seq<char>>, n: int) -> Option<Seq<char>>
    decreases n,
{
    if n <= 0 {
        None
    } else if ps[n - 1].len() == 0 || ps[n - 1] == cur_dir_name() {
        last_name_upto(ps, n - 1)
    } else {
        Some(ps[n - 1])
    }
}

/// The index of the last `.` among the first `n` characters of `x`, if any.
pub open spec fn last_dot_upto(x: Seq<char>, n: int) -> Option<int>
    decreases n,
{
    if n <= 0 {
        None
    } else if x[n - 1] == '.' {
        Some(n - 1)
    } else {
        last_dot_upto(x, n - 1)
    }
}

/// The extension of the file name `x`: none for `..` and for a name with no
/// `.` after its first character; otherwise the text after its last `.`
/// (empty where the name ends in `.`).
pub open spec fn name_extension(x: Seq<char>) -> Option<Seq<char>> {
    if x == parent_dir_name() {
        None
    } else {
        match last_dot_upto(x, x.len() as int) {
            Some(i) => if i == 0 {
                None
            } else {
                Some(x.subrange(i + 1, x.len() as int))
            },
            None => None,
        }
    }
}

/// The extension of the final name of a path whose only separator is `/`:
/// the last piece left once empty pieces (repeated, leading or trailing
/// separators) and `.` pieces are dropped; none where no piece is left.
pub open spec fn portable_extension(p: Seq<char>) -> Option<Seq<char>> {
    match last_name_upto(slash_pieces(p), slash_pieces(p).len() as int) {
        Some(x) => name_extension(x),
        None => None,
    }
}

/// The extension of the final component of `path`, by
/// `std::path::Path::extension`.  Its documentation: the file name is the
/// final component, none where that is `..` (or a root, a prefix or `.`);
/// the extension is none where the file name has no `.` or only a leading
/// one, else the part after its final `.`.  Which part of the path is the
/// final component depends on the platform's separators and prefixes, so the
/// exact result is stated for paths that every platform splits at `/` alone
/// (`portable_path`); for every path, the contract states that the extension
/// holds no `.` and follows a `.` in the path, and that a path without `.`
/// has none.
#[verifier::external_body]
pub(crate) fn path_extension(path: &str) -> (r: Option<String>)
    ensures
        r matches Some(e) ==> !e@.contains('.') && exists|i: int|
            occurs_at(path@, seq!['.'] + e@, i),
        !path@.contains('.') ==> r is None,
        portable_path(path@) ==> r.deep_view() == portable_extension(path@),
{
    std::path::Path::new(path).extension().map(|e| e.to_string_lossy().into_owned())
}

/// Whether two strings hold the same characters.
pub fn str_eq(a: &str, b: &str) -> (r: bool)
    ensures
        r == (a@ == b@),
{
    let va = chars_of(a);
    let vb = chars_of(b);
    same_chars(&va, &vb)
}

/// Whether `pat` occurs in `s` starting at index `i`.
pub open spec fn occurs_at(s: Seq<char>, pat: Seq<char>, i: int) -> bool {
    0 <= i && i + pat.len() <= s.len() && s.subrange(i, i + pat.len()) == pat
}

/// The first index at or after `i` where `pat` occurs in `s`, if any.
pub open spec fn first_occurrence_from(s: Seq<char>, pat: Seq<char>, i: int) -> Option<int>
    decreases s.len() - i,
{
    if i < 0 || i + pat.len() > s.len() {
        None
    } else if occurs_at(s, pat, i) {
        Some(i)
    } else if i >= s.len() {
        None
    } else {
        first_occurrence_from(s, pat, i + 1)
    }
}

/// The index just past the run of `c` that starts at index `i` of `s`.
pub open spec fn skip_run_from(s: Seq<char>, c: char, i: int) -> int
    decreases s.len() - i,
{
    if 0 <= i < s.len() && s[i] == c {
        skip_run_from(s, c, i + 1)
    } else {
        i
    }
}

/// Whether two character vectors hold the same characters.
pub fn same_chars(a: &Vec<char>, b: &Vec<char>) -> (r: bool)
    ensures
        r == (a@ == b@),
{
    if a.len() != b.len() {
        return false;
    }
    let mut i: usize = 0;
    while i < a.len()
        invariant
            a.len() == b.len(),
            i <= a.len(),
            forall|j: int| 0 <= j < i ==> a@[j] == b@[j],
        decreases a.len() - i,
    {
        if a[i] != b[i] {
            return false;
        }
        i = i + 1;
    }
    assert(a@ =~= b@);
    true
}

/// Whether `pat` occurs in `s` at index `i`.
pub fn matches_at(s: &Vec<char>, pat: &Vec<char>, i: usize) -> (r: bool)
    ensures
        r == occurs_at(s@, pat@, i as int),
{
    if i > s.len() || pat.len() > s.len() - i {
        return false;
    }
    let mut k: usize = 0;
    while k < pat.len()
        invariant
            i + pat.len() <= s.len(),
            k <= pat.len(),
            forall|j: int| 0 <= j < k ==> s@[i + j] == pat@[j],
        decreases pat.len() - k,
    {
        if s[i + k] != pat[k] {
            assert(s@.subrange(i as int, i + pat.len())[k as int] != pat@[k as int]);
            return false;
        }
        k = k + 1;
    }
    assert(s@.subrange(i as int, i + pat.len()) =~= pat@);
    true
}

/// The first index at or after `start` where `pat` occurs in `s`, if any.
pub fn find_from(s: &Vec<char>, pat: &Vec<char>, start: usize) -> (r: Option<usize>)
    ensures
        r is None <==> first_occurrence_from(s@, pat@, start as int) is None,
        r matches Some(k) ==> first_occurrence_from(s@, pat@, start as int) == Some(k as int)
            && occurs_at(s@, pat@, k as int),
{
    let mut i = start;
    while i <= s.len() && pat.len() <= s.len() - i
        invariant
            start <= i,
            first_occurrence_from(s@, pat@, start as int) == first_occurrence_from(
                s@,
                pat@,
                i as int,
            ),
        decreases s.len() + 1 - i,
    {
        if matches_at(s, pat, i) {
            return Some(i);
        }
        if i == s.len() {
            return None;
        }
        i = i + 1;
    }
    None
}

/// The index just past the run of `c` that starts at index `start` of `s`.
pub fn skip_run(s: &Vec<char>, c: char, start: usize) -> (r: usize)
    requires
        start <= s.len(),
    ensures
        r as int == skip_run_from(s@, c, start as int),
        start <= r <= s.len(),
{
    let mut i = start;
    while i < s.len() && s[i] == c
        invariant
            start <= i <= s.len(),
            skip_run_from(s@, c, start as int) == skip_run_from(s@, c, i as int),
        decreases s.len() - i,
    {
        i = i + 1;
    }
    i
}

} // verus!
