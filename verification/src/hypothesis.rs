//! Naming, file naming and ordering of saved hypothesis runs.

use vstd::prelude::*;
use crate::text::{chars_of, occurs_at, path_extension, portable_extension, portable_path, str_eq};

verus! {

broadcast use vstd::string::group_string_axioms;

/// Unicode `Alphabetic` or `Numeric` property of a character beyond ASCII.
pub uninterp spec fn spec_is_alphanumeric(c: char) -> bool;

/// An ASCII letter or digit.
pub open spec fn ascii_alphanumeric(c: char) -> bool {
    ('a' <= c && c <= 'z') || ('A' <= c && c <= 'Z') || ('0' <= c && c <= '9')
}

/// Whether a character is alphanumeric: in ASCII the letters and digits,
/// beyond ASCII the character's Unicode property.
pub open spec fn char_is_alphanumeric(c: char) -> bool {
    if (c as u32) < 128 {
        ascii_alphanumeric(c)
    } else {
        spec_is_alphanumeric(c)
    }
}

/// `char::is_alphanumeric`: by its documentation, the `Alphabetic` or
/// `Numeric` property of the Unicode Character Database, which in the ASCII
/// range holds of the letters and digits alone.
pub assume_specification[ char::is_alphanumeric ](c: char) -> (b: bool)
    ensures
        (c as u32) < 128 ==> b == ascii_alphanumeric(c),
        (c as u32) >= 128 ==> b == spec_is_alphanumeric(c),
;

/// First character of the Unicode lower-case mapping of a character beyond
/// ASCII.
pub uninterp spec fn spec_lowercase_first(c: char) -> char;

/// The lower-case form of an ASCII character: `A` to `Z` become `a` to `z`,
/// every other ASCII character stays.
pub open spec fn ascii_lowercase(c: char) -> char {
    if 'A' <= c && c <= 'Z' {
        ((c as u32) + 32) as char
    } else {
        c
    }
}

/// First character of the lower-case mapping of a character.
pub open spec fn char_lowercase_first(c: char) -> char {
    if (c as u32) < 128 {
        ascii_lowercase(c)
    } else {
        spec_lowercase_first(c)
    }
}

/// `char::to_lowercase`, first character of the mapping.  The mapping yields
/// one or more characters (std documentation), so taking the first never
/// fails; it is the Unicode Character Database's lower-case mapping, which
/// in the ASCII range maps `A` to `Z` to `a` to `z` and every other character
/// to itself.
#[verifier::external_body]
fn lowercase_first(c: char) -> (r: char)
    ensures
        (c as u32) < 128 ==> r == ascii_lowercase(c),
        (c as u32) >= 128 ==> r == spec_lowercase_first(c),
{
    c.to_lowercase().next().unwrap()
}

/// A character of a name as it stands in a slug: alphanumerics lower-cased,
/// everything else a dash.
pub open spec fn slug_char(c: char) -> char {
    if char_is_alphanumeric(c) {
        char_lowercase_first(c)
    } else {
        '-'
    }
}

/// The non-empty dash-free runs of `m`, in order: `m` split at every dash,
/// empty pieces dropped.
pub open spec fn words(m: Seq<char>) -> Seq<Seq<char>>
    decreases m.len(),
{
    if m.len() == 0 {
        Seq::empty()
    } else {
        let w = words(m.drop_last());
        let c = m.last();
        if c == '-' {
            w
        } else if m.len() >= 2 && m[m.len() - 2] != '-' {
            w.update(w.len() - 1, w.last().push(c))
        } else {
            w.push(seq![c])
        }
    }
}

/// The words joined by single dashes.
pub open spec fn join_dashes(w: Seq<Seq<char>>) -> Seq<char>
    decreases w.len(),
{
    if w.len() == 0 {
        Seq::empty()
    } else if w.len() == 1 {
        w[0]
    } else {
        join_dashes(w.drop_last()) + seq!['-'] + w.last()
    }
}

/// The slug of a name: its characters mapped by `slug_char`, split at dashes,
/// empty pieces dropped, the rest joined by single dashes.
pub open spec fn slug_of(s: Seq<char>) -> Seq<char> {
    join_dashes(words(s.map_values(|c: char| slug_char(c))))
}

proof fn lemma_words_open(m: Seq<char>)
    requires
        m.len() > 0,
        m.last() != '-',
    ensures
        words(m).len() > 0,
    decreases m.len(),
{
    if m.len() >= 2 && m[m.len() - 2] != '-' {
        lemma_words_open(m.drop_last());
    }
}

proof fn lemma_join_extend_last(w: Seq<Seq<char>>, c: char)
    requires
        w.len() > 0,
    ensures
        join_dashes(w.update(w.len() - 1, w.last().push(c))) == join_dashes(w).push(c),
{
    let w2 = w.update(w.len() - 1, w.last().push(c));
    if w.len() == 1 {
        assert(w2[0] == w[0].push(c));
    } else {
        assert(w2.drop_last() =~= w.drop_last());
        assert(join_dashes(w2) =~= join_dashes(w).push(c));
    }
}

proof fn lemma_join_push(w: Seq<Seq<char>>, c: char)
    ensures
        join_dashes(w.push(seq![c])) == if w.len() == 0 {
            seq![c]
        } else {
            join_dashes(w) + seq!['-', c]
        },
{
    let w2 = w.push(seq![c]);
    assert(w2.drop_last() =~= w);
    if w.len() > 0 {
        assert(join_dashes(w2) =~= join_dashes(w) + seq!['-', c]);
    }
}

/// No dash at either end and no two dashes in a row.
pub open spec fn dashes_separate(s: Seq<char>) -> bool {
    &&& s.len() > 0 ==> s[0] != '-' && s.last() != '-'
    &&& forall|i: int| 0 <= i < s.len() - 1 && #[trigger] s[i] == '-' ==> s[i + 1] != '-'
}

/// Every word is non-empty and holds no dash.
pub open spec fn proper_words(w: Seq<Seq<char>>) -> bool {
    forall|k: int|
        0 <= k < w.len() ==> (#[trigger] w[k]).len() > 0 && forall|j: int|
            0 <= j < w[k].len() ==> w[k][j] != '-'
}

proof fn lemma_words_proper(m: Seq<char>)
    ensures
        proper_words(words(m)),
    decreases m.len(),
{
    if m.len() > 0 {
        lemma_words_proper(m.drop_last());
        let w = words(m.drop_last());
        let c = m.last();
        if c != '-' && m.len() >= 2 && m[m.len() - 2] != '-' {
            lemma_words_open(m.drop_last());
            let w2 = w.update(w.len() - 1, w.last().push(c));
            assert forall|k: int| 0 <= k < w2.len() implies (#[trigger] w2[k]).len() > 0
                && forall|j: int| 0 <= j < w2[k].len() ==> w2[k][j] != '-' by {
                if k == w.len() - 1 {
                    assert forall|j: int| 0 <= j < w2[k].len() implies w2[k][j] != '-' by {
                        if j < w[k].len() {
                            assert(w2[k][j] == w[k][j]);
                        }
                    }
                }
            }
        } else if c != '-' {
            let w2 = w.push(seq![c]);
            assert forall|k: int| 0 <= k < w2.len() implies (#[trigger] w2[k]).len() > 0
                && forall|j: int| 0 <= j < w2[k].len() ==> w2[k][j] != '-' by {
                if k < w.len() {
                    assert(w2[k] == w[k]);
                }
            }
        }
    }
}

proof fn lemma_join_separates(w: Seq<Seq<char>>)
    requires
        proper_words(w),
    ensures
        dashes_separate(join_dashes(w)),
        w.len() > 0 ==> join_dashes(w).len() > 0,
    decreases w.len(),
{
    if w.len() == 1 {
        assert(w[0].len() > 0);
        let s = join_dashes(w);
        assert(s == w[0]);
        assert(s[0] != '-');
        assert(s.last() == w[0][w[0].len() - 1]);
    } else if w.len() > 1 {
        let p = w.drop_last();
        assert(proper_words(p)) by {
            assert forall|k: int| 0 <= k < p.len() implies (#[trigger] p[k]).len() > 0
                && forall|j: int| 0 <= j < p[k].len() ==> p[k][j] != '-' by {
                assert(p[k] == w[k]);
            }
        }
        lemma_join_separates(p);
        let a = join_dashes(p);
        let b = w.last();
        assert(b == w[w.len() - 1]);
        assert(b.len() > 0);
        let s = join_dashes(w);
        assert(s == a + seq!['-'] + b);
        let l = a.len() as int;
        assert(s[0] == a[0]);
        assert(s.last() == b[b.len() - 1]);
        assert forall|i: int| 0 <= i < s.len() - 1 && #[trigger] s[i] == '-' implies s[i + 1] != '-' by {
            if i < l - 1 {
                assert(s[i] == a[i]);
                assert(s[i + 1] == a[i + 1]);
            } else if i == l - 1 {
                assert(s[i] == a.last());
            } else if i == l {
                assert(s[i + 1] == b[0]);
            } else {
                assert(s[i] == b[i - l - 1]);
            }
        }
    }
}

/// A slug never starts or ends with a dash and never holds two dashes in a row.
pub proof fn lemma_slug_dashes(s: Seq<char>)
    ensures
        dashes_separate(slug_of(s)),
{
    let m = s.map_values(|c: char| slug_char(c));
    lemma_words_proper(m);
    lemma_join_separates(words(m));
}

/// The characters of `x` other than dashes, in order.
pub open spec fn nondash(x: Seq<char>) -> Seq<char>
    decreases x.len(),
{
    if x.len() == 0 {
        Seq::empty()
    } else {
        let p = nondash(x.drop_last());
        if x.last() == '-' {
            p
        } else {
            p.push(x.last())
        }
    }
}

/// The words concatenated.
pub open spec fn flatten(w: Seq<Seq<char>>) -> Seq<char>
    decreases w.len(),
{
    if w.len() == 0 {
        Seq::empty()
    } else {
        flatten(w.drop_last()) + w.last()
    }
}

proof fn lemma_nondash_is_words(m: Seq<char>)
    ensures
        nondash(m) == flatten(words(m)),
    decreases m.len(),
{
    if m.len() > 0 {
        let p = m.drop_last();
        lemma_nondash_is_words(p);
        let w = words(p);
        let c = m.last();
        if c != '-' && m.len() >= 2 && m[m.len() - 2] != '-' {
            assert(p.last() == m[m.len() - 2]);
            lemma_words_open(p);
            let w2 = w.update(w.len() - 1, w.last().push(c));
            assert(w2.drop_last() =~= w.drop_last());
            assert(flatten(w2) =~= flatten(w).push(c));
        } else if c != '-' {
            let w2 = w.push(seq![c]);
            assert(w2.drop_last() =~= w);
            assert(flatten(w2) =~= flatten(w).push(c));
        }
    }
}

proof fn lemma_nondash_add(a: Seq<char>, b: Seq<char>)
    ensures
        nondash(a + b) == nondash(a) + nondash(b),
    decreases b.len(),
{
    if b.len() == 0 {
        assert(a + b =~= a);
        assert(nondash(a) + nondash(b) =~= nondash(a));
    } else {
        lemma_nondash_add(a, b.drop_last());
        assert((a + b).drop_last() =~= a + b.drop_last());
        if b.last() != '-' {
            assert(nondash(a + b) =~= nondash(a) + nondash(b));
        } else {
            assert(nondash(a + b) =~= nondash(a) + nondash(b));
        }
    }
}

proof fn lemma_nondash_dash_free(b: Seq<char>)
    requires
        forall|j: int| 0 <= j < b.len() ==> b[j] != '-',
    ensures
        nondash(b) == b,
    decreases b.len(),
{
    if b.len() > 0 {
        lemma_nondash_dash_free(b.drop_last());
        assert(nondash(b) =~= b);
    }
}

proof fn lemma_proper_prefix(w: Seq<Seq<char>>)
    requires
        proper_words(w),
        w.len() > 0,
    ensures
        proper_words(w.drop_last()),
        w.last().len() > 0,
        forall|j: int| 0 <= j < w.last().len() ==> w.last()[j] != '-',
{
    let p = w.drop_last();
    assert(w.last() == w[w.len() - 1]);
    assert forall|k: int| 0 <= k < p.len() implies (#[trigger] p[k]).len() > 0 && forall|j: int|
        0 <= j < p[k].len() ==> p[k][j] != '-' by {
        assert(p[k] == w[k]);
    }
}

proof fn lemma_nondash_join(w: Seq<Seq<char>>)
    requires
        proper_words(w),
    ensures
        nondash(join_dashes(w)) == flatten(w),
    decreases w.len(),
{
    if w.len() == 1 {
        lemma_proper_prefix(w);
        lemma_nondash_dash_free(w[0]);
        assert(w.drop_last().len() == 0);
        assert(flatten(w.drop_last()) =~= Seq::<char>::empty());
        assert(w.last() == w[0]);
        assert(flatten(w) =~= w[0]);
    } else if w.len() > 1 {
        lemma_proper_prefix(w);
        let p = w.drop_last();
        let b = w.last();
        lemma_nondash_join(p);
        lemma_nondash_add(join_dashes(p) + seq!['-'], b);
        lemma_nondash_add(join_dashes(p), seq!['-']);
        lemma_nondash_dash_free(b);
        let d = seq!['-'];
        assert(nondash(d) =~= Seq::<char>::empty()) by {
            assert(d.len() == 1);
            assert(d.last() == '-');
            assert(d.drop_last().len() == 0);
            assert(nondash(d.drop_last()) =~= Seq::<char>::empty());
        }
        assert(nondash(join_dashes(w)) =~= flatten(w));
    }
}

/// The characters of a slug other than its dashes are, in order, those of the
/// name mapped by `slug_char` other than dashes; every such character is the
/// lower-case form of an alphanumeric character of the name.
pub proof fn lemma_slug_keeps_characters(s: Seq<char>)
    ensures
        nondash(slug_of(s)) == nondash(s.map_values(|c: char| slug_char(c))),
        forall|c: char| #[trigger] slug_char(c) != '-' ==> char_is_alphanumeric(c) && slug_char(c)
            == char_lowercase_first(c),
{
    let m = s.map_values(|c: char| slug_char(c));
    lemma_words_proper(m);
    lemma_nondash_join(words(m));
    lemma_nondash_is_words(m);
}

proof fn lemma_words_append_word(x: Seq<char>, b: Seq<char>)
    requires
        x.len() == 0 || x.last() == '-',
        b.len() > 0,
        forall|j: int| 0 <= j < b.len() ==> b[j] != '-',
    ensures
        words(x + b) == words(x).push(b),
    decreases b.len(),
{
    let m = x + b;
    let c = b.last();
    assert(m.last() == c);
    if b.len() == 1 {
        assert(m.drop_last() =~= x);
        if x.len() > 0 {
            assert(m[m.len() - 2] == x.last());
        }
        assert(seq![c] =~= b);
    } else {
        let b1 = b.drop_last();
        lemma_words_append_word(x, b1);
        assert(m.drop_last() =~= x + b1);
        assert(m[m.len() - 2] == b1.last());
        let w = words(x + b1);
        assert(w == words(x).push(b1));
        assert(b1.push(c) =~= b);
        let w2 = w.update(w.len() - 1, w.last().push(c));
        assert(w2 =~= words(x).push(b));
    }
}

proof fn lemma_words_of_join(w: Seq<Seq<char>>)
    requires
        proper_words(w),
    ensures
        words(join_dashes(w)) == w,
    decreases w.len(),
{
    if w.len() == 0 {
    } else if w.len() == 1 {
        lemma_proper_prefix(w);
        lemma_words_append_word(Seq::empty(), w[0]);
        assert(Seq::<char>::empty() + w[0] =~= w[0]);
        assert(Seq::<Seq<char>>::empty().push(w[0]) =~= w);
    } else {
        lemma_proper_prefix(w);
        let p = w.drop_last();
        let b = w.last();
        lemma_words_of_join(p);
        let x = join_dashes(p) + seq!['-'];
        assert(x.drop_last() =~= join_dashes(p));
        assert(words(x) == words(join_dashes(p)));
        lemma_words_append_word(x, b);
        assert(join_dashes(w) == x + b);
        assert(p.push(b) =~= w);
    }
}

proof fn lemma_nondash_contains(x: Seq<char>, i: int)
    requires
        0 <= i < x.len(),
        x[i] != '-',
    ensures
        nondash(x).contains(x[i]),
    decreases x.len(),
{
    if i < x.len() - 1 {
        lemma_nondash_contains(x.drop_last(), i);
        let p = nondash(x.drop_last());
        let k = choose|k: int| 0 <= k < p.len() && p[k] == x[i];
        if x.last() != '-' {
            assert(nondash(x)[k] == p[k]);
        }
    } else {
        assert(nondash(x)[nondash(x).len() - 1] == x[i]);
    }
}

proof fn lemma_nondash_from(x: Seq<char>, y: char)
    requires
        nondash(x).contains(y),
    ensures
        x.contains(y),
    decreases x.len(),
{
    if x.len() > 0 {
        let p = nondash(x.drop_last());
        let k = choose|k: int| 0 <= k < nondash(x).len() && nondash(x)[k] == y;
        if x.last() != '-' && k == nondash(x).len() - 1 {
            assert(x[x.len() - 1] == y);
        } else {
            assert(p[k] == y);
            lemma_nondash_from(x.drop_last(), y);
            let j = choose|j: int| 0 <= j < x.drop_last().len() && x.drop_last()[j] == y;
            assert(x[j] == y);
        }
    }
}

/// The character facts under which a slug is its own slug, for the
/// characters of the name beyond ASCII (ASCII letters and digits lower-case
/// to letters and digits that stay as they are): each alphanumeric one
/// lower-cases to an alphanumeric character that lower-cases to itself.
pub open spec fn lowering_is_stable(s: Seq<char>) -> bool {
    forall|i: int|
        0 <= i < s.len() && (s[i] as u32) >= 128 && spec_is_alphanumeric(#[trigger] s[i])
            ==> char_is_alphanumeric(spec_lowercase_first(s[i])) && char_lowercase_first(
            spec_lowercase_first(s[i]),
        ) == spec_lowercase_first(s[i])
}

/// Slugging a slug changes nothing, where the name's characters beyond ASCII
/// lower-case stably (`lowering_is_stable`).
pub proof fn lemma_slug_idempotent(s: Seq<char>)
    requires
        lowering_is_stable(s),
    ensures
        slug_of(slug_of(s)) == slug_of(s),
{
    let m = s.map_values(|c: char| slug_char(c));
    let w = words(m);
    let t = join_dashes(w);
    lemma_words_proper(m);
    lemma_nondash_join(w);
    lemma_nondash_is_words(m);
    assert forall|i: int| 0 <= i < t.len() implies slug_char(#[trigger] t[i]) == t[i] by {
        let y = t[i];
        if y != '-' {
            lemma_nondash_contains(t, i);
            lemma_nondash_from(m, y);
            let j = choose|j: int| 0 <= j < m.len() && m[j] == y;
            assert(m[j] == slug_char(s[j]));
            assert(char_is_alphanumeric(s[j]));
        }
    }
    assert(t.map_values(|c: char| slug_char(c)) =~= t);
    lemma_words_of_join(w);
}

/// Slugging the slug of an ASCII name changes nothing.
pub proof fn lemma_slug_idempotent_ascii(s: Seq<char>)
    requires
        forall|i: int| 0 <= i < s.len() ==> ((#[trigger] s[i]) as u32) < 128,
    ensures
        slug_of(slug_of(s)) == slug_of(s),
{
    lemma_slug_idempotent(s);
}

/// The slug of a name: lower-case alphanumerics, with each run of other
/// characters turned into one dash and none at either end.
pub fn slug(s: &str) -> (r: String)
    ensures
        r@ == slug_of(s@),
{
    let chars = chars_of(s);
    let ghost full = s@.map_values(|c: char| slug_char(c));
    let mut out = String::new();
    let mut open = false;
    let mut any = false;
    let mut i: usize = 0;
    while i < chars.len()
        invariant
            i <= chars.len(),
            chars@ == s@,
            full == s@.map_values(|c: char| slug_char(c)),
            out@ == join_dashes(words(full.take(i as int))),
            any == (words(full.take(i as int)).len() > 0),
            open == (i > 0 && full[i - 1] != '-'),
        decreases chars.len() - i,
    {
        let c = chars[i];
        let d = if c.is_alphanumeric() {
            lowercase_first(c)
        } else {
            '-'
        };
        let ghost m = full.take(i as int);
        let ghost m2 = full.take(i + 1);
        proof {
            assert(m2.drop_last() =~= m);
            assert(m2.last() == d);
            assert(d == full[i as int]);
        }
        if d != '-' {
            if open {
                proof {
                    assert(m.last() == full[i - 1]);
                    lemma_words_open(m);
                    assert(m2[m2.len() - 2] == full[i - 1]);
                    lemma_join_extend_last(words(m), d);
                }
                out.push(d);
            } else {
                proof {
                    if i > 0 {
                        assert(m2[m2.len() - 2] == full[i - 1]);
                    }
                    lemma_join_push(words(m), d);
                }
                if any {
                    out.push('-');
                }
                out.push(d);
            }
            open = true;
            any = true;
        } else {
            open = false;
        }
        i = i + 1;
    }
    proof {
        assert(full.take(chars.len() as int) =~= full);
    }
    out
}

/// The id of a hypothesis saved at the time stamped `stamp`: the stamp, a
/// dash and the slug of its name.
pub open spec fn hypothesis_id_of(stamp: Seq<char>, name: Seq<char>) -> Seq<char> {
    stamp + seq!['-'] + slug_of(name)
}

/// Compose a hypothesis id from a time stamp and the hypothesis name.
pub fn compose_hypothesis_id(stamp: &str, name: &str) -> (r: String)
    ensures
        r@ == hypothesis_id_of(stamp@, name@),
{
    let mut id = String::from_str(stamp);
    id.push('-');
    let s = slug(name);
    id.append(s.as_str());
    id
}

/// The strftime pattern of the time stamp that starts a hypothesis id.
pub open spec fn id_stamp_pattern() -> Seq<char> {
    "%Y%m%dT%H%M%S"@
}

/// The UTC date and time `secs` seconds after the Unix epoch, rendered with a
/// strftime `pattern`; `None` where chrono cannot represent that instant.
pub uninterp spec fn spec_format_utc_timestamp(secs: i64, pattern: Seq<char>) -> Option<Seq<char>>;

/// chrono: `DateTime::<Utc>::from_timestamp(secs, 0)` (`None` out of range),
/// then `DateTime::format(pattern)` rendered to a `String`.  The result is a
/// function of the two arguments; the pattern is held to the one this library
/// uses, whose specifiers chrono accepts, so that rendering cannot fail.
#[verifier::external_body]
fn format_utc_timestamp(secs: i64, pattern: &str) -> (r: Option<String>)
    requires
        pattern@ == id_stamp_pattern(),
    ensures
        match spec_format_utc_timestamp(secs, pattern@) {
            Some(st) => r matches Some(v) && v@ == st,
            None => r is None,
        },
{
    chrono::DateTime::from_timestamp(secs, 0).map(|t| t.format(pattern).to_string())
}

/// The id of a hypothesis named `name` saved `secs` seconds after the Unix
/// epoch; `None` where that instant cannot be represented.
pub fn hypothesis_id(secs: i64, name: &str) -> (r: Option<String>)
    ensures
        match spec_format_utc_timestamp(secs, id_stamp_pattern()) {
            Some(st) => r matches Some(v) && v@ == hypothesis_id_of(st, name@),
            None => r is None,
        },
{
    proof {
        reveal_strlit("%Y%m%dT%H%M%S");
    }
    match format_utc_timestamp(secs, "%Y%m%dT%H%M%S") {
        Some(stamp) => Some(compose_hypothesis_id(stamp.as_str(), name)),
        None => None,
    }
}

/// The file that holds the hypothesis with this id.
pub open spec fn hypothesis_file_of(id: Seq<char>) -> Seq<char> {
    id + ".json"@
}

/// File name of the hypothesis with this id: the id and `.json`.
pub fn hypothesis_file_name(id: &str) -> (r: String)
    ensures
        r@ == hypothesis_file_of(id@),
{
    let mut f = String::from_str(id);
    f.append(".json");
    f
}

/// Whether a directory entry with this extension (`None`: it has none) holds a
/// saved hypothesis.
pub fn is_hypothesis_extension(ext: &Option<String>) -> (r: bool)
    ensures
        r == (ext matches Some(e) && e@ == "json"@),
{
    match ext {
        Some(e) => str_eq(e.as_str(), "json"),
        None => false,
    }
}

/// Whether the file at `path` holds a saved hypothesis: its extension is
/// `json`.
pub fn is_hypothesis_file(path: &str) -> (r: bool)
    ensures
        r ==> exists|i: int| occurs_at(path@, ".json"@, i),
        !path@.contains('.') ==> !r,
        portable_path(path@) ==> r == (portable_extension(path@) == Some("json"@)),
{
    let ext = path_extension(path);
    let r = is_hypothesis_extension(&ext);
    proof {
        reveal_strlit("json");
        reveal_strlit(".json");
        if r {
            let e = ext->Some_0;
            assert(seq!['.'] + e@ =~= ".json"@);
        }
    }
    r
}

/// The instant a hypothesis was saved: whole seconds since the Unix epoch and
/// the nanoseconds past them.
pub type SaveTime = (i64, u32);

/// Whether instant `a` is strictly later than instant `b`.
pub open spec fn later(a: SaveTime, b: SaveTime) -> bool {
    a.0 > b.0 || (a.0 == b.0 && a.1 > b.1)
}

/// Whole seconds decide which instant is later; the nanoseconds past them
/// decide only between instants of the same second.  Being later is
/// irreflexive, asymmetric and transitive.
pub proof fn lemma_later_by_seconds(a: SaveTime, b: SaveTime, c: SaveTime)
    ensures
        a.0 > b.0 ==> later(a, b),
        a.0 < b.0 ==> !later(a, b),
        a.0 == b.0 ==> (later(a, b) <==> a.1 > b.1),
        !later(a, a),
        later(a, b) ==> !later(b, a),
        later(a, b) && later(b, c) ==> later(a, c),
        !later(a, b) && !later(b, a) ==> a == b,
{
}

/// `order` lists every index of `times` exactly once.
pub open spec fn is_permutation_of_indices(order: Seq<usize>, n: int) -> bool {
    &&& order.len() == n
    &&& forall|i: int| 0 <= i < n ==> #[trigger] order[i] < n
    &&& forall|i: int, j: int| 0 <= i < j < n ==> order[i] != order[j]
}

/// `order` lists the entries newest first, and entries saved at the same
/// instant in their original order.
pub open spec fn newest_first_stable(times: Seq<SaveTime>, order: Seq<usize>) -> bool {
    forall|i: int, j: int|
        0 <= i < j < order.len() ==> !later(times[order[j] as int], times[order[i] as int]) && (
        times[order[i] as int] == times[order[j] as int] ==> order[i] < order[j])
}

/// In a newest-first listing, whole seconds never increase along the list,
/// and within one second the nanoseconds never increase.
pub proof fn lemma_newest_first_seconds(times: Seq<SaveTime>, order: Seq<usize>)
    requires
        is_permutation_of_indices(order, times.len() as int),
        newest_first_stable(times, order),
    ensures
        forall|i: int, j: int|
            0 <= i < j < order.len() ==> times[order[i] as int].0 >= times[order[j] as int].0,
        forall|i: int, j: int|
            0 <= i < j < order.len() && times[order[i] as int].0 == times[order[j] as int].0
                ==> times[order[i] as int].1 >= times[order[j] as int].1,
{
    assert forall|i: int, j: int| 0 <= i < j < order.len() implies times[order[i] as int].0
        >= times[order[j] as int].0 by {
        assert(!later(times[order[j] as int], times[order[i] as int]));
    }
    assert forall|i: int, j: int|
        0 <= i < j < order.len() && times[order[i] as int].0 == times[order[j] as int].0
            implies times[order[i] as int].1 >= times[order[j] as int].1 by {
        assert(!later(times[order[j] as int], times[order[i] as int]));
    }
}

/// Whether `a` is strictly later than `b`.
fn is_later(a: SaveTime, b: SaveTime) -> (r: bool)
    ensures
        r == later(a, b),
{
    a.0 > b.0 || (a.0 == b.0 && a.1 > b.1)
}

/// The order in which saved hypotheses are listed: newest first, entries of
/// the same instant in the order they were read.
#[verifier::spinoff_prover]
pub fn newest_first(times: &Vec<SaveTime>) -> (order: Vec<usize>)
    ensures
        is_permutation_of_indices(order@, times@.len() as int),
        newest_first_stable(times@, order@),
{
    let mut order: Vec<usize> = Vec::new();
    let mut k: usize = 0;
    while k < times.len()
        invariant
            k <= times.len(),
            is_permutation_of_indices(order@, k as int),
            newest_first_stable(times@, order@),
        decreases times.len() - k,
    {
        let tk = times[k];
        let mut p: usize = 0;
        while p < order.len() && !is_later(tk, times[order[p]])
            invariant
                p <= order.len(),
                order.len() == k,
                k < times.len(),
                tk == times@[k as int],
                is_permutation_of_indices(order@, k as int),
                forall|q: int| 0 <= q < p ==> !later(tk, times@[order@[q] as int]),
            decreases order.len() - p,
        {
            p = p + 1;
        }
        let ghost old_order = order@;
        assert(newest_first_stable(times@, old_order));
        proof {
            assert forall|q: int| p <= q < old_order.len() implies later(
                tk,
                times@[#[trigger] old_order[q] as int],
            ) by {
                assert(later(tk, times@[old_order[p as int] as int]));
                if q > p {
                    assert(!later(
                        times@[old_order[q] as int],
                        times@[old_order[p as int] as int],
                    ));
                }
            }
        }
        order.insert(p, k);
        proof {
            assert(order@ =~= old_order.insert(p as int, k));
            assert forall|i: int, j: int| 0 <= i < j < order@.len() implies order@[i] != order@[j] by {
                if i < p && j < p {
                    assert(old_order[i] != old_order[j]);
                } else if i < p && j > p {
                    assert(old_order[i] != old_order[j - 1]);
                } else if i > p && j > p {
                    assert(old_order[i - 1] != old_order[j - 1]);
                }
            }
            assert forall|i: int| 0 <= i < order@.len() implies #[trigger] order@[i] < k + 1 by {
                if i < p {
                    assert(old_order[i] < k);
                } else if i > p {
                    assert(old_order[i - 1] < k);
                }
            }
            assert forall|i: int, j: int| 0 <= i < j < order@.len() implies !later(
                times@[order@[j] as int],
                times@[order@[i] as int],
            ) && (times@[order@[i] as int] == times@[order@[j] as int] ==> order@[i] < order@[j]) by {
                if i < p && j < p {
                    assert(old_order[i] == order@[i]);
                    assert(old_order[j] == order@[j]);
                } else if i < p && j == p {
                    assert(!later(tk, times@[old_order[i] as int]));
                    assert(old_order[i] < k);
                } else if i < p && j > p {
                    assert(old_order[i] == order@[i]);
                    assert(old_order[j - 1] == order@[j]);
                } else if i == p {
                    assert(order@[i] == k);
                    assert(old_order[j - 1] == order@[j]);
                    assert(later(tk, times@[old_order[j - 1] as int]));
                } else {
                    assert(old_order[i - 1] == order@[i]);
                    assert(old_order[j - 1] == order@[j]);
                }
            }
        }
        k = k + 1;
    }
    order
}

} // verus!
