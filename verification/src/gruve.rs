//! Path rules of the HTTP bridge that serves the frontend to remote viewers.

use vstd::prelude::*;
use crate::text::{
    chars_of, cur_dir_name, find_from, first_occurrence_from, parent_dir_name, path_extension,
    portable_extension, portable_path, same_chars, skip_run, skip_run_from, slash_pieces, str_eq,
};

verus! {

broadcast use vstd::string::group_string_axioms;

/// The bare application path, `/apps/oracle`.
pub open spec fn app_path() -> Seq<char> {
    "/apps/oracle"@
}

/// The application prefix, `/apps/oracle/`.
pub open spec fn app_prefix() -> Seq<char> {
    "/apps/oracle/"@
}

/// The page served for the application root.
pub open spec fn index_page() -> Seq<char> {
    "index.html"@
}

/// `t`, or the index page where `t` is empty.
pub open spec fn or_index(t: Seq<char>) -> Seq<char> {
    if t.len() == 0 {
        index_page()
    } else {
        t
    }
}

/// The asset path, relative to the built frontend, that a request path asks for:
/// the index page for the bare application path; what follows the first
/// occurrence of the application prefix; else the path without its leading
/// slashes; the index page wherever that is empty.
pub open spec fn static_relative(p: Seq<char>) -> Seq<char> {
    if p == app_path() {
        index_page()
    } else {
        match first_occurrence_from(p, app_prefix(), 0) {
            Some(i) => or_index(p.subrange(i + app_prefix().len(), p.len() as int)),
            None => or_index(p.subrange(skip_run_from(p, '/', 0), p.len() as int)),
        }
    }
}

/// Every request path maps to a non-empty asset path.
pub proof fn lemma_static_relative_nonempty(p: Seq<char>)
    ensures
        static_relative(p).len() > 0,
{
    reveal_strlit("index.html");
}

/// Map a request path to the asset path relative to the frontend build.
pub fn static_relative_path(request_path: &str) -> (r: &str)
    ensures
        r@ == static_relative(request_path@),
{
    let p = chars_of(request_path);
    let bare = chars_of("/apps/oracle");
    let prefix = chars_of("/apps/oracle/");
    proof {
        reveal_strlit("/apps/oracle");
        reveal_strlit("/apps/oracle/");
        reveal_strlit("index.html");
    }
    if same_chars(&p, &bare) {
        return "index.html";
    }
    let n = p.len();
    match find_from(&p, &prefix, 0) {
        Some(i) => {
            let start = i + prefix.len();
            if start == n {
                "index.html"
            } else {
                request_path.substring_char(start, n)
            }
        },
        None => {
            let start = skip_run(&p, '/', 0);
            if start == n {
                "index.html"
            } else {
                request_path.substring_char(start, n)
            }
        },
    }
}

/// One component of a relative path, as `std::path` splits it.
#[derive(Clone, Debug)]
pub enum PathPart {
    /// An ordinary name.
    Normal(String),
    /// `.`
    CurDir,
    /// `..`
    ParentDir,
    /// A leading separator.
    RootDir,
    /// A drive or share prefix (Windows only).
    Prefix,
}

/// The mathematical value of a path component.
pub enum PathPartModel {
    Normal(Seq<char>),
    CurDir,
    ParentDir,
    RootDir,
    Prefix,
}

impl View for PathPart {
    type V = PathPartModel;

    open spec fn view(&self) -> PathPartModel {
        match self {
            PathPart::Normal(s) => PathPartModel::Normal(s@),
            PathPart::CurDir => PathPartModel::CurDir,
            PathPart::ParentDir => PathPartModel::ParentDir,
            PathPart::RootDir => PathPartModel::RootDir,
            PathPart::Prefix => PathPartModel::Prefix,
        }
    }
}

/// Whether a component may stand in a path kept inside the frontend build:
/// names and `.` may, `..`, a leading separator and a prefix may not.
pub open spec fn part_is_safe(p: PathPartModel) -> bool {
    match p {
        PathPartModel::Normal(_) => true,
        PathPartModel::CurDir => true,
        _ => false,
    }
}

/// The names among the first `n` components, in order.
pub open spec fn normal_names(parts: Seq<PathPartModel>, n: int) -> Seq<Seq<char>>
    decreases n,
{
    if n <= 0 {
        Seq::empty()
    } else {
        let prev = normal_names(parts, n - 1);
        match parts[n - 1] {
            PathPartModel::Normal(s) => prev.push(s),
            _ => prev,
        }
    }
}

/// The names to push onto the frontend directory, or `None` where a
/// component would leave it.
pub open spec fn safe_names(parts: Seq<PathPartModel>) -> Option<Seq<Seq<char>>> {
    if forall|i: int| 0 <= i < parts.len() ==> part_is_safe(#[trigger] parts[i]) {
        Some(normal_names(parts, parts.len() as int))
    } else {
        None
    }
}

/// A name that may be pushed onto a directory without leaving it: non-empty,
/// neither `.` nor `..`.
pub open spec fn is_plain_name(s: Seq<char>) -> bool {
    s.len() > 0 && s != cur_dir_name() && s != parent_dir_name()
}

/// `p` starts with a separator.
pub open spec fn starts_with_slash(p: Seq<char>) -> bool {
    p.len() > 0 && p[0] == '/'
}

/// The components of the first `n` pieces of a relative path split at `/`:
/// empty pieces (repeated or trailing separators) are dropped, `.` is kept as
/// the current directory only as the first piece, `..` is the parent
/// directory, anything else a name.
pub open spec fn piece_components(ps: Seq<Seq<char>>, n: int) -> Seq<PathPartModel>
    decreases n,
{
    if n <= 0 {
        Seq::empty()
    } else {
        let prev = piece_components(ps, n - 1);
        let x = ps[n - 1];
        if x.len() == 0 {
            prev
        } else if x == cur_dir_name() {
            if n == 1 {
                prev.push(PathPartModel::CurDir)
            } else {
                prev
            }
        } else if x == parent_dir_name() {
            prev.push(PathPartModel::ParentDir)
        } else {
            prev.push(PathPartModel::Normal(x))
        }
    }
}

/// The components of a relative path whose only separator is `/`.
pub open spec fn relative_components(p: Seq<char>) -> Seq<PathPartModel> {
    piece_components(slash_pieces(p), slash_pieces(p).len() as int)
}

/// The pieces among the first `n` that are neither empty nor `.`.
pub open spec fn plain_pieces_upto(ps: Seq<Seq<char>>, n: int) -> Seq<Seq<char>>
    decreases n,
{
    if n <= 0 {
        Seq::empty()
    } else {
        let prev = plain_pieces_upto(ps, n - 1);
        let x = ps[n - 1];
        if x.len() == 0 || x == cur_dir_name() {
            prev
        } else {
            prev.push(x)
        }
    }
}

/// The `/`-separated pieces of `p` that are neither empty nor `.`, in order.
pub open spec fn plain_pieces(p: Seq<char>) -> Seq<Seq<char>> {
    plain_pieces_upto(slash_pieces(p), slash_pieces(p).len() as int)
}

/// Some `/`-separated piece of `p` is `..`.
pub open spec fn has_parent_piece(p: Seq<char>) -> bool {
    exists|i: int| 0 <= i < slash_pieces(p).len() && #[trigger] slash_pieces(p)[i] == parent_dir_name()
}

/// `std::path::Path::components` of `path`, each component converted to a
/// `PathPart`.  Where the path splits depends on the platform's separators and
/// prefixes, so the contract states only what holds on every platform, by the
/// documentation: repeated separators and inner `.` are dropped and `..` is a
/// `ParentDir`, so a `Normal` component is never empty, `.` or `..`; a path
/// that starts with `/` has a root (on Windows, `//` opens a share prefix), so
/// its first component is a `RootDir` or a `Prefix`; and a relative path that
/// every platform splits at `/` alone gives its pieces, as
/// `relative_components` states.
#[verifier::external_body]
fn path_components(path: &str) -> (r: Vec<PathPart>)
    ensures
        forall|i: int|
            0 <= i < r@.len() ==> (#[trigger] r@[i] matches PathPart::Normal(s) ==> is_plain_name(
                s@,
            )),
        starts_with_slash(path@) ==> r@.len() > 0 && (r@[0] is RootDir || r@[0] is Prefix),
        portable_path(path@) && !starts_with_slash(path@) ==> r@.map_values(|p: PathPart| p@)
            == relative_components(path@),
{
    std::path::Path::new(path).components().map(|c| match c {
        std::path::Component::Normal(s) => PathPart::Normal(s.to_string_lossy().into_owned()),
        std::path::Component::CurDir => PathPart::CurDir,
        std::path::Component::ParentDir => PathPart::ParentDir,
        std::path::Component::RootDir => PathPart::RootDir,
        std::path::Component::Prefix(_) => PathPart::Prefix,
    }).collect()
}

/// The names to push onto the frontend directory for these components, or
/// `None` where one of them is `..`, a root or a prefix.
pub fn safe_parts(parts: &Vec<PathPart>) -> (r: Option<Vec<String>>)
    ensures
        match safe_names(parts@.map_values(|p: PathPart| p@)) {
            Some(names) => r matches Some(v) && v@.map_values(|s: String| s@) == names,
            None => r is None,
        },
{
    let ghost model = parts@.map_values(|p: PathPart| p@);
    let mut names: Vec<String> = Vec::new();
    let mut i: usize = 0;
    while i < parts.len()
        invariant
            i <= parts.len(),
            model == parts@.map_values(|p: PathPart| p@),
            forall|j: int| 0 <= j < i ==> part_is_safe(#[trigger] model[j]),
            names@.map_values(|s: String| s@) == normal_names(model, i as int),
        decreases parts.len() - i,
    {
        match &parts[i] {
            PathPart::Normal(s) => {
                names.push(s.clone());
                assert(names@.map_values(|s: String| s@) =~= normal_names(model, i as int).push(
                    s@,
                ));
            },
            PathPart::CurDir => {},
            _ => {
                assert(!part_is_safe(model[i as int]));
                return None;
            },
        }
        i = i + 1;
    }
    Some(names)
}

/// The names under the frontend directory that a relative asset path
/// denotes, or `None` where the path would leave that directory.
pub fn safe_dist_path(relative_path: &str) -> (r: Option<Vec<String>>)
    ensures
        portable_path(relative_path@) && !starts_with_slash(relative_path@) ==> if has_parent_piece(
            relative_path@,
        ) {
            r is None
        } else {
            r is Some && r->Some_0@.map_values(|s: String| s@) == plain_pieces(relative_path@)
        },
        starts_with_slash(relative_path@) ==> r is None,
        r matches Some(v) ==> forall|i: int| 0 <= i < v@.len() ==> is_plain_name(#[trigger] v@[i]@),
{
    let parts = path_components(relative_path);
    let r = safe_parts(&parts);
    proof {
        let model = parts@.map_values(|p: PathPart| p@);
        if starts_with_slash(relative_path@) {
            assert(!part_is_safe(model[0]));
        }
        lemma_normal_names_from(model, model.len() as int);
        if portable_path(relative_path@) && !starts_with_slash(relative_path@) {
            let ps = slash_pieces(relative_path@);
            lemma_piece_components(ps, ps.len() as int);
            assert(model == piece_components(ps, ps.len() as int));
            if has_parent_piece(relative_path@) {
                let i = choose|i: int| 0 <= i < ps.len() && #[trigger] ps[i] == parent_dir_name();
                assert(dotdot_upto(ps, ps.len() as int));
            }
        }
        if let Some(v) = &r {
            assert forall|i: int| 0 <= i < v@.len() implies is_plain_name(#[trigger] v@[i]@) by {
                let names = normal_names(model, model.len() as int);
                assert(v@.map_values(|s: String| s@)[i] == names[i]);
                let j = choose|j: int|
                    0 <= j < model.len() && model[j] == PathPartModel::Normal(names[i]);
                assert(model[j] == parts@[j]@);
                assert(parts@[j] matches PathPart::Normal(_));
            }
        }
    }
    r
}

/// Some piece among the first `n` is `..`.
pub open spec fn dotdot_upto(ps: Seq<Seq<char>>, n: int) -> bool {
    exists|i: int| 0 <= i < n && #[trigger] ps[i] == parent_dir_name()
}

proof fn lemma_normal_names_prefix(parts: Seq<PathPartModel>, y: PathPartModel, k: int)
    requires
        0 <= k <= parts.len(),
    ensures
        normal_names(parts.push(y), k) == normal_names(parts, k),
    decreases k,
{
    if k > 0 {
        lemma_normal_names_prefix(parts, y, k - 1);
        assert(parts.push(y)[k - 1] == parts[k - 1]);
    }
}

proof fn lemma_piece_components(ps: Seq<Seq<char>>, n: int)
    requires
        0 <= n <= ps.len(),
    ensures
        (forall|j: int|
            0 <= j < piece_components(ps, n).len() ==> part_is_safe(
                #[trigger] piece_components(ps, n)[j],
            )) <==> !dotdot_upto(ps, n),
        !dotdot_upto(ps, n) ==> normal_names(
            piece_components(ps, n),
            piece_components(ps, n).len() as int,
        ) == plain_pieces_upto(ps, n),
    decreases n,
{
    if n > 0 {
        lemma_piece_components(ps, n - 1);
        let prev = piece_components(ps, n - 1);
        let cur = piece_components(ps, n);
        let x = ps[n - 1];
        assert(seq!['.'] != seq!['.', '.']) by {
            assert(seq!['.'].len() != seq!['.', '.'].len());
        }
        if dotdot_upto(ps, n - 1) {
            let i = choose|i: int| 0 <= i < n - 1 && #[trigger] ps[i] == parent_dir_name();
            assert(dotdot_upto(ps, n));
        }
        if x == parent_dir_name() {
            assert(dotdot_upto(ps, n));
            assert(cur[cur.len() - 1] == PathPartModel::ParentDir);
            assert(!part_is_safe(cur[cur.len() - 1]));
        } else {
            assert(dotdot_upto(ps, n) == dotdot_upto(ps, n - 1)) by {
                if dotdot_upto(ps, n) {
                    let i = choose|i: int| 0 <= i < n && #[trigger] ps[i] == parent_dir_name();
                    assert(i != n - 1);
                }
            }
            if cur != prev {
                let y = cur[cur.len() - 1];
                assert(cur == prev.push(y));
                assert(part_is_safe(y));
                if !dotdot_upto(ps, n) {
                    lemma_normal_names_prefix(prev, y, prev.len() as int);
                }
                assert((forall|j: int| 0 <= j < cur.len() ==> part_is_safe(#[trigger] cur[j]))
                    <==> (forall|j: int| 0 <= j < prev.len() ==> part_is_safe(#[trigger] prev[j])))
                    by {
                    if forall|j: int| 0 <= j < prev.len() ==> part_is_safe(#[trigger] prev[j]) {
                        assert forall|j: int| 0 <= j < cur.len() implies part_is_safe(
                            #[trigger] cur[j],
                        ) by {
                            if j < prev.len() {
                                assert(cur[j] == prev[j]);
                            }
                        }
                    }
                    if forall|j: int| 0 <= j < cur.len() ==> part_is_safe(#[trigger] cur[j]) {
                        assert forall|j: int| 0 <= j < prev.len() implies part_is_safe(
                            #[trigger] prev[j],
                        ) by {
                            assert(cur[j] == prev[j]);
                        }
                    }
                }
            }
        }
    }
}

proof fn lemma_normal_names_from(parts: Seq<PathPartModel>, n: int)
    requires
        n <= parts.len(),
    ensures
        forall|k: int|
            0 <= k < normal_names(parts, n).len() ==> exists|j: int|
                0 <= j < n && parts[j] == PathPartModel::Normal(
                    #[trigger] normal_names(parts, n)[k],
                ),
    decreases n,
{
    if n > 0 {
        lemma_normal_names_from(parts, n - 1);
        let prev = normal_names(parts, n - 1);
        let cur = normal_names(parts, n);
        assert forall|k: int| 0 <= k < cur.len() implies exists|j: int|
            0 <= j < n && parts[j] == PathPartModel::Normal(#[trigger] cur[k]) by {
            if k < prev.len() {
                assert(cur[k] == prev[k]);
                let j = choose|j: int| 0 <= j < n - 1 && parts[j] == PathPartModel::Normal(prev[k]);
                assert(parts[j] == PathPartModel::Normal(cur[k]));
            } else {
                assert(parts[n - 1] == PathPartModel::Normal(cur[k]));
            }
        }
    }
}

/// The content type served for a file with this extension.
pub open spec fn mime_type(ext: Option<Seq<char>>) -> Seq<char> {
    match ext {
        Some(e) => if e == "css"@ {
            "text/css; charset=utf-8"@
        } else if e == "html"@ {
            "text/html; charset=utf-8"@
        } else if e == "js"@ {
            "text/javascript; charset=utf-8"@
        } else if e == "json"@ {
            "application/json; charset=utf-8"@
        } else if e == "png"@ {
            "image/png"@
        } else if e == "svg"@ {
            "image/svg+xml"@
        } else if e == "wasm"@ {
            "application/wasm"@
        } else {
            "application/octet-stream"@
        },
        None => "application/octet-stream"@,
    }
}

/// The content type for a file extension (`None`: the file has none).
pub fn mime_for_extension(ext: &Option<String>) -> (r: &'static str)
    ensures
        r@ == mime_type(
            match ext {
                Some(e) => Some(e@),
                None => None,
            },
        ),
{
    match ext {
        None => "application/octet-stream",
        Some(e) => {
            let e = e.as_str();
            if str_eq(e, "css") {
                "text/css; charset=utf-8"
            } else if str_eq(e, "html") {
                "text/html; charset=utf-8"
            } else if str_eq(e, "js") {
                "text/javascript; charset=utf-8"
            } else if str_eq(e, "json") {
                "application/json; charset=utf-8"
            } else if str_eq(e, "png") {
                "image/png"
            } else if str_eq(e, "svg") {
                "image/svg+xml"
            } else if str_eq(e, "wasm") {
                "application/wasm"
            } else {
                "application/octet-stream"
            }
        },
    }
}

/// The content type served for the file at `path`, by its extension.
pub fn mime_for_path(path: &str) -> (r: &'static str)
    ensures
        exists|ext: Option<Seq<char>>| r@ == #[trigger] mime_type(ext),
        !path@.contains('.') ==> r@ == mime_type(None),
        portable_path(path@) ==> r@ == mime_type(portable_extension(path@)),
{
    let ext = path_extension(path);
    let r = mime_for_extension(&ext);
    assert(r@ == mime_type(ext.deep_view()));
    r
}

/// What the announce loop logs after an announcement attempt.
#[derive(Clone, Copy, Debug, PartialEq, Eq, Structural)]
pub enum AnnounceLog {
    /// The agent accepted the announcement.
    Announced,
    /// The agent is not (or no longer) reachable.
    Waiting,
}

/// The announce loop's step: the new "last announced" flag, and a log line
/// only where the outcome changed since the previous attempt.
pub fn announce_step(last_announced: bool, announced: bool) -> (r: (bool, Option<AnnounceLog>))
    ensures
        r.0 == announced,
        announced == last_announced ==> r.1 is None,
        announced != last_announced ==> r.1 == Some(
            if announced {
                AnnounceLog::Announced
            } else {
                AnnounceLog::Waiting
            },
        ),
{
    if announced != last_announced {
        let log = if announced {
            AnnounceLog::Announced
        } else {
            AnnounceLog::Waiting
        };
        (announced, Some(log))
    } else {
        (last_announced, None)
    }
}

} // verus!
