//! Paths as the installer sees them: an optional root followed by named
//! components, as `std::path::Path::components` yields them on macOS. The
//! application bundle is the nearest ancestor named `*.app`.

use vstd::prelude::*;
use crate::text::{chars_of, ends_with, has_suffix};
use vstd::string::StringExecFns;

verus! {

/// A path: whether it starts at the root `/`, and its components in order
/// (`.` and `..` stand for themselves).
#[derive(Debug)]
pub struct AppPath {
    pub has_root: bool,
    pub parts: Vec<String>,
}

/// The texts of a list of strings.
pub open spec fn names_of(parts: Seq<String>) -> Seq<Seq<char>> {
    parts.map_values(|p: String| p@)
}

impl AppPath {
    /// The components as character sequences.
    pub open spec fn names(&self) -> Seq<Seq<char>> {
        names_of(self.parts@)
    }
}

/// A component whose extension is `app`: it ends in `.app` and has a
/// non-empty stem before it.
pub open spec fn is_app_name(name: Seq<char>) -> bool {
    name.len() > 4 && has_suffix(name, ".app"@)
}

/// How many leading components make up the application bundle that contains
/// a path with components `names`: the longest prefix (the path itself
/// included) whose last component is named `*.app`.
pub open spec fn bundle_len(names: Seq<Seq<char>>) -> Option<nat>
    decreases names.len(),
{
    if names.len() == 0 {
        None
    } else if is_app_name(names.last()) {
        Some(names.len())
    } else {
        bundle_len(names.drop_last())
    }
}

/// `bundle_len` picks the last component named `*.app`: the bundle is the
/// deepest ancestor with such a name.
pub proof fn lemma_bundle_len(names: Seq<Seq<char>>)
    ensures
        match bundle_len(names) {
            Some(k) => 1 <= k <= names.len() && is_app_name(names[k - 1]) && forall|j: int|
                k <= j < names.len() ==> !is_app_name(#[trigger] names[j]),
            None => forall|j: int| 0 <= j < names.len() ==> !is_app_name(#[trigger] names[j]),
        },
    decreases names.len(),
{
    if names.len() > 0 && !is_app_name(names.last()) {
        lemma_bundle_len(names.drop_last());
        assert forall|j: int| 0 <= j < names.len() - 1 implies names.drop_last()[j] == names[j] by {}
    }
}

/// The text of a list of components joined by `/`.
pub open spec fn join_names(names: Seq<Seq<char>>) -> Seq<char>
    decreases names.len(),
{
    if names.len() == 0 {
        Seq::empty()
    } else if names.len() == 1 {
        names[0]
    } else {
        join_names(names.drop_last()) + "/"@ + names.last()
    }
}

/// How a path is displayed: `/` before the joined components of a rooted path.
pub open spec fn render_spec(has_root: bool, names: Seq<Seq<char>>) -> Seq<char> {
    if has_root {
        "/"@ + join_names(names)
    } else {
        join_names(names)
    }
}

/// Whether a component is named `*.app`.
pub fn is_app_component(name: &str) -> (r: bool)
    ensures
        r == is_app_name(name@),
{
    let n = chars_of(name);
    let suffix = chars_of(".app");
    n.len() > 4 && ends_with(&n, &suffix)
}

/// The first index at or after `start` of a name of the form `*.app`.
pub open spec fn first_app_name(names: Seq<Seq<char>>, start: int) -> Option<int>
    decreases names.len() - start,
{
    if start < 0 || start >= names.len() {
        None
    } else if is_app_name(names[start]) {
        Some(start)
    } else {
        first_app_name(names, start + 1)
    }
}

/// The entry chosen from a directory listing is the first whose name has the
/// extension `app` (a non-empty stem followed by `.app`), wherever it stands
/// in the listing, the last entry included; nothing is chosen only when no
/// entry has such a name.
pub proof fn law_first_app_entry(names: Seq<Seq<char>>)
    ensures
        match first_app_name(names, 0) {
            Some(i) => 0 <= i < names.len() && names[i].len() > 4 && names[i].subrange(
                names[i].len() - 4,
                names[i].len() as int,
            ) == ".app"@ && forall|j: int|
                0 <= j < i ==> !(#[trigger] names[j].len() > 4 && names[j].subrange(
                    names[j].len() - 4,
                    names[j].len() as int,
                ) == ".app"@),
            None => forall|j: int|
                0 <= j < names.len() ==> !(#[trigger] names[j].len() > 4 && names[j].subrange(
                    names[j].len() - 4,
                    names[j].len() as int,
                ) == ".app"@),
        },
{
    reveal_strlit(".app");
    assert(".app"@.len() == 4);
    lemma_first_app_name(names, 0);
}

/// `first_app_name` from `start` is the least index at or after `start` of a
/// `*.app` name.
proof fn lemma_first_app_name(names: Seq<Seq<char>>, start: int)
    requires
        0 <= start,
    ensures
        match first_app_name(names, start) {
            Some(i) => start <= i < names.len() && is_app_name(names[i]) && forall|j: int|
                start <= j < i ==> !is_app_name(#[trigger] names[j]),
            None => forall|j: int| start <= j < names.len() ==> !is_app_name(#[trigger] names[j]),
        },
    decreases names.len() - start,
{
    if start < names.len() && !is_app_name(names[start]) {
        lemma_first_app_name(names, start + 1);
    }
}

/// Picks the first directory entry, in listing order, whose name has the
/// extension `app`.
pub fn first_app_entry(names: &[String]) -> (r: Option<usize>)
    ensures
        r is Some <==> first_app_name(names_of(names@), 0) is Some,
        r matches Some(i) ==> first_app_name(names_of(names@), 0) == Some(i as int) && i
            < names.len(),
{
    let mut i: usize = 0;
    while i < names.len()
        invariant
            i <= names.len(),
            first_app_name(names_of(names@), 0) == first_app_name(names_of(names@), i as int),
        decreases names.len() - i,
    {
        assert(names_of(names@)[i as int] == names@[i as int]@);
        if is_app_component(names[i].as_str()) {
            return Some(i);
        }
        i = i + 1;
    }
    None
}

/// A copy of the first `k` components of `path`.
fn prefix_of(path: &AppPath, k: usize) -> (r: AppPath)
    requires
        k <= path.parts.len(),
    ensures
        r.has_root == path.has_root,
        r.names() == path.names().take(k as int),
{
    let mut parts: Vec<String> = Vec::new();
    let mut i: usize = 0;
    while i < k
        invariant
            i <= k <= path.parts.len(),
            parts@.len() == i,
            names_of(parts@) == path.names().take(i as int),
        decreases k - i,
    {
        let ghost before = parts@;
        let c = path.parts[i].clone();
        assert(c@ == path.parts@[i as int]@);
        parts.push(c);
        assert(parts@ == before.push(c));
        assert(names_of(parts@).len() == i + 1);
        assert forall|j: int| 0 <= j < i + 1 implies #[trigger] names_of(parts@)[j]
            == path.names().take(i + 1)[j] by {
            assert(names_of(parts@)[j] == parts@[j]@);
            assert(path.names()[j] == path.parts@[j]@);
            if j < i {
                assert(parts@[j] == before[j]);
                assert(names_of(before)[j] == before[j]@);
                assert(names_of(before)[j] == path.names().take(i as int)[j]);
            }
        }
        assert(names_of(parts@) =~= path.names().take(i + 1));
        i = i + 1;
    }
    AppPath { has_root: path.has_root, parts }
}

/// Walks up from the executable's path to the `.app` bundle that contains it:
/// the path itself or its nearest ancestor whose last component is named
/// `*.app`; `None` when there is none (as when running outside a bundle).
pub fn find_app_bundle(exe_path: &AppPath) -> (r: Option<AppPath>)
    ensures
        match bundle_len(exe_path.names()) {
            Some(k) => r matches Some(b) && b.has_root == exe_path.has_root && b.names()
                == exe_path.names().take(k as int),
            None => r is None,
        },
{
    let mut k: usize = exe_path.parts.len();
    assert(exe_path.names().take(k as int) =~= exe_path.names());
    while k > 0
        invariant
            k <= exe_path.parts.len(),
            bundle_len(exe_path.names()) == bundle_len(exe_path.names().take(k as int)),
        decreases k,
    {
        if is_app_component(exe_path.parts[k - 1].as_str()) {
            return Some(prefix_of(exe_path, k));
        }
        assert(exe_path.names().take(k as int).drop_last() =~= exe_path.names().take(k - 1));
        k = k - 1;
    }
    None
}

/// The directory that holds a file: the path without its last component, or
/// `/tmp` when the path has no component to drop (it is `/` or empty).
pub open spec fn containing_dir_spec(has_root: bool, names: Seq<Seq<char>>) -> (bool, Seq<
    Seq<char>,
>) {
    if names.len() > 0 {
        (has_root, names.drop_last())
    } else {
        (true, seq!["tmp"@])
    }
}

/// Displays a path: `/` for the root, then the components joined by `/`.
pub fn render(path: &AppPath) -> (r: String)
    ensures
        r@ == render_spec(path.has_root, path.names()),
{
    let mut out = if path.has_root {
        "/".to_owned()
    } else {
        String::new()
    };
    let ghost lead: Seq<char> = if path.has_root {
        "/"@
    } else {
        Seq::empty()
    };
    let mut i: usize = 0;
    while i < path.parts.len()
        invariant
            i <= path.parts.len(),
            out@ == lead + join_names(path.names().take(i as int)),
        decreases path.parts.len() - i,
    {
        let ghost prev = out@;
        if i > 0 {
            out.append("/");
        }
        out.append(path.parts[i].as_str());
        assert(path.names().take(i + 1).drop_last() =~= path.names().take(i as int));
        assert(path.names().take(i + 1).last() == path.parts@[i as int]@);
        if i == 0 {
            assert(join_names(path.names().take(1)) == path.names().take(1)[0]);
            assert(out@ =~= lead + join_names(path.names().take(i + 1)));
        } else {
            assert(out@ =~= lead + join_names(path.names().take(i + 1)));
        }
        i = i + 1;
    }
    assert(path.names().take(i as int) =~= path.names());
    out
}

/// A copy of a path's components.
fn copy_parts(parts: &Vec<String>) -> (r: Vec<String>)
    ensures
        names_of(r@) == names_of(parts@),
{
    let mut out: Vec<String> = Vec::new();
    let mut i: usize = 0;
    while i < parts.len()
        invariant
            i <= parts.len(),
            out@.len() == i,
            names_of(out@) == names_of(parts@).take(i as int),
        decreases parts.len() - i,
    {
        let ghost before = out@;
        let c = parts[i].clone();
        out.push(c);
        assert forall|j: int| 0 <= j < i + 1 implies #[trigger] names_of(out@)[j]
            == names_of(parts@).take(i + 1)[j] by {
            if j < i {
                assert(out@[j] == before[j]);
            }
        }
        assert(names_of(out@) =~= names_of(parts@).take(i + 1));
        i = i + 1;
    }
    assert(names_of(parts@).take(i as int) =~= names_of(parts@));
    out
}

/// The directory holding the file at `path`, or `/tmp` when `path` names no
/// file (`Path::parent` followed by `unwrap_or("/tmp")`).
pub fn containing_dir(path: &AppPath) -> (r: AppPath)
    ensures
        (r.has_root, r.names()) == containing_dir_spec(path.has_root, path.names()),
{
    let mut parts = copy_parts(&path.parts);
    if parts.len() > 0 {
        let ghost before = parts@;
        parts.pop();
        assert(names_of(parts@) =~= names_of(before).drop_last());
        AppPath { has_root: path.has_root, parts }
    } else {
        let mut tmp: Vec<String> = Vec::new();
        tmp.push("tmp".to_owned());
        assert(names_of(tmp@) =~= seq!["tmp"@]);
        AppPath { has_root: true, parts: tmp }
    }
}

/// `path` with one more component `name` at its end.
pub fn join(path: &AppPath, name: &str) -> (r: AppPath)
    ensures
        r.has_root == path.has_root,
        r.names() == path.names().push(name@),
{
    let mut parts = copy_parts(&path.parts);
    let ghost before = parts@;
    parts.push(name.to_owned());
    assert(names_of(parts@) =~= names_of(before).push(name@));
    AppPath { has_root: path.has_root, parts }
}

/// The path beside a bundle where its replacement is staged: the bundle's
/// last component with `.new` after it (`Path::with_extension("app.new")` on a
/// `*.app` path).
pub fn staging_path(bundle: &AppPath) -> (r: AppPath)
    requires
        bundle.parts.len() > 0,
    ensures
        r.has_root == bundle.has_root,
        r.names() == bundle.names().drop_last().push(bundle.names().last() + ".new"@),
{
    let mut parts = copy_parts(&bundle.parts);
    let ghost before = parts@;
    let last = parts.pop();
    let mut name = match last {
        Some(s) => s,
        None => String::new(),
    };
    let ghost old_name = name@;
    assert(old_name == names_of(before).last());
    name.append(".new");
    parts.push(name);
    assert(names_of(parts@) =~= names_of(before).drop_last().push(old_name + ".new"@));
    AppPath { has_root: bundle.has_root, parts }
}

} // verus!
