use vstd::prelude::*;

use crate::model::PluginError;
use crate::paths::{
    joined, listing_has, names_of, names_with_ext, names_with_extension,
    str_eq, PathResolver,
};

verus! {

/// What the builder sees of a project directory. Each listing holds the
/// entry names of one directory in the order the filesystem returned them,
/// and is empty when that directory is absent or unreadable.
#[derive(Debug, Clone, PartialEq, Eq)]
pub struct ProjectView {
    /// The project path names a directory.
    pub is_dir: bool,
    /// Entries of the project root.
    pub root: Vec<String>,
    /// Entries of `assembly/`.
    pub assembly: Vec<String>,
    /// Entries of `src/`.
    pub src: Vec<String>,
    /// Text of `package.json`, when it could be read.
    pub manifest: Option<String>,
}

/// `t` occurs in `s` as a contiguous run.
pub open spec fn contains(s: Seq<char>, t: Seq<char>) -> bool {
    exists|i: int| 0 <= i && i + t.len() <= s.len() && #[trigger] s.subrange(i, i + t.len()) == t
}

/// The manifest could be read and mentions the compiler (`asc`, which also
/// covers the scoped `@asc`).
pub open spec fn manifest_mentions_compiler(v: ProjectView) -> bool {
    v.manifest is Some && contains(v.manifest->0@, "asc"@)
}

/// The root holds a `package.json`.
pub open spec fn has_manifest(v: ProjectView) -> bool {
    listing_has(v.root@, "package.json"@)
}

/// Listing of searched directory `d`: 0 is `assembly/`, 1 is `src/`, 2 the root.
pub open spec fn listing(v: ProjectView, d: int) -> Seq<String> {
    if d == 0 {
        v.assembly@
    } else if d == 1 {
        v.src@
    } else {
        v.root@
    }
}

/// Path of searched directory `d` under `project`.
pub open spec fn dir_path(project: Seq<char>, d: int) -> Seq<char> {
    if d == 0 {
        joined(project, "assembly"@)
    } else if d == 1 {
        joined(project, "src"@)
    } else {
        project
    }
}

/// The exact entry-file candidates, most idiomatic first.
pub open spec fn entry_candidates() -> Seq<Seq<char>> {
    seq![
        "assembly/index.ts"@,
        "assembly/main.ts"@,
        "src/index.ts"@,
        "src/main.ts"@,
        "index.ts"@,
        "main.ts"@,
    ]
}

/// File name of candidate `k`; the candidate lies in searched directory `k / 2`.
pub open spec fn candidate_name(k: int) -> Seq<char> {
    if k % 2 == 0 {
        "index.ts"@
    } else {
        "main.ts"@
    }
}

pub open spec fn candidate_present(v: ProjectView, k: int) -> bool {
    listing_has(listing(v, k / 2), candidate_name(k))
}

/// The first candidate from `k` on that is present.
pub open spec fn first_candidate_from(v: ProjectView, k: int) -> Option<int>
    decreases 6 - k,
{
    if k < 0 || k >= 6 {
        None
    } else if candidate_present(v, k) {
        Some(k)
    } else {
        first_candidate_from(v, k + 1)
    }
}

/// Names of TypeScript sources in searched directory `d`, in listing order.
pub open spec fn sources_in(v: ProjectView, d: int) -> Seq<Seq<char>> {
    names_with_extension(names_of(listing(v, d)), "ts"@)
}

/// The first searched directory from `d` on that holds a TypeScript source.
pub open spec fn first_source_dir_from(v: ProjectView, d: int) -> Option<int>
    decreases 3 - d,
{
    if d < 0 || d >= 3 {
        None
    } else if sources_in(v, d).len() > 0 {
        Some(d)
    } else {
        first_source_dir_from(v, d + 1)
    }
}

/// The entry file of a project, as its path and its file name: the first
/// present candidate, else the first TypeScript source of the first searched
/// directory that holds one, else none.
pub open spec fn entry_of(project: Seq<char>, v: ProjectView) -> Option<(Seq<char>, Seq<char>)> {
    match first_candidate_from(v, 0) {
        Some(k) => Some((joined(project, entry_candidates()[k]), candidate_name(k))),
        None => match first_source_dir_from(v, 0) {
            Some(d) => Some((joined(dir_path(project, d), sources_in(v, d)[0]), sources_in(v, d)[0])),
            None => None,
        },
    }
}

/// `r` is the error that names the candidates after a failed search.
pub open spec fn is_missing_entry(r: PluginError) -> bool {
    match r {
        PluginError::MissingEntryFile { candidates } => names_of(candidates@) == entry_candidates(),
        _ => false,
    }
}

/// The listing holds `name`.
pub fn listing_contains(names: &Vec<String>, name: &str) -> (r: bool)
    ensures
        r == listing_has(names@, name@),
{
    let mut i: usize = 0;
    while i < names.len()
        invariant
            i <= names@.len(),
            forall|j: int| 0 <= j < i ==> names@[j]@ != name@,
        decreases names@.len() - i,
    {
        if str_eq(names[i].as_str(), name) {
            return true;
        }
        i = i + 1;
    }
    false
}

/// `t` occurs in `s`.
pub fn str_contains(s: &str, t: &str) -> (r: bool)
    ensures
        r == contains(s@, t@),
{
    let n = s.unicode_len();
    let m = t.unicode_len();
    if m > n {
        return false;
    }
    let mut i: usize = 0;
    while i <= n - m
        invariant
            n == s@.len(),
            m == t@.len(),
            m <= n,
            i <= n - m + 1,
            forall|j: int| 0 <= j < i ==> #[trigger] s@.subrange(j, j + m) != t@,
        decreases n - m + 1 - i,
    {
        let piece = s.substring_char(i, i + m);
        if str_eq(piece, t) {
            return true;
        }
        if i == n - m {
            return false;
        }
        i = i + 1;
    }
    false
}

/// Whether the manifest mentions the compiler.
pub fn mentions_compiler(v: &ProjectView) -> (r: bool)
    ensures
        r == manifest_mentions_compiler(*v),
{
    match &v.manifest {
        Some(text) => str_contains(text.as_str(), "asc"),
        None => false,
    }
}

fn listing_exec(v: &ProjectView, d: usize) -> (r: &Vec<String>)
    ensures
        r@ == listing(*v, d as int),
{
    if d == 0 {
        &v.assembly
    } else if d == 1 {
        &v.src
    } else {
        &v.root
    }
}

fn candidate_exec(k: usize) -> (r: (&'static str, &'static str))
    requires
        k < 6,
    ensures
        r.0@ == entry_candidates()[k as int],
        r.1@ == candidate_name(k as int),
{
    if k == 0 {
        ("assembly/index.ts", "index.ts")
    } else if k == 1 {
        ("assembly/main.ts", "main.ts")
    } else if k == 2 {
        ("src/index.ts", "index.ts")
    } else if k == 3 {
        ("src/main.ts", "main.ts")
    } else if k == 4 {
        ("index.ts", "index.ts")
    } else {
        ("main.ts", "main.ts")
    }
}

fn dir_path_exec(project: &str, d: usize) -> (r: String)
    ensures
        r@ == dir_path(project@, d as int),
{
    if d == 0 {
        PathResolver::join_paths(project, "assembly")
    } else if d == 1 {
        PathResolver::join_paths(project, "src")
    } else {
        String::from_str(project)
    }
}

/// The entry-file candidates, as a list.
pub fn entry_candidate_list() -> (r: Vec<String>)
    ensures
        names_of(r@) == entry_candidates(),
{
    let mut r: Vec<String> = Vec::new();
    let mut k: usize = 0;
    while k < 6
        invariant
            k <= 6,
            names_of(r@) == entry_candidates().take(k as int),
        decreases 6 - k,
    {
        let ghost before = r@;
        let (rel, _) = candidate_exec(k);
        r.push(String::from_str(rel));
        assert(entry_candidates().take(k + 1) == entry_candidates().take(k as int).push(
            entry_candidates()[k as int],
        ));
        assert(names_of(r@) == names_of(before).push(rel@));
        k = k + 1;
    }
    assert(entry_candidates().take(6) == entry_candidates());
    r
}

/// The entry file of the project at `project`, as its path and file name.
pub fn locate_entry(project: &str, v: &ProjectView) -> (r: Option<(String, String)>)
    ensures
        match entry_of(project@, *v) {
            Some(e) => match r {
                Some((path, name)) => path@ == e.0 && name@ == e.1,
                None => false,
            },
            None => r is None,
        },
{
    let mut k: usize = 0;
    while k < 6
        invariant
            k <= 6,
            first_candidate_from(*v, 0) == first_candidate_from(*v, k as int),
        decreases 6 - k,
    {
        let (rel, name) = candidate_exec(k);
        if listing_contains(listing_exec(v, k / 2), name) {
            return Some((PathResolver::join_paths(project, rel), String::from_str(name)));
        }
        k = k + 1;
    }
    let mut d: usize = 0;
    while d < 3
        invariant
            d <= 3,
            first_candidate_from(*v, 0) is None,
            first_source_dir_from(*v, 0) == first_source_dir_from(*v, d as int),
        decreases 3 - d,
    {
        let found = names_with_ext(listing_exec(v, d), "ts");
        if found.len() > 0 {
            let dir = dir_path_exec(project, d);
            let name = found[0].clone();
            assert(names_of(found@)[0] == found@[0]@);
            return Some((PathResolver::join_paths(dir.as_str(), name.as_str()), name));
        }
        d = d + 1;
    }
    None
}

/// Some exact candidate is present.
pub fn has_candidate(v: &ProjectView) -> (r: bool)
    ensures
        r == first_candidate_from(*v, 0) is Some,
{
    let mut k: usize = 0;
    while k < 6
        invariant
            k <= 6,
            first_candidate_from(*v, 0) == first_candidate_from(*v, k as int),
        decreases 6 - k,
    {
        let (_, name) = candidate_exec(k);
        if listing_contains(listing_exec(v, k / 2), name) {
            return true;
        }
        k = k + 1;
    }
    false
}

proof fn lemma_first_candidate_from(v: ProjectView, k: int)
    requires
        0 <= k <= 6,
    ensures
        first_candidate_from(v, k) is None <==> forall|j: int|
            k <= j < 6 ==> !#[trigger] candidate_present(v, j),
    decreases 6 - k,
{
    if k < 6 {
        lemma_first_candidate_from(v, k + 1);
    }
}

proof fn lemma_first_source_dir_from(v: ProjectView, d: int)
    requires
        0 <= d <= 3,
    ensures
        first_source_dir_from(v, d) is None <==> forall|j: int|
            d <= j < 3 ==> #[trigger] sources_in(v, j).len() == 0,
    decreases 3 - d,
{
    if d < 3 {
        lemma_first_source_dir_from(v, d + 1);
    }
}

/// No entry file is found exactly when no exact candidate is present and no
/// searched directory holds a TypeScript source.
pub proof fn lemma_no_entry(project: Seq<char>, v: ProjectView)
    ensures
        entry_of(project, v) is None <==> (forall|k: int| 0 <= k < 6 ==> !#[trigger] candidate_present(v, k))
            && (forall|d: int| 0 <= d < 3 ==> #[trigger] sources_in(v, d).len() == 0),
{
    lemma_first_candidate_from(v, 0);
    lemma_first_source_dir_from(v, 0);
}

proof fn lemma_only_candidate_first(v: ProjectView, k: int, j: int)
    requires
        0 <= j <= k < 6,
        candidate_present(v, k),
        forall|i: int| 0 <= i < 6 && i != k ==> !#[trigger] candidate_present(v, i),
    ensures
        first_candidate_from(v, j) == Some(k),
    decreases k - j,
{
    if j < k {
        lemma_only_candidate_first(v, k, j + 1);
    }
}

/// A project holding exactly one exact candidate has that candidate's path
/// as its entry file.
pub proof fn lemma_single_candidate_is_entry(project: Seq<char>, v: ProjectView, k: int)
    requires
        0 <= k < 6,
        candidate_present(v, k),
        forall|j: int| 0 <= j < 6 && j != k ==> !#[trigger] candidate_present(v, j),
    ensures
        entry_of(project, v) == Some((joined(project, entry_candidates()[k]), candidate_name(k))),
{
    lemma_only_candidate_first(v, k, 0);
}

} // verus!
