//! What the workspace stager copies and writes, and where.
//!
//! The project tree is read as a list of entries (relative paths, split into
//! components). Entries under a dependency cache or a virtual environment are
//! never staged. A project of a wrapped kind is staged under a wrapper
//! directory, beside a copy of its manifest and a service descriptor.
use vstd::prelude::*;
use crate::kinds::ProjectKind;
use crate::text::{chars_of, decimal, push_decimal, push_str, same_chars};

verus! {

/// The directory that wraps a single service.
pub const WRAPPER_DIR: &'static str = "wrapper";

/// The workspace directory that holds the helper scripts.
pub const SCRIPTS_DIR: &'static str = "scripts";

/// Permission bits of the helper scripts: read and execute for everyone,
/// write for the owner.
pub const SCRIPT_MODE: u32 = 0o755;

/// The start of every workspace directory name.
pub const WORKSPACE_PREFIX: &'static str = "servicemaker-";

/// Whether an entry of this name is left out of the staged copy.
pub open spec fn excluded_name(n: Seq<char>) -> bool {
    n == seq!['.', 'v', 'e', 'n', 'v'] || n == seq![
        'n',
        'o',
        'd',
        'e',
        '_',
        'm',
        'o',
        'd',
        'u',
        'l',
        'e',
        's',
    ]
}

/// Whether some component of the path `p` has an excluded name.
pub open spec fn path_excluded(p: Seq<Seq<char>>) -> bool {
    exists|i: int| 0 <= i < p.len() && #[trigger] excluded_name(p[i])
}

/// Whether `a` is `b` or one of its ancestors.
pub open spec fn is_prefix(a: Seq<Seq<char>>, b: Seq<Seq<char>>) -> bool {
    a.len() <= b.len() && b.take(a.len() as int) == a
}

/// The components of a path.
pub open spec fn path_view(p: Seq<String>) -> Seq<Seq<char>> {
    p.map_values(|s: String| s@)
}

/// An entry of the project tree: its path below the project home, and
/// whether it is a directory.
pub struct TreeEntry {
    pub path: Vec<String>,
    pub is_dir: bool,
}

/// An entry to stage: where it comes from below the project home, where it
/// goes below the workspace, and whether it is a directory to create.
pub struct StagedEntry {
    pub source: Vec<String>,
    pub target: Vec<String>,
    pub is_dir: bool,
}

pub open spec fn tree_view(es: Seq<TreeEntry>) -> Seq<(Seq<Seq<char>>, bool)> {
    es.map_values(|e: TreeEntry| (path_view(e.path@), e.is_dir))
}

pub open spec fn staged_view(es: Seq<StagedEntry>) -> Seq<(Seq<Seq<char>>, Seq<Seq<char>>, bool)> {
    es.map_values(|e: StagedEntry| (path_view(e.source@), path_view(e.target@), e.is_dir))
}

/// The wrapper directory's name.
pub open spec fn wrapper_dir() -> Seq<char> {
    WRAPPER_DIR@
}

/// Where the project tree goes below the workspace.
pub open spec fn stage_root(kind: ProjectKind, dir: Seq<char>) -> Seq<Seq<char>> {
    if kind is SingleService {
        seq![wrapper_dir(), dir]
    } else {
        seq![dir]
    }
}

/// The staged form of one tree entry, if it is staged at all.
pub open spec fn staged_entry(kind: ProjectKind, dir: Seq<char>, e: (Seq<Seq<char>>, bool)) -> Option<
    (Seq<Seq<char>>, Seq<Seq<char>>, bool),
> {
    if path_excluded(e.0) {
        None
    } else {
        Some((e.0, stage_root(kind, dir) + e.0, e.1))
    }
}

/// The staged copy of a project tree, in the tree's order.
pub open spec fn staged_tree(
    kind: ProjectKind,
    dir: Seq<char>,
    entries: Seq<(Seq<Seq<char>>, bool)>,
) -> Seq<(Seq<Seq<char>>, Seq<Seq<char>>, bool)> {
    entries.filter_map(|e: (Seq<Seq<char>>, bool)| staged_entry(kind, dir, e))
}

/// Whether an entry named `name` is left out of the staged copy.
pub fn is_excluded_name(name: &str) -> (r: bool)
    ensures
        r == excluded_name(name@),
{
    let n = chars_of(name);
    let venv: Vec<char> = vec!['.', 'v', 'e', 'n', 'v'];
    let modules: Vec<char> = vec!['n', 'o', 'd', 'e', '_', 'm', 'o', 'd', 'u', 'l', 'e', 's'];
    assert(venv@ =~= seq!['.', 'v', 'e', 'n', 'v']);
    assert(modules@ =~= seq!['n', 'o', 'd', 'e', '_', 'm', 'o', 'd', 'u', 'l', 'e', 's']);
    same_chars(&n, &venv) || same_chars(&n, &modules)
}

fn has_excluded_component(path: &Vec<String>) -> (r: bool)
    ensures
        r == path_excluded(path_view(path@)),
{
    let ghost p = path_view(path@);
    let n = path.len();
    let mut i: usize = 0;
    while i < n
        invariant
            n == path@.len(),
            p == path_view(path@),
            i <= n,
            forall|j: int| 0 <= j < i ==> !excluded_name(#[trigger] p[j]),
        decreases n - i,
    {
        if is_excluded_name(path[i].as_str()) {
            assert(excluded_name(p[i as int]));
            return true;
        }
        i = i + 1;
    }
    false
}

fn append_path(out: &mut Vec<String>, p: &Vec<String>)
    ensures
        path_view(final(out)@) == path_view(old(out)@) + path_view(p@),
{
    let ghost start = path_view(out@);
    let n = p.len();
    let mut i: usize = 0;
    assert(path_view(out@) =~= start + path_view(p@.take(0)));
    while i < n
        invariant
            n == p@.len(),
            i <= n,
            start == path_view(old(out)@),
            path_view(out@) == start + path_view(p@.take(i as int)),
        decreases n - i,
    {
        let c = p[i].clone();
        assert(c@ == p@[i as int]@);
        let ghost before = out@;
        out.push(c);
        i = i + 1;
        assert(out@ =~= before.push(c));
        assert(p@.take(i as int) =~= p@.take(i - 1 as int).push(p@[i - 1]));
        assert(path_view(out@) =~= path_view(before).push(c@));
        assert(path_view(p@.take(i as int)) =~= path_view(p@.take(i - 1 as int)).push(c@));
        assert(path_view(out@) =~= start + path_view(p@.take(i as int)));
    }
    assert(p@.take(n as int) =~= p@);
}

fn clone_path(p: &Vec<String>) -> (r: Vec<String>)
    ensures
        path_view(r@) == path_view(p@),
{
    let mut r: Vec<String> = Vec::new();
    append_path(&mut r, p);
    assert(path_view(Seq::<String>::empty()) + path_view(p@) =~= path_view(p@));
    r
}

/// The name of the project directory inside the workspace: the wrapper for
/// a wrapped kind, the project's own directory name otherwise.
pub fn staged_project_dir(kind: ProjectKind, dir_name: &str) -> (r: String)
    ensures
        r@ == (if kind is SingleService {
            wrapper_dir()
        } else {
            dir_name@
        }),
{
    if kind.is_wrapped() {
        WRAPPER_DIR.to_owned()
    } else {
        dir_name.to_owned()
    }
}

/// Where the project tree goes below the workspace, as path components.
pub fn stage_root_dirs(kind: ProjectKind, dir_name: &str) -> (r: Vec<String>)
    ensures
        path_view(r@) == stage_root(kind, dir_name@),
{
    let mut root: Vec<String> = Vec::new();
    if kind.is_wrapped() {
        root.push(WRAPPER_DIR.to_owned());
    }
    root.push(dir_name.to_owned());
    assert(path_view(root@) =~= stage_root(kind, dir_name@));
    root
}

/// The staged copy of a project tree whose directory is named `dir_name`:
/// each entry outside an excluded directory, placed below the stage root.
pub fn plan_tree_copy(kind: ProjectKind, dir_name: &str, entries: &Vec<TreeEntry>) -> (r: Vec<
    StagedEntry,
>)
    ensures
        staged_view(r@) == staged_tree(kind, dir_name@, tree_view(entries@)),
{
    let ghost es = tree_view(entries@);
    let ghost f = |e: (Seq<Seq<char>>, bool)| staged_entry(kind, dir_name@, e);
    let root = stage_root_dirs(kind, dir_name);
    let mut out: Vec<StagedEntry> = Vec::new();
    let n = entries.len();
    let mut i: usize = 0;
    while i < n
        invariant
            n == entries@.len(),
            es == tree_view(entries@),
            f == (|e: (Seq<Seq<char>>, bool)| staged_entry(kind, dir_name@, e)),
            path_view(root@) == stage_root(kind, dir_name@),
            i <= n,
            staged_view(out@) == es.take(i as int).filter_map(f),
        decreases n - i,
    {
        proof {
            es.lemma_filter_map_take_succ(f, i as int);
        }
        let e = &entries[i];
        if !has_excluded_component(&e.path) {
            let mut target = clone_path(&root);
            append_path(&mut target, &e.path);
            out.push(StagedEntry { source: clone_path(&e.path), target, is_dir: e.is_dir });
        }
        i = i + 1;
        assert(staged_view(out@) =~= es.take(i as int).filter_map(f));
    }
    assert(es.take(n as int) =~= es);
    out
}

/// Staging leaves out everything under an excluded directory: where the
/// tree holds a directory `excluded` with an excluded name, at any depth, no
/// staged entry comes from it or from below it, and none goes to its place
/// in the workspace or below.
pub proof fn lemma_staging_skips_excluded(
    kind: ProjectKind,
    dir: Seq<char>,
    entries: Seq<(Seq<Seq<char>>, bool)>,
    excluded: Seq<Seq<char>>,
)
    requires
        excluded.len() > 0,
        excluded_name(excluded.last()),
    ensures
        forall|k: int|
            0 <= k < staged_tree(kind, dir, entries).len() ==> {
                let s = #[trigger] staged_tree(kind, dir, entries)[k];
                &&& !is_prefix(excluded, s.0)
                &&& !is_prefix(stage_root(kind, dir) + excluded, s.1)
            },
{
    let f = |e: (Seq<Seq<char>>, bool)| staged_entry(kind, dir, e);
    let staged = staged_tree(kind, dir, entries);
    let root = stage_root(kind, dir);
    let last = excluded.len() - 1;
    assert forall|k: int| 0 <= k < staged.len() implies {
        let s = #[trigger] staged[k];
        &&& !is_prefix(excluded, s.0)
        &&& !is_prefix(root + excluded, s.1)
    } by {
        let s = staged[k];
        assert(staged.contains(s));
        entries.lemma_filter_map_contains(f, s);
        let t = choose|t: (Seq<Seq<char>>, bool)| #[trigger] entries.contains(t) && f(t) == Some(
            s,
        );
        assert(!path_excluded(t.0));
        assert(s.0 == t.0 && s.1 == root + t.0);
        if is_prefix(excluded, s.0) {
            assert(s.0[last] == excluded[last]);
            assert(excluded_name(s.0[last]));
        }
        if is_prefix(root + excluded, s.1) {
            assert(s.1[root.len() + last] == (root + excluded)[root.len() + last]);
            assert(s.0[last] == excluded[last]);
            assert(excluded_name(s.0[last]));
        }
    }
}

/// The descriptor of a wrapped single service: one service, mounted at
/// `mount_path`, found in the directory `service_name`.
pub open spec fn services_descriptor(service_name: Seq<char>, mount_path: Seq<char>) -> Seq<char> {
    "[\n    {\n        \"mount\": \""@ + mount_path + "\",\n        \"basePath\": \""@
        + service_name + "\"\n    }\n]"@
}

/// Writes the service descriptor of a wrapped single service.
pub fn generate_services_json(service_name: &str, mount_path: &str) -> (r: String)
    ensures
        r@ == services_descriptor(service_name@, mount_path@),
{
    let mut r = String::new();
    push_str(&mut r, "[\n    {\n        \"mount\": \"");
    push_str(&mut r, mount_path);
    push_str(&mut r, "\",\n        \"basePath\": \"");
    push_str(&mut r, service_name);
    push_str(&mut r, "\"\n    }\n]");
    r
}

/// The name of the workspace directory of a run for project `name` by the
/// process `pid`.
pub fn workspace_dir_name(name: &str, pid: u32) -> (r: String)
    ensures
        r@ == WORKSPACE_PREFIX@ + name@ + "-"@ + decimal(pid as nat),
{
    let mut r = String::new();
    push_str(&mut r, WORKSPACE_PREFIX);
    push_str(&mut r, name);
    push_str(&mut r, "-");
    push_decimal(&mut r, pid as u64);
    r
}

} // verus!
