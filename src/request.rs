//! Resolving the parameters of a packaging request that the operator left
//! out, from the project's manifest and directory.
use vstd::prelude::*;
use crate::kinds::ProjectKind;
use crate::text::{chars_of, push_str, texts_view};

verus! {

/// The lower-case form of `s`, as `str::to_lowercase` gives it.
pub uninterp spec fn lower_of(s: Seq<char>) -> Seq<char>;

/// Relies on `str::to_lowercase`: the lower-case form, which depends on the
/// characters alone.
#[verifier::external_body]
fn lowercase(s: &str) -> (r: String)
    ensures
        r@ == lower_of(s@),
{
    s.to_lowercase()
}

/// The project name: the one the operator gave, else the manifest's, else,
/// for a single web service or a plain web project, the name of its
/// directory; none where the operator must still be asked.
pub fn resolve_name(
    kind: ProjectKind,
    given: Option<String>,
    manifest_name: Option<String>,
    dir_name: &str,
) -> (r: Option<String>)
    ensures
        given is Some ==> r == given,
        given is None && manifest_name is Some ==> r == manifest_name,
        given is None && manifest_name is None ==> if kind is SingleService || kind is Web {
            r is Some && r->0@ == dir_name@
        } else {
            r is None
        },
{
    match given {
        Some(n) => Some(n),
        None => match manifest_name {
            Some(n) => Some(n),
            None => match kind {
                ProjectKind::SingleService | ProjectKind::Web => Some(dir_name.to_owned()),
                _ => None,
            },
        },
    }
}

/// The mount path made from an already lower-cased service name.
pub fn mount_path_for(lowered: &str) -> (r: String)
    ensures
        r@ == seq!['/'] + lowered@,
{
    let mut r = String::new();
    crate::text::push_char(&mut r, '/');
    push_str(&mut r, lowered);
    r
}

/// The mount path offered for a single service: its directory name in lower
/// case, under the root.
pub fn default_mount_path(service_dir: &str) -> (r: String)
    ensures
        r@ == seq!['/'] + lower_of(service_dir@),
{
    let lowered = lowercase(service_dir);
    mount_path_for(lowered.as_str())
}

/// The mount path the operator answered, or the offered one where the
/// answer is empty.
pub fn choose_mount_path(answer: &str, offered: String) -> (r: String)
    ensures
        r@ == (if answer@.len() == 0 {
            offered@
        } else {
            answer@
        }),
{
    if answer.is_empty() {
        offered
    } else {
        answer.to_owned()
    }
}

/// Whether a file of this name is a script: a name with more than the
/// extension itself, ending in `.py`.
pub open spec fn is_script_file(n: Seq<char>) -> bool {
    n.len() > 3 && n.subrange(n.len() - 3, n.len() as int) == seq!['.', 'p', 'y']
}

/// The scripts among the file names `names`, in order.
pub open spec fn script_files(names: Seq<Seq<char>>) -> Seq<Seq<char>> {
    names.filter(|n: Seq<char>| is_script_file(n))
}

fn script_name(name: &str) -> (r: bool)
    ensures
        r == is_script_file(name@),
{
    let cs = chars_of(name);
    let n = cs.len();
    if n <= 3 {
        return false;
    }
    let r = cs[n - 3] == '.' && cs[n - 2] == 'p' && cs[n - 1] == 'y';
    assert(r == (cs@.subrange(n - 3, n as int) =~= seq!['.', 'p', 'y']));
    r
}

/// The entrypoint of a script project, found among the names of the files
/// at its root: the one script there, where there is exactly one.
pub fn find_single_py_file(file_names: &Vec<String>) -> (r: Option<String>)
    ensures
        script_files(texts_view(file_names@)).len() == 1 ==> r is Some && r->0@ == script_files(
            texts_view(file_names@),
        )[0],
        script_files(texts_view(file_names@)).len() != 1 ==> r is None,
{
    let ghost names = texts_view(file_names@);
    let ghost pred = |n: Seq<char>| is_script_file(n);
    let n = file_names.len();
    let mut count: usize = 0;
    let mut first: Option<String> = None;
    let mut i: usize = 0;
    while i < n
        invariant
            n == file_names@.len(),
            names == texts_view(file_names@),
            pred == (|n: Seq<char>| is_script_file(n)),
            i <= n,
            count == names.take(i as int).filter(pred).len(),
            count > 0 ==> first is Some && first->0@ == names.take(i as int).filter(pred)[0],
        decreases n - i,
    {
        let ghost prev = names.take(i as int).filter(pred);
        proof {
            reveal(Seq::filter);
            assert(names.take(i + 1).drop_last() =~= names.take(i as int));
            assert(names.take(i + 1).last() == file_names@[i as int]@);
            assert(names.take(i + 1).filter(pred) == if pred(file_names@[i as int]@) {
                prev.push(file_names@[i as int]@)
            } else {
                prev
            });
        }
        if script_name(file_names[i].as_str()) {
            if count == 0 {
                first = Some(file_names[i].clone());
            }
            count = count + 1;
        }
        i = i + 1;
    }
    assert(names.take(n as int) =~= names);
    if count == 1 {
        first
    } else {
        None
    }
}

} // verus!
