//! Placeholder substitution over build-file and chart templates.
//!
//! A template is opaque text; a binding names a token and the value that
//! replaces each of its occurrences. Bindings are applied one after the
//! other, in the order given. A token that no binding names stays in the
//! output as it was written.
use vstd::prelude::*;
use crate::kinds::ProjectKind;
use crate::text::{
    chars_of, decimal, decimal_string, digit_char, is_digit, matches_at, occurs, occurs_at,
    string_of,
};

verus! {

/// Token for the base image reference of the build file.
pub const BASE_IMAGE_TOKEN: &'static str = "{BASE_IMAGE}";

/// Token for the name of the staged project directory.
pub const PROJECT_DIR_TOKEN: &'static str = "{PROJECT_DIR}";

/// Token for the exposed port, in the build file and in the chart.
pub const PORT_TOKEN: &'static str = "{PORT}";

/// Token for the script that the container runs.
pub const ENTRYPOINT_TOKEN: &'static str = "{ENTRYPOINT}";

/// Token for the language runtime version of the build file.
pub const PYTHON_VERSION_TOKEN: &'static str = "{PYTHON_VERSION}";

/// Token for the service name of the chart.
pub const SERVICE_NAME_TOKEN: &'static str = "{SERVICE_NAME}";

/// Token for the chart version.
pub const VERSION_TOKEN: &'static str = "{VERSION}";

/// Token for the image that the chart deploys.
pub const IMAGE_NAME_TOKEN: &'static str = "{IMAGE_NAME}";

/// `t` with each occurrence of `pat`, read from left to right without
/// overlap, replaced by `val`. An empty pattern matches nothing.
pub open spec fn replaced(t: Seq<char>, pat: Seq<char>, val: Seq<char>) -> Seq<char>
    decreases t.len(),
{
    if t.len() == 0 {
        t
    } else if pat.len() > 0 && occurs_at(t, 0, pat) {
        val + replaced(t.skip(pat.len() as int), pat, val)
    } else {
        seq![t[0]] + replaced(t.skip(1), pat, val)
    }
}

/// `t` with the bindings `bs` (token, value) applied in order.
pub open spec fn rendered(t: Seq<char>, bs: Seq<(Seq<char>, Seq<char>)>) -> Seq<char>
    decreases bs.len(),
{
    if bs.len() == 0 {
        t
    } else {
        rendered(replaced(t, bs[0].0, bs[0].1), bs.skip(1))
    }
}

/// A token and the value that replaces it.
pub struct Binding {
    pub token: String,
    pub value: String,
}

/// The (token, value) pairs of a list of bindings.
pub open spec fn bindings_view(bs: Seq<Binding>) -> Seq<(Seq<char>, Seq<char>)> {
    bs.map_values(|b: Binding| (b.token@, b.value@))
}

fn push_all(out: &mut Vec<char>, xs: &Vec<char>)
    ensures
        final(out)@ == old(out)@ + xs@,
{
    let n = xs.len();
    let mut i: usize = 0;
    while i < n
        invariant
            n == xs@.len(),
            i <= n,
            out@ == old(out)@ + xs@.take(i as int),
        decreases n - i,
    {
        out.push(xs[i]);
        i = i + 1;
        assert(xs@.take(i as int) =~= xs@.take(i - 1 as int).push(xs@[i - 1]));
    }
    assert(xs@.take(n as int) =~= xs@);
}

/// Replaces each occurrence of `pat` in `t` by `val`.
pub fn replace_all(t: &Vec<char>, pat: &Vec<char>, val: &Vec<char>) -> (r: Vec<char>)
    ensures
        r@ == replaced(t@, pat@, val@),
{
    let n = t.len();
    let m = pat.len();
    let mut out: Vec<char> = Vec::new();
    let mut i: usize = 0;
    assert(t@.skip(0) =~= t@);
    assert(out@ + replaced(t@, pat@, val@) =~= replaced(t@, pat@, val@));
    while i < n
        invariant
            n == t@.len(),
            m == pat@.len(),
            i <= n,
            out@ + replaced(t@.skip(i as int), pat@, val@) == replaced(t@, pat@, val@),
        decreases n - i,
    {
        let ghost rest = t@.skip(i as int);
        if m > 0 && matches_at(t, i, pat) {
            assert(rest.subrange(0, m as int) =~= t@.subrange(i as int, i + m));
            assert(rest.skip(m as int) =~= t@.skip(i + m));
            push_all(&mut out, val);
            i = i + m;
        } else {
            assert(!(m > 0 && occurs_at(rest, 0, pat@))) by {
                if m > 0 && occurs_at(rest, 0, pat@) {
                    assert(rest.subrange(0, m as int) =~= t@.subrange(i as int, i + m));
                }
            }
            assert(rest.skip(1) =~= t@.skip(i + 1));
            out.push(t[i]);
            i = i + 1;
        }
    }
    assert(t@.skip(n as int).len() == 0);
    assert(out@ + seq![] =~= out@);
    out
}

/// Applies `bindings` to `template`, in order.
pub fn render(template: &str, bindings: &Vec<Binding>) -> (r: String)
    ensures
        r@ == rendered(template@, bindings_view(bindings@)),
{
    let ghost bs = bindings_view(bindings@);
    let mut cur = chars_of(template);
    let n = bindings.len();
    let mut k: usize = 0;
    assert(bs.skip(0) =~= bs);
    while k < n
        invariant
            n == bindings@.len(),
            bs == bindings_view(bindings@),
            k <= n,
            rendered(cur@, bs.skip(k as int)) == rendered(template@, bs),
        decreases n - k,
    {
        let b = &bindings[k];
        let pat = chars_of(b.token.as_str());
        let val = chars_of(b.value.as_str());
        assert(bs.skip(k as int)[0] == (b.token@, b.value@));
        assert(bs.skip(k as int).skip(1) =~= bs.skip(k + 1));
        cur = replace_all(&cur, &pat, &val);
        k = k + 1;
    }
    assert(bs.skip(n as int).len() == 0);
    string_of(&cur)
}

/// A binding of `token` to `value`.
pub fn bind(token: &str, value: String) -> (b: Binding)
    ensures
        b.token@ == token@,
        b.value@ == value@,
{
    Binding { token: token.to_owned(), value }
}

/// The bindings of the build file of a script project.
pub open spec fn script_build_bindings(
    base_image: Seq<char>,
    project_dir: Seq<char>,
    entrypoint: Seq<char>,
    port: nat,
    runtime_version: Seq<char>,
) -> Seq<(Seq<char>, Seq<char>)> {
    seq![
        (BASE_IMAGE_TOKEN@, base_image),
        (PROJECT_DIR_TOKEN@, project_dir),
        (PORT_TOKEN@, decimal(port)),
        (ENTRYPOINT_TOKEN@, entrypoint),
        (PYTHON_VERSION_TOKEN@, runtime_version),
    ]
}

/// The bindings of the build file of a web-service project.
pub open spec fn web_build_bindings(
    base_image: Seq<char>,
    project_dir: Seq<char>,
    port: nat,
) -> Seq<(Seq<char>, Seq<char>)> {
    seq![
        (BASE_IMAGE_TOKEN@, base_image),
        (PROJECT_DIR_TOKEN@, project_dir),
        (PORT_TOKEN@, decimal(port)),
    ]
}

/// The bindings of each chart file.
pub open spec fn chart_bindings(
    service_name: Seq<char>,
    version: Seq<char>,
    port: nat,
    image_name: Seq<char>,
) -> Seq<(Seq<char>, Seq<char>)> {
    seq![
        (SERVICE_NAME_TOKEN@, service_name),
        (VERSION_TOKEN@, version),
        (PORT_TOKEN@, decimal(port)),
        (IMAGE_NAME_TOKEN@, image_name),
    ]
}

/// Renders the build file of a script project.
pub fn modify_dockerfile_python(
    template: &str,
    base_image: &str,
    project_dir: &str,
    entrypoint: &str,
    port: u16,
    python_version: &str,
) -> (r: String)
    ensures
        r@ == rendered(
            template@,
            script_build_bindings(
                base_image@,
                project_dir@,
                entrypoint@,
                port as nat,
                python_version@,
            ),
        ),
{
    let mut bs: Vec<Binding> = Vec::new();
    bs.push(bind(BASE_IMAGE_TOKEN, base_image.to_owned()));
    bs.push(bind(PROJECT_DIR_TOKEN, project_dir.to_owned()));
    bs.push(bind(PORT_TOKEN, decimal_string(port as u64)));
    bs.push(bind(ENTRYPOINT_TOKEN, entrypoint.to_owned()));
    bs.push(bind(PYTHON_VERSION_TOKEN, python_version.to_owned()));
    assert(bindings_view(bs@) =~= script_build_bindings(
        base_image@,
        project_dir@,
        entrypoint@,
        port as nat,
        python_version@,
    ));
    render(template, &bs)
}

/// Renders the build file of a web-service project.
pub fn modify_dockerfile_nodejs(template: &str, base_image: &str, project_dir: &str, port: u16) -> (r:
    String)
    ensures
        r@ == rendered(template@, web_build_bindings(base_image@, project_dir@, port as nat)),
{
    let mut bs: Vec<Binding> = Vec::new();
    bs.push(bind(BASE_IMAGE_TOKEN, base_image.to_owned()));
    bs.push(bind(PROJECT_DIR_TOKEN, project_dir.to_owned()));
    bs.push(bind(PORT_TOKEN, decimal_string(port as u64)));
    assert(bindings_view(bs@) =~= web_build_bindings(base_image@, project_dir@, port as nat));
    render(template, &bs)
}

/// Renders one chart file.
pub fn render_chart_file(
    content: &str,
    service_name: &str,
    version: &str,
    port: u16,
    image_name: &str,
) -> (r: String)
    ensures
        r@ == rendered(
            content@,
            chart_bindings(service_name@, version@, port as nat, image_name@),
        ),
{
    let mut bs: Vec<Binding> = Vec::new();
    bs.push(bind(SERVICE_NAME_TOKEN, service_name.to_owned()));
    bs.push(bind(VERSION_TOKEN, version.to_owned()));
    bs.push(bind(PORT_TOKEN, decimal_string(port as u64)));
    bs.push(bind(IMAGE_NAME_TOKEN, image_name.to_owned()));
    assert(bindings_view(bs@) =~= chart_bindings(
        service_name@,
        version@,
        port as nat,
        image_name@,
    ));
    render(content, &bs)
}

proof fn lemma_replaced_absent(t: Seq<char>, pat: Seq<char>, val: Seq<char>)
    requires
        !occurs(t, pat),
    ensures
        replaced(t, pat, val) == t,
    decreases t.len(),
{
    if t.len() > 0 {
        let rest = t.skip(1);
        assert(!occurs(rest, pat)) by {
            assert forall|i: int| !occurs_at(rest, i, pat) by {
                if occurs_at(rest, i, pat) {
                    assert(rest.subrange(i, i + pat.len()) =~= t.subrange(i + 1, i + 1 + pat.len()));
                    assert(occurs_at(t, i + 1, pat));
                }
            }
        }
        lemma_replaced_absent(rest, pat, val);
        assert(!occurs_at(t, 0, pat));
        assert(seq![t[0]] + rest =~= t);
    }
}

/// Rendering text in which no token of `bs` occurs leaves it as it is, so
/// rendering such already-resolved text twice gives the same output both
/// times.
pub proof fn lemma_render_resolved_idempotent(t: Seq<char>, bs: Seq<(Seq<char>, Seq<char>)>)
    requires
        forall|k: int| 0 <= k < bs.len() ==> !occurs(t, #[trigger] bs[k].0),
    ensures
        rendered(t, bs) == t,
        rendered(rendered(t, bs), bs) == rendered(t, bs),
    decreases bs.len(),
{
    if bs.len() > 0 {
        assert(!occurs(t, bs[0].0));
        lemma_replaced_absent(t, bs[0].0, bs[0].1);
        let rest = bs.skip(1);
        assert forall|k: int| 0 <= k < rest.len() implies !occurs(t, #[trigger] rest[k].0) by {
            assert(rest[k] == bs[k + 1]);
        }
        lemma_render_resolved_idempotent(t, rest);
    }
}

/// The marker after which a base image name may give the runtime version.
pub open spec fn runtime_marker() -> Seq<char> {
    seq!['p', 'y']
}

/// The runtime version used when the base image name gives none.
pub open spec fn default_runtime_version() -> Seq<char> {
    seq!['3', '.', '1', '3']
}

/// The first position at or after `from` where `p` stands in `s`.
pub open spec fn first_occurrence(s: Seq<char>, p: Seq<char>, from: int) -> Option<int>
    decreases s.len() + 1 - from,
{
    if from < 0 || from + p.len() > s.len() {
        None
    } else if occurs_at(s, from, p) {
        Some(from)
    } else {
        first_occurrence(s, p, from + 1)
    }
}

/// The end of the run of digits in `s` that starts at `i`.
pub open spec fn digit_run_end(s: Seq<char>, i: int) -> int
    decreases s.len() - i,
{
    if 0 <= i < s.len() && is_digit(s[i]) {
        digit_run_end(s, i + 1)
    } else {
        i
    }
}

/// The runtime version that a base image name encodes: the digits right
/// after the first marker, read as a minor version of major version 3; the
/// default version where the marker is missing or no digit follows it.
pub open spec fn runtime_version(image: Seq<char>) -> Seq<char> {
    match first_occurrence(image, runtime_marker(), 0) {
        Some(i) => {
            let end = digit_run_end(image, i + 2);
            if end > i + 2 {
                seq!['3', '.'] + image.subrange(i + 2, end)
            } else {
                default_runtime_version()
            }
        },
        None => default_runtime_version(),
    }
}

/// A base image name gives the default runtime version where it holds no
/// marker, or where no digit follows its first marker.
pub proof fn lemma_runtime_version_default(image: Seq<char>)
    requires
        match first_occurrence(image, runtime_marker(), 0) {
            Some(i) => !(i + 2 < image.len() && is_digit(image[i + 2])),
            None => true,
        },
    ensures
        runtime_version(image) == default_runtime_version(),
{
}

fn find_first(s: &Vec<char>, p: &Vec<char>) -> (r: Option<usize>)
    requires
        p@.len() > 0,
    ensures
        r matches Some(i) ==> first_occurrence(s@, p@, 0) == Some(i as int) && occurs_at(
            s@,
            i as int,
            p@,
        ),
        r is None ==> first_occurrence(s@, p@, 0) is None,
{
    let n = s.len();
    let m = p.len();
    if m > n {
        return None;
    }
    let mut i: usize = 0;
    while i <= n - m
        invariant
            n == s@.len(),
            m == p@.len(),
            0 < m <= n,
            i <= n - m + 1,
            first_occurrence(s@, p@, 0) == first_occurrence(s@, p@, i as int),
        decreases n - m + 1 - i,
    {
        if matches_at(s, i, p) {
            return Some(i);
        }
        i = i + 1;
    }
    None
}

/// The runtime version that `base_image` encodes (see `runtime_version`).
pub fn extract_python_version(base_image: &str) -> (r: String)
    ensures
        r@ == runtime_version(base_image@),
{
    let s = chars_of(base_image);
    let marker: Vec<char> = vec!['p', 'y'];
    assert(marker@ =~= runtime_marker());
    let default_version: Vec<char> = vec!['3', '.', '1', '3'];
    assert(default_version@ =~= default_runtime_version());
    match find_first(&s, &marker) {
        Some(i) => {
            assert(occurs_at(s@, i as int, marker@));
            assert(marker@.len() == 2);
            assert(i + 2 <= s.len());
            let start = i + 2;
            let mut j = start;
            while j < s.len() && '0' <= s[j] && s[j] <= '9'
                invariant
                    start <= j <= s@.len(),
                    digit_run_end(s@, start as int) == digit_run_end(s@, j as int),
                decreases s@.len() - j,
            {
                j = j + 1;
            }
            if j > start {
                let mut out: Vec<char> = vec!['3', '.'];
                let mut k = start;
                while k < j
                    invariant
                        start <= k <= j <= s@.len(),
                        out@ == seq!['3', '.'] + s@.subrange(start as int, k as int),
                    decreases j - k,
                {
                    out.push(s[k]);
                    k = k + 1;
                    assert(s@.subrange(start as int, k as int) =~= s@.subrange(
                        start as int,
                        k - 1 as int,
                    ).push(s@[k - 1]));
                }
                string_of(&out)
            } else {
                string_of(&default_version)
            }
        },
        None => string_of(&default_version),
    }
}

/// Renders the build file of a project of kind `kind`: the script template
/// with the runtime version that the base image encodes, or the web
/// template, which has no entrypoint.
pub fn render_build_file(
    kind: ProjectKind,
    template: &str,
    base_image: &str,
    project_dir: &str,
    port: u16,
    entrypoint: &str,
) -> (r: String)
    ensures
        r@ == (if kind is Script {
            rendered(
                template@,
                script_build_bindings(
                    base_image@,
                    project_dir@,
                    entrypoint@,
                    port as nat,
                    runtime_version(base_image@),
                ),
            )
        } else {
            rendered(template@, web_build_bindings(base_image@, project_dir@, port as nat))
        }),
{
    if kind.uses_script_template() {
        let version = extract_python_version(base_image);
        modify_dockerfile_python(template, base_image, project_dir, entrypoint, port, version.as_str())
    } else {
        modify_dockerfile_nodejs(template, base_image, project_dir, port)
    }
}

} // verus!
