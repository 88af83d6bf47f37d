//! Decisions of the end-to-end smoke run that packages sample projects and
//! runs the images it built: reading a sample's configuration, finding the
//! workspace a run left, and judging what the containers printed.
use vstd::prelude::*;
use crate::manifest::{json_accepts, json_member, json_string_member, opt_chars};
use crate::staging::WORKSPACE_PREFIX;
use crate::text::{chars_of, contains_chars, occurs, occurs_at, string_of};

verus! {

/// What a packaged sample service prints when it runs.
pub const GREETING: &'static str = "Hello World!";

/// How a sample project is to be packaged.
#[derive(Clone, Debug, PartialEq, Eq)]
pub struct SampleConfig {
    pub base_image: String,
    pub entrypoint: String,
}

/// The position where the last line of `b` starts: just after its last
/// line feed, or 0.
pub open spec fn line_start(b: Seq<char>) -> int
    decreases b.len(),
{
    if b.len() == 0 {
        0
    } else if b.last() == '\n' {
        b.len() as int
    } else {
        line_start(b.drop_last())
    }
}

/// The last line of `s`, as `str::lines` reads lines: a final line feed (or
/// carriage return and line feed) ends the last line without starting
/// another; none for empty text.
pub open spec fn last_line(s: Seq<char>) -> Option<Seq<char>> {
    if s.len() == 0 {
        None
    } else {
        let terminated = s.last() == '\n';
        let body = if terminated {
            s.drop_last()
        } else {
            s
        };
        let line = body.skip(line_start(body));
        Some(
            if terminated && line.len() > 0 && line.last() == '\r' {
                line.drop_last()
            } else {
                line
            },
        )
    }
}

/// Whether `text` holds the greeting.
pub fn contains_greeting(text: &str) -> (r: bool)
    ensures
        r == occurs(text@, GREETING@),
{
    contains_chars(&chars_of(text), &chars_of(GREETING))
}

/// The last line of what a container printed.
pub fn last_line_of(text: &str) -> (r: Option<String>)
    ensures
        opt_chars(r) == last_line(text@),
{
    let s = chars_of(text);
    let n = s.len();
    if n == 0 {
        return None;
    }
    let terminated = s[n - 1] == '\n';
    let end: usize = if terminated { n - 1 } else { n };
    let ghost body = s@.take(end as int);
    assert(body =~= (if terminated { s@.drop_last() } else { s@ }));
    let mut start: usize = end;
    assert(body.take(end as int) =~= body);
    while start > 0 && s[start - 1] != '\n'
        invariant
            start <= end <= n == s@.len(),
            body == s@.take(end as int),
            line_start(body) == line_start(body.take(start as int)),
        decreases start,
    {
        assert(body.take(start as int).drop_last() =~= body.take(start - 1));
        start = start - 1;
    }
    assert(line_start(body.take(start as int)) == start) by {
        if start > 0 {
            assert(body.take(start as int).last() == '\n');
        }
    }
    let mut stop: usize = end;
    if terminated && stop > start && s[stop - 1] == '\r' {
        stop = stop - 1;
    }
    let mut line: Vec<char> = Vec::new();
    let mut k: usize = start;
    while k < stop
        invariant
            start <= k <= stop <= end <= n == s@.len(),
            line@ == s@.subrange(start as int, k as int),
        decreases stop - k,
    {
        line.push(s[k]);
        k = k + 1;
        assert(line@ =~= s@.subrange(start as int, k as int));
    }
    assert(line@ =~= last_line(s@)->0);
    Some(string_of(&line))
}

/// Whether the container engine's error says that the image does not exist.
pub fn image_absent(stderr: &str) -> (r: bool)
    ensures
        r == (occurs(stderr@, "No such image"@) || occurs(stderr@, "image not known"@)),
{
    let s = chars_of(stderr);
    contains_chars(&s, &chars_of("No such image")) || contains_chars(&s, &chars_of("image not known"))
}

/// Whether a directory of this name is a workspace of a run for `project`.
pub fn is_workspace_of(dir_name: &str, project: &str) -> (r: bool)
    ensures
        r == occurs_at(dir_name@, 0, WORKSPACE_PREFIX@ + project@ + "-"@),
{
    let mut pattern = chars_of(WORKSPACE_PREFIX);
    let p = chars_of(project);
    let mut i: usize = 0;
    while i < p.len()
        invariant
            i <= p@.len(),
            pattern@ == WORKSPACE_PREFIX@ + p@.take(i as int),
        decreases p@.len() - i,
    {
        pattern.push(p[i]);
        i = i + 1;
        assert(pattern@ =~= WORKSPACE_PREFIX@ + p@.take(i as int));
    }
    pattern.push('-');
    proof {
        reveal_strlit("-");
    }
    assert(p@.take(p@.len() as int) =~= project@);
    assert(pattern@ =~= WORKSPACE_PREFIX@ + project@ + "-"@);
    crate::text::matches_at(&chars_of(dir_name), 0, &pattern)
}

/// The configuration of a sample from the text of its JSON file: both
/// `base_image` and `entrypoint` are required strings.
pub fn read_sample_config(text: &str) -> (r: Option<SampleConfig>)
    ensures
        r is Some <==> json_accepts(text@) && json_member(text@, "base_image"@) is Some
            && json_member(text@, "entrypoint"@) is Some,
        r matches Some(c) ==> Some(c.base_image@) == json_member(text@, "base_image"@) && Some(
            c.entrypoint@,
        ) == json_member(text@, "entrypoint"@),
{
    let base_image = match json_string_member(text, "base_image") {
        Ok(Some(b)) => b,
        _ => {
            return None;
        },
    };
    let entrypoint = match json_string_member(text, "entrypoint") {
        Ok(Some(e)) => e,
        _ => {
            return None;
        },
    };
    Some(SampleConfig { base_image, entrypoint })
}

} // verus!
