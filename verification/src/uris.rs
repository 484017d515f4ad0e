//! The files a pasted URI list names: its lines, each read as a URL or else as a path.

use url::Url;
use vstd::prelude::*;
use vstd::string::{StrSliceExecFns, StringExecFns};

verus! {

#[verifier::external_type_specification]
#[verifier::external_body]
pub struct ExUrl(Url);

/// Whether `Url::parse` accepts the line as a URL.
pub uninterp spec fn is_url(line: Seq<char>) -> bool;

/// `Url::parse`: the URL the line holds, `None` when it returns an error. Whether it
/// succeeds depends on the line alone.
#[verifier::external_body]
fn url_parse(line: &str) -> (u: Option<Url>)
    ensures
        u is Some <==> is_url(line@),
{
    Url::parse(line).ok()
}

/// `Url::to_file_path`: the local path of the URL, as a (lossy UTF-8) string, `None`
/// when it returns an error (no path segments, or a host other than `localhost`). On
/// Unix the path it builds starts with `/`. Which URLs have a path, and what the path
/// is, depends on the platform and is not stated.
#[verifier::external_body]
fn url_to_file_path(u: &Url) -> (p: Option<String>)
    ensures
        p matches Some(s) ==> s@.len() > 0 && s@[0] == '/',
{
    u.to_file_path().ok().map(|p| p.to_string_lossy().into_owned())
}

/// The first position at or after `j` that holds a line feed, or the length of `s`.
pub open spec fn next_newline(s: Seq<char>, j: int) -> int
    decreases s.len() - j,
{
    if j >= s.len() {
        s.len() as int
    } else if s[j] == '\n' {
        j
    } else {
        next_newline(s, j + 1)
    }
}

/// A line that ended in a line feed loses a carriage return before it.
pub open spec fn strip_cr(line: Seq<char>) -> Seq<char> {
    if line.len() > 0 && line.last() == '\r' {
        line.drop_last()
    } else {
        line
    }
}

/// The lines of `s` from position `start` on, as `str::lines` splits them: at each line
/// feed, with a carriage return before it removed; a last line without a line feed is
/// kept as it is, and a final line feed starts no empty line.
pub open spec fn lines_from(s: Seq<char>, start: int) -> Seq<Seq<char>>
    decreases s.len() - start,
{
    if start < 0 || start >= s.len() {
        Seq::empty()
    } else {
        let e = next_newline(s, start);
        proof {
            lemma_next_newline_bounds(s, start);
        }
        if e < s.len() {
            seq![strip_cr(s.subrange(start, e))] + lines_from(s, e + 1)
        } else {
            seq![s.subrange(start, s.len() as int)]
        }
    }
}

/// The next line feed lies between the start and the end of the text, and is one.
pub proof fn lemma_next_newline_bounds(s: Seq<char>, j: int)
    requires
        0 <= j <= s.len(),
    ensures
        j <= next_newline(s, j) <= s.len(),
        next_newline(s, j) < s.len() ==> s[next_newline(s, j)] == '\n',
    decreases s.len() - j,
{
    if j < s.len() && s[j] != '\n' {
        lemma_next_newline_bounds(s, j + 1);
    }
}

/// The lines of a text, as `str::lines` gives them.
pub fn text_lines(text: &str) -> (lines: Vec<String>)
    ensures
        lines@.map_values(|l: String| l@) == lines_from(text@, 0),
{
    let n = text.unicode_len();
    let mut lines: Vec<String> = Vec::new();
    let mut start: usize = 0;
    let mut i: usize = 0;
    while i < n
        invariant
            n == text@.len(),
            start <= i <= n,
            next_newline(text@, start as int) == next_newline(text@, i as int),
            lines_from(text@, 0) == lines@.map_values(|l: String| l@) + lines_from(text@, start as int),
        decreases n - i,
    {
        if text.get_char(i) == '\n' {
            let ghost prev = lines@;
            let mut end = i;
            if end > start && text.get_char(end - 1) == '\r' {
                end = end - 1;
            }
            let line = String::from_str(text.substring_char(start, end));
            proof {
                assert(next_newline(text@, i as int) == i);
                assert(line@ == strip_cr(text@.subrange(start as int, i as int)));
                assert(lines_from(text@, start as int) == seq![line@] + lines_from(text@, i + 1));
            }
            lines.push(line);
            proof {
                assert(lines@.map_values(|l: String| l@) == prev.map_values(|l: String| l@).push(line@));
                assert(lines@.map_values(|l: String| l@) + lines_from(text@, i + 1)
                    == prev.map_values(|l: String| l@) + (seq![line@] + lines_from(text@, i + 1)));
            }
            start = i + 1;
        }
        i = i + 1;
    }
    if start < n {
        let ghost prev = lines@;
        let line = String::from_str(text.substring_char(start, n));
        proof {
            lemma_next_newline_bounds(text@, start as int);
            assert(next_newline(text@, start as int) == n);
            assert(lines_from(text@, start as int) == seq![line@]);
        }
        lines.push(line);
        assert(lines@.map_values(|l: String| l@) == prev.map_values(|l: String| l@).push(line@));
    } else {
        assert(lines_from(text@, start as int) == Seq::<Seq<char>>::empty());
        assert(lines@.map_values(|l: String| l@) + Seq::<Seq<char>>::empty() == lines@.map_values(|l: String| l@));
    }
    lines
}

/// How a pasted line was read: `Err(())` when it is no URL, `Ok(Some(p))` for a URL
/// with the local path `p`, `Ok(None)` for a URL without one.
pub open spec fn line_candidate(line: Seq<char>, parsed: Result<Option<String>, ()>) -> Seq<Seq<char>> {
    match parsed {
        Ok(Some(p)) => seq![p@],
        Ok(None) => Seq::empty(),
        Err(()) => seq![line],
    }
}

/// The candidate paths of the first `n` lines, in order.
pub open spec fn candidates_upto(lines: Seq<String>, parsed: Seq<Result<Option<String>, ()>>, n: nat) -> Seq<Seq<char>>
    decreases n,
{
    if n == 0 {
        Seq::empty()
    } else {
        candidates_upto(lines, parsed, (n - 1) as nat) + line_candidate(lines[n - 1]@, parsed[n - 1])
    }
}

/// The paths the lines name, in order: the local path of a line that is a URL with
/// one, the line itself when it is no URL, nothing for a URL without a local path.
pub fn paste_candidate_paths(lines: &Vec<String>, parsed: &Vec<Result<Option<String>, ()>>) -> (paths: Vec<String>)
    requires
        lines.len() == parsed.len(),
    ensures
        paths@.map_values(|p: String| p@) == candidates_upto(lines@, parsed@, lines.len() as nat),
{
    let mut paths: Vec<String> = Vec::new();
    let mut i: usize = 0;
    while i < lines.len()
        invariant
            i <= lines.len(),
            lines.len() == parsed.len(),
            paths@.map_values(|p: String| p@) == candidates_upto(lines@, parsed@, i as nat),
        decreases lines.len() - i,
    {
        let ghost prev = paths@;
        match &parsed[i] {
            Ok(Some(p)) => {
                paths.push(p.clone());
                assert(paths@.map_values(|q: String| q@) == prev.map_values(|q: String| q@).push(p@));
            },
            Ok(None) => {
                assert(line_candidate(lines@[i as int]@, parsed@[i as int]) == Seq::<Seq<char>>::empty());
                assert(candidates_upto(lines@, parsed@, (i + 1) as nat) == candidates_upto(lines@, parsed@, i as nat));
            },
            Err(()) => {
                paths.push(lines[i].clone());
                assert(paths@.map_values(|q: String| q@) == prev.map_values(|q: String| q@).push(lines@[i as int]@));
            },
        }
        i = i + 1;
    }
    paths
}

/// A reading of the lines that the URL parser could have given: the lines that are no
/// URL read as `Err(())`, and every local path starts with `/`.
pub open spec fn possible_readings(lines: Seq<String>, parsed: Seq<Result<Option<String>, ()>>) -> bool {
    &&& parsed.len() == lines.len()
    &&& forall|i: int| 0 <= i < lines.len() ==> ((#[trigger] parsed[i]) is Err <==> !is_url(lines[i]@))
    &&& forall|i: int| 0 <= i < lines.len() ==> (#[trigger] parsed[i] matches Ok(Some(p)) ==> p@.len() > 0 && p@[0] == '/')
}

/// The candidate paths of a pasted URI list: each line of the text, read as a URL and
/// turned into its local path, or taken as a path itself when it is no URL. The caller
/// keeps those that exist and opens them.
pub fn clipboard_uri_paths(text: &str) -> (paths: Vec<String>)
    ensures
        exists|lines: Seq<String>, parsed: Seq<Result<Option<String>, ()>>| {
            &&& lines.map_values(|l: String| l@) == lines_from(text@, 0)
            &&& possible_readings(lines, parsed)
            &&& paths@.map_values(|p: String| p@) == candidates_upto(lines, parsed, lines.len() as nat)
        },
{
    let lines = text_lines(text);
    let mut parsed: Vec<Result<Option<String>, ()>> = Vec::new();
    let mut i: usize = 0;
    while i < lines.len()
        invariant
            i <= lines.len(),
            parsed.len() == i,
            forall|j: int| 0 <= j < i ==> ((#[trigger] parsed@[j]) is Err <==> !is_url(lines@[j]@)),
            forall|j: int| 0 <= j < i ==> (#[trigger] parsed@[j] matches Ok(Some(p)) ==> p@.len() > 0 && p@[0] == '/'),
        decreases lines.len() - i,
    {
        let r = match url_parse(lines[i].as_str()) {
            Some(u) => Ok(url_to_file_path(&u)),
            None => Err(()),
        };
        parsed.push(r);
        i = i + 1;
    }
    let paths = paste_candidate_paths(&lines, &parsed);
    assert(possible_readings(lines@, parsed@));
    paths
}

} // verus!
