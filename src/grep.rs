use vstd::prelude::*;

use crate::text::{chars_of, lower_of, lowercase, string_of};

verus! {

/// Declares `std::io::Error`, carried unopened in `GrepError::FileSystemIssue`.
#[verifier::external_type_specification]
#[verifier::external_body]
pub struct ExIoError(std::io::Error);

/// Why a file could not be searched.
pub enum GrepError {
    FileNotFound,
    PathIsNotFile,
    FileSystemIssue(std::io::Error),
}

/// Classifies a path from what the file system reported of it: a missing path
/// and a path that is no regular file are refused, each with its own error.
pub fn check_path(exists: bool, is_file: bool) -> (r: Result<(), GrepError>)
    ensures
        !exists ==> r matches Err(GrepError::FileNotFound),
        exists && !is_file ==> r matches Err(GrepError::PathIsNotFile),
        exists && is_file ==> r is Ok,
{
    if !exists {
        return Err(GrepError::FileNotFound);
    }
    if !is_file {
        return Err(GrepError::PathIsNotFile);
    }
    Ok(())
}

/// A line as handed out by line splitting: a trailing carriage return is
/// dropped from a line that was ended by a line feed.
pub open spec fn strip_cr(line: Seq<char>) -> Seq<char> {
    if line.len() > 0 && line.last() == '\r' {
        line.drop_last()
    } else {
        line
    }
}

/// Reads `s` from the start: the lines completed by a line feed so far, and
/// the characters of the line still open.
pub open spec fn scan(s: Seq<char>) -> (Seq<Seq<char>>, Seq<char>)
    decreases s.len(),
{
    if s.len() == 0 {
        (Seq::empty(), Seq::empty())
    } else {
        let (done, open) = scan(s.drop_last());
        if s.last() == '\n' {
            (done.push(strip_cr(open)), Seq::empty())
        } else {
            (done, open.push(s.last()))
        }
    }
}

/// The lines of `s`, without their terminators; a final line ending is
/// optional and makes no empty line of its own.
pub open spec fn lines_of(s: Seq<char>) -> Seq<Seq<char>> {
    let (done, open) = scan(s);
    if open.len() == 0 {
        done
    } else {
        done.push(open)
    }
}

/// Whether `line` matches `query`, given the lower-cased forms of both: a
/// query that lower-casing changes is searched for literally, any other is
/// searched for in the lower-cased line.
pub open spec fn matches_given(
    line: Seq<char>,
    query: Seq<char>,
    line_lower: Seq<char>,
    query_lower: Seq<char>,
) -> bool {
    if query_lower != query {
        contains(line, query)
    } else {
        contains(line_lower, query_lower)
    }
}

/// Whether `line` matches `query`.
pub open spec fn is_match(line: Seq<char>, query: Seq<char>) -> bool {
    matches_given(line, query, lower_of(line), lower_of(query))
}

/// The matching lines among `lines`, each with its 1-based position.
pub open spec fn select_lines(lines: Seq<Seq<char>>, query: Seq<char>) -> Seq<(int, Seq<char>)>
    decreases lines.len(),
{
    if lines.len() == 0 {
        Seq::empty()
    } else {
        let before = select_lines(lines.drop_last(), query);
        if is_match(lines.last(), query) {
            before.push((lines.len() as int, lines.last()))
        } else {
            before
        }
    }
}

/// The matches of `query` in `contents`, in file order.
pub open spec fn matches_in(contents: Seq<char>, query: Seq<char>) -> Seq<(int, Seq<char>)> {
    select_lines(lines_of(contents), query)
}

/// The mathematical value of a list of matches.
pub open spec fn view_matches(v: Seq<(u32, String)>) -> Seq<(int, Seq<char>)> {
    v.map_values(|p: (u32, String)| (p.0 as int, p.1@))
}

/// `needle` occurs in `hay` as a contiguous run of characters.
pub open spec fn contains(hay: Seq<char>, needle: Seq<char>) -> bool {
    exists|i: int|
        0 <= i <= hay.len() - needle.len() && #[trigger] hay.subrange(i, i + needle.len())
            == needle
}

/// Tests whether `needle` occurs in `hay`.
fn contains_chars(hay: &Vec<char>, needle: &Vec<char>) -> (r: bool)
    ensures
        r == contains(hay@, needle@),
{
    let n = needle.len();
    if n > hay.len() {
        return false;
    }
    let len = hay.len();
    let last = len - n;
    let mut i: usize = 0;
    while i <= last
        invariant
            n == needle@.len(),
            last == hay@.len() - n,
            len == hay@.len(),
            forall|k: int| 0 <= k < i ==> #[trigger] hay@.subrange(k, k + needle@.len()) != needle@,
        decreases last + 1 - i,
    {
        let mut j: usize = 0;
        let mut same = true;
        while same && j < n
            invariant
                n == needle@.len(),
                i + n <= hay@.len(),
                len == hay@.len(),
                j <= n,
                forall|m: int| 0 <= m < j ==> hay@[i + m] == needle@[m],
                !same ==> j < n && hay@[i + j] != needle@[j as int],
            decreases n - j + if same { 1int } else { 0int },
        {
            if hay[i + j] == needle[j] {
                j += 1;
            } else {
                same = false;
            }
        }
        if same {
            assert(hay@.subrange(i as int, i + n) =~= needle@);
            return true;
        }
        assert(hay@.subrange(i as int, i + n)[j as int] != needle@[j as int]);
        if i == last {
            return false;
        }
        i += 1;
    }
    false
}

proof fn lemma_scan_grows(s: Seq<char>, i: int, j: int)
    requires
        0 <= i <= j <= s.len(),
    ensures
        scan(s.take(i)).0.len() <= scan(s.take(j)).0.len(),
    decreases j - i,
{
    if i < j {
        lemma_scan_grows(s, i, j - 1);
        assert(s.take(j).drop_last() =~= s.take(j - 1));
    }
}

proof fn lemma_select_lines(lines: Seq<Seq<char>>, q: Seq<char>)
    ensures
        forall|k: int|
            0 <= k < select_lines(lines, q).len() ==> {
                let e = #[trigger] select_lines(lines, q)[k];
                &&& 1 <= e.0 <= lines.len()
                &&& e.1 == lines[e.0 - 1]
                &&& is_match(e.1, q)
            },
        forall|j: int|
            0 <= j < lines.len() && is_match(#[trigger] lines[j], q) ==> exists|k: int|
                0 <= k < select_lines(lines, q).len() && select_lines(lines, q)[k] == (j + 1, lines[j]),
        forall|a: int, b: int|
            0 <= a < b < select_lines(lines, q).len() ==> #[trigger] select_lines(lines, q)[a].0
                < #[trigger] select_lines(lines, q)[b].0,
    decreases lines.len(),
{
    if lines.len() > 0 {
        let init = lines.drop_last();
        lemma_select_lines(init, q);
        let before = select_lines(init, q);
        let sel = select_lines(lines, q);
        assert forall|j: int|
            0 <= j < lines.len() && is_match(#[trigger] lines[j], q) implies exists|k: int|
                0 <= k < sel.len() && sel[k] == (j + 1, lines[j]) by {
            if j < lines.len() - 1 {
                assert(init[j] == lines[j]);
                let k = choose|k: int| 0 <= k < before.len() && before[k] == (j + 1, init[j]);
                assert(sel[k] == before[k]);
            } else {
                assert(sel[before.len() as int] == (j + 1, lines[j]));
            }
        }
    }
}

proof fn lemma_select_all(lines: Seq<Seq<char>>, q: Seq<char>)
    requires
        forall|j: int| 0 <= j < lines.len() ==> is_match(#[trigger] lines[j], q),
    ensures
        select_lines(lines, q).len() == lines.len(),
        forall|k: int|
            0 <= k < lines.len() ==> #[trigger] select_lines(lines, q)[k] == (k + 1, lines[k]),
    decreases lines.len(),
{
    if lines.len() > 0 {
        let init = lines.drop_last();
        assert forall|j: int| 0 <= j < init.len() implies is_match(#[trigger] init[j], q) by {
            assert(init[j] == lines[j]);
        }
        lemma_select_all(init, q);
        assert(is_match(lines[lines.len() - 1], q));
    }
}

/// A query with a character that lower-casing changes gives only lines that
/// hold the query literally.
pub proof fn law_case_sensitive_search(contents: Seq<char>, query: Seq<char>)
    requires
        lower_of(query) != query,
    ensures
        forall|k: int|
            0 <= k < matches_in(contents, query).len() ==> contains(
                #[trigger] matches_in(contents, query)[k].1,
                query,
            ),
{
    lemma_select_lines(lines_of(contents), query);
}

/// A query that lower-casing leaves as it is gives exactly the lines whose
/// lower-cased form holds the lower-cased query, each with its own line
/// number, in file order.
pub proof fn law_case_insensitive_search(contents: Seq<char>, query: Seq<char>)
    requires
        lower_of(query) == query,
    ensures
        ({
            let r = matches_in(contents, query);
            let lines = lines_of(contents);
            &&& forall|k: int|
                0 <= k < r.len() ==> {
                    let e = #[trigger] r[k];
                    &&& 1 <= e.0 <= lines.len()
                    &&& e.1 == lines[e.0 - 1]
                    &&& contains(lower_of(e.1), lower_of(query))
                }
            &&& forall|j: int|
                0 <= j < lines.len() && contains(lower_of(#[trigger] lines[j]), lower_of(query))
                    ==> exists|k: int| 0 <= k < r.len() && r[k] == (j + 1, lines[j])
            &&& forall|a: int, b: int| 0 <= a < b < r.len() ==> #[trigger] r[a].0 < #[trigger] r[b].0
        }),
{
    let lines = lines_of(contents);
    let r = matches_in(contents, query);
    lemma_select_lines(lines, query);
    assert forall|k: int| 0 <= k < r.len() implies contains(
        lower_of(#[trigger] r[k].1),
        lower_of(query),
    ) by {
        assert(is_match(r[k].1, query));
    }
    assert forall|j: int|
        0 <= j < lines.len() && contains(lower_of(#[trigger] lines[j]), lower_of(query))
            implies exists|k: int| 0 <= k < r.len() && r[k] == (j + 1, lines[j]) by {
        assert(is_match(lines[j], query));
    }
}

/// The empty query gives every line, numbered 1 to the number of lines.
pub proof fn law_empty_query(contents: Seq<char>)
    ensures
        matches_in(contents, Seq::empty()).len() == lines_of(contents).len(),
        forall|k: int|
            0 <= k < lines_of(contents).len() ==> #[trigger] matches_in(contents, Seq::empty())[k]
                == (k + 1, lines_of(contents)[k]),
{
    let lines = lines_of(contents);
    let e = Seq::<char>::empty();
    assert forall|j: int| 0 <= j < lines.len() implies is_match(#[trigger] lines[j], e) by {
        if lower_of(e) != e {
            assert(lines[j].subrange(0int, 0int + e.len()) =~= e);
        } else {
            assert(lower_of(lines[j]).subrange(0int, 0int + lower_of(e).len()) =~= lower_of(e));
        }
    }
    lemma_select_all(lines, e);
}

/// The number of lines in `s`.
pub fn line_count(s: &str) -> (n: usize)
    ensures
        n == lines_of(s@).len(),
{
    let text = chars_of(s);
    let len = text.len();
    let ghost t = text@;
    let mut count: usize = 0;
    let mut open: bool = false;
    let mut i: usize = 0;
    assert(t.take(0) =~= Seq::<char>::empty());
    while i < len
        invariant
            len == t.len(),
            text@ == t,
            i <= len,
            count <= i,
            open ==> count < i,
            count == scan(t.take(i as int)).0.len(),
            open == (scan(t.take(i as int)).1.len() > 0),
        decreases len - i,
    {
        assert(t.take(i + 1).drop_last() =~= t.take(i as int));
        assert(t.take(i + 1).last() == text[i as int]);
        if text[i] == '\n' {
            count += 1;
            open = false;
        } else {
            open = true;
        }
        i += 1;
    }
    assert(t.take(len as int) =~= t);
    if open {
        count + 1
    } else {
        count
    }
}

/// Tests `line` against the query, with `pattern` the text to look for.
fn line_hits(line: &str, case_sensitive: bool, pattern: &Vec<char>, query: Ghost<Seq<char>>) -> (r: bool)
    requires
        case_sensitive == (lower_of(query@) != query@),
        pattern@ == (if case_sensitive { query@ } else { lower_of(query@) }),
    ensures
        r == is_match(line@, query@),
{
    if case_sensitive {
        contains_chars(&chars_of(line), pattern)
    } else {
        let lower = lowercase(line);
        contains_chars(&chars_of(lower.as_str()), pattern)
    }
}

/// Tests `line` against `search` where the lower-cased forms of both are
/// already at hand.
pub fn line_matches(line: &str, search: &str, line_lower: &str, search_lower: &str) -> (r: bool)
    ensures
        r == matches_given(line@, search@, line_lower@, search_lower@),
{
    if search.to_owned() != search_lower.to_owned() {
        contains_chars(&chars_of(line), &chars_of(search))
    } else {
        contains_chars(&chars_of(line_lower), &chars_of(search_lower))
    }
}

/// Every line of `file_contents` that matches `search`, numbered from 1 in
/// file order. A query with a character that lower-casing changes is searched
/// for literally; any other query is searched for in the lower-cased lines.
pub fn grep(file_contents: String, search: String) -> (r: Vec<(u32, String)>)
    requires
        lines_of(file_contents@).len() <= u32::MAX,
    ensures
        view_matches(r@) == matches_in(file_contents@, search@),
{
    let search_lowercase = lowercase(search.as_str());
    let case_sensitive = search_lowercase != search;
    let pattern = if case_sensitive {
        chars_of(search.as_str())
    } else {
        chars_of(search_lowercase.as_str())
    };
    let text = chars_of(file_contents.as_str());
    let len = text.len();
    let ghost s = text@;
    let ghost q = search@;
    let mut r: Vec<(u32, String)> = Vec::new();
    let mut count: u32 = 0;
    let mut open: Vec<char> = Vec::new();
    let mut i: usize = 0;
    proof {
        assert(s.take(0) =~= Seq::<char>::empty());
        assert(s.take(len as int) =~= s);
    }
    while i < len
        invariant
            len == s.len(),
            text@ == s,
            s == file_contents@,
            q == search@,
            i <= len,
            lines_of(s).len() <= u32::MAX,
            s.take(len as int) == s,
            case_sensitive == (lower_of(q) != q),
            pattern@ == (if case_sensitive { q } else { lower_of(q) }),
            count == scan(s.take(i as int)).0.len(),
            open@ == scan(s.take(i as int)).1,
            view_matches(r@) == select_lines(scan(s.take(i as int)).0, q),
        decreases len - i,
    {
        let c = text[i];
        let ghost before = scan(s.take(i as int));
        assert(s.take(i + 1).drop_last() =~= s.take(i as int));
        assert(s.take(i + 1).last() == c);
        if c == '\n' {
            let n = open.len();
            let end = if n > 0 && open[n - 1] == '\r' { n - 1 } else { n };
            let line = string_of(&open, end);
            assert(line@ =~= strip_cr(before.1));
            proof {
                lemma_scan_grows(s, i + 1, len as int);
            }
            count += 1;
            let ghost done = scan(s.take(i + 1)).0;
            assert(done.drop_last() =~= before.0);
            if line_hits(line.as_str(), case_sensitive, &pattern, Ghost(q)) {
                let ghost old_r = r@;
                r.push((count, line));
                assert(view_matches(r@) =~= view_matches(old_r).push((count as int, line@)));
            }
            open = Vec::new();
        } else {
            open.push(c);
        }
        i += 1;
    }
    if open.len() > 0 {
        let ghost done = scan(s).0;
        assert(lines_of(s).drop_last() =~= done);
        count += 1;
        let n = open.len();
        let line = string_of(&open, n);
        assert(line@ =~= open@);
        if line_hits(line.as_str(), case_sensitive, &pattern, Ghost(q)) {
            let ghost old_r = r@;
            r.push((count, line));
            assert(view_matches(r@) =~= view_matches(old_r).push((count as int, line@)));
        }
    }
    r
}

} // verus!
