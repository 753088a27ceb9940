//! The persistent cache of resolved environment paths.
//!
//! The store is an append-only text file, one record per line, each line
//! `"<directory> <environment-path>"`. Records are never rewritten or
//! removed, so several records may exist for one directory; the last one
//! wins. The embedding program reads the file into lines and writes the
//! formatted record back; everything between — matching, extraction,
//! tie-breaking — is here.

use vstd::prelude::*;
use vstd::string::*;

use crate::text::{trim, trimmed};

verus! {

/// Whether `line` records `dir`: it begins with `dir` followed by one space.
pub open spec fn line_matches_dir(line: Seq<char>, dir: Seq<char>) -> bool {
    &&& line.len() > dir.len()
    &&& line.subrange(0, dir.len() as int) == dir
    &&& line[dir.len() as int] == ' '
}

/// The environment path a matching line records: everything after the
/// separating space, trimmed.
pub open spec fn line_value(line: Seq<char>, dir: Seq<char>) -> Seq<char>
    recommends
        line_matches_dir(line, dir),
{
    trimmed(line.subrange(dir.len() as int + 1, line.len() as int))
}

/// The value of the last line recording `dir`, if any line does.
pub open spec fn last_match(lines: Seq<Seq<char>>, dir: Seq<char>) -> Option<Seq<char>>
    decreases lines.len(),
{
    if lines.len() == 0 {
        None
    } else if line_matches_dir(lines.last(), dir) {
        Some(line_value(lines.last(), dir))
    } else {
        last_match(lines.drop_last(), dir)
    }
}

/// What a cache lookup yields: the last matching record's value, an empty
/// recorded value counting as no match at all.
pub open spec fn lookup_result(lines: Seq<Seq<char>>, dir: Seq<char>) -> Option<Seq<char>> {
    match last_match(lines, dir) {
        Some(v) => if v.len() == 0 {
            None
        } else {
            Some(v)
        },
        None => None,
    }
}

/// The one-line record that maps `dir` to `path`.
pub open spec fn record_line(dir: Seq<char>, path: Seq<char>) -> Seq<char> {
    dir + " "@ + path
}

/// Whether `line` begins with `dir` followed by one space.
pub fn line_matches(line: &str, dir: &str) -> (r: bool)
    ensures
        r == line_matches_dir(line@, dir@),
{
    let ll = line.unicode_len();
    let dl = dir.unicode_len();
    if ll <= dl {
        return false;
    }
    let mut i: usize = 0;
    while i < dl
        invariant
            ll == line@.len(),
            dl == dir@.len(),
            dl < ll,
            i <= dl,
            forall|k: int| 0 <= k < i ==> line@[k] == dir@[k],
        decreases dl - i,
    {
        if line.get_char(i) != dir.get_char(i) {
            proof {
                assert(line@.subrange(0, dl as int)[i as int] == line@[i as int]);
            }
            return false;
        }
        i = i + 1;
    }
    proof {
        assert(line@.subrange(0, dl as int) =~= dir@);
    }
    line.get_char(dl) == ' '
}

/// The environment path recorded by a line known to match `dir`.
fn line_value_of(line: &str, dir: &str) -> (r: String)
    requires
        line_matches_dir(line@, dir@),
    ensures
        r@ == line_value(line@, dir@),
{
    let ll = line.unicode_len();
    let dl = dir.unicode_len();
    let rest = line.substring_char(dl + 1, ll);
    trim(rest)
}

/// Scans the store's lines for records of `dir` and yields the value that
/// counts: the last matching record's, and none when that value is empty.
pub fn lookup(lines: &Vec<String>, dir: &str) -> (r: Option<String>)
    ensures
        r.deep_view() == lookup_result(lines.deep_view(), dir@),
{
    let ghost dv = lines.deep_view();
    let mut best: Option<String> = None;
    let mut idx: usize = 0;
    while idx < lines.len()
        invariant
            dv == lines.deep_view(),
            dv.len() == lines@.len(),
            idx <= lines.len(),
            best.deep_view() == last_match(dv.subrange(0, idx as int), dir@),
        decreases lines.len() - idx,
    {
        let line = &lines[idx];
        proof {
            assert(dv[idx as int] == lines@[idx as int]@);
        }
        if line_matches(line.as_str(), dir) {
            best = Some(line_value_of(line.as_str(), dir));
        }
        proof {
            let sub = dv.subrange(0, idx as int + 1);
            assert(sub.last() == dv[idx as int]);
            assert(sub.drop_last() =~= dv.subrange(0, idx as int));
        }
        idx = idx + 1;
    }
    proof {
        assert(dv.subrange(0, dv.len() as int) =~= dv);
    }
    match best {
        Some(p) => if p.as_str().is_empty() {
            None
        } else {
            Some(p)
        },
        None => None,
    }
}

/// The line that `append` adds to the store for `(dir, path)`, without its
/// terminating newline.
pub fn format_record(dir: &str, path: &str) -> (r: String)
    ensures
        r@ == record_line(dir@, path@),
{
    let mut r = dir.to_owned();
    r.append(" ");
    r.append(path);
    r
}

/// Last-match-wins: when `lines[i]` records `dir` with a nonempty value and
/// no later line records `dir`, lookup returns exactly that value — however
/// many earlier records for `dir` remain in the store.
pub proof fn lemma_last_match_wins(lines: Seq<Seq<char>>, dir: Seq<char>, i: int)
    requires
        0 <= i < lines.len(),
        line_matches_dir(lines[i], dir),
        forall|j: int| i < j < lines.len() ==> !line_matches_dir(lines[j], dir),
        line_value(lines[i], dir).len() > 0,
    ensures
        lookup_result(lines, dir) == Some(line_value(lines[i], dir)),
    decreases lines.len(),
{
    if i == lines.len() - 1 {
        assert(lines.last() == lines[i]);
    } else {
        let shorter = lines.drop_last();
        assert(shorter[i] == lines[i]);
        assert(forall|j: int| i < j < shorter.len() ==> !line_matches_dir(#[trigger] shorter[j], dir));
        lemma_last_match_wins(shorter, dir, i);
    }
}

/// Appending a record with a nonempty, already-trimmed path makes lookup
/// return that path, whatever the store held before.
pub proof fn lemma_append_then_lookup(lines: Seq<Seq<char>>, dir: Seq<char>, path: Seq<char>)
    requires
        trimmed(path) == path,
        path.len() > 0,
    ensures
        lookup_result(lines.push(record_line(dir, path)), dir) == Some(path),
{
    let rec = record_line(dir, path);
    reveal_strlit(" ");
    assert(rec.len() == dir.len() + 1 + path.len());
    assert(rec.subrange(0, dir.len() as int) =~= dir);
    assert(rec[dir.len() as int] == ' ');
    assert(line_matches_dir(rec, dir));
    assert(rec.subrange(dir.len() as int + 1, rec.len() as int) =~= path);
    assert(line_value(rec, dir) == path);
    let grown = lines.push(rec);
    assert(grown.last() == rec);
}

} // verus!
