//! Parsing list-file entries and resolving their media paths.
//!
//! A list file describes ordered media segments, one per line:
//! pipe-delimited text with at least four fields, of which field 0 is the
//! source media path (with platform separators normalized) and field 3 the
//! text label.  A path is resolved by trying candidates in a fixed order
//! and taking the first that exists on the filesystem; when none exists
//! the entry is still kept, pointed at the last-tried candidate, so the
//! operator sees the load failure in the player rather than losing the
//! item silently.  The existence checks themselves are the caller's:
//! this module names the candidates and picks among the reported answers.

use vstd::prelude::*;

use crate::paths::spec_join_path;
use crate::paths::join_path;

verus! {

/// `s` cut at every occurrence of `sep`.  The result always has one more
/// element than there are separators; fields may be empty.
pub open spec fn split_on(s: Seq<char>, sep: char) -> Seq<Seq<char>>
    decreases s.len(),
{
    if s.len() == 0 {
        seq![Seq::<char>::empty()]
    } else {
        let rest = split_on(s.drop_last(), sep);
        if s.last() == sep {
            rest.push(Seq::<char>::empty())
        } else {
            rest.update(rest.len() - 1, rest.last().push(s.last()))
        }
    }
}

pub proof fn lemma_split_on_nonempty(s: Seq<char>, sep: char)
    ensures
        split_on(s, sep).len() >= 1,
    decreases s.len(),
{
    if s.len() > 0 {
        lemma_split_on_nonempty(s.drop_last(), sep);
    }
}

/// Cut `s` at every occurrence of `sep`.
pub fn split_fields(s: &str, sep: char) -> (fields: Vec<String>)
    ensures
        fields.deep_view() == split_on(s@, sep),
{
    let len = s.unicode_len();
    let mut fields: Vec<String> = Vec::new();
    let mut start: usize = 0;
    let mut i: usize = 0;
    proof {
        assert(fields.deep_view().push(s@.subrange(0, 0)) =~~= split_on(s@.take(0), sep));
    }
    while i < len
        invariant
            len == s@.len(),
            start <= i <= len,
            fields.deep_view().push(s@.subrange(start as int, i as int)) == split_on(
                s@.take(i as int),
                sep,
            ),
        decreases len - i,
    {
        let ghost prev_fields = fields.deep_view();
        let ghost prev_start = start as int;
        let c = s.get_char(i);
        if c == sep {
            let field = s.substring_char(start, i);
            fields.push(String::from_str(field));
            start = i + 1;
        }
        i = i + 1;
        proof {
            let t = s@.take(i as int);
            lemma_split_on_nonempty(s@.take(i as int - 1), sep);
            assert(t.drop_last() =~= s@.take(i as int - 1));
            assert(t.last() == s@[i as int - 1]);
            if c == sep {
                assert(fields.deep_view() =~~= prev_fields.push(
                    s@.subrange(prev_start, i as int - 1),
                ));
                assert(s@.subrange(start as int, i as int) =~= Seq::<char>::empty());
                assert(fields.deep_view().push(s@.subrange(start as int, i as int)) =~~= split_on(
                    t,
                    sep,
                ));
            } else {
                assert(s@.subrange(prev_start, i as int) =~= s@.subrange(
                    prev_start,
                    i as int - 1,
                ).push(s@[i as int - 1]));
                assert(fields.deep_view().push(s@.subrange(start as int, i as int)) =~~= split_on(
                    t,
                    sep,
                ));
            }
        }
    }
    let field = s.substring_char(start, len);
    fields.push(String::from_str(field));
    proof {
        assert(s@.take(len as int) =~= s@);
        assert(fields.deep_view() =~~= split_on(s@, sep));
    }
    fields
}

/// `s` with every backslash separator turned into a forward slash.
pub open spec fn normalize_seps(s: Seq<char>) -> Seq<char> {
    s.map_values(|c: char| if c == '\\' { '/' } else { c })
}

/// Normalize platform path separators.
pub fn normalize_separators(s: &str) -> (r: String)
    ensures
        r@ == normalize_seps(s@),
{
    proof {
        reveal_strlit("/");
    }
    let len = s.unicode_len();
    let mut r = String::new();
    let mut i: usize = 0;
    proof {
        assert(r@ =~= normalize_seps(s@.take(0)));
    }
    while i < len
        invariant
            len == s@.len(),
            i <= len,
            r@ == normalize_seps(s@.take(i as int)),
        decreases len - i,
    {
        let ghost prev = r@;
        let c = s.get_char(i);
        if c == '\\' {
            r.append("/");
            proof {
                reveal_strlit("/");
                assert(r@ =~= prev.push('/'));
            }
        } else {
            let piece = s.substring_char(i, i + 1);
            proof {
                assert(piece@ =~= seq![s@[i as int]]);
            }
            r.append(piece);
            proof {
                assert(r@ =~= prev.push(s@[i as int]));
            }
        }
        i = i + 1;
        proof {
            let f = |c: char| if c == '\\' {
                '/'
            } else {
                c
            };
            assert(normalize_seps(s@.take(i as int)) =~= normalize_seps(
                s@.take(i as int - 1),
            ).push(f(s@[i as int - 1])));
            assert(r@ =~= normalize_seps(s@.take(i as int)));
        }
    }
    proof {
        assert(s@.take(len as int) =~= s@);
    }
    r
}

/// The part of `p` after its last slash; `p` itself when it has none.
pub open spec fn spec_basename(p: Seq<char>) -> Seq<char>
    decreases p.len(),
{
    if p.len() == 0 {
        p
    } else if p.last() == '/' {
        Seq::<char>::empty()
    } else {
        spec_basename(p.drop_last()).push(p.last())
    }
}

/// `spec_basename` is the suffix that starts one past the last slash.
proof fn lemma_basename_suffix(p: Seq<char>, cut: int)
    requires
        0 <= cut <= p.len(),
        forall|k: int| cut <= k < p.len() ==> p[k] != '/',
        cut > 0 ==> p[cut - 1] == '/',
    ensures
        spec_basename(p) == p.subrange(cut, p.len() as int),
    decreases p.len(),
{
    if p.len() == 0 {
        assert(p.subrange(0, 0) =~= p);
    } else if cut == p.len() {
        assert(spec_basename(p) =~= p.subrange(cut, p.len() as int));
    } else {
        lemma_basename_suffix(p.drop_last(), cut);
        assert(p.drop_last().subrange(cut, p.len() - 1) =~= p.subrange(cut, p.len() - 1));
        assert(p.subrange(cut, p.len() as int) =~= p.subrange(cut, p.len() - 1).push(p.last()));
    }
}

/// The file-name part of a path, after the last forward slash.
pub fn basename(p: &str) -> (r: String)
    ensures
        r@ == spec_basename(p@),
{
    let len = p.unicode_len();
    let mut cut: usize = 0;
    let mut i: usize = 0;
    while i < len
        invariant
            len == p@.len(),
            cut <= i <= len,
            cut > 0 ==> p@[cut as int - 1] == '/',
            forall|k: int| cut <= k < i ==> p@[k] != '/',
        decreases len - i,
    {
        if p.get_char(i) == '/' {
            cut = i + 1;
        }
        i = i + 1;
    }
    let tail = p.substring_char(cut, len);
    proof {
        lemma_basename_suffix(p@, cut as int);
    }
    String::from_str(tail)
}

/// One parsed list-file entry: the normalized source path as written in
/// the file, and the text label shown when the item is loaded.
#[derive(Debug, PartialEq)]
pub struct ListEntry {
    pub raw_path: String,
    pub label: String,
}

impl ListEntry {
    /// The abstract value of an entry: path and label as character
    /// sequences.
    pub open spec fn view(&self) -> (Seq<char>, Seq<char>) {
        (self.raw_path@, self.label@)
    }
}

/// What a list line yields: the normalized field 0 and field 3, or
/// nothing when the line has fewer than four fields.
pub open spec fn spec_parse_line(line: Seq<char>) -> Option<(Seq<char>, Seq<char>)> {
    let fields = split_on(line, '|');
    if fields.len() >= 4 {
        Option::Some((normalize_seps(fields[0]), fields[3]))
    } else {
        Option::None
    }
}

/// Parse one list-file line.  A line with fewer than four pipe-delimited
/// fields is malformed and yields nothing; the caller warns and skips it.
pub fn parse_line(line: &str) -> (r: Option<ListEntry>)
    ensures
        r is Some <==> spec_parse_line(line@) is Some,
        r matches Some(e) ==> spec_parse_line(line@) matches Some(p) && e@ == p,
{
    let fields = split_fields(line, '|');
    if fields.len() >= 4 {
        let raw_path = normalize_separators(fields[0].as_str());
        let label = fields[3].clone();
        Some(ListEntry { raw_path, label })
    } else {
        None
    }
}

/// The line parser, as a function value.
pub open spec fn parse_line_fn() -> spec_fn(Seq<char>) -> Option<(Seq<char>, Seq<char>)> {
    |l: Seq<char>| spec_parse_line(l)
}

/// Parse a whole list file.  The entries come in file order, one per
/// line with at least four fields; every other line (blank ones
/// included) yields nothing.
pub fn parse_list(text: &str) -> (entries: Vec<ListEntry>)
    ensures
        entries@.map_values(|e: ListEntry| e@) == split_on(text@, '\n').filter_map(
            parse_line_fn(),
        ),
{
    let lines = split_fields(text, '\n');
    let ghost lines_deep = lines.deep_view();
    let mut entries: Vec<ListEntry> = Vec::new();
    let mut i: usize = 0;
    proof {
        assert(entries@.map_values(|e: ListEntry| e@) =~~= lines_deep.take(0).filter_map(
            parse_line_fn(),
        ));
    }
    while i < lines.len()
        invariant
            lines_deep == lines.deep_view(),
            lines.deep_view() == split_on(text@, '\n'),
            i <= lines@.len(),
            entries@.map_values(|e: ListEntry| e@) == lines_deep.take(i as int).filter_map(
                parse_line_fn(),
            ),
        decreases lines@.len() - i,
    {
        match parse_line(lines[i].as_str()) {
            Some(entry) => { entries.push(entry) },
            None => {},
        }
        i = i + 1;
        proof {
            let t = lines_deep.take(i as int);
            assert(t.drop_last() =~~= lines_deep.take(i as int - 1));
            assert(t.last() == lines_deep[i as int - 1]);
            assert(lines_deep[i as int - 1] == lines@[i as int - 1]@);
            assert(parse_line_fn()(t.last()) == spec_parse_line(lines@[i as int - 1]@));
            assert(entries@.map_values(|e: ListEntry| e@) =~~= t.filter_map(parse_line_fn()));
        }
    }
    proof {
        assert(lines_deep.take(lines@.len() as int) =~~= lines_deep);
    }
    entries
}

/// The candidate resolutions of an entry's path, in the order they are
/// tried: relative to the list file's own directory, then the basename
/// joined to the search root, then the full path joined to the search
/// root.
pub open spec fn spec_candidates(
    list_dir: Seq<char>,
    search_root: Seq<char>,
    raw: Seq<char>,
) -> Seq<Seq<char>> {
    seq![
        spec_join_path(list_dir, raw),
        spec_join_path(search_root, spec_basename(raw)),
        spec_join_path(search_root, raw),
    ]
}

/// Name the candidate paths for a list entry, in resolution order.
pub fn candidate_paths(list_dir: &str, search_root: &str, raw: &str) -> (c: Vec<String>)
    ensures
        c.deep_view() == spec_candidates(list_dir@, search_root@, raw@),
        c@.len() == 3,
{
    let mut c: Vec<String> = Vec::new();
    c.push(join_path(list_dir, raw));
    let base = basename(raw);
    c.push(join_path(search_root, base.as_str()));
    c.push(join_path(search_root, raw));
    proof {
        assert(c.deep_view() =~~= spec_candidates(list_dir@, search_root@, raw@));
    }
    c
}

/// Pick the candidate to use, given which candidates exist on the
/// filesystem: the first that exists, or the last tried when none does.
/// The second component says whether the pick exists; when it does not,
/// the caller keeps the item anyway and emits a warning.
pub fn pick_candidate(cands: &Vec<String>, exists: &Vec<bool>) -> (r: (usize, bool))
    requires
        cands@.len() == exists@.len(),
        cands@.len() > 0,
    ensures
        (r.0 as int) < cands@.len(),
        r.1 <==> exists@.contains(true),
        r.1 ==> exists@[r.0 as int] && (forall|k: int| 0 <= k < r.0 ==> !exists@[k]),
        !r.1 ==> r.0 as int == cands@.len() - 1,
{
    let n = cands.len();
    let mut i: usize = 0;
    while i < n
        invariant
            n == cands@.len(),
            n == exists@.len(),
            i <= n,
            forall|k: int| 0 <= k < i ==> !exists@[k],
        decreases n - i,
    {
        if exists[i] {
            proof {
                assert(exists@.contains(true));
            }
            return (i, true);
        }
        i = i + 1;
    }
    proof {
        assert(forall|k: int| 0 <= k < exists@.len() ==> exists@[k] != true);
        assert(!exists@.contains(true));
    }
    (n - 1, false)
}

} // verus!
