use vstd::prelude::*;
use crate::output::Line;
use crate::text::{expand_tabs, expanded};

verus! {

#[verifier::external_type_specification]
#[verifier::external_body]
pub struct ExRegex(regex::Regex);

/// Whether a file name is a rotated archive: four-digit year, two-digit month
/// and day, a dash-separated sequence number, and `.log.gz`.
pub uninterp spec fn archive_name_match(name: Seq<char>) -> bool;

/// The compiled file-name filter for rotated archives.
pub struct ArchivePattern {
    re: regex::Regex,
}

/// Relies on `regex::Regex::new` accepting the fixed archive-name pattern.
#[verifier::external_body]
fn compile_archive_pattern() -> regex::Regex {
    regex::Regex::new(r"^\d{4}-\d\d-\d\d-\d+\.log\.gz$").unwrap()
}

/// Relies on `regex::Regex::is_match` with the pattern that `ArchivePattern::new`
/// compiled, the only value its private field can hold.
#[verifier::external_body]
fn archive_is_match(p: &ArchivePattern, name: &str) -> (r: bool)
    ensures
        r == archive_name_match(name@),
{
    p.re.is_match(name)
}

/// Lexicographic order on characters, which is the order of `String`'s `Ord`
/// (UTF-8 bytes compare as code points do).
pub open spec fn lex_le(a: Seq<char>, b: Seq<char>) -> bool
    decreases a.len(),
{
    if a.len() == 0 {
        true
    } else if b.len() == 0 {
        false
    } else if a[0] != b[0] {
        (a[0] as u32) < (b[0] as u32)
    } else {
        lex_le(a.drop_first(), b.drop_first())
    }
}

pub open spec fn sorted_names(s: Seq<String>) -> bool {
    forall|i: int, j: int| 0 <= i < j < s.len() ==> lex_le(s[i]@, s[j]@)
}

/// Relies on `slice::sort_unstable` for `String`: a permutation in ascending order.
#[verifier::external_body]
fn sort_names(v: &mut Vec<String>)
    ensures
        final(v)@.to_multiset() == old(v)@.to_multiset(),
        sorted_names(final(v)@),
{
    v.sort_unstable()
}

pub open spec fn archive_pred() -> spec_fn(String) -> bool {
    |s: String| archive_name_match(s@)
}

impl ArchivePattern {
    pub fn new() -> ArchivePattern {
        ArchivePattern { re: compile_archive_pattern() }
    }

    /// Whether `name` is the file name of a rotated archive.
    pub fn matches(&self, name: &str) -> (r: bool)
        ensures
            r == archive_name_match(name@),
    {
        archive_is_match(self, name)
    }

    /// The archive names among `names`, in ascending (chronological) order;
    /// other names are left out.
    pub fn select_archives(&self, names: Vec<String>) -> (r: Vec<String>)
        ensures
            r@.to_multiset() == names@.filter(archive_pred()).to_multiset(),
            sorted_names(r@),
    {
        let mut kept: Vec<String> = Vec::new();
        let mut i: usize = 0;
        while i < names.len()
            invariant
                i <= names@.len(),
                kept@ == names@.subrange(0, i as int).filter(archive_pred()),
            decreases names.len() - i,
        {
            let name = &names[i];
            let keep = self.matches(name.as_str());
            proof {
                let p = names@.subrange(0, i + 1);
                assert(p.drop_last() =~= names@.subrange(0, i as int));
                reveal(Seq::filter);
            }
            if keep {
                kept.push(name.clone());
            }
            i = i + 1;
        }
        proof {
            assert(names@.subrange(0, names@.len() as int) =~= names@);
        }
        sort_names(&mut kept);
        kept
    }
}

/// The files the history loader reads, newest first: the live file, then the
/// archives from the last in ascending order to the first.
pub fn read_order(live: &String, archives: &Vec<String>) -> (r: Vec<String>)
    ensures
        r@.len() == archives@.len() + 1,
        r@[0]@ == live@,
        forall|k: int| 1 <= k < r@.len() ==> r@[k]@ == archives@[archives@.len() - k]@,
{
    let mut r: Vec<String> = Vec::new();
    r.push(live.clone());
    let mut i: usize = archives.len();
    while i > 0
        invariant
            i <= archives@.len(),
            r@.len() == archives@.len() - i + 1,
            r@[0]@ == live@,
            forall|k: int| 1 <= k < r@.len() ==> r@[k]@ == archives@[archives@.len() - k]@,
        decreases i,
    {
        i = i - 1;
        r.push(archives[i].clone());
    }
    r
}

/// `l` is a log line with text `s`.
pub open spec fn is_log_of(l: Line, s: Seq<char>) -> bool {
    l matches Line::Log(t) && t@ == s
}

/// `l` is a header naming `s`.
pub open spec fn is_header_of(l: Line, s: Seq<char>) -> bool {
    l matches Line::Header(t) && t@ == s
}

/// A log entry for a line of text: tabs become four spaces.
pub fn log_entry(text: &str) -> (r: Line)
    ensures
        is_log_of(r, expanded(text@)),
{
    Line::Log(expand_tabs(text))
}

/// The entries of one file in the order the history loader hands them out:
/// its lines from last to first, tab-expanded, then a header naming the file.
pub fn file_entries(lines: &Vec<String>, label: String) -> (r: Vec<Line>)
    ensures
        r@.len() == lines@.len() + 1,
        forall|k: int|
            0 <= k < lines@.len() ==> is_log_of(#[trigger] r@[k], expanded(lines@[lines@.len() - 1 - k]@)),
        is_header_of(r@[lines@.len() as int], label@),
{
    let mut r: Vec<Line> = Vec::new();
    let mut i: usize = lines.len();
    while i > 0
        invariant
            i <= lines@.len(),
            r@.len() == lines@.len() - i,
            forall|k: int|
                0 <= k < r@.len() ==> is_log_of(#[trigger] r@[k], expanded(lines@[lines@.len() - 1 - k]@)),
        decreases i,
    {
        i = i - 1;
        r.push(log_entry(lines[i].as_str()));
    }
    r.push(Line::Header(label));
    r
}

} // verus!
