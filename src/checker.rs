use vstd::prelude::*;
use crate::lines::measured_size;
use crate::pattern::{compile, is_match, regex_compiles, regex_finds};

verus! {

/// A file found under one of the checked paths.
#[derive(Debug)]
pub struct FileEntry {
    /// The path as it is shown in the report.
    pub path: String,
    /// The path as UTF-8 text, where it is valid UTF-8.
    pub utf8_path: Option<String>,
}

impl FileEntry {
    /// The text that the patterns are matched against: the UTF-8 path, or
    /// the empty text where the path is not valid UTF-8.
    pub open spec fn key(&self) -> Seq<char> {
        match self.utf8_path {
            Some(s) => s@,
            None => Seq::empty(),
        }
    }

    /// The text that the patterns are matched against.
    pub fn match_text(&self) -> (r: &str)
        ensures
            r@ == self.key(),
    {
        match &self.utf8_path {
            Some(s) => s.as_str(),
            None => {
                proof {
                    reveal_strlit("");
                }
                assert(""@ =~= Seq::<char>::empty());
                ""
            },
        }
    }

    /// A copy of the entry, field for field.
    pub fn duplicate(&self) -> (r: FileEntry)
        ensures
            r == *self,
    {
        FileEntry {
            path: self.path.clone(),
            utf8_path: match &self.utf8_path {
                Some(s) => Some(s.clone()),
                None => None,
            },
        }
    }
}

/// A file with its measured line count.
#[derive(Debug)]
pub struct FileRecord {
    pub path: String,
    pub line_count: usize,
}

impl FileRecord {
    /// Records a file from what reading it gave: `None` where it could not be
    /// read as text.
    pub fn measured(path: String, contents: &Option<String>) -> (r: FileRecord)
        ensures
            r.path == path,
            r.line_count == measured_size(
                match contents {
                    Some(s) => Some(s@),
                    None => None,
                },
            ),
    {
        let line_count = crate::lines::get_size(contents);
        FileRecord { path, line_count }
    }

    /// A copy of the record, field for field.
    pub fn duplicate(&self) -> (r: FileRecord)
        ensures
            r == *self,
    {
        FileRecord { path: self.path.clone(), line_count: self.line_count }
    }
}

/// Which of the two patterns of a check a pattern is.
#[derive(Debug, Clone, Copy, PartialEq, Eq)]
pub enum PatternRole {
    Include,
    Exclude,
}

/// A pattern of the check that is not a valid regular expression.
#[derive(Debug)]
pub struct PatternError {
    pub role: PatternRole,
    pub cause: regex::Error,
}

/// Whether a pattern is given and fails to compile.
pub open spec fn pattern_invalid(pattern: Seq<char>) -> bool {
    pattern.len() > 0 && !regex_compiles(pattern)
}

/// Whether a file whose key is `text` passes both patterns: an empty pattern
/// filters nothing.
pub open spec fn selects(incl: Seq<char>, excl: Seq<char>, text: Seq<char>) -> bool {
    &&& (incl.len() == 0 || regex_finds(incl, text))
    &&& (excl.len() == 0 || !regex_finds(excl, text))
}

/// The files that both patterns let through, in their order.
pub open spec fn selection(files: Seq<FileEntry>, incl: Seq<char>, excl: Seq<char>) -> Seq<
    FileEntry,
> {
    files.filter(|f: FileEntry| selects(incl, excl, f.key()))
}

/// The elements of `s` whose mark in `keep` is set, in their order.
pub open spec fn marked<A>(s: Seq<A>, keep: Seq<bool>) -> Seq<A>
    decreases s.len(),
{
    if s.len() == 0 {
        Seq::empty()
    } else {
        let rest = marked(s.drop_last(), keep);
        if keep[s.len() - 1] {
            rest.push(s.last())
        } else {
            rest
        }
    }
}

/// The records over the limit, in their order.
pub open spec fn failing(records: Seq<FileRecord>, max_lines: usize) -> Seq<FileRecord> {
    records.filter(|r: FileRecord| r.line_count > max_lines)
}

proof fn lemma_marked_is_filter(s: Seq<FileEntry>, keep: Seq<bool>, pred: spec_fn(FileEntry) -> bool)
    requires
        keep.len() >= s.len(),
        forall|i: int| 0 <= i < s.len() ==> keep[i] == pred(s[i]),
    ensures
        marked(s, keep) == s.filter(pred),
    decreases s.len(),
{
    reveal(Seq::filter);
    if s.len() > 0 {
        lemma_marked_is_filter(s.drop_last(), keep, pred);
    }
}

/// Keeps the files whose mark is set, in their order.
pub fn retain_marked(files: &Vec<FileEntry>, keep: &Vec<bool>) -> (r: Vec<FileEntry>)
    requires
        keep.len() == files.len(),
    ensures
        r@ == marked(files@, keep@),
{
    let mut out: Vec<FileEntry> = Vec::new();
    for i in 0..files.len()
        invariant
            keep.len() == files.len(),
            out@ == marked(files@.take(i as int), keep@),
    {
        assert(files@.take(i + 1).drop_last() == files@.take(i as int));
        if keep[i] {
            out.push(files[i].duplicate());
        }
    }
    assert(files@.take(files.len() as int) == files@);
    out
}

/// Marks each file that the inclusion and exclusion patterns let through; an
/// empty pattern filters nothing. Fails, before any file is looked at, when a
/// given pattern is not a valid regular expression, the inclusion pattern
/// first.
pub fn selection_marks(files: &Vec<FileEntry>, include_pattern: &str, exclude_pattern: &str) -> (r:
    Result<Vec<bool>, PatternError>)
    ensures
        r is Err <==> pattern_invalid(include_pattern@) || pattern_invalid(exclude_pattern@),
        r matches Err(e) ==> (e.role == PatternRole::Include <==> pattern_invalid(
            include_pattern@,
        )),
        r matches Ok(keep) ==> keep@.len() == files@.len() && forall|i: int|
            0 <= i < files@.len() ==> keep@[i] == selects(
                include_pattern@,
                exclude_pattern@,
                #[trigger] files@[i].key(),
            ),
{
    let incl_re = if include_pattern.is_empty() {
        None
    } else {
        match compile(include_pattern) {
            Ok(p) => Some(p),
            Err(cause) => {
                return Err(PatternError { role: PatternRole::Include, cause });
            },
        }
    };
    let excl_re = if exclude_pattern.is_empty() {
        None
    } else {
        match compile(exclude_pattern) {
            Ok(p) => Some(p),
            Err(cause) => {
                return Err(PatternError { role: PatternRole::Exclude, cause });
            },
        }
    };
    let ghost inc = include_pattern@;
    let ghost exc = exclude_pattern@;
    let mut keep: Vec<bool> = Vec::new();
    for i in 0..files.len()
        invariant
            keep.len() == i,
            include_pattern@.len() == 0 <==> incl_re is None,
            exclude_pattern@.len() == 0 <==> excl_re is None,
            incl_re matches Some(p) ==> p@ == inc,
            excl_re matches Some(p) ==> p@ == exc,
            inc == include_pattern@,
            exc == exclude_pattern@,
            forall|j: int| 0 <= j < i ==> keep@[j] == selects(inc, exc, files@[j].key()),
    {
        let text = files[i].match_text();
        let included = match &incl_re {
            Some(p) => is_match(p, text),
            None => true,
        };
        let excluded = match &excl_re {
            Some(p) => is_match(p, text),
            None => false,
        };
        keep.push(included && !excluded);
    }
    Ok(keep)
}

/// Selects the files that the inclusion and exclusion patterns let through,
/// in their order; an empty pattern filters nothing. Fails as
/// `selection_marks` does.
pub fn select_files(files: &Vec<FileEntry>, include_pattern: &str, exclude_pattern: &str) -> (r:
    Result<Vec<FileEntry>, PatternError>)
    ensures
        r is Err <==> pattern_invalid(include_pattern@) || pattern_invalid(exclude_pattern@),
        r matches Err(e) ==> (e.role == PatternRole::Include <==> pattern_invalid(
            include_pattern@,
        )),
        r matches Ok(v) ==> v@ == selection(files@, include_pattern@, exclude_pattern@),
{
    let keep = selection_marks(files, include_pattern, exclude_pattern)?;
    proof {
        lemma_marked_is_filter(
            files@,
            keep@,
            |f: FileEntry| selects(include_pattern@, exclude_pattern@, f.key()),
        );
    }
    Ok(retain_marked(files, &keep))
}

/// The records whose line count exceeds `max_lines`, in their order.
pub fn evaluate(records: &Vec<FileRecord>, max_lines: usize) -> (r: Vec<FileRecord>)
    ensures
        r@ == failing(records@, max_lines),
{
    let mut out: Vec<FileRecord> = Vec::new();
    for i in 0..records.len()
        invariant
            out@ == failing(records@.take(i as int), max_lines),
    {
        proof {
            reveal(Seq::filter);
        }
        assert(records@.take(i + 1).drop_last() == records@.take(i as int));
        if records[i].line_count > max_lines {
            out.push(records[i].duplicate());
        }
    }
    assert(records@.take(records.len() as int) == records@);
    out
}

} // verus!
