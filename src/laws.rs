use vstd::prelude::*;
use crate::checker::{failing, selection, FileEntry, FileRecord};
use crate::lines::measured_size;
use crate::report::{exit_status, report_text};

verus! {

proof fn lemma_filter_none<A>(s: Seq<A>, p: spec_fn(A) -> bool)
    requires
        forall|i: int| 0 <= i < s.len() ==> !p(s[i]),
    ensures
        s.filter(p) == Seq::<A>::empty(),
    decreases s.len(),
{
    reveal(Seq::filter);
    if s.len() > 0 {
        lemma_filter_none(s.drop_last(), p);
    }
}

proof fn lemma_filter_idempotent<A>(s: Seq<A>, p: spec_fn(A) -> bool)
    ensures
        s.filter(p).filter(p) == s.filter(p),
    decreases s.len(),
{
    reveal(Seq::filter);
    if s.len() > 0 {
        let t = s.drop_last().filter(p);
        lemma_filter_idempotent(s.drop_last(), p);
        if p(s.last()) {
            assert(t.push(s.last()).drop_last() == t);
        }
    }
}

/// When every file is within the limit, no file fails, the report is the
/// success message and the check exits with zero.
pub proof fn lemma_within_limit_passes(records: Seq<FileRecord>, max_lines: usize)
    requires
        forall|i: int| 0 <= i < records.len() ==> records[i].line_count <= max_lines,
    ensures
        failing(records, max_lines).len() == 0,
        exit_status(failing(records, max_lines)) == 0,
        report_text(failing(records, max_lines)) == "All fine! \u{1f389}"@,
{
    lemma_filter_none(records, |r: FileRecord| r.line_count > max_lines);
}

/// A file over the limit is among the failing files, with its line count,
/// and the check exits with one.
pub proof fn lemma_over_limit_reported(records: Seq<FileRecord>, max_lines: usize, i: int)
    requires
        0 <= i < records.len(),
        records[i].line_count > max_lines,
    ensures
        failing(records, max_lines).contains(records[i]),
        exit_status(failing(records, max_lines)) == 1,
{
    records.lemma_filter_contains(|r: FileRecord| r.line_count > max_lines, i);
}

/// A file that could not be read is measured at zero lines, so it never
/// fails, whatever the limit.
pub proof fn lemma_unreadable_never_fails(records: Seq<FileRecord>, max_lines: usize, i: int)
    requires
        0 <= i < records.len(),
        records[i].line_count == measured_size(None),
    ensures
        !failing(records, max_lines).contains(records[i]),
{
    let p = |r: FileRecord| r.line_count > max_lines;
    if failing(records, max_lines).contains(records[i]) {
        let j = choose|j: int|
            0 <= j < records.filter(p).len() && records.filter(p)[j] == records[i];
        records.lemma_filter_pred(p, j);
    }
}

/// Checking again what a check kept gives the same files in the same order:
/// selecting the selected files keeps them all, and evaluating the failing
/// files reports them all.
pub proof fn lemma_check_repeatable(
    files: Seq<FileEntry>,
    incl: Seq<char>,
    excl: Seq<char>,
    records: Seq<FileRecord>,
    max_lines: usize,
)
    ensures
        selection(selection(files, incl, excl), incl, excl) == selection(files, incl, excl),
        failing(failing(records, max_lines), max_lines) == failing(records, max_lines),
{
    lemma_filter_idempotent(files, |f: FileEntry| crate::checker::selects(incl, excl, f.key()));
    lemma_filter_idempotent(records, |r: FileRecord| r.line_count > max_lines);
}

} // verus!
