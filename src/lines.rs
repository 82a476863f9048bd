use vstd::prelude::*;

verus! {

/// Number of line feeds in `s`.
pub open spec fn newlines(s: Seq<char>) -> nat
    decreases s.len(),
{
    if s.len() == 0 {
        0
    } else {
        newlines(s.drop_last()) + if s.last() == '\n' { 1nat } else { 0nat }
    }
}

/// Number of lines in a text: each line ends at a line feed, and a last line
/// without one still counts, while an empty text has none.
pub open spec fn line_count(s: Seq<char>) -> nat {
    if s.len() == 0 {
        0
    } else if s.last() == '\n' {
        newlines(s)
    } else {
        newlines(s) + 1
    }
}

/// The size that a file is measured at: its line count when it could be read
/// as text, and zero when it could not.
pub open spec fn measured_size(contents: Option<Seq<char>>) -> nat {
    match contents {
        Some(s) => line_count(s),
        None => 0,
    }
}

proof fn lemma_newlines_bounded(s: Seq<char>)
    ensures
        newlines(s) <= s.len(),
    decreases s.len(),
{
    if s.len() > 0 {
        lemma_newlines_bounded(s.drop_last());
    }
}

/// Counts the lines of `text` as `str::lines` splits them.
pub fn count_lines(text: &str) -> (r: usize)
    ensures
        r == line_count(text@),
{
    let len = text.unicode_len();
    let mut feeds: usize = 0;
    let mut last: Option<char> = None;
    for c in it: text.chars()
        invariant
            it.seq() == text@,
            len == text@.len(),
            it.index() <= text@.len(),
            feeds == newlines(text@.take(it.index() as int)),
            feeds <= it.index(),
            last == (if it.index() == 0 {
                None::<char>
            } else {
                Some(text@[it.index() - 1])
            }),
    {
        assert(text@.take(it.index() + 1).drop_last() == text@.take(it.index() as int));
        if c == '\n' {
            feeds = feeds + 1;
        }
        last = Some(c);
    }
    assert(text@.take(text@.len() as int) == text@);
    match last {
        None => 0,
        Some(c) => if c == '\n' {
            feeds
        } else {
            proof {
                lemma_newlines_bounded(text@.drop_last());
            }
            feeds + 1
        },
    }
}

/// Size of a file from what reading it gave: the line count of its text, or
/// zero where it could not be read as text.
pub fn get_size(contents: &Option<String>) -> (r: usize)
    ensures
        r == measured_size(match contents {
            Some(s) => Some(s@),
            None => None,
        }),
{
    match contents {
        Some(s) => count_lines(s.as_str()),
        None => 0,
    }
}

} // verus!
