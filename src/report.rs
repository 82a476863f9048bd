use vstd::prelude::*;
use crate::checker::FileRecord;

verus! {

/// The decimal digit for `d`, which is below ten.
pub open spec fn digit(d: nat) -> char {
    if d == 0 {
        '0'
    } else if d == 1 {
        '1'
    } else if d == 2 {
        '2'
    } else if d == 3 {
        '3'
    } else if d == 4 {
        '4'
    } else if d == 5 {
        '5'
    } else if d == 6 {
        '6'
    } else if d == 7 {
        '7'
    } else if d == 8 {
        '8'
    } else {
        '9'
    }
}

/// `n` written in decimal, without sign or leading zeros.
pub open spec fn decimal(n: nat) -> Seq<char>
    decreases n,
{
    if n < 10 {
        seq![digit(n)]
    } else {
        decimal(n / 10).push(digit(n % 10))
    }
}

/// Relies on the `Display` impl of `usize` behind `to_string`: the value in
/// decimal digits, without sign, padding or leading zeros.
#[verifier::external_body]
fn decimal_text(n: usize) -> (r: String)
    ensures
        r@ == decimal(n as nat),
{
    n.to_string()
}

/// `message` framed by the terminal codes that show it in red.
pub open spec fn red_text(message: Seq<char>) -> Seq<char> {
    "\x1b[0;31m"@ + message + "\x1b[0m"@
}

/// Wraps `message` in the terminal codes that show it in red.
pub fn red(message: &str) -> (r: String)
    ensures
        r@ == red_text(message@),
{
    let mut s = String::from_str("\x1b[0;31m");
    s.append(message);
    s.append("\x1b[0m");
    s
}

/// One report line per failing file, `path:line_count`, each on a new line
/// after a space.
pub open spec fn failure_lines(failing: Seq<FileRecord>) -> Seq<char>
    decreases failing.len(),
{
    if failing.len() == 0 {
        Seq::empty()
    } else {
        failure_lines(failing.drop_last()) + "\n "@ + failing.last().path@ + ":"@ + decimal(
            failing.last().line_count as nat,
        )
    }
}

/// What the check prints: a success message when no file fails, else a red
/// header followed by the failing files in their order.
pub open spec fn report_text(failing: Seq<FileRecord>) -> Seq<char> {
    if failing.len() == 0 {
        "All fine! \u{1f389}"@
    } else {
        red_text("No good! \u{1f46e} \u{1f6a8} Some files are too long."@) + failure_lines(failing)
    }
}

/// The status the check exits with: zero when no file fails, one otherwise.
pub open spec fn exit_status(failing: Seq<FileRecord>) -> i32 {
    if failing.len() == 0 {
        0
    } else {
        1
    }
}

/// Renders the outcome of a check from its failing files.
pub fn report(failing: &Vec<FileRecord>) -> (r: String)
    ensures
        r@ == report_text(failing@),
{
    if failing.len() == 0 {
        return String::from_str("All fine! \u{1f389}");
    }
    let mut out = red("No good! \u{1f46e} \u{1f6a8} Some files are too long.");
    let ghost head = out@;
    for i in 0..failing.len()
        invariant
            head == red_text("No good! \u{1f46e} \u{1f6a8} Some files are too long."@),
            out@ == head + failure_lines(failing@.take(i as int)),
    {
        assert(failing@.take(i + 1).drop_last() == failing@.take(i as int));
        let count = decimal_text(failing[i].line_count);
        out.append("\n ");
        out.append(failing[i].path.as_str());
        out.append(":");
        out.append(count.as_str());
        assert(out@ == head + failure_lines(failing@.take(i + 1)));
    }
    assert(failing@.take(failing.len() as int) == failing@);
    out
}

/// The status the check exits with for these failing files.
pub fn exit_code(failing: &Vec<FileRecord>) -> (r: i32)
    ensures
        r == exit_status(failing@),
{
    if failing.len() == 0 {
        0
    } else {
        1
    }
}

} // verus!
