//! The static-analysis tally: the checkstyle report is parsed line by line
//! for the literal markers `CHECK`, `WARNING` and `ERROR`, counting at most
//! one marker per line, in that order of precedence.  The scoring bonus is
//! granted exactly when all three counters are zero.

use vstd::prelude::*;
use crate::textutil::{chars_of, contains_chars, contains_seq, line_views, lines_of, split_lines};

verus! {

/// The three counters of the static-analysis tally.
#[derive(Clone, Copy, Debug, PartialEq, Eq, Structural)]
pub struct ErrorTally {
    pub check: usize,
    pub warning: usize,
    pub error: usize,
}

/// The marker counted into `check`.
pub open spec fn check_marker() -> Seq<char> {
    seq!['C', 'H', 'E', 'C', 'K']
}

/// The marker counted into `warning`.
pub open spec fn warning_marker() -> Seq<char> {
    seq!['W', 'A', 'R', 'N', 'I', 'N', 'G']
}

/// The marker counted into `error`.
pub open spec fn error_marker() -> Seq<char> {
    seq!['E', 'R', 'R', 'O', 'R']
}

/// What one line contributes to the three counters: one count for the first
/// marker it holds, nothing otherwise.
pub open spec fn line_counts(l: Seq<char>) -> (int, int, int) {
    if contains_seq(l, check_marker()) {
        (1, 0, 0)
    } else if contains_seq(l, warning_marker()) {
        (0, 1, 0)
    } else if contains_seq(l, error_marker()) {
        (0, 0, 1)
    } else {
        (0, 0, 0)
    }
}

/// The tally of a sequence of lines.
pub open spec fn tally_of(lines: Seq<Seq<char>>) -> (int, int, int)
    decreases lines.len(),
{
    if lines.len() == 0 {
        (0, 0, 0)
    } else {
        let t = tally_of(lines.drop_last());
        let c = line_counts(lines.last());
        (t.0 + c.0, t.1 + c.1, t.2 + c.2)
    }
}

/// The tally of a whole report, split into lines first.
pub open spec fn tally_spec(text: Seq<char>) -> (int, int, int) {
    tally_of(lines_of(text))
}

/// Whether the tally grants the checkstyle bonus: no marker was counted.
pub open spec fn tally_clean(t: ErrorTally) -> bool {
    t.check == 0 && t.warning == 0 && t.error == 0
}

fn check_needle() -> (r: Vec<char>)
    ensures
        r@ == check_marker(),
{
    let r = vec!['C', 'H', 'E', 'C', 'K'];
    proof {
        assert(r@ =~= check_marker());
    }
    r
}

fn warning_needle() -> (r: Vec<char>)
    ensures
        r@ == warning_marker(),
{
    let r = vec!['W', 'A', 'R', 'N', 'I', 'N', 'G'];
    proof {
        assert(r@ =~= warning_marker());
    }
    r
}

fn error_needle() -> (r: Vec<char>)
    ensures
        r@ == error_marker(),
{
    let r = vec!['E', 'R', 'R', 'O', 'R'];
    proof {
        assert(r@ =~= error_marker());
    }
    r
}

/// Counts the marker lines of a report.  Each line counts towards at most
/// one counter: `CHECK` wins over `WARNING`, `WARNING` over `ERROR`.
pub fn tally_report(text: &Vec<char>) -> (r: ErrorTally)
    ensures
        (r.check as int, r.warning as int, r.error as int) == tally_spec(text@),
{
    let lines = split_lines(text);
    let check_pat = check_needle();
    let warning_pat = warning_needle();
    let error_pat = error_needle();
    let mut t = ErrorTally { check: 0, warning: 0, error: 0 };
    let mut i: usize = 0;
    proof {
        assert(line_views(lines@).take(0) =~= Seq::<Seq<char>>::empty());
    }
    while i < lines.len()
        invariant
            0 <= i <= lines.len(),
            line_views(lines@) == lines_of(text@),
            check_pat@ == check_marker(),
            warning_pat@ == warning_marker(),
            error_pat@ == error_marker(),
            t.check + t.warning + t.error <= i,
            (t.check as int, t.warning as int, t.error as int) == tally_of(
                line_views(lines@).take(i as int),
            ),
        decreases lines.len() - i,
    {
        proof {
            assert(line_views(lines@).take(i + 1).drop_last() =~= line_views(
                lines@,
            ).take(i as int));
            assert(line_views(lines@).take(i + 1).last() == lines@[i as int]@);
        }
        let line = &lines[i];
        if contains_chars(line, &check_pat) {
            t.check = t.check + 1;
        } else if contains_chars(line, &warning_pat) {
            t.warning = t.warning + 1;
        } else if contains_chars(line, &error_pat) {
            t.error = t.error + 1;
        }
        i = i + 1;
    }
    proof {
        assert(line_views(lines@).take(i as int) =~= line_views(lines@));
    }
    t
}

/// Counts the marker lines of a report handed over as text.
pub fn tally_text(text: &str) -> (r: ErrorTally)
    ensures
        (r.check as int, r.warning as int, r.error as int) == tally_spec(text@),
{
    let chars = chars_of(text);
    tally_report(&chars)
}

} // verus!
