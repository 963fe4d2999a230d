//! The line diff shown beside a job's log: the currently selected job's
//! captured output against its reference output.  The diff itself comes from
//! the `similar` crate behind a trusted wrapper; rendering the changes into
//! signed display lines, and the view's first-difference and size rules, are
//! verified here.

use vstd::prelude::*;

verus! {

/// How many diff lines the view shows at most; a longer diff is cut and a
/// marker line appended.
pub const DIFF_DISPLAY_LIMIT: usize = 10000;

/// One raw change of the line diff: its tag (`'-'` deleted, `'+'` inserted,
/// `' '` common), the line's text (with its newline when it has one), and
/// whether the newline is missing.
#[derive(Debug, Clone, PartialEq, Eq)]
pub struct DiffChange {
    pub sign: char,
    pub text: String,
    pub newline_missing: bool,
}

/// The element views of a sequence of raw changes.
pub open spec fn change_views(s: Seq<DiffChange>) -> Seq<(char, Seq<char>, bool)> {
    s.map(|i: int, c: DiffChange| (c.sign, c.text@, c.newline_missing))
}

/// The line diff of two texts.  What `similar` computes takes pages to
/// state; the contracts downstream only need that it is a function of the
/// two texts alone.
pub uninterp spec fn line_diff_of(a: Seq<char>, b: Seq<char>) -> Seq<(char, Seq<char>, bool)>;

/// Relies on similar's `TextDiff::from_lines` and `iter_all_changes`: the
/// diff of two texts split into lines, one change per line, deleted lines
/// tagged `Delete`, inserted `Insert`, common `Equal`.  The result depends
/// on the two texts alone.
#[verifier::external_body]
fn diff_lines_raw(a: &str, b: &str) -> (r: Vec<DiffChange>)
    ensures
        change_views(r@) == line_diff_of(a@, b@),
{
    similar::TextDiff::from_lines(a, b).iter_all_changes().map(|c| DiffChange {
        sign: match c.tag() {
            similar::ChangeTag::Delete => '-',
            similar::ChangeTag::Insert => '+',
            similar::ChangeTag::Equal => ' ',
        },
        text: c.value().to_string(),
        newline_missing: c.missing_newline(),
    }).collect()
}

/// One line of the rendered diff: the sign and the text to display.
#[derive(Debug, Clone, PartialEq, Eq)]
pub struct DiffLine {
    pub sign: char,
    pub text: String,
}

/// What one raw change renders to: the line followed by a newline when it
/// had none, or by a return mark making the newline visible when it did.
pub open spec fn rendered_text(text: Seq<char>, newline_missing: bool) -> Seq<char> {
    if newline_missing {
        text + "\n"@
    } else {
        text + "\u{23ce}"@
    }
}

/// Whether `d` is the rendering of the raw changes `raw`, line by line.
pub open spec fn diff_rendered(d: Seq<DiffLine>, raw: Seq<(char, Seq<char>, bool)>) -> bool {
    &&& d.len() == raw.len()
    &&& forall|i: int|
        0 <= i < d.len() ==> (#[trigger] d[i]).sign == raw[i].0 && d[i].text@ == rendered_text(
            raw[i].1,
            raw[i].2,
        )
}

/// The line diff of two texts, rendered for display.
pub fn diff_lines(a: &str, b: &str) -> (r: Vec<DiffLine>)
    ensures
        diff_rendered(r@, line_diff_of(a@, b@)),
{
    let changes = diff_lines_raw(a, b);
    let mut r: Vec<DiffLine> = Vec::new();
    let mut i: usize = 0;
    while i < changes.len()
        invariant
            change_views(changes@) == line_diff_of(a@, b@),
            0 <= i <= changes@.len(),
            r@.len() == i,
            forall|j: int|
                0 <= j < i ==> (#[trigger] r@[j]).sign == line_diff_of(a@, b@)[j].0
                    && r@[j].text@ == rendered_text(line_diff_of(a@, b@)[j].1, line_diff_of(
                    a@,
                    b@,
                )[j].2),
        decreases changes@.len() - i,
    {
        proof {
            assert(change_views(changes@)[i as int] == (changes@[i as int].sign,
            changes@[i as int].text@, changes@[i as int].newline_missing));
        }
        let c = &changes[i];
        let mut text = c.text.clone();
        if c.newline_missing {
            text.append("\n");
        } else {
            text.append("\u{23ce}");
        }
        r.push(DiffLine { sign: c.sign, text });
        i = i + 1;
    }
    r
}

/// The number of lines the diff view shows for a diff of `len` lines: the
/// cap at most, plus one marker line when the diff was cut.
pub open spec fn display_size_spec(len: nat) -> int {
    if len > DIFF_DISPLAY_LIMIT {
        DIFF_DISPLAY_LIMIT + 1
    } else {
        len as int
    }
}

/// How many lines the diff view shows for a diff of `len` lines.
pub fn display_size(len: usize) -> (r: usize)
    ensures
        r == display_size_spec(len as nat),
{
    if len > DIFF_DISPLAY_LIMIT {
        DIFF_DISPLAY_LIMIT + 1
    } else {
        len
    }
}

/// The index the diff view first scrolls to: the first shown line that is
/// not common to both texts, or the top when every shown line is.
pub fn first_diff_index(diff: &Vec<DiffLine>) -> (r: usize)
    ensures
        r == 0 || (r < diff@.len() && r < DIFF_DISPLAY_LIMIT),
        r < diff@.len() ==> forall|j: int| 0 <= j < r ==> (#[trigger] diff@[j]).sign == ' ',
        (exists|i: int|
            0 <= i < diff@.len() && i < DIFF_DISPLAY_LIMIT && (#[trigger] diff@[i]).sign
                != ' ') ==> r < diff@.len() && diff@[r as int].sign != ' ',
{
    let mut i: usize = 0;
    while i < diff.len() && i < DIFF_DISPLAY_LIMIT
        invariant
            0 <= i <= diff@.len(),
            i <= DIFF_DISPLAY_LIMIT,
            forall|j: int| 0 <= j < i ==> (#[trigger] diff@[j]).sign == ' ',
        decreases diff@.len() - i,
    {
        if diff[i].sign != ' ' {
            return i;
        }
        i = i + 1;
    }
    0
}

} // verus!
