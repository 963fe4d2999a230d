//! Text utilities over character sequences: substring search and
//! splitting into lines.
//! The checkstyle report is consumed as an opaque text blob and parsed line
//! by line for literal markers, so both operations carry exact contracts.

use vstd::prelude::*;

verus! {

/// True when `n` occurs in `h` starting at position `i`.
pub open spec fn matches_at(h: Seq<char>, n: Seq<char>, i: int) -> bool {
    0 <= i && i + n.len() <= h.len() && h.subrange(i, i + n.len()) == n
}

/// True when `n` occurs somewhere in `h`.
pub open spec fn contains_seq(h: Seq<char>, n: Seq<char>) -> bool {
    exists|i: int| matches_at(h, n, i)
}

/// Whether `n` occurs in `h` at exactly position `i`.
fn match_at_pos(h: &Vec<char>, n: &Vec<char>, i: usize) -> (r: bool)
    requires
        i + n.len() <= h.len(),
    ensures
        r == matches_at(h@, n@, i as int),
{
    let mut k: usize = 0;
    while k < n.len()
        invariant
            i + n.len() <= h.len(),
            0 <= k <= n@.len(),
            forall|m: int| 0 <= m < k ==> h@[i + m] == n@[m],
        decreases n@.len() - k,
    {
        if h[i + k] != n[k] {
            proof {
                assert(!matches_at(h@, n@, i as int)) by {
                    if matches_at(h@, n@, i as int) {
                        assert(h@.subrange(i as int, i + n@.len())[k as int] == n@[k as int]);
                    }
                }
            }
            return false;
        }
        k = k + 1;
    }
    proof {
        assert(h@.subrange(i as int, i + n@.len()) =~= n@);
    }
    true
}

/// Substring search: whether `n` occurs in `h`.
pub fn contains_chars(h: &Vec<char>, n: &Vec<char>) -> (r: bool)
    ensures
        r == contains_seq(h@, n@),
{
    if n.len() == 0 {
        proof {
            assert(h@.subrange(0, 0) =~= n@);
            assert(matches_at(h@, n@, 0));
        }
        return true;
    }
    if n.len() > h.len() {
        return false;
    }
    let last_start = h.len() - n.len();
    let mut i: usize = 0;
    while i <= last_start
        invariant
            0 < n.len() <= h.len(),
            last_start == h.len() - n.len(),
            0 <= i <= last_start + 1,
            forall|j: int| 0 <= j < i ==> !matches_at(h@, n@, j),
        decreases last_start + 1 - i,
    {
        if match_at_pos(h, n, i) {
            return true;
        }
        i = i + 1;
    }
    proof {
        assert(forall|j: int| !matches_at(h@, n@, j)) by {
            assert(forall|j: int| j > last_start ==> !matches_at(h@, n@, j));
        }
    }
    false
}

/// Index of the first newline in `s`, or `s.len()` if there is none.
pub open spec fn first_nl(s: Seq<char>) -> int
    decreases s.len(),
{
    if s.len() == 0 {
        0
    } else if s[0] == '\n' {
        0
    } else {
        1 + first_nl(s.skip(1))
    }
}

/// `first_nl` stays within bounds, points at a newline when one exists, and
/// nothing before it is a newline.
proof fn lemma_first_nl_bounds(s: Seq<char>)
    ensures
        0 <= first_nl(s) <= s.len(),
        first_nl(s) < s.len() ==> s[first_nl(s)] == '\n',
        forall|k: int| 0 <= k < first_nl(s) ==> s[k] != '\n',
    decreases s.len(),
{
    if s.len() > 0 && s[0] != '\n' {
        lemma_first_nl_bounds(s.skip(1));
        assert(forall|k: int| 0 <= k < first_nl(s) ==> s[k] != '\n') by {
            assert(forall|k: int| 1 <= k < first_nl(s) ==> s[k] == s.skip(1)[k - 1]);
        }
    }
}

/// The lines of `s`: maximal newline-free segments, in order.  Text ending in
/// a newline produces no empty final line.
pub open spec fn lines_of(s: Seq<char>) -> Seq<Seq<char>>
    decreases s.len(),
    via lines_of_dec
{
    if s.len() == 0 {
        seq![]
    } else {
        let i = first_nl(s);
        if i == s.len() {
            seq![s]
        } else {
            seq![s.take(i)] + lines_of(s.skip(i + 1))
        }
    }
}

#[via_fn]
proof fn lines_of_dec(s: Seq<char>) {
    lemma_first_nl_bounds(s);
}

/// A newline-free sequence is one whole line.
proof fn lemma_lines_no_nl(s: Seq<char>)
    requires
        s.len() > 0,
        forall|k: int| 0 <= k < s.len() ==> s[k] != '\n',
    ensures
        lines_of(s) == seq![s],
    decreases s.len(),
{
    lemma_first_nl_no(s);
}

/// Without a newline, `first_nl` is the whole length.
proof fn lemma_first_nl_no(s: Seq<char>)
    requires
        forall|k: int| 0 <= k < s.len() ==> s[k] != '\n',
    ensures
        first_nl(s) == s.len(),
    decreases s.len(),
{
    if s.len() > 0 {
        assert(forall|k: int| 0 <= k < s.skip(1).len() ==> s.skip(1)[k] != '\n') by {
            assert(forall|k: int| 0 <= k < s.skip(1).len() ==> s.skip(1)[k] == s[k + 1]);
        }
        lemma_first_nl_no(s.skip(1));
    }
}

/// `first_nl` of a newline-free prefix followed by a newline is that prefix's
/// length.
proof fn lemma_first_nl_concat(p: Seq<char>, rest: Seq<char>)
    requires
        forall|k: int| 0 <= k < p.len() ==> p[k] != '\n',
    ensures
        first_nl(p + seq!['\n'] + rest) == p.len(),
    decreases p.len(),
{
    let s = p + seq!['\n'] + rest;
    if p.len() == 0 {
        assert(s[0] == '\n');
    } else {
        assert(s[0] == p[0]);
        assert(forall|k: int| 0 <= k < p.skip(1).len() ==> p.skip(1)[k] == p[k + 1]);
        lemma_first_nl_concat(p.skip(1), rest);
        assert(s.skip(1) =~= p.skip(1) + seq!['\n'] + rest);
    }
}

/// Splitting off one newline-free line from the front.
proof fn lemma_lines_prefix(p: Seq<char>, rest: Seq<char>)
    requires
        forall|k: int| 0 <= k < p.len() ==> p[k] != '\n',
    ensures
        lines_of(p + seq!['\n'] + rest) == seq![p] + lines_of(rest),
{
    let s = p + seq!['\n'] + rest;
    lemma_first_nl_concat(p, rest);
    assert(s.len() > 0);
    assert(first_nl(s) == p.len());
    assert(p.len() < s.len());
    assert(s.take(p.len() as int) =~= p);
    assert(s.skip(p.len() as int + 1) =~= rest);
}

/// The element views of a vector of character vectors.
pub open spec fn line_views(s: Seq<Vec<char>>) -> Seq<Seq<char>> {
    s.map(|i: int, v: Vec<char>| v@)
}

/// Splits `b` into its lines.
pub fn split_lines(b: &Vec<char>) -> (r: Vec<Vec<char>>)
    ensures
        line_views(r@) == lines_of(b@),
{
    let mut out: Vec<Vec<char>> = Vec::new();
    let mut cur: Vec<char> = Vec::new();
    let mut i: usize = 0;
    proof {
        assert(cur@ + b@.skip(0) =~= b@);
        assert(line_views(out@) + lines_of(b@) =~= lines_of(b@));
    }
    while i < b.len()
        invariant
            0 <= i <= b@.len(),
            forall|k: int| 0 <= k < cur@.len() ==> cur@[k] != '\n',
            lines_of(b@) == line_views(out@) + lines_of(cur@ + b@.skip(i as int)),
        decreases b@.len() - i,
    {
        let c = b[i];
        if c == '\n' {
            proof {
                assert(cur@ + b@.skip(i as int) =~= cur@ + seq!['\n'] + b@.skip(i + 1));
                lemma_lines_prefix(cur@, b@.skip(i + 1));
                assert(line_views(out@.push(cur)) =~= line_views(out@) + seq![cur@]);
                assert(line_views(out@) + (seq![cur@] + lines_of(b@.skip(i + 1)))
                    =~= line_views(out@.push(cur)) + lines_of(b@.skip(i + 1)));
            }
            out.push(cur);
            cur = Vec::new();
            proof {
                assert(cur@ + b@.skip(i + 1) =~= b@.skip(i + 1));
            }
        } else {
            proof {
                assert(cur@.push(c) + b@.skip(i + 1) =~= cur@ + b@.skip(i as int));
            }
            cur.push(c);
        }
        i = i + 1;
    }
    proof {
        assert(cur@ + b@.skip(i as int) =~= cur@);
    }
    if cur.len() > 0 {
        proof {
            lemma_lines_no_nl(cur@);
            assert(line_views(out@.push(cur)) =~= line_views(out@) + seq![cur@]);
        }
        out.push(cur);
    } else {
        proof {
            assert(lines_of(cur@) =~= Seq::<Seq<char>>::empty());
            assert(line_views(out@) + Seq::<Seq<char>>::empty() =~= line_views(out@));
        }
    }
    out
}

/// The characters of a string, as a vector.
pub fn chars_of(s: &str) -> (r: Vec<char>)
    ensures
        r@ == s@,
{
    let n = s.unicode_len();
    let mut r: Vec<char> = Vec::new();
    let mut i: usize = 0;
    while i < n
        invariant
            n == s@.len(),
            0 <= i <= n,
            r@ == s@.take(i as int),
        decreases n - i,
    {
        r.push(s.get_char(i));
        proof {
            assert(r@ =~= s@.take(i + 1));
        }
        i = i + 1;
    }
    proof {
        assert(s@.take(n as int) =~= s@);
    }
    r
}

} // verus!
