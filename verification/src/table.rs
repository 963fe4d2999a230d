//! The job table: test records grouped by executable, the flat index the
//! presentation layer selects with, and the score aggregation over the
//! whole table.

use vstd::prelude::*;
use crate::checkstyle::{tally_clean, ErrorTally};
use crate::status::{score_of, Status};

verus! {

/// One test case of one executable: its stable id (names its input,
/// reference and output files), display name, last status and captured log
/// (always replaced as a pair), the elapsed times of the last plain and
/// wrapped runs in milliseconds, the total timeout in milliseconds, and the
/// points a pass is worth.
#[derive(Debug, PartialEq, Eq)]
pub struct Test {
    pub id: usize,
    pub name: String,
    pub status: Status,
    pub log: String,
    pub time_normal_millis: u64,
    pub time_valgrind_millis: u64,
    pub timeout: u64,
    pub test_score: usize,
}

impl Clone for Test {
    /// An exact copy.
    fn clone(&self) -> (r: Self)
        ensures
            r == *self,
    {
        Test {
            id: self.id,
            name: self.name.clone(),
            status: self.status,
            log: self.log.clone(),
            time_normal_millis: self.time_normal_millis,
            time_valgrind_millis: self.time_valgrind_millis,
            timeout: self.timeout,
            test_score: self.test_score,
        }
    }
}

/// Copies one group of tests.
pub fn clone_group(tests: &Vec<Test>) -> (r: Vec<Test>)
    ensures
        r@ == tests@,
{
    let mut r: Vec<Test> = Vec::new();
    let mut i: usize = 0;
    while i < tests.len()
        invariant
            0 <= i <= tests@.len(),
            r@ == tests@.take(i as int),
        decreases tests@.len() - i,
    {
        r.push(tests[i].clone());
        proof {
            assert(r@ =~= tests@.take(i + 1));
        }
        i = i + 1;
    }
    proof {
        assert(tests@.take(tests@.len() as int) =~= tests@);
    }
    r
}

/// Copies the whole job table.
pub fn clone_table(lists: &Vec<Vec<Test>>) -> (r: Vec<Vec<Test>>)
    ensures
        r@.len() == lists@.len(),
        forall|g: int| 0 <= g < r@.len() ==> (#[trigger] r@[g])@ == lists@[g]@,
{
    let mut r: Vec<Vec<Test>> = Vec::new();
    let mut g: usize = 0;
    while g < lists.len()
        invariant
            0 <= g <= lists@.len(),
            r@.len() == g,
            forall|k: int| 0 <= k < g ==> (#[trigger] r@[k])@ == lists@[k]@,
        decreases lists@.len() - g,
    {
        r.push(clone_group(&lists[g]));
        g = g + 1;
    }
    r
}

/// Copies a list of names.
pub fn clone_names(names: &Vec<String>) -> (r: Vec<String>)
    ensures
        r@ == names@,
{
    let mut r: Vec<String> = Vec::new();
    let mut i: usize = 0;
    while i < names.len()
        invariant
            0 <= i <= names@.len(),
            r@ == names@.take(i as int),
        decreases names@.len() - i,
    {
        r.push(names[i].clone());
        proof {
            assert(r@ =~= names@.take(i + 1));
        }
        i = i + 1;
    }
    proof {
        assert(names@.take(names@.len() as int) =~= names@);
    }
    r
}

/// The persisted shape of the harness state.
#[derive(Debug, Clone, PartialEq, Eq)]
pub struct Data {
    pub tests: Vec<Vec<Test>>,
    pub test_path: String,
    pub exec_name: Vec<String>,
    pub valgrind_enabled: bool,
}

/// How many jobs the whole table holds.
pub open spec fn total_len(groups: Seq<Vec<Test>>) -> int
    decreases groups.len(),
{
    if groups.len() == 0 {
        0
    } else {
        groups.first()@.len() + total_len(groups.drop_first())
    }
}

pub proof fn lemma_total_len_nonneg(groups: Seq<Vec<Test>>)
    ensures
        total_len(groups) >= 0,
    decreases groups.len(),
{
    if groups.len() > 0 {
        lemma_total_len_nonneg(groups.drop_first());
    }
}

/// The flat position of local index `l` in group `g`: all jobs of earlier
/// groups, then `l`.
pub open spec fn flat_index(groups: Seq<Vec<Test>>, g: int, l: int) -> int
    decreases g,
{
    if g <= 0 || groups.len() == 0 {
        l
    } else {
        groups.first()@.len() + flat_index(groups.drop_first(), g - 1, l)
    }
}

/// The (local, group) position a flat index selects, walking cumulative
/// group lengths.  An out-of-range index resolves to `(0, 0)`, a defensive
/// default; callers are expected to pre-validate the range.
pub open spec fn locate(groups: Seq<Vec<Test>>, index: int) -> (int, int)
    decreases groups.len(),
{
    if index < 0 || index >= total_len(groups) {
        (0, 0)
    } else if index < groups.first()@.len() {
        (index, 0)
    } else {
        let p = locate(groups.drop_first(), index - groups.first()@.len());
        (p.0, p.1 + 1)
    }
}

/// LAW: for every valid flat index, `locate` returns a group and local
/// index within bounds whose combination re-flattens to exactly that index.
pub proof fn lemma_locate_flattens(groups: Seq<Vec<Test>>, index: int)
    requires
        0 <= index < total_len(groups),
    ensures
        0 <= locate(groups, index).1 < groups.len(),
        0 <= locate(groups, index).0 < groups[locate(groups, index).1]@.len(),
        flat_index(groups, locate(groups, index).1, locate(groups, index).0) == index,
    decreases groups.len(),
{
    lemma_total_len_nonneg(groups);
    if groups.len() == 0 {
        assert(false);
    } else if index < groups.first()@.len() {
    } else {
        lemma_total_len_nonneg(groups.drop_first());
        lemma_locate_flattens(groups.drop_first(), index - groups.first()@.len());
        let p = locate(groups.drop_first(), index - groups.first()@.len());
        assert(groups[p.1 + 1] == groups.drop_first()[p.1]);
    }
}

/// Counts the jobs of the whole table.
pub fn count_tests(lists: &Vec<Vec<Test>>) -> (r: usize)
    requires
        total_len(lists@) <= usize::MAX,
    ensures
        r == total_len(lists@),
{
    let mut acc: usize = 0;
    let mut g: usize = 0;
    proof {
        assert(lists@.skip(0) =~= lists@);
        lemma_total_len_nonneg(lists@);
    }
    while g < lists.len()
        invariant
            0 <= g <= lists@.len(),
            total_len(lists@) <= usize::MAX,
            acc + total_len(lists@.skip(g as int)) == total_len(lists@),
            total_len(lists@.skip(g as int)) >= 0,
        decreases lists@.len() - g,
    {
        proof {
            assert(lists@.skip(g as int).first() == lists@[g as int]);
            assert(lists@.skip(g as int).drop_first() =~= lists@.skip(g + 1));
            lemma_total_len_nonneg(lists@.skip(g + 1));
        }
        acc = acc + lists[g].len();
        g = g + 1;
    }
    proof {
        assert(lists@.skip(lists@.len() as int) =~= Seq::<Vec<Test>>::empty());
    }
    acc
}

/// Resolves a flat list index into a (local, group) pair, walking cumulative
/// group lengths; `(0, 0)` for an out-of-range index.
pub fn get_list_index(lists: &Vec<Vec<Test>>, index: usize) -> (r: (usize, usize))
    requires
        total_len(lists@) <= usize::MAX,
    ensures
        (r.0 as int, r.1 as int) == locate(lists@, index as int),
{
    let total = count_tests(lists);
    if index >= total {
        return (0, 0);
    }
    let mut cumulative: usize = 0;
    let mut g: usize = 0;
    proof {
        assert(lists@.skip(0) =~= lists@);
        lemma_total_len_nonneg(lists@);
    }
    while g < lists.len()
        invariant
            0 <= g <= lists@.len(),
            index < total_len(lists@) <= usize::MAX,
            cumulative + total_len(lists@.skip(g as int)) == total_len(lists@),
            cumulative <= index,
            locate(lists@, index as int) == {
                let p = locate(lists@.skip(g as int), index - cumulative);
                (p.0, p.1 + g)
            },
        decreases lists@.len() - g,
    {
        proof {
            assert(lists@.skip(g as int).first() == lists@[g as int]);
            assert(lists@.skip(g as int).drop_first() =~= lists@.skip(g + 1));
            lemma_total_len_nonneg(lists@.skip(g + 1));
        }
        let glen = lists[g].len();
        if index < cumulative + glen {
            proof {
                assert(locate(lists@.skip(g as int), index - cumulative) == (
                index - cumulative as int,
                0int,
                ));
            }
            return (index - cumulative, g);
        }
        cumulative = cumulative + glen;
        g = g + 1;
    }
    proof {
        assert(lists@.skip(lists@.len() as int) =~= Seq::<Vec<Test>>::empty());
        assert(false);
    }
    (0, 0)
}

/// The failed jobs of one group, in order: each as its `(id, group)` pair,
/// as a re-run command names them.
pub open spec fn failed_in_group(tests: Seq<Test>, g: int) -> Seq<(usize, usize)>
    decreases tests.len(),
{
    if tests.len() == 0 {
        Seq::empty()
    } else {
        failed_in_group(tests.drop_last(), g) + (if crate::status::is_failed(
            tests.last().status,
        ) {
            seq![(tests.last().id, g as usize)]
        } else {
            Seq::empty()
        })
    }
}

/// The failed jobs of the whole table, group by group.
pub open spec fn failed_pairs(groups: Seq<Vec<Test>>) -> Seq<(usize, usize)>
    decreases groups.len(),
{
    if groups.len() == 0 {
        Seq::empty()
    } else {
        failed_pairs(groups.drop_last()) + failed_in_group(
            groups.last()@,
            groups.len() - 1,
        )
    }
}

/// The points the statuses of one group add up to.
pub open spec fn group_score(tests: Seq<Test>) -> int
    decreases tests.len(),
{
    if tests.len() == 0 {
        0
    } else {
        group_score(tests.drop_last()) + score_of(tests.last().status)
    }
}

/// The points the whole table adds up to.
pub open spec fn table_score(groups: Seq<Vec<Test>>) -> int
    decreases groups.len(),
{
    if groups.len() == 0 {
        0
    } else {
        table_score(groups.drop_last()) + group_score(groups.last()@)
    }
}

/// The points the checkstyle bonus is worth.
pub const CHECKSTYLE_SCORE: u64 = 10;

/// The final score: every job's points, plus the bonus exactly when the
/// static-analysis tally holds no error at all.
pub open spec fn final_score(groups: Seq<Vec<Test>>, errors: ErrorTally) -> int {
    table_score(groups) + if tally_clean(errors) {
        CHECKSTYLE_SCORE as int
    } else {
        0
    }
}

/// Two tables whose groups have the same lengths hold the same number of
/// jobs.
pub proof fn lemma_total_len_congruent(a: Seq<Vec<Test>>, b: Seq<Vec<Test>>)
    requires
        a.len() == b.len(),
        forall|g: int| 0 <= g < a.len() ==> a[g]@.len() == b[g]@.len(),
    ensures
        total_len(a) == total_len(b),
    decreases a.len(),
{
    if a.len() > 0 {
        assert(forall|g: int|
            0 <= g < a.drop_first().len() ==> a.drop_first()[g]@.len()
                == b.drop_first()[g]@.len()) by {
            assert(forall|g: int|
                0 <= g < a.drop_first().len() ==> a.drop_first()[g] == a[g + 1]
                    && b.drop_first()[g] == b[g + 1]);
        }
        lemma_total_len_congruent(a.drop_first(), b.drop_first());
    }
}

/// `locate` depends only on the group lengths.
pub proof fn lemma_locate_congruent(a: Seq<Vec<Test>>, b: Seq<Vec<Test>>, index: int)
    requires
        a.len() == b.len(),
        forall|g: int| 0 <= g < a.len() ==> a[g]@.len() == b[g]@.len(),
    ensures
        locate(a, index) == locate(b, index),
    decreases a.len(),
{
    lemma_total_len_congruent(a, b);
    if a.len() > 0 && 0 <= index && index < total_len(a) && index >= a.first()@.len() {
        assert(forall|g: int|
            0 <= g < a.drop_first().len() ==> a.drop_first()[g]@.len()
                == b.drop_first()[g]@.len()) by {
            assert(forall|g: int|
                0 <= g < a.drop_first().len() ==> a.drop_first()[g] == a[g + 1]
                    && b.drop_first()[g] == b[g + 1]);
        }
        lemma_locate_congruent(a.drop_first(), b.drop_first(), index - a.first()@.len());
    }
}

/// `flat_index` depends only on the group lengths.
pub proof fn lemma_flat_index_congruent(a: Seq<Vec<Test>>, b: Seq<Vec<Test>>, g: int, l: int)
    requires
        a.len() == b.len(),
        forall|k: int| 0 <= k < a.len() ==> a[k]@.len() == b[k]@.len(),
    ensures
        flat_index(a, g, l) == flat_index(b, g, l),
    decreases g,
{
    if g > 0 && a.len() > 0 {
        assert(forall|k: int|
            0 <= k < a.drop_first().len() ==> a.drop_first()[k]@.len()
                == b.drop_first()[k]@.len()) by {
            assert(forall|k: int|
                0 <= k < a.drop_first().len() ==> a.drop_first()[k] == a[k + 1]
                    && b.drop_first()[k] == b[k + 1]);
        }
        lemma_flat_index_congruent(a.drop_first(), b.drop_first(), g - 1, l);
    }
}

/// LAW, the other direction: every valid (group, local) position flattens
/// to an in-range index that `locate` resolves back to it.
pub proof fn lemma_flat_locate(groups: Seq<Vec<Test>>, g: int, l: int)
    requires
        0 <= g < groups.len(),
        0 <= l < groups[g]@.len(),
    ensures
        0 <= flat_index(groups, g, l) < total_len(groups),
        locate(groups, flat_index(groups, g, l)) == (l, g),
    decreases g,
{
    lemma_total_len_nonneg(groups.drop_first());
    if g == 0 {
        assert(flat_index(groups, 0, l) == l);
    } else {
        assert(groups.drop_first()[g - 1] == groups[g]);
        lemma_flat_locate(groups.drop_first(), g - 1, l);
    }
}

/// A mutable borrow of one job of the table.
pub fn job_mut(lists: &mut Vec<Vec<Test>>, e: usize, t: usize) -> (j: &mut Test)
    requires
        e < old(lists)@.len(),
        t < old(lists)@[e as int]@.len(),
    ensures
        *j == old(lists)@[e as int]@[t as int],
        final(lists)@.len() == old(lists)@.len(),
        forall|g: int|
            0 <= g < old(lists)@.len() && g != e ==> final(lists)@[g] == old(lists)@[g],
        final(lists)@[e as int]@ == old(lists)@[e as int]@.update(t as int, *final(j)),
{
    &mut lists[e][t]
}

pub proof fn lemma_group_score_nonneg(tests: Seq<Test>)
    ensures
        group_score(tests) >= 0,
    decreases tests.len(),
{
    if tests.len() > 0 {
        lemma_group_score_nonneg(tests.drop_last());
    }
}

pub proof fn lemma_table_score_nonneg(groups: Seq<Vec<Test>>)
    ensures
        table_score(groups) >= 0,
    decreases groups.len(),
{
    if groups.len() > 0 {
        lemma_table_score_nonneg(groups.drop_last());
        lemma_group_score_nonneg(groups.last()@);
    }
}

} // verus!
