//! The shared harness state and its engine: the job table with selection
//! state, batch planning behind the build gate, per-job status transitions
//! around a run, score aggregation, and the decisions of the periodic
//! persistence flush.  All mutation goes through methods whose contracts
//! say exactly which jobs change and how; the callers hold the lock.

use vstd::prelude::*;
use crate::actions::{
    action_order, conflict_free, find_in, lemma_order_conflict_free, Action, Actions,
};
use crate::checkstyle::{tally_spec, tally_text, ErrorTally};
use crate::diffview::{diff_lines, diff_rendered, line_diff_of, DiffLine};
use crate::inputs::Key;
use crate::runner::{make_run_context, run_context_ok, RunContext, RunOutcome};
use crate::state::AppState;
use crate::status::Status;
use crate::table::{
    clone_names, clone_table, count_tests, failed_pairs, final_score, flat_index,
    get_list_index, locate, table_score, total_len, Data, Test, CHECKSTYLE_SCORE,
};

verus! {

/// What the presentation loop does after an action.
#[derive(Debug, PartialEq, Eq, Structural)]
pub enum AppReturn {
    Exit,
    Continue,
}

/// A command handed to the io side of the harness.
#[derive(Debug, Clone, PartialEq, Eq)]
pub enum IoEvent {
    /// Set the harness up and run the build once.
    Initialize,
    /// Run one job, by (local index, group index).
    RunTest(usize, usize),
    /// Run the first `n` jobs of the flattened table.
    RunAll(usize),
    /// Run an explicit set of (local index, group index) pairs.
    RunFailed(Vec<(usize, usize)>),
    /// Persist this snapshot.
    SaveData(Data),
    /// Run the static-analysis step and reload its tally.
    LoadCheckstyle,
    /// Run the build step alone.
    Make,
    /// Re-read the selected job's reference output and rebuild the diff.
    UpdateRef,
}

/// The shared harness state: the job table and everything around it.
#[derive(Debug)]
pub struct App {
    /// The actions currently available.
    pub actions: Actions,
    /// Whether an io command is in flight.
    pub is_loading: bool,
    /// Whether the table changed since the last successful flush.
    pub unwritten_data: bool,
    /// The front-end lifecycle state.
    pub state: AppState,
    /// How many jobs the table holds, flattened.
    pub test_num: usize,
    /// Which tab the front end shows.
    pub selected_tab: usize,
    /// The job table, grouped by executable.
    pub test_list: Vec<Vec<Test>>,
    /// The selected flat job index.
    pub test_list_selected: Option<usize>,
    /// Which window has focus: the job list or the diff view.
    pub windows_selected: Option<usize>,
    /// The selected diff line.
    pub log_list_selected: Option<usize>,
    /// Whether runs go through the memory-checker wrapper.
    pub valgrind_enabled: bool,
    /// The base path under which per-job files are named.
    pub test_path: String,
    /// One executable name per group.
    pub exec_name: Vec<String>,
    /// The reference output of the selected job.
    pub current_ref: String,
    /// The raw text of the last checkstyle report.
    pub checkstyle: String,
    /// The last output of the remote-checker collaborator.
    pub vmchecker_out: String,
    /// The rendered diff of the selected job.
    pub diff: Vec<DiffLine>,
    /// The static-analysis tally.
    pub errors: ErrorTally,
}

impl App {
    /// Well-formedness: the table has one executable name per group, is not
    /// empty, and `test_num` counts its jobs.
    pub open spec fn wf(self) -> bool {
        &&& self.test_list@.len() == self.exec_name@.len()
        &&& self.test_list@.len() > 0
        &&& self.test_list@[0]@.len() > 0
        &&& self.test_num == total_len(self.test_list@)
    }

    /// Builds the harness state from loaded data, the selected job's
    /// reference output and the last checkstyle report.
    pub fn new(data: Data, current_ref: String, checkstyle_text: String) -> (r: App)
        requires
            data.tests@.len() == data.exec_name@.len(),
            data.tests@.len() > 0,
            data.tests@[0]@.len() > 0,
            total_len(data.tests@) <= usize::MAX,
        ensures
            r.wf(),
            r.actions@ == seq![Action::Quit],
            !r.is_loading,
            !r.unwritten_data,
            r.state == AppState::Init,
            r.test_num == total_len(data.tests@),
            r.selected_tab == 0,
            r.test_list == data.tests,
            r.test_list_selected == Some(0usize),
            r.windows_selected == Some(0usize),
            r.log_list_selected is None,
            r.valgrind_enabled == data.valgrind_enabled,
            r.test_path == data.test_path,
            r.exec_name == data.exec_name,
            r.current_ref == current_ref,
            r.checkstyle == checkstyle_text,
            r.vmchecker_out@.len() == 0,
            (r.errors.check as int, r.errors.warning as int, r.errors.error as int)
                == tally_spec(checkstyle_text@),
            diff_rendered(r.diff@, line_diff_of(current_ref@, data.tests@[0]@[0].log@)),
    {
        let initial = vec![Action::Quit];
        proof {
            assert(initial@ =~= seq![Action::Quit]);
            assert(conflict_free(initial@));
        }
        let actions = match Actions::from_vec(initial) {
            Some(a) => a,
            None => unreached(),
        };
        let test_num = count_tests(&data.tests);
        let errors = tally_text(checkstyle_text.as_str());
        let diff = diff_lines(current_ref.as_str(), data.tests[0][0].log.as_str());
        let Data { tests, test_path, exec_name, valgrind_enabled } = data;
        App {
            actions,
            is_loading: false,
            unwritten_data: false,
            state: AppState::Init,
            test_num,
            selected_tab: 0,
            test_list: tests,
            test_list_selected: Some(0),
            windows_selected: Some(0),
            log_list_selected: None,
            valgrind_enabled,
            test_path,
            exec_name,
            current_ref,
            checkstyle: checkstyle_text,
            vmchecker_out: String::new(),
            diff,
            errors,
        }
    }

    /// The actions currently available.
    pub fn actions(&self) -> (r: &Actions)
        ensures
            r@ == self.actions@,
    {
        &self.actions
    }

    /// The front-end lifecycle state.
    pub fn state(&self) -> (r: &AppState)
        ensures
            *r == self.state,
    {
        &self.state
    }

    /// Whether an io command is in flight.
    pub fn is_loading(&self) -> (r: bool)
        ensures
            r == self.is_loading,
    {
        self.is_loading
    }

    /// Records whether an io command is in flight.  The send itself happens
    /// outside the library.
    pub fn set_loading(&mut self, loading: bool)
        ensures
            *final(self) == (App { is_loading: loading, ..*old(self) }),
    {
        self.is_loading = loading;
    }

    /// Marks the in-flight io command finished.
    pub fn loaded(&mut self)
        ensures
            *final(self) == (App { is_loading: false, ..*old(self) }),
    {
        self.is_loading = false;
    }

    /// Makes the full action set available and moves past initialization.
    pub fn initialized(&mut self)
        ensures
            *final(self) == (App {
                actions: final(self).actions,
                state: AppState::Initialized {
                    duration_millis: 1000,
                    counter_tick: 0,
                    checkstyle: false,
                    vmcheck_output: false,
                    diff_size: 0,
                },
                ..*old(self)
            }),
            final(self).actions@ == action_order(),
    {
        let list = Action::iterator();
        proof {
            lemma_order_conflict_free();
        }
        match Actions::from_vec(list) {
            Some(a) => {
                self.actions = a;
            },
            None => {
                proof {
                    assert(false);
                }
            },
        }
        self.state = AppState::initialized();
    }

    /// A snapshot of everything persistence saves.
    pub fn save_data(&self) -> (r: Data)
        ensures
            r.tests@.len() == self.test_list@.len(),
            forall|g: int|
                0 <= g < r.tests@.len() ==> (#[trigger] r.tests@[g])@ == self.test_list@[g]@,
            r.test_path == self.test_path,
            r.exec_name@ == self.exec_name@,
            r.valgrind_enabled == self.valgrind_enabled,
    {
        Data {
            tests: clone_table(&self.test_list),
            test_path: self.test_path.clone(),
            exec_name: clone_names(&self.exec_name),
            valgrind_enabled: self.valgrind_enabled,
        }
    }

    /// One periodic tick: advances the counter and, every hundredth tick
    /// while the table is dirty, hands back a snapshot to flush and clears
    /// the dirty flag.
    pub fn update_on_tick(&mut self) -> (r: (AppReturn, Option<Data>))
        requires
            old(self).state is Initialized,
        ensures
            r.0 == AppReturn::Continue,
            ({
                let ticked = match old(self).state {
                    AppState::Initialized { counter_tick, .. } => if counter_tick == u64::MAX {
                        0u64
                    } else {
                        (counter_tick + 1) as u64
                    },
                    AppState::Init => 0u64,
                };
                if old(self).unwritten_data && ticked % 100 == 0 {
                    &&& r.1 is Some
                    &&& !final(self).unwritten_data
                } else {
                    &&& r.1 is None
                    &&& final(self).unwritten_data == old(self).unwritten_data
                }
            }),
            ({
                let post_state = match old(self).state {
                    AppState::Initialized {
                        duration_millis,
                        counter_tick,
                        checkstyle,
                        vmcheck_output,
                        diff_size,
                    } => AppState::Initialized {
                        duration_millis,
                        counter_tick: if counter_tick == u64::MAX {
                            0u64
                        } else {
                            (counter_tick + 1) as u64
                        },
                        checkstyle,
                        vmcheck_output,
                        diff_size,
                    },
                    AppState::Init => AppState::Init,
                };
                *final(self) == (App {
                    state: post_state,
                    unwritten_data: final(self).unwritten_data,
                    ..*old(self)
                })
            }),
            match r.1 {
                Some(d) => {
                    &&& d.tests@.len() == old(self).test_list@.len()
                    &&& forall|g: int|
                        0 <= g < d.tests@.len() ==> (#[trigger] d.tests@[g])@ == old(
                            self,
                        ).test_list@[g]@
                    &&& d.test_path == old(self).test_path
                    &&& d.exec_name@ == old(self).exec_name@
                    &&& d.valgrind_enabled == old(self).valgrind_enabled
                },
                None => true,
            },
    {
        self.state.incr_tick();
        let ticked = match self.state.count_tick() {
            Some(c) => c,
            None => unreached(),
        };
        if self.unwritten_data && ticked % 100 == 0 {
            let data = self.save_data();
            self.unwritten_data = false;
            (AppReturn::Continue, Some(data))
        } else {
            (AppReturn::Continue, None)
        }
    }

    /// Re-marks the table dirty after a persistence failure, so the next
    /// periodic tick retries the flush; the in-memory state is the truth.
    pub fn flush_failed(&mut self)
        ensures
            *final(self) == (App { unwritten_data: true, ..*old(self) }),
    {
        self.unwritten_data = true;
    }

    /// The failed jobs of the table, each as the `(id, group)` pair a
    /// re-run command names.
    pub fn failed_tests(&self) -> (r: Vec<(usize, usize)>)
        ensures
            r@ == failed_pairs(self.test_list@),
    {
        let mut r: Vec<(usize, usize)> = Vec::new();
        let mut g: usize = 0;
        proof {
            assert(self.test_list@.take(0) =~= Seq::<Vec<Test>>::empty());
        }
        while g < self.test_list.len()
            invariant
                0 <= g <= self.test_list@.len(),
                r@ == failed_pairs(self.test_list@.take(g as int)),
            decreases self.test_list@.len() - g,
        {
            let group = &self.test_list[g];
            let mut t: usize = 0;
            proof {
                assert(group@.take(0) =~= Seq::<Test>::empty());
                assert(r@ + crate::table::failed_in_group(group@.take(0), g as int) =~= r@);
            }
            let ghost r_before = r@;
            while t < group.len()
                invariant
                    0 <= t <= group@.len(),
                    group@ == self.test_list@[g as int]@,
                    0 <= g < self.test_list@.len(),
                    r@ == r_before + crate::table::failed_in_group(
                        group@.take(t as int),
                        g as int,
                    ),
                decreases group@.len() - t,
            {
                proof {
                    assert(group@.take(t + 1).drop_last() =~= group@.take(t as int));
                    assert(group@.take(t + 1).last() == group@[t as int]);
                }
                if crate::status::failed(&group[t].status) {
                    r.push((group[t].id, g));
                    proof {
                        assert(r@ =~= r_before + crate::table::failed_in_group(
                            group@.take(t + 1),
                            g as int,
                        ));
                    }
                } else {
                    proof {
                        assert(r@ =~= r_before + crate::table::failed_in_group(
                            group@.take(t + 1),
                            g as int,
                        ));
                    }
                }
                t = t + 1;
            }
            proof {
                assert(group@.take(group@.len() as int) =~= group@);
                assert(self.test_list@.take(g + 1).drop_last() =~= self.test_list@.take(
                    g as int,
                ));
                assert(self.test_list@.take(g + 1).last() == self.test_list@[g as int]);
            }
            g = g + 1;
        }
        proof {
            assert(self.test_list@.take(self.test_list@.len() as int) =~= self.test_list@);
        }
        r
    }

    /// The total score shown to the user: every job's points plus the
    /// checkstyle bonus, saturating at the type's limit.
    pub fn calculate_score(&self) -> (r: u64)
        ensures
            r as int == ({
                let total = final_score(self.test_list@, self.errors);
                if total > u64::MAX {
                    u64::MAX as int
                } else {
                    total
                }
            }),
    {
        proof {
            assert(self.test_list@.take(0) =~= Seq::<Vec<Test>>::empty());
            crate::table::lemma_table_score_nonneg(self.test_list@);
        }
        let mut acc: u64 = 0;
        let mut g: usize = 0;
        while g < self.test_list.len()
            invariant
                0 <= g <= self.test_list@.len(),
                acc as int == sat_u64(table_score(self.test_list@.take(g as int))),
                table_score(self.test_list@.take(g as int)) >= 0,
            decreases self.test_list@.len() - g,
        {
            let group = &self.test_list[g];
            let mut t: usize = 0;
            proof {
                assert(group@.take(0) =~= Seq::<Test>::empty());
                crate::table::lemma_group_score_nonneg(group@);
            }
            let ghost acc_before = acc as int;
            let ghost score_before = table_score(self.test_list@.take(g as int));
            while t < group.len()
                invariant
                    0 <= t <= group@.len(),
                    group@ == self.test_list@[g as int]@,
                    acc_before == sat_u64(score_before),
                    score_before >= 0,
                    acc as int == sat_u64(
                        score_before + crate::table::group_score(group@.take(t as int)),
                    ),
                    crate::table::group_score(group@.take(t as int)) >= 0,
                decreases group@.len() - t,
            {
                proof {
                    assert(group@.take(t + 1).drop_last() =~= group@.take(t as int));
                    assert(group@.take(t + 1).last() == group@[t as int]);
                    crate::table::lemma_group_score_nonneg(group@.take(t as int));
                }
                let s = crate::status::score(&group[t].status);
                acc = add_sat_u64(acc, s as u64);
                t = t + 1;
            }
            proof {
                assert(group@.take(group@.len() as int) =~= group@);
                assert(self.test_list@.take(g + 1).drop_last() =~= self.test_list@.take(
                    g as int,
                ));
                assert(self.test_list@.take(g + 1).last() == self.test_list@[g as int]);
            }
            g = g + 1;
        }
        proof {
            assert(self.test_list@.take(self.test_list@.len() as int) =~= self.test_list@);
        }
        if self.errors.check == 0 && self.errors.warning == 0 && self.errors.error == 0 {
            acc = add_sat_u64(acc, CHECKSTYLE_SCORE);
        }
        acc
    }
}

impl App {
    /// Replaces the stored reference output with freshly read text and
    /// rebuilds the displayed diff against the selected job's log.
    pub fn update_ref(&mut self, ref_text: String)
        requires
            old(self).wf(),
            old(self).test_list_selected is Some,
        ensures
            final(self).wf(),
            *final(self) == (App {
                current_ref: final(self).current_ref,
                diff: final(self).diff,
                ..*old(self)
            }),
            final(self).current_ref == ref_text,
            ({
                let p = locate(
                    old(self).test_list@,
                    old(self).test_list_selected.unwrap() as int,
                );
                diff_rendered(
                    final(self).diff@,
                    line_diff_of(ref_text@, old(self).test_list@[p.1]@[p.0].log@),
                )
            }),
    {
        let idx = match self.test_list_selected {
            Some(i) => i,
            None => unreached(),
        };
        let (t, e) = get_list_index(&self.test_list, idx);
        proof {
            if idx < self.test_num {
                crate::table::lemma_locate_flattens(self.test_list@, idx as int);
            }
        }
        let d = diff_lines(ref_text.as_str(), self.test_list[e][t].log.as_str());
        self.current_ref = ref_text;
        self.diff = d;
    }

    /// The reference-output file of the selected job, if one is selected.
    pub fn selected_ref_path(&self) -> (r: Option<String>)
        requires
            self.wf(),
        ensures
            match self.test_list_selected {
                None => r is None,
                Some(idx) => ({
                    let p = locate(self.test_list@, idx as int);
                    r matches Some(path) && path@ == crate::runner::job_file_spec(
                        self.test_path@,
                        "ref/"@,
                        self.test_list@[p.1]@[p.0].id as nat,
                        self.exec_name@[p.1]@,
                        ".ref"@,
                    )
                }),
            },
    {
        let idx = match self.test_list_selected {
            Some(i) => i,
            None => {
                return None;
            },
        };
        let (t, e) = get_list_index(&self.test_list, idx);
        proof {
            if idx < self.test_num {
                crate::table::lemma_locate_flattens(self.test_list@, idx as int);
            }
        }
        let id = self.test_list[e][t].id;
        Some(
            crate::runner::ref_path(
                self.test_path.as_str(),
                id,
                self.exec_name[e].as_str(),
            ),
        )
    }
}

/// One batch command: run the whole table, or an explicit set of jobs.
#[derive(Debug, Clone)]
pub enum BatchCmd {
    /// Run the first `n` jobs of the flattened table.
    All(usize),
    /// Run these (local index, group index) pairs.
    Pairs(Vec<(usize, usize)>),
}

/// `j` with its status replaced by the transitional `Starting`.
pub open spec fn starting_job(j: Test) -> Test {
    Test { status: Status::Starting, ..j }
}

/// `b` is `a` with exactly the jobs at flat positions below `size` marked
/// `Starting`, and nothing else changed.
pub open spec fn table_marked_flat(a: Seq<Vec<Test>>, b: Seq<Vec<Test>>, size: int) -> bool {
    &&& b.len() == a.len()
    &&& forall|g: int| 0 <= g < a.len() ==> (#[trigger] b[g])@.len() == a[g]@.len()
    &&& forall|g: int, l: int|
        0 <= g < a.len() && 0 <= l < a[g]@.len() ==> #[trigger] b[g]@[l] == (
        if flat_index(a, g, l) < size {
            starting_job(a[g]@[l])
        } else {
            a[g]@[l]
        })
}

/// Whether one of the first `upto` pairs names position (`l`, `g`).
pub open spec fn pair_listed(pairs: Seq<(usize, usize)>, upto: int, g: int, l: int) -> bool {
    exists|k: int| 0 <= k < upto && pairs[k] == (l as usize, g as usize)
}

/// `b` is `a` with exactly the jobs named by `pairs` marked `Starting`, and
/// nothing else changed.
pub open spec fn table_marked_pairs(
    a: Seq<Vec<Test>>,
    b: Seq<Vec<Test>>,
    pairs: Seq<(usize, usize)>,
) -> bool {
    &&& b.len() == a.len()
    &&& forall|g: int| 0 <= g < a.len() ==> (#[trigger] b[g])@.len() == a[g]@.len()
    &&& forall|g: int, l: int|
        0 <= g < a.len() && 0 <= l < a[g]@.len() ==> #[trigger] b[g]@[l] == (
        if pair_listed(pairs, pairs.len() as int, g, l) {
            starting_job(a[g]@[l])
        } else {
            a[g]@[l]
        })
}

/// The whole effect of fanning a run-all batch out: one run command per
/// flat position below `size`, each job marked `Starting` first, and
/// nothing else of the state touched.
pub open spec fn fanned_out_all(pre: App, post: App, events: Seq<IoEvent>, size: int) -> bool {
    &&& events.len() == size
    &&& forall|k: int|
        0 <= k < size ==> #[trigger] events[k] == IoEvent::RunTest(
            locate(pre.test_list@, k).0 as usize,
            locate(pre.test_list@, k).1 as usize,
        )
    &&& table_marked_flat(pre.test_list@, post.test_list@, size)
    &&& post == (App { test_list: post.test_list, ..pre })
}

/// The whole effect of fanning an explicit batch out: one run command per
/// pair, in order, each named job marked `Starting` first, and nothing else
/// of the state touched.
pub open spec fn fanned_out_pairs(
    pre: App,
    post: App,
    events: Seq<IoEvent>,
    pairs: Seq<(usize, usize)>,
) -> bool {
    &&& events.len() == pairs.len()
    &&& forall|k: int|
        0 <= k < pairs.len() ==> #[trigger] events[k] == IoEvent::RunTest(
            pairs[k].0,
            pairs[k].1,
        )
    &&& table_marked_pairs(pre.test_list@, post.test_list@, pairs)
    &&& post == (App { test_list: post.test_list, ..pre })
}

/// Whether every pair names a job of the table.
pub open spec fn pairs_in_table(pairs: Seq<(usize, usize)>, groups: Seq<Vec<Test>>) -> bool {
    forall|k: int|
        0 <= k < pairs.len() ==> (#[trigger] pairs[k]).1 < groups.len()
            && pairs[k].0 < groups[pairs[k].1 as int]@.len()
}

impl App {
    /// Marks the first `size` jobs of the flattened table `Starting` and
    /// hands back one run command per job, in flat order.
    pub fn fan_out_all(&mut self, size: usize) -> (r: Vec<IoEvent>)
        requires
            old(self).wf(),
            size <= old(self).test_num,
        ensures
            fanned_out_all(*old(self), *final(self), r@, size as int),
            final(self).wf(),
    {
        let ghost pre = self.test_list@;
        proof {
            assert forall|g: int, l: int|
                0 <= g < pre.len() && 0 <= l < pre[g]@.len() implies flat_index(pre, g, l)
                >= 0 by {
                crate::table::lemma_flat_locate(pre, g, l);
            }
        }
        let mut events: Vec<IoEvent> = Vec::new();
        let mut k: usize = 0;
        while k < size
            invariant
                0 <= k <= size,
                size <= total_len(pre) <= usize::MAX,
                self.test_list@.len() == pre.len(),
                forall|g: int|
                    0 <= g < pre.len() ==> (#[trigger] self.test_list@[g])@.len()
                        == pre[g]@.len(),
                forall|g: int, l: int|
                    0 <= g < pre.len() && 0 <= l < pre[g]@.len()
                        ==> #[trigger] self.test_list@[g]@[l] == (
                    if flat_index(pre, g, l) < k {
                        starting_job(pre[g]@[l])
                    } else {
                        pre[g]@[l]
                    }),
                events@.len() == k,
                forall|j: int|
                    0 <= j < k ==> #[trigger] events@[j] == IoEvent::RunTest(
                        locate(pre, j).0 as usize,
                        locate(pre, j).1 as usize,
                    ),
                *self == (App { test_list: self.test_list, ..*old(self) }),
            decreases size - k,
        {
            proof {
                crate::table::lemma_locate_congruent(self.test_list@, pre, k as int);
                crate::table::lemma_total_len_congruent(self.test_list@, pre);
                crate::table::lemma_locate_flattens(pre, k as int);
            }
            let (t, e) = get_list_index(&self.test_list, k);
            let ghost cur = self.test_list@;
            let j = crate::table::job_mut(&mut self.test_list, e, t);
            j.status = Status::Starting;
            proof {
                assert(flat_index(pre, e as int, t as int) == k);
                assert forall|g: int, l: int|
                    0 <= g < pre.len() && 0 <= l < pre[g]@.len()
                        implies #[trigger] self.test_list@[g]@[l] == (
                    if flat_index(pre, g, l) < k + 1 {
                        starting_job(pre[g]@[l])
                    } else {
                        pre[g]@[l]
                    }) by {
                    if g == e && l == t {
                    } else {
                        if flat_index(pre, g, l) == k {
                            crate::table::lemma_flat_locate(pre, g, l);
                            assert(locate(pre, k as int) == (l, g));
                            assert(false);
                        }
                        if g == e {
                            assert(self.test_list@[g]@[l] == cur[g]@[l]);
                        } else {
                            assert(self.test_list@[g] == cur[g]);
                        }
                    }
                }
            }
            events.push(IoEvent::RunTest(t, e));
            k = k + 1;
        }
        proof {
            crate::table::lemma_total_len_congruent(self.test_list@, pre);
        }
        events
    }

    /// Marks the named jobs `Starting` and hands back one run command per
    /// pair, in order.
    pub fn fan_out_pairs(&mut self, pairs: &Vec<(usize, usize)>) -> (r: Vec<IoEvent>)
        requires
            old(self).wf(),
            pairs_in_table(pairs@, old(self).test_list@),
        ensures
            fanned_out_pairs(*old(self), *final(self), r@, pairs@),
            final(self).wf(),
    {
        let ghost pre = self.test_list@;
        let mut events: Vec<IoEvent> = Vec::new();
        let mut i: usize = 0;
        while i < pairs.len()
            invariant
                0 <= i <= pairs@.len(),
                pairs_in_table(pairs@, pre),
                self.test_list@.len() == pre.len(),
                forall|g: int|
                    0 <= g < pre.len() ==> (#[trigger] self.test_list@[g])@.len()
                        == pre[g]@.len(),
                forall|g: int, l: int|
                    0 <= g < pre.len() && 0 <= l < pre[g]@.len()
                        ==> #[trigger] self.test_list@[g]@[l] == (
                    if pair_listed(pairs@, i as int, g, l) {
                        starting_job(pre[g]@[l])
                    } else {
                        pre[g]@[l]
                    }),
                events@.len() == i,
                forall|j: int|
                    0 <= j < i ==> #[trigger] events@[j] == IoEvent::RunTest(
                        pairs@[j].0,
                        pairs@[j].1,
                    ),
                *self == (App { test_list: self.test_list, ..*old(self) }),
            decreases pairs@.len() - i,
        {
            let (t, e) = pairs[i];
            let ghost cur = self.test_list@;
            let j = crate::table::job_mut(&mut self.test_list, e, t);
            j.status = Status::Starting;
            proof {
                assert forall|g: int, l: int|
                    0 <= g < pre.len() && 0 <= l < pre[g]@.len()
                        implies #[trigger] self.test_list@[g]@[l] == (
                    if pair_listed(pairs@, i + 1, g, l) {
                        starting_job(pre[g]@[l])
                    } else {
                        pre[g]@[l]
                    }) by {
                    if g == e && l == t {
                        assert(pairs@[i as int] == (l as usize, g as usize));
                        assert(pair_listed(pairs@, i + 1, g, l));
                        if pair_listed(pairs@, i as int, g, l) {
                        }
                    } else {
                        assert(pair_listed(pairs@, i + 1, g, l) == pair_listed(
                            pairs@,
                            i as int,
                            g,
                            l,
                        )) by {
                            if pair_listed(pairs@, i + 1, g, l) {
                                let w = choose|w: int|
                                    0 <= w < i + 1 && pairs@[w] == (l as usize, g as usize);
                                if w == i {
                                    assert(pairs@[w] == (t, e));
                                    assert(pre[g]@.len() == pre[g].len());
                                    assert(pre.len() == self.test_list.len());
                                    assert(l as usize == t && g as usize == e);
                                    assert(l == t && g == e);
                                    assert(false);
                                } else {
                                    assert(pair_listed(pairs@, i as int, g, l));
                                }
                            }
                            if pair_listed(pairs@, i as int, g, l) {
                                let w = choose|w: int|
                                    0 <= w < i && pairs@[w] == (l as usize, g as usize);
                                assert(0 <= w < i + 1 && pairs@[w] == (l as usize, g as usize));
                            }
                        }
                        if g == e {
                            assert(self.test_list@[g]@[l] == cur[g]@[l]);
                        } else {
                            assert(self.test_list@[g] == cur[g]);
                        }
                    }
                }
            }
            events.push(IoEvent::RunTest(t, e));
            i = i + 1;
        }
        proof {
            crate::table::lemma_total_len_congruent(self.test_list@, pre);
        }
        events
    }

    /// Starts one batch behind the build gate.  A non-zero build exit code
    /// aborts the whole batch: the error text is handed back once, no run
    /// command is produced, and no job status is touched.  On success the
    /// batch is fanned out into one run command per job.
    pub fn start_batch(
        &mut self,
        build_exit_code: Option<i32>,
        build_stderr: String,
        cmd: BatchCmd,
    ) -> (r: Result<Vec<IoEvent>, String>)
        requires
            old(self).wf(),
            match cmd {
                BatchCmd::All(size) => size <= old(self).test_num,
                BatchCmd::Pairs(pairs) => pairs_in_table(pairs@, old(self).test_list@),
            },
        ensures
            final(self).wf(),
            r is Err <==> (build_exit_code matches Some(c) && c != 0),
            r matches Err(m) ==> m@ == build_stderr@ && *final(self) == *old(self),
            match r {
                Ok(events) => match cmd {
                    BatchCmd::All(size) => fanned_out_all(
                        *old(self),
                        *final(self),
                        events@,
                        size as int,
                    ),
                    BatchCmd::Pairs(pairs) => fanned_out_pairs(
                        *old(self),
                        *final(self),
                        events@,
                        pairs@,
                    ),
                },
                Err(_) => true,
            },
    {
        match crate::runner::build_gate(build_exit_code, build_stderr) {
            Err(m) => Err(m),
            Ok(()) => match cmd {
                BatchCmd::All(size) => Ok(self.fan_out_all(size)),
                BatchCmd::Pairs(pairs) => Ok(self.fan_out_pairs(&pairs)),
            },
        }
    }

    /// Reads one job's parameters and marks it `Running`, handing back the
    /// run context its worker needs.  The caller holds the lock for exactly
    /// this transition, runs the child without it, and writes the outcome
    /// back through `finish_job`.
    pub fn begin_job(&mut self, test_idx: usize, exec_idx: usize) -> (ctx: RunContext)
        requires
            old(self).wf(),
            exec_idx < old(self).test_list@.len(),
            test_idx < old(self).test_list@[exec_idx as int]@.len(),
        ensures
            final(self).wf(),
            run_context_ok(
                ctx,
                old(self).valgrind_enabled,
                old(self).test_path@,
                old(self).test_list@[exec_idx as int]@[test_idx as int].id as nat,
                old(self).exec_name@[exec_idx as int]@,
                old(self).test_list@[exec_idx as int]@[test_idx as int].timeout,
            ),
            *final(self) == (App { test_list: final(self).test_list, ..*old(self) }),
            final(self).test_list@.len() == old(self).test_list@.len(),
            forall|g: int|
                0 <= g < old(self).test_list@.len() && g != exec_idx
                    ==> final(self).test_list@[g] == old(self).test_list@[g],
            final(self).test_list@[exec_idx as int]@ == old(self).test_list@[
                exec_idx as int
            ]@.update(
                test_idx as int,
                Test {
                    status: Status::Running,
                    ..old(self).test_list@[exec_idx as int]@[test_idx as int]
                },
            ),
    {
        let id = self.test_list[exec_idx][test_idx].id;
        let timeout = self.test_list[exec_idx][test_idx].timeout;
        let ctx = make_run_context(
            self.valgrind_enabled,
            self.test_path.as_str(),
            id,
            self.exec_name[exec_idx].as_str(),
            timeout,
        );
        let j = crate::table::job_mut(&mut self.test_list, exec_idx, test_idx);
        j.status = Status::Running;
        proof {
            crate::table::lemma_total_len_congruent(
                self.test_list@,
                old(self).test_list@,
            );
        }
        ctx
    }

    /// Writes one finished run back: status and log as a pair, the elapsed
    /// time into the field the wrapper flag selects, and the dirty flag.
    pub fn finish_job(
        &mut self,
        test_idx: usize,
        exec_idx: usize,
        outcome: RunOutcome,
        valgrind: bool,
        elapsed_millis: u64,
    )
        requires
            old(self).wf(),
            exec_idx < old(self).test_list@.len(),
            test_idx < old(self).test_list@[exec_idx as int]@.len(),
        ensures
            final(self).wf(),
            *final(self) == (App {
                test_list: final(self).test_list,
                unwritten_data: true,
                ..*old(self)
            }),
            final(self).test_list@.len() == old(self).test_list@.len(),
            forall|g: int|
                0 <= g < old(self).test_list@.len() && g != exec_idx
                    ==> final(self).test_list@[g] == old(self).test_list@[g],
            final(self).test_list@[exec_idx as int]@ == old(self).test_list@[
                exec_idx as int
            ]@.update(
                test_idx as int,
                Test {
                    status: outcome.status,
                    log: outcome.log,
                    time_valgrind_millis: if valgrind {
                        elapsed_millis
                    } else {
                        old(self).test_list@[exec_idx as int]@[test_idx as int].time_valgrind_millis
                    },
                    time_normal_millis: if valgrind {
                        old(self).test_list@[exec_idx as int]@[test_idx as int].time_normal_millis
                    } else {
                        elapsed_millis
                    },
                    ..old(self).test_list@[exec_idx as int]@[test_idx as int]
                },
            ),
    {
        let RunOutcome { status, log, .. } = outcome;
        let j = crate::table::job_mut(&mut self.test_list, exec_idx, test_idx);
        j.status = status;
        j.log = log;
        if valgrind {
            j.time_valgrind_millis = elapsed_millis;
        } else {
            j.time_normal_millis = elapsed_millis;
        }
        self.unwritten_data = true;
        proof {
            crate::table::lemma_total_len_congruent(
                self.test_list@,
                old(self).test_list@,
            );
        }
    }
}

/// The selection one step up: wrapping to the bottom from the top.
pub open spec fn nav_up(sel: int, size: int) -> int {
    if sel > 0 {
        sel - 1
    } else if size > 0 {
        size - 1
    } else {
        0
    }
}

/// The selection one step down: wrapping to the top from the bottom.
pub open spec fn nav_down(sel: int, size: int) -> int {
    if size > 0 && sel >= size - 1 {
        0
    } else if size > 0 {
        sel + 1
    } else {
        0
    }
}

/// The `(id, group)` pairs of one whole group, as a task re-run names them.
pub open spec fn group_pairs(tests: Seq<Test>, g: int) -> Seq<(usize, usize)> {
    tests.map(|i: int, t: Test| (t.id, g as usize))
}

/// The diff-view size the state records, or zero before initialization.
pub open spec fn diff_size_of(s: AppState) -> int {
    match s {
        AppState::Initialized { diff_size, .. } => diff_size as int,
        AppState::Init => 0,
    }
}

/// A whole-group re-run command: all of group `g`, or nothing when the
/// table has no such group.
pub open spec fn task_step_ok(
    pre: App,
    post: App,
    ret: AppReturn,
    events: Seq<IoEvent>,
    g: int,
) -> bool {
    &&& post == pre
    &&& ret == AppReturn::Continue
    &&& if g < pre.test_list@.len() {
        events.len() == 1 && (events[0] matches IoEvent::RunFailed(v) && v@ == group_pairs(
            pre.test_list@[g]@,
            g,
        ))
    } else {
        events.len() == 0
    }
}

/// A list-navigation step, up or down, in whichever window has focus: the
/// job list wraps over the whole table and refreshes the reference pane;
/// the diff view wraps over the lines it shows.
pub open spec fn nav_step_ok(
    pre: App,
    post: App,
    ret: AppReturn,
    events: Seq<IoEvent>,
    up: bool,
) -> bool {
    &&& ret == AppReturn::Continue
    &&& match pre.windows_selected {
        None => post == pre && events.len() == 0,
        Some(w) => if w == 0 {
            match pre.test_list_selected {
                None => post == pre && events.len() == 0,
                Some(sel) => {
                    let moved = if up {
                        nav_up(sel as int, pre.test_num as int)
                    } else {
                        nav_down(sel as int, pre.test_num as int)
                    };
                    &&& post == (App { test_list_selected: Some(moved as usize), ..pre })
                    &&& events == seq![IoEvent::UpdateRef]
                }
            }
        } else if w == 1 {
            match pre.log_list_selected {
                None => post == pre && events.len() == 0,
                Some(sel) => {
                    let size = diff_size_of(pre.state);
                    let moved = if up {
                        nav_up(sel as int, size)
                    } else {
                        nav_down(sel as int, size)
                    };
                    &&& post == (App { log_list_selected: Some(moved as usize), ..pre })
                    &&& events.len() == 0
                }
            }
        } else {
            post == pre && events.len() == 0
        },
    }
}

/// What one resolved action does to the state, what it hands the io side,
/// and what the presentation loop does next.
pub open spec fn action_step_ok(
    pre: App,
    post: App,
    a: Action,
    ret: AppReturn,
    events: Seq<IoEvent>,
) -> bool {
    match a {
        Action::Quit => post == pre && ret == AppReturn::Exit && events.len() == 0,
        Action::Run => post == pre && ret == AppReturn::Continue && events == seq![
            IoEvent::RunAll(pre.test_num),
        ],
        Action::RunFailed => {
            &&& post == pre
            &&& ret == AppReturn::Continue
            &&& events.len() == 1
            &&& events[0] matches IoEvent::RunFailed(v) && v@ == failed_pairs(pre.test_list@)
        },
        Action::RunTaskOne => task_step_ok(pre, post, ret, events, 0),
        Action::RunTaskTwo => task_step_ok(pre, post, ret, events, 1),
        Action::RunTaskThree => task_step_ok(pre, post, ret, events, 2),
        Action::RunCurrent => {
            &&& ret == AppReturn::Continue
            &&& match pre.test_list_selected {
                None => post == pre && events == seq![IoEvent::Make],
                Some(idx) => {
                    let p = locate(pre.test_list@, idx as int);
                    &&& events == seq![
                        IoEvent::Make,
                        IoEvent::RunTest(p.0 as usize, p.1 as usize),
                    ]
                    &&& post == (App { test_list: post.test_list, ..pre })
                    &&& post.test_list@.len() == pre.test_list@.len()
                    &&& forall|g: int|
                        0 <= g < pre.test_list@.len() && g != p.1
                            ==> post.test_list@[g] == pre.test_list@[g]
                    &&& post.test_list@[p.1]@ == pre.test_list@[p.1]@.update(
                        p.0,
                        Test { status: Status::Running, ..pre.test_list@[p.1]@[p.0] },
                    )
                },
            }
        },
        Action::RightList | Action::LeftList => {
            &&& ret == AppReturn::Continue
            &&& events.len() == 0
            &&& match pre.windows_selected {
                None => post == pre,
                Some(w) => post == (App {
                    windows_selected: Some(if w == 1 {
                        0usize
                    } else {
                        1usize
                    }),
                    ..pre
                }),
            }
        },
        Action::UpList => nav_step_ok(pre, post, ret, events, true),
        Action::DownList => nav_step_ok(pre, post, ret, events, false),
        Action::ActivateValgrind => {
            &&& post == (App { valgrind_enabled: !pre.valgrind_enabled, ..pre })
            &&& ret == AppReturn::Continue
            &&& events.len() == 0
        },
        Action::RunCheckstyle => {
            &&& ret == AppReturn::Continue
            &&& match pre.state {
                AppState::Init => post == pre && events.len() == 0,
                AppState::Initialized {
                    duration_millis,
                    counter_tick,
                    checkstyle,
                    vmcheck_output,
                    diff_size,
                } => {
                    &&& post == (App {
                        state: AppState::Initialized {
                            duration_millis,
                            counter_tick,
                            checkstyle: !checkstyle,
                            vmcheck_output,
                            diff_size,
                        },
                        ..pre
                    })
                    &&& if !checkstyle {
                        events == seq![IoEvent::LoadCheckstyle]
                    } else {
                        events.len() == 0
                    }
                },
            }
        },
    }
}

/// The `(id, group)` pairs of one whole group.
fn task_pairs(tests: &Vec<Test>, g: usize) -> (r: Vec<(usize, usize)>)
    ensures
        r@ == group_pairs(tests@, g as int),
{
    let mut r: Vec<(usize, usize)> = Vec::new();
    let mut i: usize = 0;
    while i < tests.len()
        invariant
            0 <= i <= tests@.len(),
            r@ == group_pairs(tests@.take(i as int), g as int),
        decreases tests@.len() - i,
    {
        r.push((tests[i].id, g));
        proof {
            assert(r@ =~= group_pairs(tests@.take(i + 1), g as int));
        }
        i = i + 1;
    }
    proof {
        assert(tests@.take(tests@.len() as int) =~= tests@);
    }
    r
}

impl App {
    /// Handles one key press: resolves it against the available actions and
    /// performs that action's step.  The commands handed back are for the
    /// caller to send to the io side, in order.
    pub fn do_action(&mut self, key: Key) -> (r: (AppReturn, Vec<IoEvent>))
        requires
            old(self).wf(),
        ensures
            final(self).wf(),
            match find_in(action_order(), old(self).actions@, key) {
                None => *final(self) == *old(self) && r.0 == AppReturn::Continue && r.1@.len()
                    == 0,
                Some(a) => action_step_ok(*old(self), *final(self), a, r.0, r.1@),
            },
    {
        let found = self.actions.find(key);
        match found {
            None => (AppReturn::Continue, Vec::new()),
            Some(Action::Quit) => (AppReturn::Exit, Vec::new()),
            Some(Action::Run) => {
                let events = vec![IoEvent::RunAll(self.test_num)];
                proof {
                    assert(events@ =~= seq![IoEvent::RunAll(self.test_num)]);
                }
                (AppReturn::Continue, events)
            },
            Some(Action::RunFailed) => {
                let failed = self.failed_tests();
                let events = vec![IoEvent::RunFailed(failed)];
                (AppReturn::Continue, events)
            },
            Some(Action::RunTaskOne) => (AppReturn::Continue, self.task_events(0)),
            Some(Action::RunTaskTwo) => (AppReturn::Continue, self.task_events(1)),
            Some(Action::RunTaskThree) => (AppReturn::Continue, self.task_events(2)),
            Some(Action::RunCurrent) => {
                let mut events = vec![IoEvent::Make];
                match self.test_list_selected {
                    Some(idx) => {
                        let (t, e) = get_list_index(&self.test_list, idx);
                        proof {
                            if idx < self.test_num {
                                crate::table::lemma_locate_flattens(
                                    self.test_list@,
                                    idx as int,
                                );
                            }
                        }
                        let j = crate::table::job_mut(&mut self.test_list, e, t);
                        j.status = Status::Running;
                        events.push(IoEvent::RunTest(t, e));
                        proof {
                            crate::table::lemma_total_len_congruent(
                                self.test_list@,
                                old(self).test_list@,
                            );
                            assert(events@ =~= seq![
                                IoEvent::Make,
                                IoEvent::RunTest(t, e),
                            ]);
                        }
                        (AppReturn::Continue, events)
                    },
                    None => {
                        proof {
                            assert(events@ =~= seq![IoEvent::Make]);
                        }
                        (AppReturn::Continue, events)
                    },
                }
            },
            Some(Action::RightList) | Some(Action::LeftList) => {
                match self.windows_selected {
                    Some(w) => {
                        if w == 1 {
                            self.windows_selected = Some(0);
                        } else {
                            self.windows_selected = Some(1);
                        }
                    },
                    None => {},
                }
                (AppReturn::Continue, Vec::new())
            },
            Some(Action::UpList) => (AppReturn::Continue, self.nav_events(true)),
            Some(Action::DownList) => (AppReturn::Continue, self.nav_events(false)),
            Some(Action::ActivateValgrind) => {
                self.valgrind_enabled = !self.valgrind_enabled;
                (AppReturn::Continue, Vec::new())
            },
            Some(Action::RunCheckstyle) => {
                self.state.update_checkstyle();
                let events = match self.state.get_checkstyle() {
                    Some(true) => {
                        let v = vec![IoEvent::LoadCheckstyle];
                        proof {
                            assert(v@ =~= seq![IoEvent::LoadCheckstyle]);
                        }
                        v
                    },
                    _ => Vec::new(),
                };
                (AppReturn::Continue, events)
            },
        }
    }

    /// The one re-run command of a whole-group task, or nothing when the
    /// table has no such group.
    fn task_events(&self, g: usize) -> (r: Vec<IoEvent>)
        ensures
            if g < self.test_list@.len() {
                r@.len() == 1 && (r@[0] matches IoEvent::RunFailed(v) && v@ == group_pairs(
                    self.test_list@[g as int]@,
                    g as int,
                ))
            } else {
                r@.len() == 0
            },
    {
        if g < self.test_list.len() {
            let pairs = task_pairs(&self.test_list[g], g);
            vec![IoEvent::RunFailed(pairs)]
        } else {
            Vec::new()
        }
    }

    /// One list-navigation step, up or down, in whichever window has focus.
    fn nav_events(&mut self, up: bool) -> (r: Vec<IoEvent>)
        requires
            old(self).wf(),
        ensures
            final(self).wf(),
            nav_step_ok(*old(self), *final(self), AppReturn::Continue, r@, up),
    {
        match self.windows_selected {
            None => Vec::new(),
            Some(w) => {
                if w == 0 {
                    match self.test_list_selected {
                        None => Vec::new(),
                        Some(sel) => {
                            proof {
                                crate::table::lemma_total_len_nonneg(
                                    self.test_list@.drop_first(),
                                );
                            }
                            let moved: usize = if up {
                                if sel > 0 {
                                    sel - 1
                                } else {
                                    self.test_num - 1
                                }
                            } else {
                                if sel >= self.test_num - 1 {
                                    0
                                } else {
                                    sel + 1
                                }
                            };
                            self.test_list_selected = Some(moved);
                            let events = vec![IoEvent::UpdateRef];
                            proof {
                                assert(events@ =~= seq![IoEvent::UpdateRef]);
                            }
                            events
                        },
                    }
                } else if w == 1 {
                    match self.log_list_selected {
                        None => Vec::new(),
                        Some(sel) => {
                            let size = match self.state.get_diffsize() {
                                Some(s) => s,
                                None => 0,
                            };
                            let moved: usize = if up {
                                if sel > 0 {
                                    sel - 1
                                } else if size > 0 {
                                    size - 1
                                } else {
                                    0
                                }
                            } else {
                                if size > 0 && sel >= size - 1 {
                                    0
                                } else if size > 0 {
                                    sel + 1
                                } else {
                                    0
                                }
                            };
                            self.log_list_selected = Some(moved);
                            Vec::new()
                        },
                    }
                } else {
                    Vec::new()
                }
            },
        }
    }
}

/// `x` clamped to what a 64-bit counter can hold.
pub open spec fn sat_u64(x: int) -> int {
    if x > u64::MAX {
        u64::MAX as int
    } else {
        x
    }
}

/// Saturating addition on 64-bit counters.
fn add_sat_u64(a: u64, b: u64) -> (r: u64)
    ensures
        r as int == sat_u64(a + b),
{
    if a > u64::MAX - b {
        u64::MAX
    } else {
        a + b
    }
}

} // verus!
