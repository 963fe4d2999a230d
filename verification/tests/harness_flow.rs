//! The harness state machine: construction, key handling, batch planning
//! behind the build gate, per-job transitions and scoring.

use hw_checker::actions::{Action, Actions};
use hw_checker::checkstyle::ErrorTally;
use hw_checker::harness::{App, AppReturn, BatchCmd, IoEvent};
use hw_checker::inputs::Key;
use hw_checker::runner::conclude_run;
use hw_checker::state::AppState;
use hw_checker::status::Status;
use hw_checker::table::{Data, Test};

fn job(id: usize, status: Status, weight: usize) -> Test {
    Test {
        id,
        name: format!("test-{}", id),
        status,
        log: String::from("old log\n"),
        time_normal_millis: 0,
        time_valgrind_millis: 0,
        timeout: 500,
        test_score: weight,
    }
}

fn small_data() -> Data {
    Data {
        tests: vec![
            vec![job(0, Status::Fail, 5), job(1, Status::Pass { score: 5 }, 5)],
            vec![job(0, Status::Timeout, 10)],
        ],
        test_path: String::from("t/"),
        exec_name: vec![String::from("alpha"), String::from("beta")],
        valgrind_enabled: false,
    }
}

fn fresh_app() -> App {
    let mut app = App::new(small_data(), String::from("ref\n"), String::new());
    app.initialized();
    app
}

#[test]
fn new_app_counts_jobs_and_tallies_the_report() {
    let app = App::new(
        small_data(),
        String::from("ref\n"),
        String::from("a: CHECK x\nb: ERROR y\n"),
    );
    assert_eq!(app.test_num, 3);
    assert_eq!(app.errors, ErrorTally { check: 1, warning: 0, error: 1 });
    assert!(!app.unwritten_data);
    assert!(!app.is_loading());
    assert!(!app.state().is_initialized());
    assert_eq!(app.test_list_selected, Some(0));
}

#[test]
fn initialization_unlocks_the_full_action_set() {
    let mut app = App::new(small_data(), String::new(), String::new());
    assert_eq!(app.actions().actions().len(), 1);
    app.initialized();
    assert!(app.state().is_initialized());
    assert_eq!(app.actions().actions().len(), 13);
}

#[test]
fn quit_key_exits() {
    let mut app = fresh_app();
    let (ret, events) = app.do_action(Key::Char('q'));
    assert_eq!(ret, AppReturn::Exit);
    assert!(events.is_empty());
    let (ret, events) = app.do_action(Key::Ctrl('c'));
    assert_eq!(ret, AppReturn::Exit);
    assert!(events.is_empty());
}

#[test]
fn unbound_key_does_nothing() {
    let mut app = fresh_app();
    let (ret, events) = app.do_action(Key::Char('z'));
    assert_eq!(ret, AppReturn::Continue);
    assert!(events.is_empty());
}

#[test]
fn run_key_requests_the_whole_batch() {
    let mut app = fresh_app();
    let (ret, events) = app.do_action(Key::Char('r'));
    assert_eq!(ret, AppReturn::Continue);
    assert_eq!(events, vec![IoEvent::RunAll(3)]);
}

#[test]
fn run_failed_collects_failed_jobs_as_id_group_pairs() {
    let mut app = fresh_app();
    let (_, events) = app.do_action(Key::Char('f'));
    assert_eq!(events, vec![IoEvent::RunFailed(vec![(0, 0), (0, 1)])]);
}

#[test]
fn task_keys_request_their_whole_group() {
    let mut app = fresh_app();
    let (_, events) = app.do_action(Key::Char('1'));
    assert_eq!(events, vec![IoEvent::RunFailed(vec![(0, 0), (1, 0)])]);
    let (_, events) = app.do_action(Key::Char('2'));
    assert_eq!(events, vec![IoEvent::RunFailed(vec![(0, 1)])]);
    // The table has no third group: the key resolves but plans nothing.
    let (_, events) = app.do_action(Key::Char('3'));
    assert!(events.is_empty());
}

#[test]
fn run_current_builds_then_runs_the_selected_job() {
    let mut app = fresh_app();
    app.test_list_selected = Some(2);
    let (_, events) = app.do_action(Key::Enter);
    assert_eq!(events, vec![IoEvent::Make, IoEvent::RunTest(0, 1)]);
    assert_eq!(app.test_list[1][0].status, Status::Running);
    // Other jobs keep their statuses.
    assert_eq!(app.test_list[0][0].status, Status::Fail);
}

#[test]
fn valgrind_key_toggles_the_wrapper() {
    let mut app = fresh_app();
    assert!(!app.valgrind_enabled);
    app.do_action(Key::Char('v'));
    assert!(app.valgrind_enabled);
    app.do_action(Key::Char('v'));
    assert!(!app.valgrind_enabled);
}

#[test]
fn list_navigation_wraps_over_the_table() {
    let mut app = fresh_app();
    assert_eq!(app.test_list_selected, Some(0));
    let (_, events) = app.do_action(Key::Up);
    assert_eq!(app.test_list_selected, Some(2));
    assert_eq!(events, vec![IoEvent::UpdateRef]);
    app.do_action(Key::Down);
    assert_eq!(app.test_list_selected, Some(0));
    app.do_action(Key::Down);
    assert_eq!(app.test_list_selected, Some(1));
}

#[test]
fn window_keys_switch_between_list_and_diff() {
    let mut app = fresh_app();
    assert_eq!(app.windows_selected, Some(0));
    app.do_action(Key::Right);
    assert_eq!(app.windows_selected, Some(1));
    app.do_action(Key::Left);
    assert_eq!(app.windows_selected, Some(0));
}

#[test]
fn checkstyle_key_toggles_the_popup_and_loads_once() {
    let mut app = fresh_app();
    let (_, events) = app.do_action(Key::Char('c'));
    assert_eq!(app.state().get_checkstyle(), Some(true));
    assert_eq!(events, vec![IoEvent::LoadCheckstyle]);
    let (_, events) = app.do_action(Key::Char('c'));
    assert_eq!(app.state().get_checkstyle(), Some(false));
    assert!(events.is_empty());
}

#[test]
fn failed_build_aborts_the_batch_untouched() {
    // The build step exits with code 2: the batch produces zero job
    // commands, the failure is reported once, and no job status moves.
    let mut app = fresh_app();
    let before = app.test_list.clone();
    let r = app.start_batch(
        Some(2),
        String::from("make: *** [build] Error 2"),
        BatchCmd::All(3),
    );
    assert_eq!(r, Err(String::from("make: *** [build] Error 2")));
    assert_eq!(app.test_list, before);
    assert!(!app.unwritten_data);
}

#[test]
fn successful_build_fans_the_batch_out() {
    let mut app = fresh_app();
    let r = app.start_batch(Some(0), String::new(), BatchCmd::All(3));
    assert_eq!(
        r,
        Ok(vec![
            IoEvent::RunTest(0, 0),
            IoEvent::RunTest(1, 0),
            IoEvent::RunTest(0, 1),
        ])
    );
    assert_eq!(app.test_list[0][0].status, Status::Starting);
    assert_eq!(app.test_list[0][1].status, Status::Starting);
    assert_eq!(app.test_list[1][0].status, Status::Starting);
}

#[test]
fn explicit_batch_marks_only_its_jobs() {
    let mut app = fresh_app();
    let r = app.start_batch(None, String::new(), BatchCmd::Pairs(vec![(1, 0)]));
    assert_eq!(r, Ok(vec![IoEvent::RunTest(1, 0)]));
    assert_eq!(app.test_list[0][1].status, Status::Starting);
    assert_eq!(app.test_list[0][0].status, Status::Fail);
    assert_eq!(app.test_list[1][0].status, Status::Timeout);
}

#[test]
fn a_job_runs_through_begin_and_finish() {
    let mut app = fresh_app();
    let ctx = app.begin_job(1, 0);
    assert_eq!(app.test_list[0][1].status, Status::Running);
    assert_eq!(ctx.program, "./alpha");
    assert_eq!(ctx.ref_path, "t/ref/01-alpha.ref");
    assert_eq!(ctx.timeout_millis, 500);
    assert!(!ctx.valgrind);

    let outcome = conclude_run(
        false,
        Some(0),
        "",
        String::from("fresh output\n"),
        &String::from("fresh output\n"),
        5,
    );
    app.finish_job(1, 0, outcome, false, 123);
    let done = &app.test_list[0][1];
    // Status and log land together, as a pair.
    assert_eq!(done.status, Status::Pass { score: 5 });
    assert_eq!(done.log, "fresh output\n");
    assert_eq!(done.time_normal_millis, 123);
    assert_eq!(done.time_valgrind_millis, 0);
    assert!(app.unwritten_data);
}

#[test]
fn timed_out_job_stores_an_empty_log_and_no_output() {
    let mut app = fresh_app();
    let outcome = conclude_run(
        true,
        None,
        "",
        String::from("partial output\n"),
        &String::from("expected\n"),
        5,
    );
    assert!(!outcome.write_output);
    app.finish_job(0, 0, outcome, false, 512);
    let done = &app.test_list[0][0];
    assert_eq!(done.status, Status::Timeout);
    assert_eq!(done.log, "");
    assert_eq!(done.time_normal_millis, 512);
    assert!(app.unwritten_data);
}

#[test]
fn wrapped_run_records_the_wrapped_time() {
    let mut app = fresh_app();
    let outcome = conclude_run(
        false,
        Some(69),
        "",
        String::new(),
        &String::from("x"),
        5,
    );
    app.finish_job(0, 1, outcome, true, 77);
    assert_eq!(app.test_list[1][0].time_valgrind_millis, 77);
    assert_eq!(app.test_list[1][0].time_normal_millis, 0);
    assert_eq!(app.test_list[1][0].status, Status::MemLeaks);
}

#[test]
fn rerunning_unchanged_inputs_repeats_the_verdicts() {
    // Determinism: the same captured output, exit status and reference
    // conclude to identical verdicts, statuses and logs on every run.
    let reference = String::from("1 2\n");
    let once = conclude_run(false, Some(0), "", String::from("1 2\n"), &reference, 4);
    let again = conclude_run(false, Some(0), "", String::from("1 2\n"), &reference, 4);
    assert_eq!(once, again);
    let once = conclude_run(false, None, "signal: 6", String::from("x\n"), &reference, 4);
    let again = conclude_run(false, None, "signal: 6", String::from("x\n"), &reference, 4);
    assert_eq!(once, again);
}

#[test]
fn clean_tally_earns_the_bonus() {
    let mut app = fresh_app();
    // Statuses: Fail + Pass{5} + Timeout = 5 points from jobs.
    app.errors = ErrorTally { check: 0, warning: 0, error: 0 };
    assert_eq!(app.calculate_score(), 5 + 10);
    app.errors = ErrorTally { check: 1, warning: 0, error: 0 };
    assert_eq!(app.calculate_score(), 5);
}

#[test]
fn score_saturates_instead_of_overflowing() {
    let mut app = fresh_app();
    app.test_list[0][0].status = Status::Pass { score: usize::MAX };
    app.test_list[0][1].status = Status::Pass { score: usize::MAX };
    app.test_list[1][0].status = Status::Pass { score: usize::MAX };
    app.errors = ErrorTally { check: 0, warning: 0, error: 0 };
    assert_eq!(app.calculate_score(), u64::MAX);
}

#[test]
fn wrapped_job_gets_the_wrapper_command() {
    let mut app = fresh_app();
    app.do_action(Key::Char('v'));
    let ctx = app.begin_job(0, 0);
    assert!(ctx.valgrind);
    assert_eq!(ctx.program, "valgrind");
    assert_eq!(ctx.args.last().map(String::as_str), Some("./alpha"));
}

#[test]
fn tick_counter_wraps_at_the_limit() {
    let mut s = AppState::Initialized {
        duration_millis: 1000,
        counter_tick: u64::MAX,
        checkstyle: false,
        vmcheck_output: false,
        diff_size: 0,
    };
    s.incr_tick();
    assert_eq!(s.count_tick(), Some(0));
}

#[test]
fn periodic_flush_happens_on_the_hundredth_dirty_tick() {
    let mut app = fresh_app();
    app.unwritten_data = true;
    app.state = AppState::Initialized {
        duration_millis: 1000,
        counter_tick: 98,
        checkstyle: false,
        vmcheck_output: false,
        diff_size: 0,
    };
    let (ret, data) = app.update_on_tick();
    assert_eq!(ret, AppReturn::Continue);
    assert!(data.is_none());
    assert!(app.unwritten_data);
    // The hundredth tick flushes and clears the dirty flag.
    let (_, data) = app.update_on_tick();
    let data = data.expect("flush on the hundredth tick");
    assert_eq!(data.test_path, "t/");
    assert_eq!(data.exec_name, vec![String::from("alpha"), String::from("beta")]);
    assert_eq!(data.tests[0][0].status, Status::Fail);
    assert!(!app.unwritten_data);
    let (_, data) = app.update_on_tick();
    assert!(data.is_none());
}

#[test]
fn update_ref_replaces_reference_and_rebuilds_the_diff() {
    let mut app = fresh_app();
    app.test_list_selected = Some(0);
    app.test_list[0][0].log = String::from("a\nx\n");
    app.update_ref(String::from("a\nb\n"));
    assert_eq!(app.current_ref, "a\nb\n");
    let signs: Vec<char> = app.diff.iter().map(|l| l.sign).collect();
    // One common line, then the reference's line against the captured one.
    assert!(signs.contains(&' '));
    assert!(signs.contains(&'-'));
    assert!(signs.contains(&'+'));
    // Each rendered line makes its newline visible.
    assert_eq!(app.diff[0].sign, ' ');
    assert_eq!(app.diff[0].text, "a\n\u{23ce}");
}

#[test]
fn selected_ref_path_names_the_selected_jobs_file() {
    let mut app = fresh_app();
    app.test_list_selected = Some(2);
    assert_eq!(app.selected_ref_path(), Some(String::from("t/ref/00-beta.ref")));
    app.test_list_selected = None;
    assert_eq!(app.selected_ref_path(), None);
}

#[test]
fn key_bindings_resolve_in_canonical_order() {
    let all = Action::iterator();
    assert_eq!(all.len(), 13);
    let actions = Actions::from_vec(all).expect("canonical set has no conflicts");
    assert_eq!(actions.find(Key::Char('q')), Some(Action::Quit));
    assert_eq!(actions.find(Key::Enter), Some(Action::RunCurrent));
    assert_eq!(actions.find(Key::Char('z')), None);
    // An absent action does not resolve.
    let only_quit = Actions::from_vec(vec![Action::Quit]).expect("no conflicts");
    assert_eq!(only_quit.find(Key::Char('r')), None);
}

#[test]
fn conflicting_bindings_are_rejected() {
    assert!(Actions::from_vec(vec![Action::Quit, Action::Quit]).is_none());
    assert!(Actions::from_vec(vec![Action::Run, Action::Run]).is_none());
    assert!(Actions::from_vec(vec![Action::Quit, Action::Run]).is_some());
}

#[test]
fn every_action_describes_itself() {
    assert_eq!(Action::Quit.description(), "Quit");
    assert_eq!(Action::Run.description(), "Run all tests");
    assert_eq!(Action::ActivateValgrind.description(), "Turn On/Off valgrind");
    assert_eq!(Action::Quit.keys(), vec![Key::Ctrl('c'), Key::Char('q')]);
    assert_eq!(Action::RunTaskThree.keys(), vec![Key::Char('3')]);
}

#[test]
fn app_state_tracks_ticks_and_popups() {
    let mut s = AppState::default();
    assert!(!s.is_initialized());
    assert_eq!(s.count_tick(), None);
    s.incr_tick();
    assert_eq!(s.count_tick(), None);
    s = AppState::initialized();
    s.incr_tick();
    s.incr_tick();
    assert_eq!(s.count_tick(), Some(2));
    assert_eq!(s.get_vmcheck(), Some(false));
    s.update_vmcheck();
    assert_eq!(s.get_vmcheck(), Some(true));
    s.set_diffsize(42);
    assert_eq!(s.get_diffsize(), Some(42));
}
