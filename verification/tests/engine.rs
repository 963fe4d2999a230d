//! The process-runner engine: classification, run conclusion, the reading
//! loop, command construction and the build gate.

use hw_checker::runner::{
    build_gate, classify, conclude_run, input_path, make_run_context, output_path, read_step,
    ref_path, setup_error_outcome, valgrind_path, ReadEvent, ReadStep, Verdict,
};
use hw_checker::status::Status;

#[test]
fn classifier_precedence_timeout_first() {
    // A process killed for exceeding its deadline is never re-classified as
    // crashed, a leak or a mismatch.
    assert_eq!(classify(true, None, false), Verdict::Timeout);
    assert_eq!(classify(true, Some(69), false), Verdict::Timeout);
    assert_eq!(classify(true, Some(0), true), Verdict::Timeout);
}

#[test]
fn classifier_crash_before_leak_and_match() {
    assert_eq!(classify(false, None, true), Verdict::Crashed);
    assert_eq!(classify(false, Some(69), true), Verdict::MemoryLeak);
    assert_eq!(classify(false, Some(0), true), Verdict::Pass);
    assert_eq!(classify(false, Some(0), false), Verdict::Fail);
    assert_eq!(classify(false, Some(1), false), Verdict::Fail);
}

#[test]
fn equal_bytes_pass_with_full_weight() {
    let captured = String::from("1 2 3\nok\n");
    let reference = String::from("1 2 3\nok\n");
    let o = conclude_run(false, Some(0), "", captured, &reference, 7);
    assert_eq!(o.verdict, Verdict::Pass);
    assert_eq!(o.status, Status::Pass { score: 7 });
    assert_eq!(o.score, 7);
    assert!(o.write_output);
    assert_eq!(o.log, "1 2 3\nok\n");
}

#[test]
fn single_differing_byte_fails_with_zero() {
    let captured = String::from("1 2 3\nok\n");
    let reference = String::from("1 2 3\nok.\n");
    let o = conclude_run(false, Some(0), "", captured, &reference, 7);
    assert_eq!(o.verdict, Verdict::Fail);
    assert_eq!(o.status, Status::Fail);
    assert_eq!(o.score, 0);
    assert!(o.write_output);
}

#[test]
fn slow_child_times_out_with_empty_log() {
    // A job allowed 500ms whose child sleeps far longer: the per-line wait
    // expires first, the run concludes as a timeout, the log is cleared and
    // the output file is not overwritten.
    let mut log = String::from("partial");
    let step = read_step(&mut log, ReadEvent::TimedOut, 500, 500);
    assert_eq!(step, ReadStep::Expired);
    let o = conclude_run(true, None, "", log, &String::from("expected"), 10);
    assert_eq!(o.verdict, Verdict::Timeout);
    assert_eq!(o.status, Status::Timeout);
    assert_eq!(o.log, "");
    assert!(!o.write_output);
    assert_eq!(o.score, 0);
}

#[test]
fn cumulative_deadline_expires_after_late_line() {
    let mut log = String::new();
    let step = read_step(&mut log, ReadEvent::Line(String::from("late")), 750, 500);
    assert_eq!(step, ReadStep::Expired);
    assert_eq!(log, "late\n");
}

#[test]
fn reading_appends_lines_until_the_stream_closes() {
    let mut log = String::new();
    assert_eq!(
        read_step(&mut log, ReadEvent::Line(String::from("a")), 10, 500),
        ReadStep::Continue
    );
    assert_eq!(
        read_step(&mut log, ReadEvent::Line(String::from("b")), 20, 500),
        ReadStep::Continue
    );
    assert_eq!(read_step(&mut log, ReadEvent::Closed, 30, 500), ReadStep::Finished);
    assert_eq!(log, "a\nb\n");
}

#[test]
fn signalled_child_is_crashed_regardless_of_output() {
    // Even when the captured output matches the reference exactly, a child
    // that died without an exit code is classified as crashed.
    let reference = String::from("out\n");
    let o = conclude_run(false, None, "signal: 11 (SIGSEGV)", String::from("out\n"), &reference, 9);
    assert_eq!(o.verdict, Verdict::Crashed);
    assert_eq!(o.status, Status::Crashed);
    assert_eq!(o.log, "out\nsignal: 11 (SIGSEGV)");
    assert!(o.write_output);
    assert_eq!(o.score, 0);
}

#[test]
fn leak_exit_code_is_a_memory_leak_with_fixed_note() {
    let reference = String::from("out\n");
    let o = conclude_run(false, Some(69), "", String::from("out\n"), &reference, 9);
    assert_eq!(o.verdict, Verdict::MemoryLeak);
    assert_eq!(o.status, Status::MemLeaks);
    assert_eq!(o.log, "out\nCheck output folder for valgrind errors");
    assert_eq!(o.score, 0);
}

#[test]
fn setup_error_carries_the_cause() {
    let o = setup_error_outcome("No such file or directory (os error 2)");
    assert_eq!(o.verdict, Verdict::SetupError);
    assert_eq!(o.status, Status::SetupError);
    assert_eq!(o.log, "No such file or directory (os error 2)");
    assert!(!o.write_output);
}

#[test]
fn per_job_files_follow_the_naming_convention() {
    assert_eq!(ref_path("t/", 3, "exe"), "t/ref/03-exe.ref");
    assert_eq!(input_path("t/", 3, "exe"), "t/input/03-exe.in");
    assert_eq!(output_path("t/", 3, "exe"), "t/output/03-exe.out");
    assert_eq!(valgrind_path("t/", 3, "exe"), "t/output/03-exe.valgrind");
    assert_eq!(ref_path("t/", 42, "exe"), "t/ref/42-exe.ref");
    assert_eq!(ref_path("", 0, "a"), "ref/00-a.ref");
}

#[test]
fn wrapped_command_carries_the_fixed_diagnostic_flags() {
    let ctx = make_run_context(true, "t/", 5, "exe", 750);
    assert_eq!(ctx.program, "valgrind");
    assert_eq!(
        ctx.args,
        vec![
            String::from("--log-file=t/output/05-exe.valgrind"),
            String::from("--leak-check=full"),
            String::from("--track-origins=yes"),
            String::from("--show-leak-kinds=all"),
            String::from("--error-exitcode=69"),
            String::from("./exe"),
        ]
    );
    assert_eq!(ctx.input_path, "t/input/05-exe.in");
    assert_eq!(ctx.ref_path, "t/ref/05-exe.ref");
    assert_eq!(ctx.output_path, "t/output/05-exe.out");
    assert!(ctx.valgrind);
    assert_eq!(ctx.timeout_millis, 750);
}

#[test]
fn plain_command_invokes_the_executable_directly() {
    let ctx = make_run_context(false, "t/", 5, "exe", 750);
    assert_eq!(ctx.program, "./exe");
    assert!(ctx.args.is_empty());
}

#[test]
fn build_gate_aborts_on_nonzero_exit() {
    assert_eq!(
        build_gate(Some(2), String::from("make: *** [build] Error 2")),
        Err(String::from("make: *** [build] Error 2"))
    );
    assert_eq!(build_gate(Some(0), String::from("ignored")), Ok(()));
    assert_eq!(build_gate(None, String::from("ignored")), Ok(()));
}
