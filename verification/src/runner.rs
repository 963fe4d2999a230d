//! The process-runner engine.  Everything a run decides is here, as pure
//! functions: building the command and the file names for one job, growing
//! the captured log line by line under a deadline, and turning what was
//! observed (timeout, exit status, captured output) into a verdict, a status
//! and a log.  Spawning, reading and killing the child are left to the
//! caller, which hands the observations in as plain values.

use vstd::prelude::*;
use crate::numfmt::{two_digit_spec, two_digit_string};
use crate::status::Status;

verus! {

/// The exit code reserved by the memory-checker wrapper for "leak detected".
pub const LEAK_EXIT_CODE: i32 = 69;

/// The classification of one finished (or failed-to-start) run.
#[derive(Clone, Copy, Debug, PartialEq, Eq, Structural)]
pub enum Verdict {
    /// Captured output equals the reference, byte for byte.
    Pass,
    /// Captured output differs from the reference.
    Fail,
    /// A deadline expired and the child was killed.
    Timeout,
    /// The child terminated without an exit code.
    Crashed,
    /// The child exited with the reserved leak-detection code.
    MemoryLeak,
    /// A file could not be opened or the child could not spawn.
    SetupError,
}

/// The decision table of the output classifier, in precedence order:
/// timeout wins over crash, crash over leak, leak over the byte comparison.
/// (A setup error short-circuits before anything is observed and never
/// reaches this table.)
pub open spec fn classify_spec(timed_out: bool, exit_code: Option<i32>, matches: bool) -> Verdict {
    if timed_out {
        Verdict::Timeout
    } else {
        match exit_code {
            None => Verdict::Crashed,
            Some(c) => if c == LEAK_EXIT_CODE {
                Verdict::MemoryLeak
            } else if matches {
                Verdict::Pass
            } else {
                Verdict::Fail
            },
        }
    }
}

/// Classifies one observed run.
pub fn classify(timed_out: bool, exit_code: Option<i32>, matches: bool) -> (v: Verdict)
    ensures
        v == classify_spec(timed_out, exit_code, matches),
{
    if timed_out {
        Verdict::Timeout
    } else {
        match exit_code {
            None => Verdict::Crashed,
            Some(c) => if c == LEAK_EXIT_CODE {
                Verdict::MemoryLeak
            } else if matches {
                Verdict::Pass
            } else {
                Verdict::Fail
            },
        }
    }
}

/// The status a verdict stores into the job table: the score on a pass,
/// the verdict's name otherwise.
pub open spec fn status_for_verdict(v: Verdict, weight: usize) -> Status {
    match v {
        Verdict::Pass => Status::Pass { score: weight },
        Verdict::Fail => Status::Fail,
        Verdict::Timeout => Status::Timeout,
        Verdict::Crashed => Status::Crashed,
        Verdict::MemoryLeak => Status::MemLeaks,
        Verdict::SetupError => Status::SetupError,
    }
}

/// The fixed log message of a leak verdict, pointing at the wrapper's
/// diagnostic file.
pub open spec fn memleak_note() -> Seq<char> {
    "Check output folder for valgrind errors"@
}

/// One event observed while reading the child's standard output.
#[derive(Debug)]
pub enum ReadEvent {
    /// One line arrived (without its newline).
    Line(String),
    /// The stream closed; the child is done writing.
    Closed,
    /// The per-line deadline expired before a line arrived.
    TimedOut,
}

/// What the reading loop does next.
#[derive(Clone, Copy, Debug, PartialEq, Eq, Structural)]
pub enum ReadStep {
    /// Keep reading.
    Continue,
    /// A deadline expired: kill the child, the run is a timeout.
    Expired,
    /// The stream ended: wait for the child's exit status.
    Finished,
}

/// Advances the captured log by one read event.  A line is appended with its
/// newline restored; then the cumulative elapsed time is held against the
/// job's total timeout.  A per-line timeout expires the run outright.
pub fn read_step(
    log: &mut String,
    ev: ReadEvent,
    elapsed_millis: u64,
    timeout_millis: u64,
) -> (r: ReadStep)
    ensures
        match ev {
            ReadEvent::Line(l) => final(log)@ == old(log)@ + l@ + "\n"@ && r == (
            if elapsed_millis > timeout_millis {
                ReadStep::Expired
            } else {
                ReadStep::Continue
            }),
            ReadEvent::Closed => final(log)@ == old(log)@ && r == ReadStep::Finished,
            ReadEvent::TimedOut => final(log)@ == old(log)@ && r == ReadStep::Expired,
        },
{
    match ev {
        ReadEvent::Line(l) => {
            log.append(l.as_str());
            log.append("\n");
            if elapsed_millis > timeout_millis {
                ReadStep::Expired
            } else {
                ReadStep::Continue
            }
        },
        ReadEvent::Closed => ReadStep::Finished,
        ReadEvent::TimedOut => ReadStep::Expired,
    }
}

/// Everything one finished run writes back: the verdict, the status and log
/// stored as a pair, whether the captured output is persisted to the job's
/// output file, and the points awarded.
#[derive(Debug, PartialEq, Eq)]
pub struct RunOutcome {
    pub verdict: Verdict,
    pub status: Status,
    pub log: String,
    pub write_output: bool,
    pub score: usize,
}

/// The full relation between one run's observations and its outcome.
///
/// - The verdict follows the classifier's decision table.
/// - The status is derived from the verdict, the score string on a pass.
/// - A timeout stores an empty log and skips the output file; every other
///   verdict persists the captured output.
/// - A crash appends the exit note (the signal text) to the log; a leak
///   appends the fixed pointer to the wrapper's diagnostic file.
/// - Points are awarded exactly on a pass, and equal the job's weight.
pub open spec fn run_outcome_ok(
    o: RunOutcome,
    timed_out: bool,
    exit_code: Option<i32>,
    exit_note: Seq<char>,
    captured: Seq<char>,
    reference: Seq<char>,
    weight: usize,
) -> bool {
    let v = classify_spec(timed_out, exit_code, captured == reference);
    &&& o.verdict == v
    &&& o.status == status_for_verdict(v, weight)
    &&& o.log@ == match v {
        Verdict::Timeout => Seq::<char>::empty(),
        Verdict::Crashed => captured + exit_note,
        Verdict::MemoryLeak => captured + memleak_note(),
        _ => captured,
    }
    &&& o.write_output == (v != Verdict::Timeout)
    &&& o.score == (if v == Verdict::Pass {
        weight as int
    } else {
        0
    })
}

/// Concludes one run from what was observed: whether a deadline expired, the
/// child's exit code (`None` when it died without one, e.g. on a signal),
/// the text describing an abnormal exit, the captured output, the reference
/// output, and the job's score weight.
pub fn conclude_run(
    timed_out: bool,
    exit_code: Option<i32>,
    exit_note: &str,
    captured: String,
    reference: &String,
    weight: usize,
) -> (o: RunOutcome)
    ensures
        run_outcome_ok(o, timed_out, exit_code, exit_note@, captured@, reference@, weight),
{
    if timed_out {
        RunOutcome {
            verdict: Verdict::Timeout,
            status: Status::Timeout,
            log: String::new(),
            write_output: false,
            score: 0,
        }
    } else {
        match exit_code {
            None => {
                let mut log = captured;
                log.append(exit_note);
                RunOutcome {
                    verdict: Verdict::Crashed,
                    status: Status::Crashed,
                    log,
                    write_output: true,
                    score: 0,
                }
            },
            Some(c) => {
                if c == LEAK_EXIT_CODE {
                    let mut log = captured;
                    log.append("Check output folder for valgrind errors");
                    RunOutcome {
                        verdict: Verdict::MemoryLeak,
                        status: Status::MemLeaks,
                        log,
                        write_output: true,
                        score: 0,
                    }
                } else if captured == *reference {
                    RunOutcome {
                        verdict: Verdict::Pass,
                        status: Status::Pass { score: weight },
                        log: captured,
                        write_output: true,
                        score: weight,
                    }
                } else {
                    RunOutcome {
                        verdict: Verdict::Fail,
                        status: Status::Fail,
                        log: captured,
                        write_output: true,
                        score: 0,
                    }
                }
            },
        }
    }
}

/// The outcome of a run that never started: the cause's text becomes the
/// log, nothing is persisted, no points are awarded.
pub fn setup_error_outcome(message: &str) -> (o: RunOutcome)
    ensures
        o.verdict == Verdict::SetupError,
        o.status == Status::SetupError,
        o.log@ == message@,
        !o.write_output,
        o.score == 0,
{
    RunOutcome {
        verdict: Verdict::SetupError,
        status: Status::SetupError,
        log: String::from_str(message),
        write_output: false,
        score: 0,
    }
}

/// LAW: the byte-for-byte equality check.  When a run finished normally (no
/// deadline expired, an ordinary exit code), equal captured and reference
/// output always yields a pass worth exactly the job's weight, and any
/// difference yields a mismatch worth zero.
pub proof fn lemma_byte_for_byte(
    o: RunOutcome,
    c: i32,
    exit_note: Seq<char>,
    captured: Seq<char>,
    reference: Seq<char>,
    weight: usize,
)
    requires
        run_outcome_ok(o, false, Some(c), exit_note, captured, reference, weight),
        c != LEAK_EXIT_CODE,
    ensures
        captured == reference ==> o.verdict == Verdict::Pass && o.status == (Status::Pass {
            score: weight,
        }) && o.score == weight,
        captured != reference ==> o.verdict == Verdict::Fail && o.status == Status::Fail
            && o.score == 0,
{
}

/// LAW: status and log are mutually consistent with the verdict taken.  The
/// status is always the one derived from the verdict; a timeout never
/// persists the output file and stores an empty log; every other verdict
/// persists the captured output.
pub proof fn lemma_outcome_consistent(
    o: RunOutcome,
    timed_out: bool,
    exit_code: Option<i32>,
    exit_note: Seq<char>,
    captured: Seq<char>,
    reference: Seq<char>,
    weight: usize,
)
    requires
        run_outcome_ok(o, timed_out, exit_code, exit_note, captured, reference, weight),
    ensures
        o.status == status_for_verdict(o.verdict, weight),
        o.status == Status::Timeout ==> !o.write_output && o.log@.len() == 0,
        o.status != Status::Timeout ==> o.write_output,
        o.status matches Status::Pass { score } ==> score == weight && captured == reference,
        o.status == Status::Fail ==> captured != reference,
{
    if o.status == Status::Timeout {
        assert(o.verdict == Verdict::Timeout);
    }
}

/// LAW: the engine is deterministic.  Two runs concluded from the same
/// observations (timing fields are recorded separately and excluded) agree
/// on verdict, status, log, persistence and score.
pub proof fn lemma_run_deterministic(
    o1: RunOutcome,
    o2: RunOutcome,
    timed_out: bool,
    exit_code: Option<i32>,
    exit_note: Seq<char>,
    captured: Seq<char>,
    reference: Seq<char>,
    weight: usize,
)
    requires
        run_outcome_ok(o1, timed_out, exit_code, exit_note, captured, reference, weight),
        run_outcome_ok(o2, timed_out, exit_code, exit_note, captured, reference, weight),
    ensures
        o1.verdict == o2.verdict,
        o1.status == o2.status,
        o1.log@ == o2.log@,
        o1.write_output == o2.write_output,
        o1.score == o2.score,
{
}

/// The path of one per-job file: `<base><dir><id, zero-padded>-<name><ext>`.
pub open spec fn job_file_spec(
    base: Seq<char>,
    dir: Seq<char>,
    id: nat,
    name: Seq<char>,
    ext: Seq<char>,
) -> Seq<char> {
    base + dir + two_digit_spec(id) + "-"@ + name + ext
}

/// Builds the path of one per-job file under `base`.
fn job_file_path(base: &str, dir: &str, id: usize, name: &str, ext: &str) -> (r: String)
    ensures
        r@ == job_file_spec(base@, dir@, id as nat, name@, ext@),
{
    let mut r = String::from_str(base);
    r.append(dir);
    let id_str = two_digit_string(id);
    r.append(id_str.as_str());
    r.append("-");
    r.append(name);
    r.append(ext);
    proof {
        assert(r@ =~= job_file_spec(base@, dir@, id as nat, name@, ext@));
    }
    r
}

/// The reference-output file of one job.
pub fn ref_path(base: &str, id: usize, name: &str) -> (r: String)
    ensures
        r@ == job_file_spec(base@, "ref/"@, id as nat, name@, ".ref"@),
{
    job_file_path(base, "ref/", id, name, ".ref")
}

/// The input file of one job.
pub fn input_path(base: &str, id: usize, name: &str) -> (r: String)
    ensures
        r@ == job_file_spec(base@, "input/"@, id as nat, name@, ".in"@),
{
    job_file_path(base, "input/", id, name, ".in")
}

/// The captured-output file of one job.
pub fn output_path(base: &str, id: usize, name: &str) -> (r: String)
    ensures
        r@ == job_file_spec(base@, "output/"@, id as nat, name@, ".out"@),
{
    job_file_path(base, "output/", id, name, ".out")
}

/// The memory-checker diagnostic file of one job.
pub fn valgrind_path(base: &str, id: usize, name: &str) -> (r: String)
    ensures
        r@ == job_file_spec(base@, "output/"@, id as nat, name@, ".valgrind"@),
{
    job_file_path(base, "output/", id, name, ".valgrind")
}

/// Everything one run needs, owned by that run alone: the command, the three
/// file paths, the wrapper flag and the deadline.
#[derive(Debug, PartialEq, Eq)]
pub struct RunContext {
    pub program: String,
    pub args: Vec<String>,
    pub input_path: String,
    pub ref_path: String,
    pub output_path: String,
    pub valgrind: bool,
    pub timeout_millis: u64,
}

/// The full relation between one job's parameters and its run context: the
/// three per-job file paths follow the naming convention, and the command
/// is the memory checker with its fixed diagnostic flags (its log directed
/// to the job's diagnostic file, the real executable as final argument)
/// when the wrapper is enabled, the executable alone otherwise.
pub open spec fn run_context_ok(
    ctx: RunContext,
    valgrind: bool,
    base: Seq<char>,
    id: nat,
    name: Seq<char>,
    timeout_millis: u64,
) -> bool {
    &&& ctx.valgrind == valgrind
    &&& ctx.timeout_millis == timeout_millis
    &&& ctx.input_path@ == job_file_spec(base, "input/"@, id, name, ".in"@)
    &&& ctx.ref_path@ == job_file_spec(base, "ref/"@, id, name, ".ref"@)
    &&& ctx.output_path@ == job_file_spec(base, "output/"@, id, name, ".out"@)
    &&& valgrind ==> ctx.program@ == "valgrind"@ && ctx.args@.len() == 6 && ctx.args@[0]@
        == "--log-file="@ + job_file_spec(base, "output/"@, id, name, ".valgrind"@)
        && ctx.args@[1]@ == "--leak-check=full"@ && ctx.args@[2]@ == "--track-origins=yes"@
        && ctx.args@[3]@ == "--show-leak-kinds=all"@ && ctx.args@[4]@ == "--error-exitcode=69"@
        && ctx.args@[5]@ == "./"@ + name
    &&& !valgrind ==> ctx.program@ == "./"@ + name && ctx.args@.len() == 0
}

/// Builds the run context for one job.
pub fn make_run_context(
    valgrind: bool,
    base: &str,
    id: usize,
    name: &str,
    timeout_millis: u64,
) -> (ctx: RunContext)
    ensures
        run_context_ok(ctx, valgrind, base@, id as nat, name@, timeout_millis),
{
    let input_path = input_path(base, id, name);
    let ref_path = ref_path(base, id, name);
    let output_path = output_path(base, id, name);
    let mut target = String::from_str("./");
    target.append(name);
    if valgrind {
        let mut log_flag = String::from_str("--log-file=");
        let vg_path = valgrind_path(base, id, name);
        log_flag.append(vg_path.as_str());
        let mut args: Vec<String> = Vec::new();
        args.push(log_flag);
        args.push(String::from_str("--leak-check=full"));
        args.push(String::from_str("--track-origins=yes"));
        args.push(String::from_str("--show-leak-kinds=all"));
        args.push(String::from_str("--error-exitcode=69"));
        args.push(target);
        RunContext {
            program: String::from_str("valgrind"),
            args,
            input_path,
            ref_path,
            output_path,
            valgrind,
            timeout_millis,
        }
    } else {
        let args: Vec<String> = Vec::new();
        RunContext {
            program: target,
            args,
            input_path,
            ref_path,
            output_path,
            valgrind,
            timeout_millis,
        }
    }
}

/// The build gate: a non-zero exit code from the build step aborts the whole
/// batch, carrying the build's error text; anything else lets it proceed.
pub fn build_gate(exit_code: Option<i32>, stderr_text: String) -> (r: Result<(), String>)
    ensures
        r is Err <==> (exit_code matches Some(c) && c != 0),
        r matches Err(m) ==> m@ == stderr_text@,
{
    match exit_code {
        Some(c) if c != 0 => Err(stderr_text),
        _ => Ok(()),
    }
}

} // verus!
