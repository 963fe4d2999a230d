//! The classification tag of one job.  On success the stored status doubles
//! as the serialized score string; on any other outcome it is the verdict's
//! name.  The tag is modelled as a variant, and the strings and the numeric
//! score are derived from it rather than parsed back out of text.

use vstd::prelude::*;
use crate::numfmt::{
    digit_val,
    dec_digits, dec_val, is_dec_seq, lemma_dec_digits_are_digits, lemma_dec_digits_val,
    parse_usize, usize_to_string,
};

verus! {

/// The status of one job, as kept in the job table.
#[derive(Clone, Copy, Debug, PartialEq, Eq, Structural)]
pub enum Status {
    /// Queued for a worker, not yet picked up.
    Starting,
    /// Picked up by a worker; the child process may be running.
    Running,
    /// The run exceeded its deadline and the child was killed.
    Timeout,
    /// The child died without an exit code.
    Crashed,
    /// The child exited with the reserved leak-detection code.
    MemLeaks,
    /// A reference or input file was missing, or the child could not spawn.
    SetupError,
    /// The captured output differed from the reference.
    Fail,
    /// The captured output matched; `score` points were awarded.
    Pass { score: usize },
}

/// The points a status contributes to the total score.
pub open spec fn score_of(s: Status) -> int {
    match s {
        Status::Pass { score } => score as int,
        _ => 0,
    }
}

/// Whether a status counts as failed for a failed-tests-only re-run.
pub open spec fn is_failed(s: Status) -> bool {
    match s {
        Status::Timeout | Status::Crashed | Status::MemLeaks | Status::SetupError
        | Status::Fail => true,
        _ => false,
    }
}

pub open spec fn starting_str() -> Seq<char> {
    seq!['S', 'T', 'A', 'R', 'T', 'I', 'N', 'G']
}

pub open spec fn running_str() -> Seq<char> {
    seq!['R', 'U', 'N', 'N', 'I', 'N', 'G']
}

pub open spec fn timeout_str() -> Seq<char> {
    seq!['T', 'I', 'M', 'E', 'O', 'U', 'T']
}

pub open spec fn crashed_str() -> Seq<char> {
    seq!['C', 'R', 'A', 'S', 'H', 'E', 'D']
}

pub open spec fn memleaks_str() -> Seq<char> {
    seq!['M', 'E', 'M', 'L', 'E', 'A', 'K', 'S']
}

pub open spec fn setup_error_str() -> Seq<char> {
    seq!['E', 'R', 'R', 'O', 'R']
}

/// The string a status is displayed and serialized as.
pub open spec fn status_str(s: Status) -> Seq<char> {
    match s {
        Status::Starting => starting_str(),
        Status::Running => running_str(),
        Status::Timeout => timeout_str(),
        Status::Crashed => crashed_str(),
        Status::MemLeaks => memleaks_str(),
        Status::SetupError => setup_error_str(),
        Status::Fail => seq!['0'],
        Status::Pass { score } => dec_digits(score as nat),
    }
}

/// The status a stored string stands for.  A numeral is a score: zero is a
/// mismatch, anything positive a pass.  Text that is neither a verdict name
/// nor a numeral that fits counts as a mismatch.
pub open spec fn status_of_string(t: Seq<char>) -> Status {
    if t == starting_str() {
        Status::Starting
    } else if t == running_str() {
        Status::Running
    } else if t == timeout_str() {
        Status::Timeout
    } else if t == crashed_str() {
        Status::Crashed
    } else if t == memleaks_str() {
        Status::MemLeaks
    } else if t == setup_error_str() {
        Status::SetupError
    } else if is_dec_seq(t) && dec_val(t) <= usize::MAX {
        if dec_val(t) == 0 {
            Status::Fail
        } else {
            Status::Pass { score: dec_val(t) as usize }
        }
    } else {
        Status::Fail
    }
}

/// The points a status contributes to the total score.
pub fn score(s: &Status) -> (r: usize)
    ensures
        r == score_of(*s),
{
    match s {
        Status::Pass { score } => *score,
        _ => 0,
    }
}

/// Whether a status counts as failed for a failed-tests-only re-run.
pub fn failed(s: &Status) -> (r: bool)
    ensures
        r == is_failed(*s),
{
    match s {
        Status::Timeout | Status::Crashed | Status::MemLeaks | Status::SetupError
        | Status::Fail => true,
        _ => false,
    }
}

/// Renders a status as its stored string.
pub fn status_to_string(s: &Status) -> (r: String)
    ensures
        r@ == status_str(*s),
{
    proof {
        reveal_strlit("STARTING");
        reveal_strlit("RUNNING");
        reveal_strlit("TIMEOUT");
        reveal_strlit("CRASHED");
        reveal_strlit("MEMLEAKS");
        reveal_strlit("ERROR");
        reveal_strlit("0");
    }
    match s {
        Status::Starting => {
            let r = String::from_str("STARTING");
            proof {
                assert(r@ =~= starting_str());
            }
            r
        },
        Status::Running => {
            let r = String::from_str("RUNNING");
            proof {
                assert(r@ =~= running_str());
            }
            r
        },
        Status::Timeout => {
            let r = String::from_str("TIMEOUT");
            proof {
                assert(r@ =~= timeout_str());
            }
            r
        },
        Status::Crashed => {
            let r = String::from_str("CRASHED");
            proof {
                assert(r@ =~= crashed_str());
            }
            r
        },
        Status::MemLeaks => {
            let r = String::from_str("MEMLEAKS");
            proof {
                assert(r@ =~= memleaks_str());
            }
            r
        },
        Status::SetupError => {
            let r = String::from_str("ERROR");
            proof {
                assert(r@ =~= setup_error_str());
            }
            r
        },
        Status::Fail => {
            let r = String::from_str("0");
            proof {
                assert(r@ =~= seq!['0']);
            }
            r
        },
        Status::Pass { score } => usize_to_string(*score),
    }
}

/// Reads a stored string back into a status.
pub fn status_from_string(t: &str) -> (r: Status)
    ensures
        r == status_of_string(t@),
{
    proof {
        reveal_strlit("STARTING");
        reveal_strlit("RUNNING");
        reveal_strlit("TIMEOUT");
        reveal_strlit("CRASHED");
        reveal_strlit("MEMLEAKS");
        reveal_strlit("ERROR");
        assert("STARTING"@ =~= starting_str());
        assert("RUNNING"@ =~= running_str());
        assert("TIMEOUT"@ =~= timeout_str());
        assert("CRASHED"@ =~= crashed_str());
        assert("MEMLEAKS"@ =~= memleaks_str());
        assert("ERROR"@ =~= setup_error_str());
    }
    let owned = String::from_str(t);
    if owned == String::from_str("STARTING") {
        proof {
            assert(t@ =~= starting_str());
        }
        Status::Starting
    } else if owned == String::from_str("RUNNING") {
        proof {
            assert(t@ =~= running_str());
        }
        Status::Running
    } else if owned == String::from_str("TIMEOUT") {
        proof {
            assert(t@ =~= timeout_str());
        }
        Status::Timeout
    } else if owned == String::from_str("CRASHED") {
        proof {
            assert(t@ =~= crashed_str());
        }
        Status::Crashed
    } else if owned == String::from_str("MEMLEAKS") {
        proof {
            assert(t@ =~= memleaks_str());
        }
        Status::MemLeaks
    } else if owned == String::from_str("ERROR") {
        proof {
            assert(t@ =~= setup_error_str());
        }
        Status::SetupError
    } else {
        match parse_usize(t) {
            Some(v) => {
                if v == 0 {
                    Status::Fail
                } else {
                    Status::Pass { score: v }
                }
            },
            None => Status::Fail,
        }
    }
}

/// A passing status with a zero score; its stored string collides with the
/// one of a mismatch.
pub open spec fn is_zero_pass(s: Status) -> bool {
    match s {
        Status::Pass { score } => score == 0,
        _ => false,
    }
}

/// LAW: rendering a status and reading it back yields the same status, for
/// every status except a pass worth zero points, whose string `"0"` is by
/// convention read as a mismatch.
pub proof fn lemma_status_round_trip(s: Status)
    requires
        !is_zero_pass(s),
    ensures
        status_of_string(status_str(s)) == s,
{
    match s {
        Status::Pass { score } => {
            lemma_dec_digits_are_digits(score as nat);
            lemma_dec_digits_val(score as nat);
            let d = dec_digits(score as nat);
            assert(is_dec_seq(d));
            assert(d[0] != 'S' && d[0] != 'R' && d[0] != 'T' && d[0] != 'C' && d[0] != 'M'
                && d[0] != 'E');
        },
        Status::Fail => {
            assert(is_dec_seq(seq!['0']));
            assert(dec_val(seq!['0']) == 0) by {
                assert(seq!['0'].drop_last() =~= Seq::<char>::empty());
                assert(dec_val(Seq::<char>::empty()) == 0);
                assert(seq!['0'].last() == '0');
                assert(digit_val('0') == 0);
            }
        },
        _ => {},
    }
}

} // verus!
