//! Run statuses, reports and completed outcomes, with the rules that fold
//! several outcomes into one and derive a process exit code from them.

use vstd::prelude::*;

verus! {

broadcast use vstd::string::group_string_axioms;

/// The output captured from a completed shell command. An exit code of
/// `124` marks a command that was killed for exceeding its timeout.
pub struct CommandOutput {
    /// The captured standard output of the command.
    pub stdout: String,
    /// The captured standard error of the command.
    pub stderr: String,
    /// The exit code of the process.
    pub exit_code: i32,
}

/// The terminal outcome of running a command.
#[derive(Debug, Clone, Copy, PartialEq, Eq, Structural)]
pub enum RunStatus {
    /// The command completed and was judged successful.
    Success,
    /// The command completed but was judged a failure.
    Failure,
    /// The command was killed because it exceeded its timeout.
    Timeout,
    /// The command was terminated by a signal.
    Interrupted,
}

impl RunStatus {
    /// Returns `true` exactly for [`RunStatus::Success`].
    pub fn is_success(self) -> (b: bool)
        ensures
            b == (self == RunStatus::Success),
    {
        match self {
            RunStatus::Success => true,
            _ => false,
        }
    }
}

/// A status together with the exit code to propagate:
/// the command's own code on success or failure, `124` on timeout, and
/// `128 + signal` on a signal kill (`1` when the signal is unknown).
#[derive(Debug, Clone, Copy, PartialEq, Eq, Structural)]
pub struct RunReport {
    pub status: RunStatus,
    pub exit_code: i32,
}

/// How a command's output was obtained.
pub enum OutputCapture {
    /// stdout and stderr were captured.
    Captured(CommandOutput),
    /// stdout and stderr went straight to the terminal; nothing was kept.
    Inherited,
}

/// The record of one finished command.
pub struct Outcome {
    pub status: RunStatus,
    pub output: OutputCapture,
    /// Whole seconds the command ran.
    pub elapsed_secs: u64,
    pub label: String,
    /// The signal that ended the command, when one did.
    pub signal_num: Option<i32>,
}

/// The folded status of several outcomes: `Interrupted` if any was
/// interrupted, else `Success` if all succeeded, else `Failure` (a timeout
/// counts as a failure; no outcomes at all count as success).
pub open spec fn aggregate_of(statuses: Seq<RunStatus>) -> RunStatus {
    if exists|i: int| 0 <= i < statuses.len() && statuses[i] == RunStatus::Interrupted {
        RunStatus::Interrupted
    } else if forall|i: int| 0 <= i < statuses.len() ==> statuses[i] == RunStatus::Success {
        RunStatus::Success
    } else {
        RunStatus::Failure
    }
}

/// The statuses of a sequence of outcomes.
pub open spec fn statuses_of(outcomes: Seq<Outcome>) -> Seq<RunStatus> {
    outcomes.map_values(|o: Outcome| o.status)
}

/// Folds the statuses of completed outcomes into one status.
pub fn aggregate(outcomes: &[Outcome]) -> (r: RunStatus)
    ensures
        r == aggregate_of(statuses_of(outcomes@)),
{
    let ghost ss = statuses_of(outcomes@);
    let mut all_success = true;
    let mut i: usize = 0;
    while i < outcomes.len()
        invariant
            i <= outcomes@.len(),
            ss == statuses_of(outcomes@),
            ss.len() == outcomes@.len(),
            forall|k: int| 0 <= k < i ==> ss[k] != RunStatus::Interrupted,
            all_success == (forall|k: int| 0 <= k < i ==> ss[k] == RunStatus::Success),
        decreases outcomes@.len() - i,
    {
        let st = outcomes[i].status;
        assert(ss[i as int] == st);
        match st {
            RunStatus::Interrupted => {
                return RunStatus::Interrupted;
            },
            RunStatus::Success => {},
            _ => {
                all_success = false;
            },
        }
        i += 1;
    }
    if all_success {
        RunStatus::Success
    } else {
        RunStatus::Failure
    }
}

/// Exit code that a single signal-killed command propagates.
pub open spec fn signal_exit_code(signal: Option<i32>) -> int {
    match signal {
        Some(n) => 128 + n,
        None => 1,
    }
}

/// A signal number whose `128 + n` exit code fits in an `i32`.
pub open spec fn signal_fits(signal: Option<i32>) -> bool {
    match signal {
        Some(n) => n <= i32::MAX - 128,
        None => true,
    }
}

/// The exit code derived from an outcome: `124` on timeout, `128 + signal`
/// (or `1`) when interrupted, the command's own code when its output was
/// captured, and otherwise `0` on success and `1` on failure.
pub open spec fn outcome_exit_code(o: Outcome) -> int {
    match o.status {
        RunStatus::Timeout => 124,
        RunStatus::Interrupted => signal_exit_code(o.signal_num),
        _ => match o.output {
            OutputCapture::Captured(c) => c.exit_code as int,
            OutputCapture::Inherited => if o.status == RunStatus::Success {
                0
            } else {
                1
            },
        },
    }
}

/// Derives a process exit code from an outcome.
pub fn exit_code(outcome: &Outcome) -> (r: i32)
    requires
        outcome.status == RunStatus::Interrupted ==> signal_fits(outcome.signal_num),
    ensures
        r == outcome_exit_code(*outcome),
{
    match outcome.status {
        RunStatus::Timeout => 124,
        RunStatus::Interrupted => match outcome.signal_num {
            Some(n) => 128 + n,
            None => 1,
        },
        _ => match &outcome.output {
            OutputCapture::Captured(c) => c.exit_code,
            OutputCapture::Inherited => if outcome.status.is_success() {
                0
            } else {
                1
            },
        },
    }
}

/// Whether captured output is shown for a run: always, except for a
/// successful run in quiet mode.
pub open spec fn includes_body(status: RunStatus, quiet: bool) -> bool {
    status != RunStatus::Success || !quiet
}

/// Decides whether the captured body is shown for a run.
pub fn should_include_body(status: RunStatus, quiet: bool) -> (b: bool)
    ensures
        b == includes_body(status, quiet),
{
    !status.is_success() || !quiet
}

/// The colored status marker: green check, red cross, or yellow `INTERRUPTED`.
pub open spec fn colored_icon_text(status: RunStatus) -> Seq<char> {
    match status {
        RunStatus::Success => seq!['\x1b', '[', '3', '2', 'm', '✓', '\x1b', '[', '0', 'm'],
        RunStatus::Failure | RunStatus::Timeout => seq![
            '\x1b',
            '[',
            '3',
            '1',
            'm',
            '✘',
            '\x1b',
            '[',
            '0',
            'm',
        ],
        RunStatus::Interrupted => seq!['\x1b', '[', '3', '3', 'm']
            + interrupted_word()
            + seq!['\x1b', '[', '0', 'm'],
    }
}

/// The word written for an interrupted run.
pub open spec fn interrupted_word() -> Seq<char> {
    seq!['I', 'N', 'T', 'E', 'R', 'R', 'U', 'P', 'T', 'E', 'D']
}

/// The uncolored status marker used in log files.
pub open spec fn plain_icon_text(status: RunStatus) -> Seq<char> {
    match status {
        RunStatus::Success => seq!['✓'],
        RunStatus::Failure | RunStatus::Timeout => seq!['✘'],
        RunStatus::Interrupted => interrupted_word(),
    }
}

/// The colored status marker for console output.
pub fn colored_icon(status: RunStatus) -> (r: String)
    ensures
        r@ == colored_icon_text(status),
{
    match status {
        RunStatus::Success => {
            let s = "\x1b[32m✓\x1b[0m";
            proof {
                reveal_strlit("\x1b[32m✓\x1b[0m");
            }
            s.to_owned()
        },
        RunStatus::Failure | RunStatus::Timeout => {
            let s = "\x1b[31m✘\x1b[0m";
            proof {
                reveal_strlit("\x1b[31m✘\x1b[0m");
            }
            s.to_owned()
        },
        RunStatus::Interrupted => {
            let s = "\x1b[33mINTERRUPTED\x1b[0m";
            proof {
                reveal_strlit("\x1b[33mINTERRUPTED\x1b[0m");
            }
            s.to_owned()
        },
    }
}

/// The uncolored status marker for log files.
pub fn plain_icon(status: RunStatus) -> (r: &'static str)
    ensures
        r@ == plain_icon_text(status),
{
    match status {
        RunStatus::Success => {
            proof {
                reveal_strlit("✓");
            }
            "✓"
        },
        RunStatus::Failure | RunStatus::Timeout => {
            proof {
                reveal_strlit("✘");
            }
            "✘"
        },
        RunStatus::Interrupted => {
            proof {
                reveal_strlit("INTERRUPTED");
            }
            "INTERRUPTED"
        },
    }
}

} // verus!
