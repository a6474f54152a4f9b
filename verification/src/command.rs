//! A single shell command: its builder, the decisions taken while it runs
//! (kill on timeout, collect when it exits, redraw the spinner), and the
//! status, exit code, console text and log entry of a finished run.

use vstd::prelude::*;
use crate::render::{push_log_head, push_wrapper, log_head, time_slot, wrapper_line};
use crate::status::{
    colored_icon, colored_icon_text, includes_body, plain_icon, plain_icon_text,
    should_include_body, signal_exit_code, signal_fits, CommandOutput, RunReport, RunStatus,
};
use crate::text::{
    body_text, bounded_text, derive_display_message, display_label, push_body, push_char,
    read_bounded,
};

verus! {

broadcast use vstd::string::group_string_axioms;

/// Bytes captured per stream unless `max_output` says otherwise (10 MiB).
pub const DEFAULT_MAX_OUTPUT: usize = 10485760;

/// Decides whether a finished command succeeded from its captured output.
pub trait SuccessCheck {
    /// The outputs on which `check` may be called.
    spec fn admits(&self, out: &CommandOutput) -> bool;

    /// `ok` is a verdict that `check` can give on `out`.
    spec fn verdict(&self, out: &CommandOutput, ok: bool) -> bool;

    fn check(&self, out: &CommandOutput) -> (ok: bool)
        requires
            self.admits(out),
        ensures
            self.verdict(out, ok),
    ;
}

/// The default criterion: success means exit code zero.
pub struct ExitCodeZero;

impl SuccessCheck for ExitCodeZero {
    open spec fn admits(&self, out: &CommandOutput) -> bool {
        true
    }

    open spec fn verdict(&self, out: &CommandOutput, ok: bool) -> bool {
        ok == (out.exit_code == 0)
    }

    fn check(&self, out: &CommandOutput) -> (ok: bool) {
        out.exit_code == 0
    }
}

/// A criterion given by a closure over the captured output.
pub struct Custom<F>(pub F);

impl<F: Fn(&CommandOutput) -> bool> SuccessCheck for Custom<F> {
    open spec fn admits(&self, out: &CommandOutput) -> bool {
        call_requires(self.0, (out,))
    }

    open spec fn verdict(&self, out: &CommandOutput, ok: bool) -> bool {
        call_ensures(self.0, (out,), ok)
    }

    fn check(&self, out: &CommandOutput) -> (ok: bool) {
        (self.0)(out)
    }
}

/// A builder for configuring and running one shell command.
pub struct ShellCommand<C> {
    command: String,
    message: Option<String>,
    timeout_nanos: Option<u128>,
    check: C,
    quiet: bool,
    max_output: usize,
    log: Option<String>,
    show_time: bool,
}

/// The configuration of a [`ShellCommand`], as values.
pub struct CommandView {
    pub command: Seq<char>,
    pub message: Option<Seq<char>>,
    /// The timeout in nanoseconds, when one is set.
    pub timeout_nanos: Option<u128>,
    pub quiet: bool,
    pub max_output: usize,
    /// The log file path, when one is set.
    pub log: Option<Seq<char>>,
    pub show_time: bool,
}

/// The view of an optional string.
pub open spec fn opt_view(s: Option<String>) -> Option<Seq<char>> {
    match s {
        Some(t) => Some(t@),
        None => None,
    }
}

impl<C> View for ShellCommand<C> {
    type V = CommandView;

    closed spec fn view(&self) -> CommandView {
        CommandView {
            command: self.command@,
            message: opt_view(self.message),
            timeout_nanos: self.timeout_nanos,
            quiet: self.quiet,
            max_output: self.max_output,
            log: opt_view(self.log),
            show_time: self.show_time,
        }
    }
}

/// The label a command is shown under.
pub open spec fn label_of(v: CommandView) -> Seq<char> {
    display_label(v.message, v.command)
}

/// Creates a command for the given shell expression (run with `sh -c`),
/// with no message, timeout, log or quiet mode, success on exit code zero,
/// and the default capture limit.
pub fn execute(cmd: &str) -> (r: ShellCommand<ExitCodeZero>)
    ensures
        r@ == (CommandView {
            command: cmd@,
            message: None,
            timeout_nanos: None,
            quiet: false,
            max_output: DEFAULT_MAX_OUTPUT,
            log: None,
            show_time: false,
        }),
{
    ShellCommand {
        command: cmd.to_owned(),
        message: None,
        timeout_nanos: None,
        check: ExitCodeZero,
        quiet: false,
        max_output: DEFAULT_MAX_OUTPUT,
        log: None,
        show_time: false,
    }
}

impl<C> ShellCommand<C> {
    /// The success criterion.
    pub closed spec fn criterion(&self) -> C {
        self.check
    }

    /// Sets the message shown in place of the command.
    pub fn message(self, msg: &str) -> (r: Self)
        ensures
            r@ == (CommandView { message: Some(msg@), ..self@ }),
            r.criterion() == self.criterion(),
    {
        ShellCommand { message: Some(msg.to_owned()), ..self }
    }

    /// Sets a maximum duration of `secs` seconds and `nanos` nanoseconds;
    /// a command that runs that long is killed.
    pub fn timeout(self, secs: u64, nanos: u32) -> (r: Self)
        ensures
            r@ == (CommandView {
                timeout_nanos: Some((secs * 1_000_000_000 + nanos) as u128),
                ..self@
            }),
            r.criterion() == self.criterion(),
    {
        let n: u128 = (secs as u128) * 1_000_000_000 + (nanos as u128);
        ShellCommand { timeout_nanos: Some(n), ..self }
    }

    /// Judges success with `closure` over the captured output instead of
    /// by exit code.
    pub fn success<F: Fn(&CommandOutput) -> bool>(self, closure: F) -> (r: ShellCommand<Custom<F>>)
        ensures
            r@ == self@,
            r.criterion() == Custom(closure),
            forall|o: &CommandOutput| #[trigger] r.criterion().admits(o) == call_requires(closure, (o,)),
            forall|o: &CommandOutput, ok: bool| #[trigger] r.criterion().verdict(o, ok) == call_ensures(
                closure,
                (o,),
                ok,
            ),
            (forall|o: &CommandOutput| call_requires(closure, (o,))) ==> admits_all(r.criterion()),
    {
        ShellCommand {
            command: self.command,
            message: self.message,
            timeout_nanos: self.timeout_nanos,
            check: Custom(closure),
            quiet: self.quiet,
            max_output: self.max_output,
            log: self.log,
            show_time: self.show_time,
        }
    }

    /// Suppresses the output body of successful runs.
    pub fn quiet(self) -> (r: Self)
        ensures
            r@ == (CommandView { quiet: true, ..self@ }),
            r.criterion() == self.criterion(),
    {
        ShellCommand { quiet: true, ..self }
    }

    /// Sets how many bytes of stdout and of stderr are captured.
    pub fn max_output(self, bytes: usize) -> (r: Self)
        ensures
            r@ == (CommandView { max_output: bytes, ..self@ }),
            r.criterion() == self.criterion(),
    {
        ShellCommand { max_output: bytes, ..self }
    }

    /// Sets the file that a log entry is appended to after the run.
    pub fn log(self, path: &str) -> (r: Self)
        ensures
            r@ == (CommandView { log: Some(path@), ..self@ }),
            r.criterion() == self.criterion(),
    {
        ShellCommand { log: Some(path.to_owned()), ..self }
    }

    /// Shows the elapsed `HH:MM:SS` in the spinner and status lines.
    pub fn show_time(self) -> (r: Self)
        ensures
            r@ == (CommandView { show_time: true, ..self@ }),
            r.criterion() == self.criterion(),
    {
        ShellCommand { show_time: true, ..self }
    }

    /// The shell expression.
    pub fn command(&self) -> (r: &str)
        ensures
            r@ == self@.command,
    {
        self.command.as_str()
    }

    /// The per-stream capture limit in bytes.
    pub fn output_limit(&self) -> (r: usize)
        ensures
            r == self@.max_output,
    {
        self.max_output
    }

    /// The log file path, when one is set.
    pub fn log_path(&self) -> (r: Option<&str>)
        ensures
            r is Some <==> self@.log is Some,
            r matches Some(p) ==> Some(p@) == self@.log,
    {
        match &self.log {
            Some(p) => Some(p.as_str()),
            None => None,
        }
    }

    /// The label shown for this command.
    pub fn display_message(&self) -> (r: String)
        ensures
            r@ == label_of(self@),
    {
        derive_display_message(&self.message, self.command.as_str())
    }
}

/// What became of a command that was started.
pub enum Ran {
    /// The process could not be started; `reason` says why.
    SpawnFailed { reason: String },
    /// The timeout passed and the process was killed.
    TimedOut,
    /// The process ended by itself: with an exit code, or killed by a signal.
    Exited { code: Option<i32>, signal: Option<i32>, stdout: String, stderr: String },
}

/// The output handed to the success criterion of an exited command; a
/// missing exit code counts as `1`.
pub open spec fn exited_output(code: Option<i32>, stdout: String, stderr: String) -> CommandOutput {
    CommandOutput {
        stdout: stdout,
        stderr: stderr,
        exit_code: match code {
            Some(c) => c,
            None => 1,
        },
    }
}

/// The signal of a run fits the `128 + signal` exit code.
pub open spec fn ran_fits(ran: Ran) -> bool {
    match ran {
        Ran::Exited { signal, .. } => signal_fits(signal),
        _ => true,
    }
}

/// The report of a run whose success criterion said `ok`: a spawn failure
/// is a failure with code 1, a timeout is `Timeout` with 124, a signal is
/// `Interrupted` with `128 + signal`, and otherwise `ok` decides between
/// success and failure and the command's own code is propagated.
pub open spec fn report_for(ran: Ran, ok: bool) -> RunReport {
    match ran {
        Ran::SpawnFailed { .. } => RunReport { status: RunStatus::Failure, exit_code: 1 },
        Ran::TimedOut => RunReport { status: RunStatus::Timeout, exit_code: 124 },
        Ran::Exited { code, signal, .. } => match signal {
            Some(n) => RunReport {
                status: RunStatus::Interrupted,
                exit_code: signal_exit_code(signal) as i32,
            },
            None => RunReport {
                status: if ok {
                    RunStatus::Success
                } else {
                    RunStatus::Failure
                },
                exit_code: match code {
                    Some(c) => c,
                    None => 1,
                },
            },
        },
    }
}

/// The criterion is consulted only for a command that exited without a
/// signal, on its captured output.
pub open spec fn consulted<C: SuccessCheck>(check: C, ran: Ran, ok: bool) -> bool {
    match ran {
        Ran::Exited { code, signal: None, stdout, stderr } => check.verdict(
            &exited_output(code, stdout, stderr),
            ok,
        ),
        _ => true,
    }
}

/// `r` is the report of `ran` under criterion `check`.
pub open spec fn judged<C: SuccessCheck>(check: C, ran: Ran, r: RunReport) -> bool {
    let ok = r.status == RunStatus::Success;
    r == report_for(ran, ok) && consulted(check, ran, ok)
}

/// The criterion can be asked about any output.
pub open spec fn admits_all<C: SuccessCheck>(check: C) -> bool {
    forall|o: CommandOutput| #[trigger] check.admits(&o)
}

/// The report of a run judged by exit code alone, ignoring the criterion.
pub open spec fn plain_report(ran: Ran) -> RunReport {
    match ran {
        Ran::Exited { code, signal: None, .. } => report_for(
            ran,
            match code {
                Some(c) => c == 0,
                None => false,
            },
        ),
        _ => report_for(ran, false),
    }
}

/// The captured text of a run: stdout followed by stderr, empty when
/// nothing was captured.
pub open spec fn ran_text(ran: Ran) -> Seq<char> {
    match ran {
        Ran::Exited { stdout, stderr, .. } => stdout@ + stderr@,
        _ => seq![],
    }
}

/// The console body printed under the status line.
pub open spec fn console_body(status: RunStatus, quiet: bool, output: Seq<char>) -> Seq<char> {
    if includes_body(status, quiet) {
        body_text(seq![' ', ' ', ' ', ' '], output)
    } else {
        seq![]
    }
}

/// A log entry: the head line, then the output lines each indented by a
/// tab when the body is included.
pub open spec fn log_entry_text(
    ts: Seq<char>,
    status: RunStatus,
    quiet: bool,
    secs: nat,
    label: Seq<char>,
    output: Seq<char>,
) -> Seq<char> {
    log_head(ts, plain_icon_text(status), secs, label) + if includes_body(status, quiet) {
        body_text(seq!['\t'], output)
    } else {
        seq![]
    }
}

/// The status line printed when a command finishes: a carriage return
/// (overwriting the spinner), then `[ ICON{slot} ] label`.
pub open spec fn final_line(status: RunStatus, show_time: bool, secs: nat, label: Seq<char>) -> Seq<
    char,
> {
    seq!['\r'] + wrapper_line(colored_icon_text(status), time_slot(show_time, secs), label)
}

/// Everything a finished run produces for the caller to show and record.
pub struct Conclusion {
    pub report: RunReport,
    /// The status line to print, when there is one.
    pub status_line: Option<String>,
    /// The indented output to print under the status line.
    pub body: String,
    /// The entry to append to the log file, when one is configured.
    pub log_entry: Option<String>,
}

/// The view of an optional string held by a conclusion.
pub open spec fn opt_text(s: Option<String>) -> Option<Seq<char>> {
    opt_view(s)
}

/// One observation of a running process (`try_wait`).
pub enum Probe {
    /// Still running.
    Running,
    /// Has exited.
    Exited,
    /// Its state could not be read.
    Unknown,
}

/// What to do next while a command runs.
pub enum Watch {
    /// The timeout has passed: kill the process.
    Kill,
    /// The process has ended: collect its output and status.
    Collect,
    /// Keep waiting.
    Wait,
    /// Print this spinner line, then keep waiting.
    Redraw(String),
}

/// The character of spinner frame `frame`.
pub open spec fn spinner_char(frame: nat) -> char {
    if frame == 0 {
        '-'
    } else if frame == 1 {
        '\\'
    } else if frame == 2 {
        '|'
    } else {
        '/'
    }
}

/// The spinner line: `\r[ C{slot} ] label`.
pub open spec fn spinner_line(frame: nat, show_time: bool, secs: nat, label: Seq<char>) -> Seq<
    char,
> {
    seq!['\r'] + wrapper_line(seq![spinner_char(frame)], time_slot(show_time, secs), label)
}

/// The state that decides, tick by tick, what to do with a running command.
pub struct Watcher {
    label: String,
    frame: usize,
    deadline: Option<u128>,
    show_time: bool,
    spinner: bool,
}

/// The state of a [`Watcher`], as values.
pub struct WatcherView {
    pub label: Seq<char>,
    pub frame: nat,
    /// The timeout in nanoseconds, when one is set.
    pub deadline: Option<u128>,
    pub show_time: bool,
    /// Whether a spinner is drawn while waiting.
    pub spinner: bool,
}

impl View for Watcher {
    type V = WatcherView;

    closed spec fn view(&self) -> WatcherView {
        WatcherView {
            label: self.label@,
            frame: self.frame as nat,
            deadline: self.deadline,
            show_time: self.show_time,
            spinner: self.spinner,
        }
    }
}

/// The deadline has passed at `elapsed` nanoseconds.
pub open spec fn overdue(deadline: Option<u128>, elapsed: u128) -> bool {
    match deadline {
        Some(t) => elapsed >= t,
        None => false,
    }
}

/// Whole seconds in a count of nanoseconds.
pub open spec fn whole_secs(nanos: u128) -> nat {
    (nanos / 1_000_000_000) as nat
}

impl Watcher {
    /// The spinner frame is one of the four.
    pub open spec fn wf(&self) -> bool {
        self@.frame < 4
    }

    fn spinner_glyph(frame: usize) -> (c: char)
        requires
            frame < 4,
        ensures
            c == spinner_char(frame as nat),
    {
        if frame == 0 {
            '-'
        } else if frame == 1 {
            '\\'
        } else if frame == 2 {
            '|'
        } else {
            '/'
        }
    }

    /// Decides what to do at `elapsed` nanoseconds after the start, given
    /// what `try_wait` reported. The timeout is checked first: an overdue
    /// command is killed whatever the probe says; then a command that has
    /// ended (or cannot be probed) is collected; otherwise the spinner is
    /// redrawn with the next frame, or, without a spinner, nothing happens.
    pub fn step(&mut self, elapsed_nanos: u128, probe: Probe) -> (a: Watch)
        requires
            old(self).wf(),
            elapsed_nanos / 1_000_000_000 <= u64::MAX,
        ensures
            final(self).wf(),
            overdue(old(self)@.deadline, elapsed_nanos) ==> a is Kill && final(self)@ == old(self)@,
            !overdue(old(self)@.deadline, elapsed_nanos) && !(probe is Running) ==> a is Collect
                && final(self)@ == old(self)@,
            !overdue(old(self)@.deadline, elapsed_nanos) && probe is Running && !old(self)@.spinner
                ==> a is Wait && final(self)@ == old(self)@,
            !overdue(old(self)@.deadline, elapsed_nanos) && probe is Running && old(self)@.spinner
                ==> (a matches Watch::Redraw(line) && line@ == spinner_line(
                old(self)@.frame,
                old(self)@.show_time,
                whole_secs(elapsed_nanos),
                old(self)@.label,
            )) && final(self)@ == (WatcherView {
                frame: (old(self)@.frame + 1) % 4,
                ..old(self)@
            }),
    {
        match self.deadline {
            Some(t) => {
                if elapsed_nanos >= t {
                    return Watch::Kill;
                }
            },
            None => {},
        }
        match probe {
            Probe::Running => {},
            _ => {
                return Watch::Collect;
            },
        }
        if !self.spinner {
            return Watch::Wait;
        }
        let secs = elapsed_nanos / 1_000_000_000;
        let mut line = String::new();
        push_char(&mut line, '\r');
        let glyph: char = Self::spinner_glyph(self.frame);
        let g = glyph_str(glyph);
        push_wrapper(&mut line, g.as_str(), self.show_time, secs as u64, self.label.as_str());
        self.frame = (self.frame + 1) % 4;
        Watch::Redraw(line)
    }
}

fn glyph_str(c: char) -> (s: String)
    ensures
        s@ == seq![c],
{
    let mut s = String::new();
    push_char(&mut s, c);
    s
}

impl<C> ShellCommand<C> {
    /// The watcher for a run of this command; `spinner` says whether it
    /// draws a spinner while waiting.
    pub fn watcher(&self, spinner: bool) -> (w: Watcher)
        ensures
            w.wf(),
            w@ == (WatcherView {
                label: label_of(self@),
                frame: 0,
                deadline: self@.timeout_nanos,
                show_time: self@.show_time,
                spinner: spinner,
            }),
    {
        Watcher {
            label: self.display_message(),
            frame: 0,
            deadline: self.timeout_nanos,
            show_time: self.show_time,
            spinner: spinner,
        }
    }
}

/// The output a run leaves behind: the captured streams and exit code of
/// an exited command (a missing code counts as `1`), empty streams and
/// `124` after a timeout, and the spawn error on stderr with code `1`.
pub open spec fn output_matches(ran: Ran, out: CommandOutput) -> bool {
    match ran {
        Ran::Exited { code, stdout, stderr, .. } => out == exited_output(code, stdout, stderr),
        Ran::TimedOut => out.stdout@ == Seq::<char>::empty() && out.stderr@ == Seq::<char>::empty()
            && out.exit_code == 124,
        Ran::SpawnFailed { reason } => out.stdout@ == Seq::<char>::empty() && out.stderr@
            == "Failed to spawn command: "@ + reason@ && out.exit_code == 1,
    }
}

fn empty_output(exit_code: i32) -> (out: CommandOutput)
    ensures
        out.stdout@ == Seq::<char>::empty(),
        out.stderr@ == Seq::<char>::empty(),
        out.exit_code == exit_code,
{
    CommandOutput { stdout: String::new(), stderr: String::new(), exit_code }
}

/// The captured output of a run.
pub fn capture_output(ran: Ran) -> (out: CommandOutput)
    ensures
        output_matches(ran, out),
{
    match ran {
        Ran::SpawnFailed { reason } => {
            let mut e = String::new();
            e.append("Failed to spawn command: ");
            e.append(reason.as_str());
            CommandOutput { stdout: String::new(), stderr: e, exit_code: 1 }
        },
        Ran::TimedOut => empty_output(124),
        Ran::Exited { code, signal, stdout, stderr } => {
            let exit_code = match code {
                Some(c) => c,
                None => 1,
            };
            CommandOutput { stdout, stderr, exit_code }
        },
    }
}

/// The report of a run judged by exit code alone, with no spinner, body or
/// criterion; a run that could not start reports failure with code 1.
pub open spec fn interactive_report(exit: Option<i32>) -> RunReport {
    match exit {
        Some(c) => RunReport {
            status: if c == 0 {
                RunStatus::Success
            } else {
                RunStatus::Failure
            },
            exit_code: c,
        },
        None => RunReport { status: RunStatus::Failure, exit_code: 1 },
    }
}

fn report(status: RunStatus, exit_code: i32) -> (r: RunReport)
    ensures
        r == (RunReport { status, exit_code }),
{
    RunReport { status, exit_code }
}

impl<C: SuccessCheck> ShellCommand<C> {
    fn judge(&self, ran: Ran) -> (res: (RunReport, CommandOutput))
        requires
            admits_all(self.criterion()),
            ran_fits(ran),
        ensures
            judged(self.criterion(), ran, res.0),
            output_matches(ran, res.1),
    {
        let (kind, signal): (u8, Option<i32>) = match &ran {
            Ran::SpawnFailed { .. } => (0, None),
            Ran::TimedOut => (1, None),
            Ran::Exited { signal, .. } => (2, *signal),
        };
        let ghost g = ran;
        let out = capture_output(ran);
        if kind == 0 {
            (report(RunStatus::Failure, 1), out)
        } else if kind == 1 {
            (report(RunStatus::Timeout, 124), out)
        } else {
            match signal {
                Some(n) => (report(RunStatus::Interrupted, 128 + n), out),
                None => {
                    assert(self.check.admits(&out));
                    let ok = self.check.check(&out);
                    let code = out.exit_code;
                    if ok {
                        (report(RunStatus::Success, code), out)
                    } else {
                        (report(RunStatus::Failure, code), out)
                    }
                },
            }
        }
    }

    /// The status of a finished run.
    pub fn run_status(self, ran: Ran) -> (s: RunStatus)
        requires
            admits_all(self.criterion()),
            ran_fits(ran),
        ensures
            report_for(ran, s == RunStatus::Success).status == s,
            consulted(self.criterion(), ran, s == RunStatus::Success),
    {
        self.judge(ran).0.status
    }

    /// Whether a finished run succeeded.
    pub fn run(self, ran: Ran) -> (b: bool)
        requires
            admits_all(self.criterion()),
            ran_fits(ran),
        ensures
            b == (report_for(ran, b).status == RunStatus::Success),
            consulted(self.criterion(), ran, b),
    {
        self.run_status(ran).is_success()
    }

    /// The report and the text of a run that finished after `elapsed_secs`
    /// seconds: its status line, the indented body, and the log entry,
    /// stamped with `timestamp`, when a log file is configured. A run that
    /// could not start prints and logs nothing.
    pub fn run_report(self, ran: Ran, elapsed_secs: u64, timestamp: &str) -> (c: Conclusion)
        requires
            admits_all(self.criterion()),
            ran_fits(ran),
        ensures
            judged(self.criterion(), ran, c.report),
            ran is SpawnFailed ==> c.status_line is None && c.body@ == Seq::<char>::empty()
                && c.log_entry is None,
            !(ran is SpawnFailed) ==> {
                &&& opt_text(c.status_line) == Some(
                    final_line(c.report.status, self@.show_time, elapsed_secs as nat, label_of(self@)),
                )
                &&& c.body@ == console_body(c.report.status, self@.quiet, ran_text(ran))
                &&& (c.log_entry is Some <==> self@.log is Some)
                &&& c.log_entry matches Some(e) ==> e@ == log_entry_text(
                        timestamp@,
                        c.report.status,
                        self@.quiet,
                        elapsed_secs as nat,
                        label_of(self@),
                        ran_text(ran),
                    )
            },
    {
        let spawn_failed = match &ran {
            Ran::SpawnFailed { .. } => true,
            _ => false,
        };
        let ghost g = ran;
        let (rep, out) = self.judge(ran);
        if spawn_failed {
            return Conclusion { report: rep, status_line: None, body: String::new(), log_entry: None };
        }
        let label = self.display_message();
        let mut line = String::new();
        push_char(&mut line, '\r');
        let icon = colored_icon(rep.status);
        push_wrapper(&mut line, icon.as_str(), self.show_time, elapsed_secs, label.as_str());
        assert(line@ == final_line(rep.status, self@.show_time, elapsed_secs as nat, label@));
        assert(out.stdout@ + out.stderr@ == ran_text(g));
        let mut body = String::new();
        if should_include_body(rep.status, self.quiet) {
            proof {
                reveal_strlit("    ");
                assert("    "@ =~= seq![' ', ' ', ' ', ' ']);
            }
            push_body(&mut body, "    ", out.stdout.as_str(), out.stderr.as_str());
            assert(body@ == console_body(rep.status, self@.quiet, ran_text(g)));
        }
        let log_entry = match &self.log {
            Some(_) => {
                let e = self.log_entry(
                    timestamp,
                    rep.status,
                    elapsed_secs,
                    out.stdout.as_str(),
                    out.stderr.as_str(),
                );
                Some(e)
            },
            None => None,
        };
        Conclusion { report: rep, status_line: Some(line), body, log_entry }
    }
}

impl<C> ShellCommand<C> {
    /// The log entry of a run that ended with `status` after `elapsed_secs`
    /// seconds, stamped with `timestamp`, given the captured streams.
    pub fn log_entry(
        &self,
        timestamp: &str,
        status: RunStatus,
        elapsed_secs: u64,
        stdout: &str,
        stderr: &str,
    ) -> (r: String)
        ensures
            r@ == log_entry_text(
                timestamp@,
                status,
                self@.quiet,
                elapsed_secs as nat,
                label_of(self@),
                stdout@ + stderr@,
            ),
    {
        let label = self.display_message();
        let mut e = String::new();
        push_log_head(&mut e, timestamp, plain_icon(status), elapsed_secs, label.as_str());
        assert(e@ == log_head(timestamp@, plain_icon_text(status), elapsed_secs as nat, label@));
        if should_include_body(status, self.quiet) {
            proof {
                reveal_strlit("\t");
                assert("\t"@ =~= seq!['\t']);
            }
            push_body(&mut e, "\t", stdout, stderr);
        } else {
            assert(e@ == e@ + Seq::<char>::empty());
        }
        e
    }

    fn succinct_report(ran: &Ran) -> (r: RunReport)
        requires
            ran_fits(*ran),
        ensures
            r == plain_report(*ran),
    {
        let (kind, signal, code): (u8, Option<i32>, Option<i32>) = match ran {
            Ran::SpawnFailed { .. } => (0, None, None),
            Ran::TimedOut => (1, None, None),
            Ran::Exited { signal, code, .. } => (2, *signal, *code),
        };
        if kind == 0 {
            report(RunStatus::Failure, 1)
        } else if kind == 1 {
            report(RunStatus::Timeout, 124)
        } else {
            match signal {
                Some(n) => report(RunStatus::Interrupted, 128 + n),
                None => match code {
                    Some(c) => if c == 0 {
                        report(RunStatus::Success, 0)
                    } else {
                        report(RunStatus::Failure, c)
                    },
                    None => report(RunStatus::Failure, 1),
                },
            }
        }
    }

    /// The report and log entry of a run in succinct mode, judged by exit
    /// code alone: no status line and no body; the log entry, when
    /// configured, is the head line alone, stamped with `timestamp`.
    pub fn run_succinct_report(self, ran: Ran, elapsed_secs: u64, timestamp: &str) -> (c: Conclusion)
        requires
            ran_fits(ran),
        ensures
            c.report == plain_report(ran),
            c.status_line is None,
            c.body@ == Seq::<char>::empty(),
            ran is SpawnFailed ==> c.log_entry is None,
            !(ran is SpawnFailed) ==> (c.log_entry is Some <==> self@.log is Some),
            c.log_entry matches Some(e) ==> e@ == log_head(
                timestamp@,
                plain_icon_text(c.report.status),
                elapsed_secs as nat,
                label_of(self@),
            ),
    {
        let spawn_failed = match &ran {
            Ran::SpawnFailed { .. } => true,
            _ => false,
        };
        let ghost g = ran;
        let rep = Self::succinct_report(&ran);
        let log_entry = if spawn_failed {
            None
        } else {
            match &self.log {
                Some(_) => Some(self.head_entry(timestamp, rep.status, elapsed_secs)),
                None => None,
            }
        };
        Conclusion { report: rep, status_line: None, body: String::new(), log_entry }
    }

    fn head_entry(&self, timestamp: &str, status: RunStatus, elapsed_secs: u64) -> (e: String)
        ensures
            e@ == log_head(timestamp@, plain_icon_text(status), elapsed_secs as nat, label_of(self@)),
    {
        let label = self.display_message();
        let mut e = String::new();
        push_log_head(&mut e, timestamp, plain_icon(status), elapsed_secs, label.as_str());
        e
    }

    fn interactive_report(exit: Option<i32>) -> (r: RunReport)
        ensures
            r == interactive_report(exit),
    {
        match exit {
            Some(c) => if c == 0 {
                report(RunStatus::Success, 0)
            } else {
                report(RunStatus::Failure, c)
            },
            None => report(RunStatus::Failure, 1),
        }
    }

    /// The report and text of an interactive run that exited with `exit`
    /// (`None`: it could not be started), judged by exit code alone: a
    /// status line without the carriage return (it is printed on the main
    /// screen after the alternate screen is left), no body, and the log
    /// head line stamped with `timestamp`.
    pub fn run_interactive_report(self, exit: Option<i32>, elapsed_secs: u64, timestamp: &str) -> (c:
        Conclusion)
        ensures
            c.report == interactive_report(exit),
            c.body@ == Seq::<char>::empty(),
            exit is None ==> c.status_line is None && c.log_entry is None,
            exit is Some ==> opt_text(c.status_line) == Some(
                wrapper_line(
                    colored_icon_text(c.report.status),
                    time_slot(self@.show_time, elapsed_secs as nat),
                    label_of(self@),
                ),
            ) && (c.log_entry is Some <==> self@.log is Some),
            c.log_entry matches Some(e) ==> e@ == log_head(
                timestamp@,
                plain_icon_text(c.report.status),
                elapsed_secs as nat,
                label_of(self@),
            ),
    {
        let rep = Self::interactive_report(exit);
        if exit.is_none() {
            return Conclusion { report: rep, status_line: None, body: String::new(), log_entry: None };
        }
        let label = self.display_message();
        let mut line = String::new();
        let icon = colored_icon(rep.status);
        push_wrapper(&mut line, icon.as_str(), self.show_time, elapsed_secs, label.as_str());
        let log_entry = match &self.log {
            Some(_) => Some(self.head_entry(timestamp, rep.status, elapsed_secs)),
            None => None,
        };
        Conclusion { report: rep, status_line: Some(line), body: String::new(), log_entry }
    }

    /// The run of this command once it ended by itself with `code` and
    /// `signal`, given the bytes read from its streams (at most one more
    /// than the capture limit of each): each stream is kept up to this
    /// command's capture limit, with the truncation note when more arrived.
    pub fn exited_run(&self, code: Option<i32>, signal: Option<i32>, stdout: &[u8], stderr: &[u8]) -> (r:
        Ran)
        ensures
            r matches Ran::Exited { code: c, signal: g, stdout: o, stderr: e } && c == code && g
                == signal && o@ == bounded_text(stdout@, self@.max_output as nat) && e@
                == bounded_text(stderr@, self@.max_output as nat),
    {
        Ran::Exited {
            code,
            signal,
            stdout: read_bounded(stdout, self.max_output),
            stderr: read_bounded(stderr, self.max_output),
        }
    }

    /// The output of a run in capture mode: the captured streams and exit
    /// code, with no spinner, printing or criterion.
    pub fn run_capture(self, ran: Ran) -> (out: CommandOutput)
        ensures
            output_matches(ran, out),
    {
        capture_output(ran)
    }
}

} // verus!
