//! A group of shell commands run side by side: labels, the group status,
//! the in-place spinner frame, the summary block and the log entry.

use vstd::prelude::*;
use crate::command::{exited_output, opt_view, ran_fits, Ran, DEFAULT_MAX_OUTPUT};
use crate::render::{log_head, push_log_head, push_wrapper, time_slot, wrapper_line};
use crate::status::{
    aggregate, aggregate_of, colored_icon, colored_icon_text, exit_code, includes_body,
    outcome_exit_code, plain_icon, plain_icon_text, should_include_body, signal_exit_code,
    signal_fits, statuses_of, CommandOutput, Outcome, OutputCapture, RunReport, RunStatus,
};
use crate::text::{
    body_text, bounded_text, decimal, default_label, derive_display_message, push_body, push_char,
    push_decimal, read_bounded,
};

verus! {

broadcast use vstd::string::group_string_axioms;

/// A builder for running several shell commands in parallel.
pub struct ParallelGroup {
    commands: Vec<String>,
    message: Option<String>,
    quiet: bool,
    max_output: usize,
    log: Option<String>,
    show_time: bool,
}

/// The configuration of a [`ParallelGroup`], as values.
pub struct GroupView {
    pub commands: Seq<Seq<char>>,
    pub message: Option<Seq<char>>,
    pub quiet: bool,
    pub max_output: usize,
    pub log: Option<Seq<char>>,
    pub show_time: bool,
}

/// The views of a sequence of strings.
pub open spec fn views(ss: Seq<String>) -> Seq<Seq<char>> {
    ss.map_values(|s: String| s@)
}

/// The views of a sequence of string slices.
pub open spec fn str_views(ss: Seq<&str>) -> Seq<Seq<char>> {
    ss.map_values(|s: &str| s@)
}

impl View for ParallelGroup {
    type V = GroupView;

    closed spec fn view(&self) -> GroupView {
        GroupView {
            commands: views(self.commands@),
            message: opt_view(self.message),
            quiet: self.quiet,
            max_output: self.max_output,
            log: opt_view(self.log),
            show_time: self.show_time,
        }
    }
}

/// Creates a group from shell command strings, with no message, log, quiet
/// mode or elapsed times, and the default capture limit.
pub fn parallel(commands: &[&str]) -> (g: ParallelGroup)
    ensures
        g@ == (GroupView {
            commands: str_views(commands@),
            message: None,
            quiet: false,
            max_output: DEFAULT_MAX_OUTPUT,
            log: None,
            show_time: false,
        }),
{
    let mut v: Vec<String> = Vec::new();
    let mut i: usize = 0;
    while i < commands.len()
        invariant
            i <= commands@.len(),
            views(v@) == str_views(commands@).take(i as int),
        decreases commands@.len() - i,
    {
        let ghost prev = v@;
        let c = commands[i].to_owned();
        assert(c@ == commands@[i as int]@);
        v.push(c);
        assert(v@ == prev.push(c));
        assert(views(prev).len() == i);
        assert(views(v@) =~= str_views(commands@).take(i + 1)) by {
            assert forall|k: int| 0 <= k < i + 1 implies #[trigger] views(v@)[k] == str_views(
                commands@,
            ).take(i + 1)[k] by {
                assert(views(v@)[k] == v@[k]@);
                assert(str_views(commands@)[k] == commands@[k]@);
                if k < i {
                    assert(v@[k] == prev[k]);
                    assert(views(prev)[k] == prev[k]@);
                    assert(views(prev)[k] == str_views(commands@).take(i as int)[k]);
                }
            }
        }
        i += 1;
    }
    assert(str_views(commands@).take(i as int) == str_views(commands@));
    ParallelGroup {
        commands: v,
        message: None,
        quiet: false,
        max_output: DEFAULT_MAX_OUTPUT,
        log: None,
        show_time: false,
    }
}

/// The live state of one child.
pub enum ChildState {
    /// Not finished yet.
    Running,
    /// Finished with a status, its captured output and its run time.
    Done { status: RunStatus, output: CommandOutput, elapsed_secs: u64 },
}

/// The child has finished with exactly this status.
pub open spec fn done_with(s: ChildState, status: RunStatus) -> bool {
    s matches ChildState::Done { status: st, .. } && st == status
}

/// The status of a group from its children: `Interrupted` if any child was
/// interrupted, `Success` if every child finished successfully, and
/// `Failure` otherwise (a child still running counts against success).
pub open spec fn parent_status_of(states: Seq<ChildState>) -> RunStatus {
    if exists|i: int| 0 <= i < states.len() && done_with(states[i], RunStatus::Interrupted) {
        RunStatus::Interrupted
    } else if forall|i: int| 0 <= i < states.len() ==> done_with(states[i], RunStatus::Success) {
        RunStatus::Success
    } else {
        RunStatus::Failure
    }
}

/// Computes the status of a group from its children.
pub fn compute_parent_status(states: &[ChildState]) -> (r: RunStatus)
    ensures
        r == parent_status_of(states@),
{
    let mut any_interrupted = false;
    let mut all_success = true;
    let mut i: usize = 0;
    while i < states.len()
        invariant
            i <= states@.len(),
            any_interrupted == (exists|k: int|
                0 <= k < i && done_with(states@[k], RunStatus::Interrupted)),
            all_success == (forall|k: int| 0 <= k < i ==> done_with(states@[k], RunStatus::Success)),
        decreases states@.len() - i,
    {
        match &states[i] {
            ChildState::Done { status, .. } => match status {
                RunStatus::Interrupted => {
                    any_interrupted = true;
                    all_success = false;
                },
                RunStatus::Success => {},
                _ => {
                    all_success = false;
                },
            },
            ChildState::Running => {
                all_success = false;
            },
        }
        proof {
            if any_interrupted && !(exists|k: int| 0 <= k < i && done_with(states@[k], RunStatus::Interrupted)) {
                assert(done_with(states@[i as int], RunStatus::Interrupted));
            }
        }
        i += 1;
    }
    if any_interrupted {
        RunStatus::Interrupted
    } else if all_success {
        RunStatus::Success
    } else {
        RunStatus::Failure
    }
}

/// The exit code of a group: `0` on success, `1` otherwise.
pub open spec fn group_exit_code(status: RunStatus) -> int {
    if status == RunStatus::Success {
        0
    } else {
        1
    }
}

/// Maps a group status to its exit code.
pub fn status_to_exit_code(status: RunStatus) -> (r: i32)
    ensures
        r == group_exit_code(status),
{
    if status.is_success() {
        0
    } else {
        1
    }
}

/// The report of a group whose children ended in `states`.
pub open spec fn group_report(states: Seq<ChildState>) -> RunReport {
    RunReport {
        status: parent_status_of(states),
        exit_code: group_exit_code(parent_status_of(states)) as i32,
    }
}

/// The state of a child after a run that did not time out (children have
/// no timeout): a spawn failure is a failure with the error on stderr; a
/// signal makes it `Interrupted` with exit code `128 + signal`; otherwise
/// exit code zero is success and any other (or a missing one) is failure.
pub open spec fn child_done(ran: Ran, elapsed_secs: u64, s: ChildState) -> bool {
    match s {
        ChildState::Running => false,
        ChildState::Done { status, output, elapsed_secs: e } => e == elapsed_secs && match ran {
            Ran::SpawnFailed { reason } => status == RunStatus::Failure && output.stdout@
                == Seq::<char>::empty() && output.stderr@ == "Failed to spawn command: "@
                + reason@ && output.exit_code == 1,
            Ran::TimedOut => false,
            Ran::Exited { code, signal, stdout, stderr } => match signal {
                Some(n) => status == RunStatus::Interrupted && output == CommandOutput {
                    stdout,
                    stderr,
                    exit_code: signal_exit_code(signal) as i32,
                },
                None => output == exited_output(code, stdout, stderr) && status == if code
                    == Some(0i32) {
                    RunStatus::Success
                } else {
                    RunStatus::Failure
                },
            },
        },
    }
}

/// Classifies a finished child.
pub fn child_state(ran: Ran, elapsed_secs: u64) -> (s: ChildState)
    requires
        !(ran is TimedOut),
        ran_fits(ran),
    ensures
        child_done(ran, elapsed_secs, s),
{
    match ran {
        Ran::SpawnFailed { reason } => {
            let mut e = String::new();
            e.append("Failed to spawn command: ");
            e.append(reason.as_str());
            ChildState::Done {
                status: RunStatus::Failure,
                output: CommandOutput { stdout: String::new(), stderr: e, exit_code: 1 },
                elapsed_secs,
            }
        },
        Ran::TimedOut => ChildState::Running,
        Ran::Exited { code, signal, stdout, stderr } => match signal {
            Some(n) => ChildState::Done {
                status: RunStatus::Interrupted,
                output: CommandOutput { stdout, stderr, exit_code: 128 + n },
                elapsed_secs,
            },
            None => {
                let raw = match code {
                    Some(c) => c,
                    None => 1,
                };
                let status = match code {
                    Some(c) => if c == 0 {
                        RunStatus::Success
                    } else {
                        RunStatus::Failure
                    },
                    None => RunStatus::Failure,
                };
                ChildState::Done {
                    status,
                    output: CommandOutput { stdout, stderr, exit_code: raw },
                    elapsed_secs,
                }
            },
        },
    }
}

/// The label of a group: its message, or `N parallel commands`.
pub open spec fn parent_label_text(message: Option<Seq<char>>, n: nat) -> Seq<char> {
    match message {
        Some(m) => m,
        None => decimal(n) + " parallel commands"@,
    }
}

/// The captured text of a finished child: stdout followed by stderr.
pub open spec fn output_text(o: CommandOutput) -> Seq<char> {
    o.stdout@ + o.stderr@
}

/// One child in the summary block: an indented status line, then its body
/// indented by eight spaces unless it succeeded in quiet mode. A child that
/// has not finished is left out.
pub open spec fn block_row(s: ChildState, label: Seq<char>, show_time: bool, quiet: bool) -> Seq<
    char,
> {
    match s {
        ChildState::Running => seq![],
        ChildState::Done { status, output, elapsed_secs } => seq![' ', ' ', ' ', ' ']
            + wrapper_line(colored_icon_text(status), time_slot(show_time, elapsed_secs as nat), label)
            + seq!['\n'] + if includes_body(status, quiet) {
            body_text(seq![' ', ' ', ' ', ' ', ' ', ' ', ' ', ' '], output_text(output))
        } else {
            seq![]
        },
    }
}

/// The summary rows of the first `k` children.
pub open spec fn block_rows(
    states: Seq<ChildState>,
    labels: Seq<Seq<char>>,
    show_time: bool,
    quiet: bool,
    k: nat,
) -> Seq<char>
    decreases k,
{
    if k == 0 {
        seq![]
    } else {
        block_rows(states, labels, show_time, quiet, (k - 1) as nat) + block_row(
            states[k - 1],
            labels[k - 1],
            show_time,
            quiet,
        )
    }
}

/// The summary block printed when a group finishes: the group's status
/// line, then one row per finished child.
pub open spec fn final_block_text(
    parent_status: RunStatus,
    parent_secs: nat,
    parent_label: Seq<char>,
    states: Seq<ChildState>,
    labels: Seq<Seq<char>>,
    show_time: bool,
    quiet: bool,
) -> Seq<char> {
    wrapper_line(colored_icon_text(parent_status), time_slot(show_time, parent_secs), parent_label)
        + seq!['\n'] + block_rows(states, labels, show_time, quiet, states.len())
}

/// One child in a group's log entry: a tab, its status line with elapsed
/// time, and, when bodies are included and it did not succeed quietly, its
/// output lines each indented by two tabs.
pub open spec fn log_row(s: ChildState, label: Seq<char>, quiet: bool, bodies: bool) -> Seq<char> {
    match s {
        ChildState::Running => seq![],
        ChildState::Done { status, output, elapsed_secs } => seq!['\t'] + wrapper_line(
            plain_icon_text(status),
            time_slot(true, elapsed_secs as nat),
            label,
        ) + seq!['\n'] + if bodies && includes_body(status, quiet) {
            body_text(seq!['\t', '\t'], output_text(output))
        } else {
            seq![]
        },
    }
}

/// The log rows of the first `k` children.
pub open spec fn log_rows(
    states: Seq<ChildState>,
    labels: Seq<Seq<char>>,
    quiet: bool,
    bodies: bool,
    k: nat,
) -> Seq<char>
    decreases k,
{
    if k == 0 {
        seq![]
    } else {
        log_rows(states, labels, quiet, bodies, (k - 1) as nat) + log_row(
            states[k - 1],
            labels[k - 1],
            quiet,
            bodies,
        )
    }
}

/// A group's log entry: the head line for the group, then a row per
/// finished child.
pub open spec fn group_log_text(
    ts: Seq<char>,
    parent_status: RunStatus,
    parent_secs: nat,
    parent_label: Seq<char>,
    states: Seq<ChildState>,
    labels: Seq<Seq<char>>,
    quiet: bool,
    bodies: bool,
) -> Seq<char> {
    log_head(ts, plain_icon_text(parent_status), parent_secs, parent_label) + log_rows(
        states,
        labels,
        quiet,
        bodies,
        states.len(),
    )
}

/// One child line of the live frame: move to the next line, clear it, and
/// draw the child with the spinner (while running, with the group's time)
/// or its status (once done, with its own time).
pub open spec fn frame_row(
    s: ChildState,
    label: Seq<char>,
    spin: char,
    show_time: bool,
    group_secs: nat,
) -> Seq<char> {
    seq!['\x1b', '[', '1', 'E', '\x1b', '[', '2', 'K', ' ', ' ', ' ', ' '] + match s {
        ChildState::Running => wrapper_line(seq![spin], time_slot(show_time, group_secs), label),
        ChildState::Done { status, elapsed_secs, .. } => wrapper_line(
            colored_icon_text(status),
            time_slot(show_time, elapsed_secs as nat),
            label,
        ),
    }
}

/// The frame lines of the first `k` children.
pub open spec fn frame_rows(
    states: Seq<ChildState>,
    labels: Seq<Seq<char>>,
    spin: char,
    show_time: bool,
    group_secs: nat,
    k: nat,
) -> Seq<char>
    decreases k,
{
    if k == 0 {
        seq![]
    } else {
        frame_rows(states, labels, spin, show_time, group_secs, (k - 1) as nat) + frame_row(
            states[k - 1],
            labels[k - 1],
            spin,
            show_time,
            group_secs,
        )
    }
}

/// The live frame of a running group: clear the line, draw the group's
/// spinner line, then one line per child.
pub open spec fn frame_text(
    spin: char,
    show_time: bool,
    group_secs: nat,
    parent_label: Seq<char>,
    states: Seq<ChildState>,
    labels: Seq<Seq<char>>,
) -> Seq<char> {
    seq!['\x1b', '[', '2', 'K', '\r'] + wrapper_line(
        seq![spin],
        time_slot(show_time, group_secs),
        parent_label,
    ) + frame_rows(states, labels, spin, show_time, group_secs, states.len())
}

fn push_spaces(s: &mut String, n: usize)
    ensures
        final(s)@ == old(s)@ + Seq::new(n as nat, |i: int| ' '),
{
    let mut i: usize = 0;
    while i < n
        invariant
            i <= n,
            s@ == old(s)@ + Seq::new(i as nat, |k: int| ' '),
        decreases n - i,
    {
        push_char(s, ' ');
        assert(Seq::new((i + 1) as nat, |k: int| ' ') == Seq::new(i as nat, |k: int| ' ').push(' '));
        i += 1;
    }
}

fn spaces(n: usize) -> (s: String)
    ensures
        s@ == Seq::new(n as nat, |i: int| ' '),
{
    let mut s = String::new();
    push_spaces(&mut s, n);
    s
}

fn push_block_row(
    r: &mut String,
    state: &ChildState,
    label: &str,
    show_time: bool,
    quiet: bool,
    four: &String,
    eight: &String,
)
    requires
        four@ == seq![' ', ' ', ' ', ' '],
        eight@ == seq![' ', ' ', ' ', ' ', ' ', ' ', ' ', ' '],
    ensures
        final(r)@ == old(r)@ + block_row(*state, label@, show_time, quiet),
{
    match state {
        ChildState::Running => {
            assert(old(r)@ + Seq::<char>::empty() == old(r)@);
        },
        ChildState::Done { status, output, elapsed_secs } => {
            let ghost before = r@;
            r.append(four.as_str());
            let icon = colored_icon(*status);
            push_wrapper(r, icon.as_str(), show_time, *elapsed_secs, label);
            push_char(r, '\n');
            let ghost mid = r@;
            assert(mid == before + (four@ + wrapper_line(
                colored_icon_text(*status),
                time_slot(show_time, *elapsed_secs as nat),
                label@,
            ) + seq!['\n']));
            if should_include_body(*status, quiet) {
                push_body(r, eight.as_str(), output.stdout.as_str(), output.stderr.as_str());
            } else {
                assert(mid + Seq::<char>::empty() == mid);
            }
        },
    }
}

fn push_frame_row(
    r: &mut String,
    state: &ChildState,
    label: &str,
    glyph: &String,
    spin: char,
    show_time: bool,
    group_secs: u64,
)
    requires
        glyph@ == seq![spin],
    ensures
        final(r)@ == old(r)@ + frame_row(*state, label@, spin, show_time, group_secs as nat),
{
    let ghost before = r@;
    let mut lead = String::new();
    push_char(&mut lead, '\x1b');
    push_char(&mut lead, '[');
    push_char(&mut lead, '1');
    push_char(&mut lead, 'E');
    push_char(&mut lead, '\x1b');
    push_char(&mut lead, '[');
    push_char(&mut lead, '2');
    push_char(&mut lead, 'K');
    push_spaces(&mut lead, 4);
    assert(Seq::new(4nat, |k: int| ' ') == seq![' ', ' ', ' ', ' ']);
    assert(lead@ == seq!['\x1b', '[', '1', 'E', '\x1b', '[', '2', 'K', ' ', ' ', ' ', ' ']);
    r.append(lead.as_str());
    match state {
        ChildState::Running => {
            push_wrapper(r, glyph.as_str(), show_time, group_secs, label);
        },
        ChildState::Done { status, elapsed_secs, .. } => {
            let icon = colored_icon(*status);
            push_wrapper(r, icon.as_str(), show_time, *elapsed_secs, label);
        },
    }
}

/// Renders the summary block of a finished group.
pub fn final_block(
    parent_status: RunStatus,
    parent_secs: u64,
    parent_label: &str,
    states: &[ChildState],
    labels: &[String],
    show_time: bool,
    quiet: bool,
) -> (r: String)
    requires
        states@.len() == labels@.len(),
    ensures
        r@ == final_block_text(
            parent_status,
            parent_secs as nat,
            parent_label@,
            states@,
            views(labels@),
            show_time,
            quiet,
        ),
{
    let mut r = String::new();
    let icon = colored_icon(parent_status);
    push_wrapper(&mut r, icon.as_str(), show_time, parent_secs, parent_label);
    push_char(&mut r, '\n');
    let ghost head = r@;
    let four = spaces(4);
    let eight = spaces(8);
    assert(four@ == seq![' ', ' ', ' ', ' ']);
    assert(eight@ == seq![' ', ' ', ' ', ' ', ' ', ' ', ' ', ' ']);
    let mut i: usize = 0;
    while i < states.len()
        invariant
            i <= states@.len() == labels@.len(),
            four@ == seq![' ', ' ', ' ', ' '],
            eight@ == seq![' ', ' ', ' ', ' ', ' ', ' ', ' ', ' '],
            r@ == head + block_rows(states@, views(labels@), show_time, quiet, i as nat),
        decreases states@.len() - i,
    {
        let ghost before = r@;
        push_block_row(&mut r, &states[i], labels[i].as_str(), show_time, quiet, &four, &eight);
        assert(views(labels@)[i as int] == labels@[i as int]@);
        i += 1;
    }
    r
}

/// Renders the log entry of a finished group, stamped with `timestamp`;
/// `bodies` says whether child output is included.
pub fn group_log_entry(
    timestamp: &str,
    parent_status: RunStatus,
    parent_secs: u64,
    parent_label: &str,
    states: &[ChildState],
    labels: &[String],
    quiet: bool,
    bodies: bool,
) -> (r: String)
    requires
        states@.len() == labels@.len(),
    ensures
        r@ == group_log_text(
            timestamp@,
            parent_status,
            parent_secs as nat,
            parent_label@,
            states@,
            views(labels@),
            quiet,
            bodies,
        ),
{
    let mut r = String::new();
    push_log_head(&mut r, timestamp, plain_icon(parent_status), parent_secs, parent_label);
    let ghost head = r@;
    assert(head == log_head(timestamp@, plain_icon_text(parent_status), parent_secs as nat, parent_label@));
    let mut tabs = String::new();
    push_char(&mut tabs, '\t');
    push_char(&mut tabs, '\t');
    let mut i: usize = 0;
    while i < states.len()
        invariant
            i <= states@.len() == labels@.len(),
            tabs@ == seq!['\t', '\t'],
            r@ == head + log_rows(states@, views(labels@), quiet, bodies, i as nat),
        decreases states@.len() - i,
    {
        let ghost before = r@;
        match &states[i] {
            ChildState::Running => {},
            ChildState::Done { status, output, elapsed_secs } => {
                push_char(&mut r, '\t');
                push_wrapper(&mut r, plain_icon(*status), true, *elapsed_secs, labels[i].as_str());
                push_char(&mut r, '\n');
                if bodies && should_include_body(*status, quiet) {
                    push_body(&mut r, tabs.as_str(), output.stdout.as_str(), output.stderr.as_str());
                }
            },
        }
        assert(views(labels@)[i as int] == labels@[i as int]@);
        assert(r@ == before + log_row(states@[i as int], views(labels@)[i as int], quiet, bodies));
        i += 1;
    }
    r
}

/// Renders the live frame of a running group with spinner glyph `spin`.
pub fn render_frame(
    spin: char,
    show_time: bool,
    group_secs: u64,
    parent_label: &str,
    states: &[ChildState],
    labels: &[String],
) -> (r: String)
    requires
        states@.len() == labels@.len(),
    ensures
        r@ == frame_text(spin, show_time, group_secs as nat, parent_label@, states@, views(labels@)),
{
    let mut glyph = String::new();
    push_char(&mut glyph, spin);
    let mut r = String::new();
    push_char(&mut r, '\x1b');
    push_char(&mut r, '[');
    push_char(&mut r, '2');
    push_char(&mut r, 'K');
    push_char(&mut r, '\r');
    push_wrapper(&mut r, glyph.as_str(), show_time, group_secs, parent_label);
    let ghost head = r@;
    assert(head == seq!['\x1b', '[', '2', 'K', '\r'] + wrapper_line(
        seq![spin],
        time_slot(show_time, group_secs as nat),
        parent_label@,
    ));
    let mut i: usize = 0;
    while i < states.len()
        invariant
            i <= states@.len() == labels@.len(),
            glyph@ == seq![spin],
            r@ == head + frame_rows(states@, views(labels@), spin, show_time, group_secs as nat, i as nat),
        decreases states@.len() - i,
    {
        push_frame_row(&mut r, &states[i], labels[i].as_str(), &glyph, spin, show_time, group_secs);
        assert(views(labels@)[i as int] == labels@[i as int]@);
        i += 1;
    }
    r
}

/// Everything a finished group produces for the caller to show and record.
pub struct GroupConclusion {
    pub report: RunReport,
    /// The summary block to print (empty in succinct mode).
    pub block: String,
    /// The entry to append to the log file, when one is configured.
    pub log_entry: Option<String>,
}

/// The labels of the children.
pub open spec fn child_labels_of(commands: Seq<Seq<char>>) -> Seq<Seq<char>> {
    commands.map_values(|c: Seq<char>| default_label(c))
}

impl ParallelGroup {
    /// Sets the group's label.
    pub fn message(self, msg: &str) -> (r: Self)
        ensures
            r@ == (GroupView { message: Some(msg@), ..self@ }),
    {
        ParallelGroup { message: Some(msg.to_owned()), ..self }
    }

    /// Suppresses the output of children that succeed.
    pub fn quiet(self) -> (r: Self)
        ensures
            r@ == (GroupView { quiet: true, ..self@ }),
    {
        ParallelGroup { quiet: true, ..self }
    }

    /// Sets how many bytes of each child's stdout and stderr are captured.
    pub fn max_output(self, bytes: usize) -> (r: Self)
        ensures
            r@ == (GroupView { max_output: bytes, ..self@ }),
    {
        ParallelGroup { max_output: bytes, ..self }
    }

    /// Sets the file that the group's log entry is appended to.
    pub fn log(self, path: &str) -> (r: Self)
        ensures
            r@ == (GroupView { log: Some(path@), ..self@ }),
    {
        ParallelGroup { log: Some(path.to_owned()), ..self }
    }

    /// Shows elapsed `HH:MM:SS` times in the spinner and summary lines.
    pub fn show_time(self) -> (r: Self)
        ensures
            r@ == (GroupView { show_time: true, ..self@ }),
    {
        ParallelGroup { show_time: true, ..self }
    }

    /// The shell commands.
    pub fn commands(&self) -> (r: &Vec<String>)
        ensures
            views(r@) == self@.commands,
    {
        &self.commands
    }

    /// The log file path, when one is set.
    pub fn log_path(&self) -> (r: Option<&str>)
        ensures
            r is Some <==> self@.log is Some,
            r matches Some(p) ==> Some(p@) == self@.log,
    {
        match &self.log {
            Some(p) => Some(p.as_str()),
            None => None,
        }
    }

    /// The run of a child once it ended by itself with `code` and
    /// `signal`, given the bytes read from its streams (at most one more
    /// than the capture limit of each): each stream is kept up to the
    /// group's capture limit, with the truncation note when more arrived.
    pub fn exited_run(&self, code: Option<i32>, signal: Option<i32>, stdout: &[u8], stderr: &[u8]) -> (r:
        Ran)
        ensures
            r matches Ran::Exited { code: c, signal: g, stdout: o, stderr: e } && c == code && g
                == signal && o@ == bounded_text(stdout@, self@.max_output as nat) && e@
                == bounded_text(stderr@, self@.max_output as nat),
    {
        Ran::Exited {
            code,
            signal,
            stdout: read_bounded(stdout, self.max_output),
            stderr: read_bounded(stderr, self.max_output),
        }
    }

    /// The capture limit for each stream of each child, in bytes.
    pub fn output_limit(&self) -> (r: usize)
        ensures
            r == self@.max_output,
    {
        self.max_output
    }

    /// The label of the group, given its number of commands.
    pub fn parent_label(&self, n: usize) -> (r: String)
        ensures
            r@ == parent_label_text(self@.message, n as nat),
    {
        match &self.message {
            Some(m) => m.clone(),
            None => {
                let mut r = String::new();
                push_decimal(&mut r, n as u64);
                r.append(" parallel commands");
                r
            },
        }
    }

    /// The labels of the children, one per command.
    pub fn child_labels(&self) -> (r: Vec<String>)
        ensures
            views(r@) == child_labels_of(self@.commands),
    {
        let mut v: Vec<String> = Vec::new();
        let mut i: usize = 0;
        while i < self.commands.len()
            invariant
                i <= self.commands@.len(),
                views(v@) == child_labels_of(views(self.commands@)).take(i as int),
            decreases self.commands@.len() - i,
        {
            let ghost prev = v@;
            assert(views(self.commands@)[i as int] == self.commands@[i as int]@);
            let l = derive_display_message(&None, self.commands[i].as_str());
            assert(l@ == default_label(views(self.commands@)[i as int]));
            assert(views(prev).len() == i);
            v.push(l);
            assert(v@ == prev.push(l));
            assert(views(v@) =~= child_labels_of(views(self.commands@)).take(i + 1)) by {
                assert forall|k: int| 0 <= k < i + 1 implies #[trigger] views(v@)[k]
                    == child_labels_of(views(self.commands@)).take(i + 1)[k] by {
                    assert(views(v@)[k] == v@[k]@);
                    if k < i {
                        assert(v@[k] == prev[k]);
                        assert(views(prev)[k] == prev[k]@);
                        assert(views(prev)[k] == child_labels_of(views(self.commands@)).take(
                            i as int,
                        )[k]);
                    }
                }
            }
            i += 1;
        }
        assert(child_labels_of(views(self.commands@)).take(i as int) == child_labels_of(
            views(self.commands@),
        ));
        v
    }

    /// The status of the group.
    pub fn run_status(self, finished: &[ChildState]) -> (s: RunStatus)
        requires
            finished@.len() == self@.commands.len(),
        ensures
            s == parent_status_of(finished@),
    {
        compute_parent_status(finished)
    }

    /// Whether every child succeeded.
    pub fn run(self, finished: &[ChildState]) -> (b: bool)
        requires
            finished@.len() == self@.commands.len(),
        ensures
            b == (parent_status_of(finished@) == RunStatus::Success),
    {
        self.run_status(finished).is_success()
    }

    /// The report, summary block and log entry of a group whose children
    /// ended in `finished` (one state per command) after `group_secs`
    /// seconds: success with exit code 0 when every child succeeded,
    /// otherwise `Interrupted` or `Failure` with exit code 1. The log entry,
    /// when a log file is set, is stamped with `timestamp`. A group without
    /// commands prints only a success line.
    pub fn run_report(self, finished: &[ChildState], group_secs: u64, timestamp: &str) -> (c:
        GroupConclusion)
        requires
            finished@.len() == self@.commands.len(),
        ensures
            c.report == group_report(finished@),
            finished@.len() == 0 ==> c.block@ == wrapper_line(
                colored_icon_text(RunStatus::Success),
                seq![],
                parent_label_text(self@.message, 0),
            ) + seq!['\n'],
            finished@.len() > 0 ==> c.block@ == final_block_text(
                c.report.status,
                group_secs as nat,
                parent_label_text(self@.message, finished@.len()),
                finished@,
                child_labels_of(self@.commands),
                self@.show_time,
                self@.quiet,
            ),
            c.log_entry is Some <==> self@.log is Some,
            c.log_entry matches Some(e) ==> e@ == group_log_text(
                timestamp@,
                c.report.status,
                group_secs as nat,
                parent_label_text(self@.message, finished@.len()),
                finished@,
                child_labels_of(self@.commands),
                self@.quiet,
                true,
            ),
    {
        let n = self.commands.len();
        let status = compute_parent_status(finished);
        let rep = RunReport { status, exit_code: status_to_exit_code(status) };
        let parent = self.parent_label(n);
        let labels = self.child_labels();
        assert(views(labels@).len() == labels@.len());
        let block = if n == 0 {
            let mut block = String::new();
            let icon = colored_icon(RunStatus::Success);
            push_wrapper(&mut block, icon.as_str(), false, 0, parent.as_str());
            push_char(&mut block, '\n');
            block
        } else {
            final_block(
                status,
                group_secs,
                parent.as_str(),
                finished,
                labels.as_slice(),
                self.show_time,
                self.quiet,
            )
        };
        let log_entry = match &self.log {
            Some(_) => Some(
                group_log_entry(
                    timestamp,
                    status,
                    group_secs,
                    parent.as_str(),
                    finished,
                    labels.as_slice(),
                    self.quiet,
                    true,
                ),
            ),
            None => None,
        };
        GroupConclusion { report: rep, block, log_entry }
    }

    /// The report and log entry of a finished group in succinct mode: the
    /// same report as `run_report`, no summary block, and a log entry,
    /// stamped with `timestamp`, without child output.
    pub fn run_succinct_report(self, finished: &[ChildState], group_secs: u64, timestamp: &str) -> (c:
        GroupConclusion)
        requires
            finished@.len() == self@.commands.len(),
        ensures
            c.report == group_report(finished@),
            c.block@ == Seq::<char>::empty(),
            c.log_entry is Some <==> self@.log is Some,
            c.log_entry matches Some(e) ==> e@ == group_log_text(
                timestamp@,
                c.report.status,
                group_secs as nat,
                parent_label_text(self@.message, finished@.len()),
                finished@,
                child_labels_of(self@.commands),
                self@.quiet,
                false,
            ),
    {
        let n = self.commands.len();
        let status = compute_parent_status(finished);
        let rep = RunReport { status, exit_code: status_to_exit_code(status) };
        let parent = self.parent_label(n);
        let labels = self.child_labels();
        assert(views(labels@).len() == labels@.len());
        let log_entry = match &self.log {
            Some(_) => Some(
                group_log_entry(
                    timestamp,
                    status,
                    group_secs,
                    parent.as_str(),
                    finished,
                    labels.as_slice(),
                    self.quiet,
                    false,
                ),
            ),
            None => None,
        };
        GroupConclusion { report: rep, block: String::new(), log_entry }
    }

    /// The live frame of the running group: spinner frame `frame` (one of
    /// `-`, `\\`, `|`, `/`), after `group_secs` seconds.
    pub fn frame(&self, labels: &[String], states: &[ChildState], frame: usize, group_secs: u64) -> (r:
        String)
        requires
            frame < 4,
            states@.len() == labels@.len(),
        ensures
            r@ == frame_text(
                crate::command::spinner_char(frame as nat),
                self@.show_time,
                group_secs as nat,
                parent_label_text(self@.message, states@.len()),
                states@,
                views(labels@),
            ),
    {
        let spin = if frame == 0 {
            '-'
        } else if frame == 1 {
            '\\'
        } else if frame == 2 {
            '|'
        } else {
            '/'
        };
        let parent = self.parent_label(states.len());
        render_frame(spin, self.show_time, group_secs, parent.as_str(), states, labels)
    }
}

/// `s` is the finished state of outcome `o`: same status and run time,
/// and the captured streams and exit code when output was captured (empty
/// streams and the outcome's exit code when it was inherited).
pub open spec fn state_of_outcome(o: Outcome, s: ChildState) -> bool {
    match s {
        ChildState::Running => false,
        ChildState::Done { status, output, elapsed_secs } => {
            &&& status == o.status
            &&& elapsed_secs == o.elapsed_secs
            &&& match o.output {
                OutputCapture::Captured(c) => output.stdout@ == c.stdout@ && output.stderr@
                    == c.stderr@ && output.exit_code == c.exit_code,
                OutputCapture::Inherited => output.stdout@ == Seq::<char>::empty()
                    && output.stderr@ == Seq::<char>::empty() && output.exit_code
                    == outcome_exit_code(o),
            }
        },
    }
}

/// The finished state of an outcome.
pub fn outcome_state(o: &Outcome) -> (s: ChildState)
    requires
        o.status == RunStatus::Interrupted ==> signal_fits(o.signal_num),
    ensures
        state_of_outcome(*o, s),
{
    let output = match &o.output {
        OutputCapture::Captured(c) => CommandOutput {
            stdout: c.stdout.clone(),
            stderr: c.stderr.clone(),
            exit_code: c.exit_code,
        },
        OutputCapture::Inherited => CommandOutput {
            stdout: String::new(),
            stderr: String::new(),
            exit_code: exit_code(o),
        },
    };
    ChildState::Done { status: o.status, output, elapsed_secs: o.elapsed_secs }
}

/// The report of a group from its children's outcomes: the folded status,
/// and the exit code of a group outcome whose output went to the terminal.
pub fn outcomes_report(outcomes: &[Outcome]) -> (r: RunReport)
    ensures
        r.status == aggregate_of(statuses_of(outcomes@)),
        r.exit_code == group_exit_code(r.status),
{
    let status = aggregate(outcomes);
    let parent = Outcome {
        status,
        output: OutputCapture::Inherited,
        elapsed_secs: 0,
        label: String::new(),
        signal_num: None,
    };
    let code = exit_code(&parent);
    RunReport { status, exit_code: code }
}

} // verus!
