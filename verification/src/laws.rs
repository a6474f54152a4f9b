//! Properties of the library as a whole: how runs are judged in every mode,
//! what exit code wins, what logs may contain, how groups fold their
//! children, and what the interactive view keeps consistent.

use vstd::prelude::*;
use crate::cli::{final_code, group_final_code, validator_runs};
use crate::command::{
    judged, output_matches, plain_report, ran_fits, report_for, ExitCodeZero, Ran, SuccessCheck,
    exited_output,
};
use crate::clock::{four_digits, is_timestamp_text, timestamp_char, timestamp_text, year_text};
use crate::parallel::{
    block_row, done_with, group_log_text, group_report, log_row, log_rows, output_text, parent_status_of,
    state_of_outcome, ChildState,
};
use crate::tui::{
    finalized_of, nav_action, pane_outcome_ok, reaped_of, select, NavAction, PaneStatus, event_step, key_body, key_bytes, low_byte, lower_code, nav_wf, Act, Key, KeyPress, Mode,
    NavView, UiEvent, SCROLLBACK_LINES,
};
use crate::command::{console_body, consulted, log_entry_text};
use crate::render::{log_head, time_slot, wrapper_line};
use crate::text::{
    bounded_text, byte_len, default_label, lemma_byte_len_is_encoding_len, truncated,
    body_text, clock_text, decimal, digit_char, indent_lines, is_whitespace, lines, newline_index,
    strip_cr, trim, trim_end, trim_start, two_digits,
};
use crate::status::{
    colored_icon_text, aggregate_of, statuses_of, plain_icon_text, outcome_exit_code, signal_exit_code, CommandOutput, Outcome, OutputCapture, RunReport,
    RunStatus,
};

verus! {

/// The signal that ended a run, if any.
pub open spec fn signal_of(ran: Ran) -> Option<i32> {
    match ran {
        Ran::Exited { signal, .. } => signal,
        _ => None,
    }
}

/// Without a custom criterion a run is judged by its exit code alone, so
/// the default mode reports exactly what the succinct mode reports.
pub proof fn law_default_criterion_is_exit_code(ran: Ran, r: RunReport)
    requires
        ran_fits(ran),
        judged(ExitCodeZero, ran, r),
    ensures
        r == plain_report(ran),
{
}

/// The criterion gives at most one verdict on each output.
pub open spec fn single_verdict<C: SuccessCheck>(check: C) -> bool {
    forall|o: &CommandOutput, a: bool, b: bool|
        #![trigger check.verdict(o, a), check.verdict(o, b)]
        check.verdict(o, a) && check.verdict(o, b) ==> a == b
}

/// The default criterion gives one verdict per output.
pub proof fn law_exit_code_criterion_has_single_verdict()
    ensures
        single_verdict(ExitCodeZero),
{
}

/// For a criterion with one verdict per output, what `run` and
/// `run_status` return agrees with the report of `run_report` on the same
/// run: `run` is true exactly when the report says `Success`, and
/// `run_status` is the report's status.
pub proof fn law_run_and_status_agree_with_report<C: SuccessCheck>(
    check: C,
    ran: Ran,
    b: bool,
    s: RunStatus,
    r: RunReport,
)
    requires
        single_verdict(check),
        b == (report_for(ran, b).status == RunStatus::Success),
        consulted(check, ran, b),
        report_for(ran, s == RunStatus::Success).status == s,
        consulted(check, ran, s == RunStatus::Success),
        judged(check, ran, r),
    ensures
        b == (r.status == RunStatus::Success),
        s == r.status,
{
    let ok = r.status == RunStatus::Success;
    match ran {
        Ran::Exited { code, signal: None, stdout, stderr } => {
            let o = crate::command::exited_output(code, stdout, stderr);
            assert(check.verdict(&o, b));
            assert(check.verdict(&o, s == RunStatus::Success));
            assert(check.verdict(&o, ok));
        },
        _ => {},
    }
}

/// A command that outlives its timeout reports `Timeout` with exit code
/// 124, whatever its success criterion would say.
pub proof fn law_timeout_overrides_criterion<C: SuccessCheck>(check: C, r: RunReport)
    requires
        judged(check, Ran::TimedOut, r),
    ensures
        r == (RunReport { status: RunStatus::Timeout, exit_code: 124 }),
{
}

/// A command killed by a signal is interrupted, never successful, and
/// propagates `128 + signal`.
pub proof fn law_signal_means_interrupted<C: SuccessCheck>(
    check: C,
    code: Option<i32>,
    n: i32,
    stdout: String,
    stderr: String,
    r: RunReport,
)
    requires
        n <= i32::MAX - 128,
        judged(check, Ran::Exited { code, signal: Some(n), stdout, stderr }, r),
    ensures
        r.status == RunStatus::Interrupted,
        r.exit_code == 128 + n,
{
}

/// A command that exits by itself propagates its own exit code, and its
/// status is success or failure as the criterion decides.
pub proof fn law_completed_run_propagates_code<C: SuccessCheck>(
    check: C,
    c: i32,
    stdout: String,
    stderr: String,
    r: RunReport,
)
    requires
        judged(check, Ran::Exited { code: Some(c), signal: None, stdout, stderr }, r),
    ensures
        r.exit_code == c,
        r.status == RunStatus::Success || r.status == RunStatus::Failure,
        check.verdict(
            &exited_output(Some(c), stdout, stderr),
            r.status == RunStatus::Success,
        ),
{
}

/// The exit code a run reports is the exit code derived from the outcome
/// recorded for the same run.
pub proof fn law_report_agrees_with_outcome<C: SuccessCheck>(
    check: C,
    ran: Ran,
    r: RunReport,
    out: CommandOutput,
    label: String,
    elapsed_secs: u64,
)
    requires
        ran_fits(ran),
        judged(check, ran, r),
        output_matches(ran, out),
    ensures
        outcome_exit_code(
            Outcome {
                status: r.status,
                output: OutputCapture::Captured(out),
                elapsed_secs,
                label,
                signal_num: signal_of(ran),
            },
        ) == r.exit_code,
{
}

/// After a timeout the validator does not run: the invocation exits 124.
pub proof fn law_validator_cannot_rescue_timeout<C: SuccessCheck>(
    check: C,
    r: RunReport,
    v: Option<RunReport>,
)
    requires
        judged(check, Ran::TimedOut, r),
    ensures
        final_code(r, v) == 124,
{
}

/// After a signal the validator does not run: the invocation exits with
/// `128 + signal`.
pub proof fn law_validator_cannot_rescue_signal<C: SuccessCheck>(
    check: C,
    code: Option<i32>,
    n: i32,
    stdout: String,
    stderr: String,
    r: RunReport,
    v: Option<RunReport>,
)
    requires
        n <= i32::MAX - 128,
        judged(check, Ran::Exited { code, signal: Some(n), stdout, stderr }, r),
    ensures
        final_code(r, v) == 128 + n,
{
}

/// After a command that completed, the validator's exit code is the exit
/// code of the invocation, whether the command passed or failed.
pub proof fn law_validator_decides_completed_runs(main: RunReport, v: RunReport)
    requires
        main.status == RunStatus::Success || main.status == RunStatus::Failure,
    ensures
        validator_runs(main.status),
        final_code(main, Some(v)) == v.exit_code,
{
}

/// With `--parallel`, a validator that ran rescues a failed group when it
/// passes, and never turns a passing group into a failure.
pub proof fn law_group_validator_only_rescues(group: RunReport, v: RunReport)
    requires
        group.status == RunStatus::Success || group.status == RunStatus::Failure,
    ensures
        group.status == RunStatus::Success ==> group_final_code(group, Some(v)) == 0,
        v.status == RunStatus::Success ==> group_final_code(group, Some(v)) == 0,
        group.status != RunStatus::Success && v.status != RunStatus::Success ==> group_final_code(
            group,
            Some(v),
        ) == 1,
{
}

/// `s` does not contain the character `c`.
pub open spec fn lacks(s: Seq<char>, c: char) -> bool {
    forall|i: int| 0 <= i < s.len() ==> s[i] != c
}

proof fn lemma_trim_start_lacks(s: Seq<char>, c: char)
    requires
        lacks(s, c),
    ensures
        lacks(trim_start(s), c),
    decreases s.len(),
{
    if s.len() > 0 && is_whitespace(s[0]) {
        assert(lacks(s.drop_first(), c)) by {
            assert forall|i: int| 0 <= i < s.drop_first().len() implies s.drop_first()[i] != c by {
                assert(s.drop_first()[i] == s[i + 1]);
            }
        }
        lemma_trim_start_lacks(s.drop_first(), c);
    }
}

proof fn lemma_trim_end_lacks(s: Seq<char>, c: char)
    requires
        lacks(s, c),
    ensures
        lacks(trim_end(s), c),
    decreases s.len(),
{
    if s.len() > 0 && is_whitespace(s.last()) {
        assert(lacks(s.drop_last(), c)) by {
            assert forall|i: int| 0 <= i < s.drop_last().len() implies s.drop_last()[i] != c by {
                assert(s.drop_last()[i] == s[i]);
            }
        }
        lemma_trim_end_lacks(s.drop_last(), c);
    }
}

proof fn lemma_newline_index_bounds(s: Seq<char>)
    ensures
        -1 <= newline_index(s) < s.len(),
    decreases s.len(),
{
    if s.len() > 0 && s[0] != '\n' {
        lemma_newline_index_bounds(s.drop_first());
    }
}

proof fn lemma_lines_lack(s: Seq<char>, c: char)
    requires
        lacks(s, c),
    ensures
        forall|k: int| 0 <= k < lines(s).len() ==> lacks(#[trigger] lines(s)[k], c),
    decreases s.len(),
{
    if s.len() > 0 {
        let i = newline_index(s);
        lemma_newline_index_bounds(s);
        if i >= 0 {
            let first = strip_cr(s.take(i));
            let rest = s.skip(i + 1);
            assert(lacks(rest, c)) by {
                assert forall|j: int| 0 <= j < rest.len() implies rest[j] != c by {
                    assert(rest[j] == s[j + i + 1]);
                }
            }
            assert(lacks(first, c)) by {
                assert forall|j: int| 0 <= j < first.len() implies first[j] != c by {
                    assert(first[j] == s[j]);
                }
            }
            lemma_lines_lack(rest, c);
            let ls = lines(s);
            assert(ls == seq![first] + lines(rest));
            assert forall|k: int| 0 <= k < ls.len() implies lacks(#[trigger] ls[k], c) by {
                if k > 0 {
                    assert(ls[k] == lines(rest)[k - 1]);
                }
            }
        }
    }
}

proof fn lemma_indent_lacks(prefix: Seq<char>, ls: Seq<Seq<char>>, c: char)
    requires
        c != '\n',
        lacks(prefix, c),
        forall|k: int| 0 <= k < ls.len() ==> lacks(#[trigger] ls[k], c),
    ensures
        lacks(indent_lines(prefix, ls), c),
    decreases ls.len(),
{
    if ls.len() > 0 {
        assert forall|k: int| 0 <= k < ls.drop_first().len() implies lacks(
            #[trigger] ls.drop_first()[k],
            c,
        ) by {
            assert(ls.drop_first()[k] == ls[k + 1]);
        }
        lemma_indent_lacks(prefix, ls.drop_first(), c);
        assert(lacks(ls[0], c));
        lemma_concat_lacks(prefix, ls[0], c);
        lemma_concat_lacks(prefix + ls[0], seq!['\n'], c);
        lemma_concat_lacks(prefix + ls[0] + seq!['\n'], indent_lines(prefix, ls.drop_first()), c);
    }
}

/// Concatenation keeps a character out when both parts do.
pub proof fn lemma_concat_lacks(a: Seq<char>, b: Seq<char>, c: char)
    requires
        lacks(a, c),
        lacks(b, c),
    ensures
        lacks(a + b, c),
{
    assert forall|i: int| 0 <= i < (a + b).len() implies (a + b)[i] != c by {
        if i >= a.len() {
            assert((a + b)[i] == b[i - a.len()]);
        }
    }
}

/// The indented body of an output keeps out every character (other than a
/// newline) that neither the output nor the indentation contains.
pub proof fn law_body_adds_no_characters(prefix: Seq<char>, output: Seq<char>, c: char)
    requires
        c != '\n',
        lacks(prefix, c),
        lacks(output, c),
    ensures
        lacks(body_text(prefix, output), c),
{
    lemma_trim_start_lacks(output, c);
    lemma_trim_end_lacks(trim_start(output), c);
    lemma_lines_lack(trim(output), c);
    lemma_indent_lacks(prefix, lines(trim(output)), c);
}

proof fn lemma_decimal_digits(n: nat, c: char)
    requires
        !('0' <= c && c <= '9'),
    ensures
        lacks(decimal(n), c),
    decreases n,
{
    if n >= 10 {
        lemma_decimal_digits(n / 10, c);
        assert(lacks(decimal(n / 10).push(digit_char(n % 10)), c)) by {
            assert(seq![digit_char(n % 10)] == Seq::<char>::empty().push(digit_char(n % 10)));
            lemma_concat_lacks(decimal(n / 10), seq![digit_char(n % 10)], c);
            assert(decimal(n / 10).push(digit_char(n % 10)) == decimal(n / 10) + seq![
                digit_char(n % 10),
            ]);
        }
    }
}

proof fn lemma_clock_lacks(secs: nat, c: char)
    requires
        !('0' <= c && c <= '9'),
        c != ':',
    ensures
        lacks(clock_text(secs), c),
{
    lemma_decimal_digits(secs / 3600, c);
    lemma_decimal_digits((secs % 3600) / 60, c);
    lemma_decimal_digits(secs % 60, c);
    let a = two_digits(secs / 3600);
    let b = two_digits((secs % 3600) / 60);
    let d = two_digits(secs % 60);
    lemma_concat_lacks(a, seq![':'], c);
    lemma_concat_lacks(a + seq![':'], b, c);
    lemma_concat_lacks(a + seq![':'] + b, seq![':'], c);
    lemma_concat_lacks(a + seq![':'] + b + seq![':'], d, c);
}

/// A log head line keeps out every character that is not a digit, a
/// timestamp separator, a bracket, a space, a newline, or part of the icon,
/// and that the label lacks.
pub proof fn law_log_head_adds_no_characters(ts: Seq<char>, icon: Seq<char>, secs: nat, label: Seq<char>, c: char)
    requires
        is_timestamp_text(ts),
        !timestamp_char(c),
        c != '[' && c != ']' && c != '\n',
        lacks(icon, c),
        lacks(label, c),
    ensures
        lacks(log_head(ts, icon, secs, label), c),
{
    lemma_clock_lacks(secs, c);
    assert(lacks(ts, c));
    let slot = time_slot(true, secs);
    lemma_concat_lacks(seq![' '], clock_text(secs), c);
    let w1 = seq!['[', ' '] + icon;
    lemma_concat_lacks(seq!['[', ' '], icon, c);
    lemma_concat_lacks(w1, slot, c);
    lemma_concat_lacks(w1 + slot, seq![' ', ']', ' '], c);
    lemma_concat_lacks(w1 + slot + seq![' ', ']', ' '], label, c);
    let w = wrapper_line(icon, slot, label);
    lemma_concat_lacks(seq!['['], ts, c);
    lemma_concat_lacks(seq!['['] + ts, seq![']', ' '], c);
    lemma_concat_lacks(seq!['['] + ts + seq![']', ' '], w, c);
    lemma_concat_lacks(seq!['['] + ts + seq![']', ' '] + w, seq!['\n'], c);
}

/// The uncolored icons hold no escape or tab characters.
pub proof fn lemma_plain_icon_plain(status: RunStatus)
    ensures
        lacks(plain_icon_text(status), '\x1b'),
        lacks(plain_icon_text(status), '\t'),
{
}

/// A log entry holds no ANSI escape character when the label and the
/// captured output hold none: colors never reach the log file.
pub proof fn law_log_entry_has_no_escape(
    ts: Seq<char>,
    status: RunStatus,
    quiet: bool,
    secs: nat,
    label: Seq<char>,
    output: Seq<char>,
)
    requires
        is_timestamp_text(ts),
        lacks(label, '\x1b'),
        lacks(output, '\x1b'),
    ensures
        lacks(log_entry_text(ts, status, quiet, secs, label, output), '\x1b'),
{
    lemma_plain_icon_plain(status);
    law_log_head_adds_no_characters(ts, plain_icon_text(status), secs, label, '\x1b');
    law_body_adds_no_characters(seq!['\t'], output, '\x1b');
    lemma_concat_lacks(
        log_head(ts, plain_icon_text(status), secs, label),
        body_text(seq!['\t'], output),
        '\x1b',
    );
    lemma_concat_lacks(log_head(ts, plain_icon_text(status), secs, label), seq![], '\x1b');
}

/// A quiet, successful run logs only its head line: no output and no tab
/// (when the label has none).
pub proof fn law_quiet_success_logs_head_only(
    ts: Seq<char>,
    secs: nat,
    label: Seq<char>,
    output: Seq<char>,
)
    requires
        is_timestamp_text(ts),
        lacks(label, '\t'),
    ensures
        log_entry_text(ts, RunStatus::Success, true, secs, label, output) == log_head(
            ts,
            plain_icon_text(RunStatus::Success),
            secs,
            label,
        ),
        lacks(log_entry_text(ts, RunStatus::Success, true, secs, label, output), '\t'),
{
    lemma_plain_icon_plain(RunStatus::Success);
    law_log_head_adds_no_characters(ts, plain_icon_text(RunStatus::Success), secs, label, '\t');
    assert(log_head(ts, plain_icon_text(RunStatus::Success), secs, label) + Seq::<char>::empty()
        == log_head(ts, plain_icon_text(RunStatus::Success), secs, label));
}

/// A run that did not succeed logs its output even in quiet mode: each
/// line of the trimmed output, indented by a tab, after the head line.
pub proof fn law_unsuccessful_runs_log_output(
    ts: Seq<char>,
    status: RunStatus,
    quiet: bool,
    secs: nat,
    label: Seq<char>,
    output: Seq<char>,
)
    requires
        status != RunStatus::Success,
    ensures
        log_entry_text(ts, status, quiet, secs, label, output) == log_head(
            ts,
            plain_icon_text(status),
            secs,
            label,
        ) + body_text(seq!['\t'], output),
{
}

/// Every finished child's label and output lack `c`.
pub open spec fn children_lack(states: Seq<ChildState>, labels: Seq<Seq<char>>, c: char) -> bool {
    forall|i: int|
        0 <= i < states.len() ==> lacks(#[trigger] labels[i], c) && match states[i] {
            ChildState::Done { output, .. } => lacks(output_text(output), c),
            ChildState::Running => true,
        }
}

proof fn lemma_log_rows_no_escape(
    states: Seq<ChildState>,
    labels: Seq<Seq<char>>,
    quiet: bool,
    bodies: bool,
    k: nat,
)
    requires
        k <= states.len() == labels.len(),
        children_lack(states, labels, '\x1b'),
    ensures
        lacks(log_rows(states, labels, quiet, bodies, k), '\x1b'),
    decreases k,
{
    if k > 0 {
        lemma_log_rows_no_escape(states, labels, quiet, bodies, (k - 1) as nat);
        let i = k - 1;
        assert(lacks(labels[i], '\x1b'));
        match states[i] {
            ChildState::Running => {
                lemma_concat_lacks(log_rows(states, labels, quiet, bodies, (k - 1) as nat), seq![], '\x1b');
            },
            ChildState::Done { status, output, elapsed_secs } => {
                lemma_plain_icon_plain(status);
                lemma_clock_lacks(elapsed_secs as nat, '\x1b');
                let slot = time_slot(true, elapsed_secs as nat);
                lemma_concat_lacks(seq![' '], clock_text(elapsed_secs as nat), '\x1b');
                let icon = plain_icon_text(status);
                lemma_concat_lacks(seq!['[', ' '], icon, '\x1b');
                lemma_concat_lacks(seq!['[', ' '] + icon, slot, '\x1b');
                lemma_concat_lacks(seq!['[', ' '] + icon + slot, seq![' ', ']', ' '], '\x1b');
                lemma_concat_lacks(seq!['[', ' '] + icon + slot + seq![' ', ']', ' '], labels[i], '\x1b');
                let w = wrapper_line(icon, slot, labels[i]);
                lemma_concat_lacks(seq!['\t'], w, '\x1b');
                lemma_concat_lacks(seq!['\t'] + w, seq!['\n'], '\x1b');
                law_body_adds_no_characters(seq!['\t', '\t'], output_text(output), '\x1b');
                let head = seq!['\t'] + w + seq!['\n'];
                lemma_concat_lacks(head, body_text(seq!['\t', '\t'], output_text(output)), '\x1b');
                lemma_concat_lacks(head, seq![], '\x1b');
                lemma_concat_lacks(
                    log_rows(states, labels, quiet, bodies, (k - 1) as nat),
                    log_row(states[i], labels[i], quiet, bodies),
                    '\x1b',
                );
            },
        }
    }
}

/// A group's log entry holds no ANSI escape character when the labels and
/// the captured outputs hold none.
pub proof fn law_group_log_has_no_escape(
    ts: Seq<char>,
    parent_status: RunStatus,
    secs: nat,
    parent_label: Seq<char>,
    states: Seq<ChildState>,
    labels: Seq<Seq<char>>,
    quiet: bool,
    bodies: bool,
)
    requires
        is_timestamp_text(ts),
        states.len() == labels.len(),
        lacks(parent_label, '\x1b'),
        children_lack(states, labels, '\x1b'),
    ensures
        lacks(
            group_log_text(ts, parent_status, secs, parent_label, states, labels, quiet, bodies),
            '\x1b',
        ),
{
    lemma_plain_icon_plain(parent_status);
    law_log_head_adds_no_characters(ts, plain_icon_text(parent_status), secs, parent_label, '\x1b');
    lemma_log_rows_no_escape(states, labels, quiet, bodies, states.len());
    lemma_concat_lacks(
        log_head(ts, plain_icon_text(parent_status), secs, parent_label),
        log_rows(states, labels, quiet, bodies, states.len()),
        '\x1b',
    );
}

/// A group exits 0 exactly when every child finished successfully; an
/// empty group succeeds.
pub proof fn law_group_succeeds_iff_all_children_do(states: Seq<ChildState>)
    ensures
        group_report(states).exit_code == 0 <==> forall|i: int|
            0 <= i < states.len() ==> done_with(states[i], RunStatus::Success),
        group_report(states).status == RunStatus::Success <==> group_report(states).exit_code == 0,
        states.len() == 0 ==> group_report(states) == (RunReport {
            status: RunStatus::Success,
            exit_code: 0,
        }),
{
}

/// Folding outcomes and folding the children's states agree: the view of
/// a group gives the same status however its children were recorded.
pub proof fn law_outcomes_agree_with_states(outcomes: Seq<Outcome>, states: Seq<ChildState>)
    requires
        outcomes.len() == states.len(),
        forall|i: int| 0 <= i < states.len() ==> state_of_outcome(outcomes[i], #[trigger] states[i]),
    ensures
        aggregate_of(statuses_of(outcomes)) == parent_status_of(states),
{
    let ss = statuses_of(outcomes);
    assert forall|i: int| 0 <= i < states.len() implies done_with(
        #[trigger] states[i],
        ss[i],
    ) by {
        assert(state_of_outcome(outcomes[i], states[i]));
    }
    if exists|i: int| 0 <= i < ss.len() && ss[i] == RunStatus::Interrupted {
        let i = choose|i: int| 0 <= i < ss.len() && ss[i] == RunStatus::Interrupted;
        assert(done_with(states[i], ss[i]));
    } else if forall|i: int| 0 <= i < ss.len() ==> ss[i] == RunStatus::Success {
        assert forall|i: int| 0 <= i < states.len() implies done_with(
            states[i],
            RunStatus::Success,
        ) by {
            assert(done_with(states[i], ss[i]));
        }
    } else {
        let i = choose|i: int| 0 <= i < ss.len() && ss[i] != RunStatus::Success;
        assert(done_with(states[i], ss[i]));
        assert(!done_with(states[i], RunStatus::Success));
        assert forall|j: int| 0 <= j < states.len() implies !done_with(
            states[j],
            RunStatus::Interrupted,
        ) by {
            assert(done_with(states[j], ss[j]));
        }
    }
}

/// Every event keeps the view consistent: the selection stays on a pane,
/// scrollback offsets stay within the scrollback kept, and the number of
/// panes does not change.
pub proof fn law_events_keep_view_consistent(v: NavView, e: UiEvent, running: Seq<bool>)
    requires
        nav_wf(v),
        running.len() == v.scrollback.len(),
    ensures
        nav_wf(event_step(v, e, running).0),
        event_step(v, e, running).0.scrollback.len() == v.scrollback.len(),
{
    let n = v.scrollback.len();
    let r = event_step(v, e, running).0;
    assert forall|i: int| 0 <= i < r.scrollback.len() implies #[trigger] r.scrollback[i]
        <= SCROLLBACK_LINES by {
        if r.scrollback[i] != v.scrollback[i] {
        }
    }
}

/// Keys reach a pane only in input mode, and only the selected pane; the
/// view quits only when a pending quit is confirmed with `y` or `Y`.
pub proof fn law_keys_reach_selected_pane_only(v: NavView, e: UiEvent, running: Seq<bool>)
    requires
        nav_wf(v),
        running.len() == v.scrollback.len(),
    ensures
        event_step(v, e, running).1 matches Act::Forward(p, _) ==> p == v.selected && v.mode
            == Mode::Input && p < v.scrollback.len(),
        event_step(v, e, running).1 is Quit ==> v.mode == Mode::ConfirmQuit && (e matches UiEvent::Key(
            k,
        ) && (k.code == Key::Char('y') || k.code == Key::Char('Y'))),
{
}

/// Holding Alt sends exactly one ESC before what the key sends without it.
pub proof fn law_alt_prefixes_escape(k: KeyPress)
    ensures
        key_bytes(KeyPress { alt: true, ..k }) == match key_bytes(KeyPress { alt: false, ..k }) {
            Some(b) => Some(seq![0x1bu8] + b),
            None => None,
        },
{
}

/// Ctrl with an ASCII letter sends that letter's control code, 1 to 26.
pub proof fn law_ctrl_letter_sends_control_code(c: char)
    requires
        ('a' <= c && c <= 'z') || ('A' <= c && c <= 'Z'),
    ensures
        key_body(Key::Char(c), true) == Some(seq![(lower_code(c) - 96) as u8]),
        1 <= lower_code(c) - 96 <= 26,
{
    let b = low_byte(lower_code(c));
    assert(97 <= lower_code(c) <= 122);
    assert(b == lower_code(c) as u8);
    assert(b & 0x1f == b - 96) by (bit_vector)
        requires
            97 <= b <= 122,
    ;
}

/// Ctrl with a character outside ASCII sends that character's UTF-8 bytes
/// unchanged.
pub proof fn law_ctrl_non_ascii_sends_utf8(c: char)
    requires
        (c as u32) >= 128,
    ensures
        key_body(Key::Char(c), true) == Some(vstd::utf8::encode_scalar(c as u32)),
{
}

/// A command of at most 30 characters is its own label; a longer one is
/// cut after 30 characters and marked with `...`, so a label never exceeds
/// 33 characters and always starts with the command's own text.
pub proof fn law_default_label_fits(command: Seq<char>)
    ensures
        command.len() <= 30 ==> default_label(command) == command,
        command.len() > 30 ==> default_label(command).len() == 33,
        default_label(command).len() <= 33,
        default_label(command).take(
            if command.len() > 30 {
                30int
            } else {
                command.len() as int
            },
        ).is_prefix_of(command),
{
    if command.len() > 30 {
        assert(default_label(command).take(30) == command.take(30));
    } else {
        assert(default_label(command).take(command.len() as int) == command);
    }
}

/// A shortened label never exceeds its width, and a label that fits is
/// left alone.
pub proof fn law_truncated_fits(s: Seq<char>, max: nat)
    ensures
        truncated(s, max).len() <= max,
        s.len() <= max ==> truncated(s, max) == s,
        s.len() > max && max >= 2 ==> truncated(s, max).len() == max && truncated(s, max).last()
            == '…',
{
}

proof fn lemma_two_digits_small(n: nat)
    requires
        n < 100,
    ensures
        two_digits(n).len() == 2,
{
    if n >= 10 {
        assert(decimal(n / 10) == seq![digit_char(n / 10)]);
    }
}

/// Below 100 hours, an elapsed time renders as exactly `HH:MM:SS`.
pub proof fn law_clock_text_shape(secs: nat)
    requires
        secs < 360000,
    ensures
        clock_text(secs).len() == 8,
        clock_text(secs)[2] == ':',
        clock_text(secs)[5] == ':',
{
    lemma_two_digits_small(secs / 3600);
    lemma_two_digits_small((secs % 3600) / 60);
    lemma_two_digits_small(secs % 60);
}

/// Output that is valid UTF-8 and within the capture limit is kept as it
/// was written.
pub proof fn law_capture_keeps_short_output(s: Seq<char>, limit: nat)
    requires
        byte_len(s) <= limit,
    ensures
        bounded_text(vstd::utf8::encode_utf8(s), limit) == s,
{
    lemma_byte_len_is_encoding_len(s);
    vstd::utf8::encode_utf8_valid_utf8(s);
    vstd::utf8::encode_utf8_decode_utf8(s);
}

/// Every character of `s` is an ASCII digit.
pub open spec fn all_digits(s: Seq<char>) -> bool {
    forall|i: int| 0 <= i < s.len() ==> '0' <= #[trigger] s[i] && s[i] <= '9'
}

proof fn lemma_decimal_all_digits(n: nat)
    ensures
        all_digits(decimal(n)),
        n < 10 ==> decimal(n).len() == 1,
        10 <= n < 100 ==> decimal(n).len() == 2,
        100 <= n < 1000 ==> decimal(n).len() == 3,
        1000 <= n < 10000 ==> decimal(n).len() == 4,
    decreases n,
{
    if n >= 10 {
        lemma_decimal_all_digits(n / 10);
        let d = decimal(n / 10);
        assert(decimal(n) == d.push(digit_char(n % 10)));
    }
}

proof fn lemma_concat_digits(a: Seq<char>, b: Seq<char>)
    requires
        all_digits(a),
        all_digits(b),
    ensures
        all_digits(a + b),
{
    assert forall|i: int| 0 <= i < (a + b).len() implies '0' <= #[trigger] (a + b)[i] && (a
        + b)[i] <= '9' by {
        if i < a.len() {
            assert((a + b)[i] == a[i]);
        } else {
            assert((a + b)[i] == b[i - a.len()]);
        }
    }
}

proof fn lemma_two_digits_all(n: nat)
    requires
        n < 100,
    ensures
        two_digits(n).len() == 2,
        all_digits(two_digits(n)),
{
    lemma_decimal_all_digits(n);
    if n < 10 {
        lemma_concat_digits(seq!['0'], decimal(n));
    }
}

proof fn lemma_four_digits_all(n: nat)
    requires
        n < 10000,
    ensures
        four_digits(n).len() == 4,
        all_digits(four_digits(n)),
{
    lemma_decimal_all_digits(n);
    if n < 10 {
        lemma_concat_digits(seq!['0', '0', '0'], decimal(n));
    } else if n < 100 {
        lemma_concat_digits(seq!['0', '0'], decimal(n));
    } else if n < 1000 {
        lemma_concat_digits(seq!['0'], decimal(n));
    }
}

/// For years 0 to 9999 (and fields below 100), a log timestamp is exactly
/// `YYYY-MM-DD HH:MM:SS`: nineteen characters, digits everywhere but the
/// two dashes, the space and the two colons.
pub proof fn law_timestamp_layout(year: int, month: nat, day: nat, hour: nat, minute: nat, second: nat)
    requires
        0 <= year <= 9999,
        month < 100,
        day < 100,
        hour < 100,
        minute < 100,
        second < 100,
    ensures
        ({
            let t = timestamp_text(year, month, day, hour, minute, second);
            &&& t.len() == 19
            &&& t[4] == '-' && t[7] == '-' && t[10] == ' ' && t[13] == ':' && t[16] == ':'
            &&& forall|i: int|
                0 <= i < 19 && i != 4 && i != 7 && i != 10 && i != 13 && i != 16 ==> '0'
                    <= #[trigger] t[i] && t[i] <= '9'
        }),
{
    let y = four_digits(year as nat);
    let mo = two_digits(month);
    let d = two_digits(day);
    let h = two_digits(hour);
    let mi = two_digits(minute);
    let se = two_digits(second);
    lemma_four_digits_all(year as nat);
    lemma_two_digits_all(month);
    lemma_two_digits_all(day);
    lemma_two_digits_all(hour);
    lemma_two_digits_all(minute);
    lemma_two_digits_all(second);
    let t = timestamp_text(year, month, day, hour, minute, second);
    assert(t =~= y + seq!['-'] + mo + seq!['-'] + d + seq![' '] + h + seq![':'] + mi + seq![':']
        + se);
    assert forall|i: int|
        0 <= i < 19 && i != 4 && i != 7 && i != 10 && i != 13 && i != 16 implies '0'
            <= #[trigger] t[i] && t[i] <= '9' by {
        if i < 4 {
            assert(t[i] == y[i]);
        } else if i < 7 {
            assert(t[i] == mo[i - 5]);
        } else if i < 10 {
            assert(t[i] == d[i - 8]);
        } else if i < 13 {
            assert(t[i] == h[i - 11]);
        } else if i < 16 {
            assert(t[i] == mi[i - 14]);
        } else {
            assert(t[i] == se[i - 17]);
        }
    }
}

proof fn lemma_four_digits_any(n: nat)
    ensures
        all_digits(four_digits(n)),
{
    lemma_decimal_all_digits(n);
    if n < 10 {
        lemma_concat_digits(seq!['0', '0', '0'], decimal(n));
    } else if n < 100 {
        lemma_concat_digits(seq!['0', '0'], decimal(n));
    } else if n < 1000 {
        lemma_concat_digits(seq!['0'], decimal(n));
    }
}

/// Whatever date and time it renders, a log timestamp holds only digits,
/// `-`, `:`, spaces and the `+` of a year past 9999.
pub proof fn law_timestamp_characters(year: int, month: nat, day: nat, hour: nat, minute: nat, second: nat)
    ensures
        is_timestamp_text(timestamp_text(year, month, day, hour, minute, second)),
{
    let y = year_text(year);
    if 0 <= year <= 9999 {
        lemma_four_digits_any(year as nat);
    } else if year > 9999 {
        lemma_four_digits_any(year as nat);
    } else {
        lemma_four_digits_any((-year) as nat);
    }
    assert(is_timestamp_text(y)) by {
        assert forall|i: int| 0 <= i < y.len() implies timestamp_char(#[trigger] y[i]) by {
            if year > 9999 && i > 0 {
                assert(y[i] == four_digits(year as nat)[i - 1]);
            } else if year < 0 && i > 0 {
                assert(y[i] == four_digits((-year) as nat)[i - 1]);
            }
        }
    }
    lemma_two_digits_any(month);
    lemma_two_digits_any(day);
    lemma_two_digits_any(hour);
    lemma_two_digits_any(minute);
    lemma_two_digits_any(second);
    lemma_concat_stamp(y, seq!['-']);
    lemma_concat_stamp(y + seq!['-'], two_digits(month));
    lemma_concat_stamp(y + seq!['-'] + two_digits(month), seq!['-']);
    lemma_concat_stamp(y + seq!['-'] + two_digits(month) + seq!['-'], two_digits(day));
    lemma_concat_stamp(y + seq!['-'] + two_digits(month) + seq!['-'] + two_digits(day), seq![' ']);
    let a = y + seq!['-'] + two_digits(month) + seq!['-'] + two_digits(day) + seq![' '];
    lemma_concat_stamp(a, two_digits(hour));
    lemma_concat_stamp(a + two_digits(hour), seq![':']);
    lemma_concat_stamp(a + two_digits(hour) + seq![':'], two_digits(minute));
    lemma_concat_stamp(a + two_digits(hour) + seq![':'] + two_digits(minute), seq![':']);
    lemma_concat_stamp(a + two_digits(hour) + seq![':'] + two_digits(minute) + seq![':'], two_digits(second));
}

proof fn lemma_two_digits_any(n: nat)
    ensures
        is_timestamp_text(two_digits(n)),
{
    lemma_decimal_all_digits(n);
    if n < 10 {
        lemma_concat_digits(seq!['0'], decimal(n));
    }
}

proof fn lemma_concat_stamp(a: Seq<char>, b: Seq<char>)
    requires
        is_timestamp_text(a),
        is_timestamp_text(b),
    ensures
        is_timestamp_text(a + b),
{
    assert forall|i: int| 0 <= i < (a + b).len() implies timestamp_char(#[trigger] (a + b)[i]) by {
        if i < a.len() {
            assert((a + b)[i] == a[i]);
        } else {
            assert((a + b)[i] == b[i - a.len()]);
        }
    }
}

/// A run's output is shown on the console and written to the log unless
/// the run succeeded in quiet mode: without quiet it is always there, in
/// quiet mode only for a run that did not succeed.
pub proof fn law_output_shown_unless_quiet_success(
    ts: Seq<char>,
    status: RunStatus,
    quiet: bool,
    secs: nat,
    label: Seq<char>,
    output: Seq<char>,
)
    ensures
        !quiet || status != RunStatus::Success ==> console_body(status, quiet, output) == body_text(
            seq![' ', ' ', ' ', ' '],
            output,
        ),
        quiet && status == RunStatus::Success ==> console_body(status, quiet, output) == Seq::<
            char,
        >::empty(),
        !quiet || status != RunStatus::Success ==> log_entry_text(
            ts,
            status,
            quiet,
            secs,
            label,
            output,
        ) == log_head(ts, plain_icon_text(status), secs, label) + body_text(seq!['\t'], output),
        quiet && status == RunStatus::Success ==> log_entry_text(ts, status, quiet, secs, label, output)
            == log_head(ts, plain_icon_text(status), secs, label),
{
    assert(log_head(ts, plain_icon_text(status), secs, label) + Seq::<char>::empty() == log_head(
        ts,
        plain_icon_text(status),
        secs,
        label,
    ));
}

/// In a group's summary block, a finished child's row is its indented
/// status line followed by its output indented by eight spaces, whatever
/// its status, unless quiet mode hides the output of a successful child.
pub proof fn law_group_block_shows_child_output(
    status: RunStatus,
    output: CommandOutput,
    secs: u64,
    label: Seq<char>,
    show_time: bool,
    quiet: bool,
)
    ensures
        ({
            let row = block_row(ChildState::Done { status, output, elapsed_secs: secs }, label, show_time, quiet);
            let head = seq![' ', ' ', ' ', ' '] + wrapper_line(
                colored_icon_text(status),
                time_slot(show_time, secs as nat),
                label,
            ) + seq!['\n'];
            let body = body_text(
                seq![' ', ' ', ' ', ' ', ' ', ' ', ' ', ' '],
                output.stdout@ + output.stderr@,
            );
            &&& !quiet || status != RunStatus::Success ==> row == head + body
            &&& quiet && status == RunStatus::Success ==> row == head
        }),
{
    let head = seq![' ', ' ', ' ', ' '] + wrapper_line(
        colored_icon_text(status),
        time_slot(show_time, secs as nat),
        label,
    ) + seq!['\n'];
    assert(head + Seq::<char>::empty() == head);
}

/// In a group's log entry, a finished child's row is its tab-indented
/// status line followed, when bodies are logged, by its output indented by
/// two tabs, whatever its status, unless quiet mode hides the output of a
/// successful child; without bodies the row is the status line alone.
pub proof fn law_group_log_shows_child_output(
    status: RunStatus,
    output: CommandOutput,
    secs: u64,
    label: Seq<char>,
    quiet: bool,
    bodies: bool,
)
    ensures
        ({
            let row = log_row(ChildState::Done { status, output, elapsed_secs: secs }, label, quiet, bodies);
            let head = seq!['\t'] + wrapper_line(
                plain_icon_text(status),
                time_slot(true, secs as nat),
                label,
            ) + seq!['\n'];
            let body = body_text(seq!['\t', '\t'], output.stdout@ + output.stderr@);
            &&& bodies && (!quiet || status != RunStatus::Success) ==> row == head + body
            &&& !bodies || (quiet && status == RunStatus::Success) ==> row == head
        }),
{
    let head = seq!['\t'] + wrapper_line(plain_icon_text(status), time_slot(true, secs as nat), label)
        + seq!['\n'];
    assert(head + Seq::<char>::empty() == head);
}

/// A pane keeps its own status and exit code in its outcome, and its
/// screen text becomes the outcome's output; a pane still running counts
/// as interrupted with code 1.
pub proof fn law_pane_outcome_keeps_status(
    p: PaneStatus,
    secs: u64,
    body: Seq<char>,
    label: Seq<char>,
    o: Outcome,
)
    requires
        pane_outcome_ok(p, secs, body, label, o),
    ensures
        p matches PaneStatus::Done(s, c) ==> (o.status == s && (o.output matches OutputCapture::Captured(
            out,
        ) && out.exit_code == c && out.stdout@ == body)),
        p is Running ==> (o.status == RunStatus::Interrupted && (o.output matches OutputCapture::Captured(
            out,
        ) && out.exit_code == 1)),
        o.label@ == label,
        o.elapsed_secs == secs,
        o.signal_num is None,
{
}

/// A pane whose child exits by itself succeeds exactly on code 0 and keeps
/// its code; a pane settled when the view closes succeeds only on a clean
/// exit, is interrupted on any other code, and is interrupted with code 1
/// when its child never reported an exit.
pub proof fn law_pane_statuses(code: i32)
    ensures
        reaped_of(code) == PaneStatus::Done(
            if code == 0 {
                RunStatus::Success
            } else {
                RunStatus::Failure
            },
            code,
        ),
        finalized_of(Some(code)) == PaneStatus::Done(
            if code == 0 {
                RunStatus::Success
            } else {
                RunStatus::Interrupted
            },
            code,
        ),
        finalized_of(None) == PaneStatus::Done(RunStatus::Interrupted, 1),
{
}

/// A pane killed when the view closed makes the whole group interrupted.
pub proof fn law_killed_pane_interrupts_group(outcomes: Seq<Outcome>, i: int, secs: u64, body: Seq<char>, label: Seq<char>)
    requires
        0 <= i < outcomes.len(),
        pane_outcome_ok(finalized_of(None), secs, body, label, outcomes[i]),
    ensures
        aggregate_of(statuses_of(outcomes)) == RunStatus::Interrupted,
{
    assert(statuses_of(outcomes)[i] == RunStatus::Interrupted);
}

/// The cursor, editing and function keys each send their own terminal
/// sequence, with or without Ctrl.
pub proof fn law_special_keys_send_their_sequences(ctrl: bool)
    ensures
        key_body(Key::Up, ctrl) == Some(seq![0x1bu8, 0x5bu8, 0x41u8]),
        key_body(Key::Down, ctrl) == Some(seq![0x1bu8, 0x5bu8, 0x42u8]),
        key_body(Key::Right, ctrl) == Some(seq![0x1bu8, 0x5bu8, 0x43u8]),
        key_body(Key::Left, ctrl) == Some(seq![0x1bu8, 0x5bu8, 0x44u8]),
        key_body(Key::Home, ctrl) == Some(seq![0x1bu8, 0x5bu8, 0x48u8]),
        key_body(Key::End, ctrl) == Some(seq![0x1bu8, 0x5bu8, 0x46u8]),
        key_body(Key::BackTab, ctrl) == Some(seq![0x1bu8, 0x5bu8, 0x5au8]),
        key_body(Key::Insert, ctrl) == Some(seq![0x1bu8, 0x5bu8, 0x32u8, 0x7eu8]),
        key_body(Key::Delete, ctrl) == Some(seq![0x1bu8, 0x5bu8, 0x33u8, 0x7eu8]),
        key_body(Key::PageUp, ctrl) == Some(seq![0x1bu8, 0x5bu8, 0x35u8, 0x7eu8]),
        key_body(Key::PageDown, ctrl) == Some(seq![0x1bu8, 0x5bu8, 0x36u8, 0x7eu8]),
        key_body(Key::Enter, ctrl) == Some(seq![0x0du8]),
        key_body(Key::Backspace, ctrl) == Some(seq![0x7fu8]),
        key_body(Key::Tab, ctrl) == Some(seq![0x09u8]),
        key_body(Key::Esc, ctrl) == Some(seq![0x1bu8]),
        key_body(Key::Null, ctrl) == Some(seq![0x00u8]),
        key_body(Key::F(1), ctrl) == Some(seq![0x1bu8, 0x4fu8, 0x50u8]),
        key_body(Key::F(2), ctrl) == Some(seq![0x1bu8, 0x4fu8, 0x51u8]),
        key_body(Key::F(3), ctrl) == Some(seq![0x1bu8, 0x4fu8, 0x52u8]),
        key_body(Key::F(4), ctrl) == Some(seq![0x1bu8, 0x4fu8, 0x53u8]),
        key_body(Key::F(5), ctrl) == Some(seq![0x1bu8, 0x5bu8, 0x31u8, 0x35u8, 0x7eu8]),
        key_body(Key::F(6), ctrl) == Some(seq![0x1bu8, 0x5bu8, 0x31u8, 0x37u8, 0x7eu8]),
        key_body(Key::F(7), ctrl) == Some(seq![0x1bu8, 0x5bu8, 0x31u8, 0x38u8, 0x7eu8]),
        key_body(Key::F(8), ctrl) == Some(seq![0x1bu8, 0x5bu8, 0x31u8, 0x39u8, 0x7eu8]),
        key_body(Key::F(9), ctrl) == Some(seq![0x1bu8, 0x5bu8, 0x32u8, 0x30u8, 0x7eu8]),
        key_body(Key::F(10), ctrl) == Some(seq![0x1bu8, 0x5bu8, 0x32u8, 0x31u8, 0x7eu8]),
        key_body(Key::F(11), ctrl) == Some(seq![0x1bu8, 0x5bu8, 0x32u8, 0x33u8, 0x7eu8]),
        key_body(Key::F(12), ctrl) == Some(seq![0x1bu8, 0x5bu8, 0x32u8, 0x34u8, 0x7eu8]),
        key_body(Key::F(13), ctrl) is None,
        key_body(Key::Other, ctrl) is None,
{
    assert(key_body(Key::Up, ctrl)->0 =~= seq![0x1bu8, 0x5bu8, 0x41u8]);
    assert(key_body(Key::Down, ctrl)->0 =~= seq![0x1bu8, 0x5bu8, 0x42u8]);
    assert(key_body(Key::Right, ctrl)->0 =~= seq![0x1bu8, 0x5bu8, 0x43u8]);
    assert(key_body(Key::Left, ctrl)->0 =~= seq![0x1bu8, 0x5bu8, 0x44u8]);
    assert(key_body(Key::Home, ctrl)->0 =~= seq![0x1bu8, 0x5bu8, 0x48u8]);
    assert(key_body(Key::End, ctrl)->0 =~= seq![0x1bu8, 0x5bu8, 0x46u8]);
    assert(key_body(Key::BackTab, ctrl)->0 =~= seq![0x1bu8, 0x5bu8, 0x5au8]);
    assert(key_body(Key::Insert, ctrl)->0 =~= seq![0x1bu8, 0x5bu8, 0x32u8, 0x7eu8]);
    assert(key_body(Key::Delete, ctrl)->0 =~= seq![0x1bu8, 0x5bu8, 0x33u8, 0x7eu8]);
    assert(key_body(Key::PageUp, ctrl)->0 =~= seq![0x1bu8, 0x5bu8, 0x35u8, 0x7eu8]);
    assert(key_body(Key::PageDown, ctrl)->0 =~= seq![0x1bu8, 0x5bu8, 0x36u8, 0x7eu8]);
}

/// Selecting pane `i` in navigation mode shows it from the bottom: its
/// scrollback offset is reset and no other pane's offset changes.
pub open spec fn selected_fresh(v: NavView, w: NavView, i: nat) -> bool {
    &&& w.selected == i
    &&& w.mode == Mode::Nav
    &&& w.scrollback.len() == v.scrollback.len()
    &&& w.scrollback[i as int] == 0
    &&& forall|j: int| 0 <= j < v.scrollback.len() && j != i ==> w.scrollback[j] == v.scrollback[j]
}

/// In navigation mode, `j` and Down move the selection one pane down and
/// stop at the last pane; `k` and Up move it one pane up and stop at the
/// first; `g` and `G` jump to the first and the last pane; each move shows
/// the pane from the bottom and sends nothing. `q` asks for confirmation
/// and keeps the selection.
pub proof fn law_navigation_moves_one_pane_at_a_time(v: NavView, k: KeyPress, running: Seq<bool>)
    requires
        nav_wf(v),
        v.mode == Mode::Nav,
        !k.release,
        0 < v.scrollback.len() <= usize::MAX,
        running.len() == v.scrollback.len(),
    ensures
        ({
            let n = v.scrollback.len();
            let (w, a) = event_step(v, UiEvent::Key(k), running);
            &&& (k.code == Key::Char('j') || k.code == Key::Down) ==> a == Act::Nothing
                && selected_fresh(
                v,
                w,
                if v.selected + 1 < n {
                    v.selected + 1
                } else {
                    v.selected
                },
            )
            &&& (k.code == Key::Char('k') || k.code == Key::Up) ==> a == Act::Nothing
                && selected_fresh(
                v,
                w,
                if v.selected > 0 {
                    (v.selected - 1) as nat
                } else {
                    0
                },
            )
            &&& k.code == Key::Char('g') ==> a == Act::Nothing && selected_fresh(v, w, 0)
            &&& k.code == Key::Char('G') ==> a == Act::Nothing && selected_fresh(v, w, (n - 1) as nat)
            &&& k.code == Key::Char('q') ==> a == Act::Nothing && w.mode == Mode::ConfirmQuit
                && w.selected == v.selected && w.scrollback == v.scrollback
        }),
{
    let n = v.scrollback.len();
    let (w, a) = event_step(v, UiEvent::Key(k), running);
    if k.code == Key::Char('j') || k.code == Key::Down {
        assert(nav_action(k.code, n as usize) == Some(NavAction::Next));
        let t: nat = if v.selected + 1 < n { v.selected + 1 } else { (n - 1) as nat };
        assert(w == select(v, t));
    } else if k.code == Key::Char('k') || k.code == Key::Up {
        assert(nav_action(k.code, n as usize) == Some(NavAction::Prev));
        let t: nat = if v.selected > 0 { (v.selected - 1) as nat } else { 0 };
        assert(w == select(v, t));
    } else if k.code == Key::Char('g') {
        assert(nav_action(k.code, n as usize) == Some(NavAction::Select(0)));
        assert(w == select(v, 0));
    } else if k.code == Key::Char('G') {
        assert(nav_action(k.code, n as usize) == Some(NavAction::Select((n - 1) as usize)));
        assert(w == select(v, (n - 1) as nat));
    }
}

/// In navigation mode the digit keys `1` to `9` jump to panes 1 to 9 when
/// that many panes exist, and do nothing otherwise.
pub proof fn law_digit_keys_jump_to_panes(v: NavView, c: char, ctrl: bool, alt: bool, running: Seq<bool>)
    requires
        nav_wf(v),
        v.mode == Mode::Nav,
        '1' <= c <= '9',
        running.len() == v.scrollback.len(),
    ensures
        ({
            let i = (c as u32 - '1' as u32) as nat;
            let (w, a) = event_step(
                v,
                UiEvent::Key(KeyPress { code: Key::Char(c), ctrl, alt, release: false }),
                running,
            );
            &&& a == Act::Nothing
            &&& i < v.scrollback.len() ==> selected_fresh(v, w, i)
            &&& i >= v.scrollback.len() ==> w == v
        }),
{
}

/// The offset a scroll by `up` lines up or `down` lines down leaves: never
/// below zero nor above the scrollback kept.
pub open spec fn scrolled(cur: nat, up: nat, down: nat) -> nat {
    let raised = cur + up;
    let capped: nat = if raised > SCROLLBACK_LINES {
        SCROLLBACK_LINES as nat
    } else {
        raised
    };
    if capped >= down {
        (capped - down) as nat
    } else {
        0
    }
}

/// The selected pane scrolls and nothing else changes: its new offset is
/// `off`, and the driver is told to show that offset.
pub open spec fn scrolled_to(v: NavView, w: NavView, a: Act, off: nat) -> bool {
    &&& w.selected == v.selected
    &&& w.mode == v.mode
    &&& w.scrollback.len() == v.scrollback.len()
    &&& w.scrollback[v.selected as int] == off
    &&& forall|j: int| 0 <= j < v.scrollback.len() && j != v.selected ==> w.scrollback[j] == v.scrollback[j]
    &&& a == Act::SetScrollback(v.selected, off)
}

/// In navigation mode PageUp and PageDown scroll the selected pane by five
/// lines and the mouse wheel by three, up to the scrollback kept and down
/// to the bottom.
pub proof fn law_scrolling_moves_by_fixed_steps(v: NavView, k: KeyPress, running: Seq<bool>)
    requires
        nav_wf(v),
        v.mode == Mode::Nav,
        !k.release,
        v.selected < v.scrollback.len(),
        running.len() == v.scrollback.len(),
    ensures
        ({
            let cur = v.scrollback[v.selected as int] as nat;
            let (w, a) = event_step(v, UiEvent::Key(k), running);
            &&& k.code == Key::PageUp ==> scrolled_to(v, w, a, scrolled(cur, 5, 0))
            &&& k.code == Key::PageDown ==> scrolled_to(v, w, a, scrolled(cur, 0, 5))
        }),
        ({
            let cur = v.scrollback[v.selected as int] as nat;
            let (w, a) = event_step(v, UiEvent::ScrollUp, running);
            scrolled_to(v, w, a, scrolled(cur, 3, 0))
        }),
        ({
            let cur = v.scrollback[v.selected as int] as nat;
            let (w, a) = event_step(v, UiEvent::ScrollDown, running);
            scrolled_to(v, w, a, scrolled(cur, 0, 3))
        }),
{
}

} // verus!
