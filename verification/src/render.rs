//! The bracketed status lines shared by every run mode:
//! `[ ICON ] label`, `[ ICON HH:MM:SS ] label`, and the log-entry head
//! `[TIMESTAMP] [ ICON HH:MM:SS ] label`.

use vstd::prelude::*;
use crate::status::{colored_icon, colored_icon_text, RunStatus};
use crate::text::{clock_text, format_elapsed, push_char};

verus! {

/// The optional ` HH:MM:SS` inside a status bracket.
pub open spec fn time_slot(show_time: bool, secs: nat) -> Seq<char> {
    if show_time {
        seq![' '] + clock_text(secs)
    } else {
        seq![]
    }
}

/// `[ ` icon slot ` ] ` label.
pub open spec fn wrapper_line(icon: Seq<char>, slot: Seq<char>, label: Seq<char>) -> Seq<char> {
    seq!['[', ' '] + icon + slot + seq![' ', ']', ' '] + label
}

/// `[` timestamp `] [ ` icon ` HH:MM:SS ] ` label, ending in a newline.
pub open spec fn log_head(ts: Seq<char>, icon: Seq<char>, secs: nat, label: Seq<char>) -> Seq<
    char,
> {
    seq!['['] + ts + seq![']', ' '] + wrapper_line(icon, time_slot(true, secs), label) + seq![
        '\n',
    ]
}

/// Appends ` HH:MM:SS` when `show_time` is set.
pub fn push_time_slot(s: &mut String, show_time: bool, secs: u64)
    ensures
        final(s)@ == old(s)@ + time_slot(show_time, secs as nat),
{
    if show_time {
        push_char(s, ' ');
        let t = format_elapsed(secs);
        s.append(t.as_str());
    } else {
        assert(old(s)@ + Seq::<char>::empty() == old(s)@);
    }
}

/// Appends `[ ICON{slot} ] label`.
pub fn push_wrapper(s: &mut String, icon: &str, show_time: bool, secs: u64, label: &str)
    ensures
        final(s)@ == old(s)@ + wrapper_line(icon@, time_slot(show_time, secs as nat), label@),
{
    let ghost start = s@;
    push_char(s, '[');
    push_char(s, ' ');
    s.append(icon);
    push_time_slot(s, show_time, secs);
    push_char(s, ' ');
    push_char(s, ']');
    push_char(s, ' ');
    s.append(label);
    assert(s@ == start + wrapper_line(icon@, time_slot(show_time, secs as nat), label@));
}

/// Appends a log-entry head line.
pub fn push_log_head(s: &mut String, ts: &str, icon: &str, secs: u64, label: &str)
    ensures
        final(s)@ == old(s)@ + log_head(ts@, icon@, secs as nat, label@),
{
    let ghost start = s@;
    push_char(s, '[');
    s.append(ts);
    push_char(s, ']');
    push_char(s, ' ');
    push_wrapper(s, icon, true, secs, label);
    push_char(s, '\n');
    assert(s@ == start + log_head(ts@, icon@, secs as nat, label@));
}

/// The bare label `[ ICON ] msg` reported for work done in-process, without
/// a time slot: green check for success, red cross otherwise.
pub fn verdict_line(ok: bool, msg: &str) -> (r: String)
    ensures
        r@ == wrapper_line(
            colored_icon_text(if ok { RunStatus::Success } else { RunStatus::Failure }),
            time_slot(false, 0),
            msg@,
        ),
{
    let status = if ok { RunStatus::Success } else { RunStatus::Failure };
    let icon = colored_icon(status);
    let mut s = String::new();
    push_wrapper(&mut s, icon.as_str(), false, 0, msg);
    s
}

/// The line printed by `pass`: `[ ✓ ] msg`, with a green check.
pub fn pass_line(msg: &str) -> (r: String)
    ensures
        r@ == wrapper_line(colored_icon_text(RunStatus::Success), seq![], msg@),
{
    verdict_line(true, msg)
}

/// The line printed by `fail`: `[ ✘ ] msg`, with a red cross.
pub fn fail_line(msg: &str) -> (r: String)
    ensures
        r@ == wrapper_line(colored_icon_text(RunStatus::Failure), seq![], msg@),
{
    verdict_line(false, msg)
}

} // verus!
