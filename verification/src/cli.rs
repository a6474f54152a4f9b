//! The decisions of the `x` command line: which settings apply in which
//! mode, whether the validator runs, and which exit code the process ends
//! with.

use vstd::prelude::*;
use crate::status::{RunReport, RunStatus};

verus! {

/// The validator runs only after a command that completed, successfully
/// or not; a timeout or a signal skips it.
pub open spec fn validator_runs(status: RunStatus) -> bool {
    status == RunStatus::Success || status == RunStatus::Failure
}

/// Whether the validator runs after a main command that ended with `status`.
pub fn validator_applies(status: RunStatus) -> (b: bool)
    ensures
        b == validator_runs(status),
{
    match status {
        RunStatus::Success | RunStatus::Failure => true,
        _ => false,
    }
}

/// The exit code of the whole invocation: the validator's when it ran,
/// otherwise the main command's.
pub open spec fn final_code(main: RunReport, validator: Option<RunReport>) -> i32 {
    if validator_runs(main.status) {
        match validator {
            Some(v) => v.exit_code,
            None => main.exit_code,
        }
    } else {
        main.exit_code
    }
}

/// Combines the main report with the validator's report (when a validator
/// was given and ran) into the process exit code.
pub fn final_exit_code(main: RunReport, validator: Option<RunReport>) -> (code: i32)
    ensures
        code == final_code(main, validator),
{
    if validator_applies(main.status) {
        match validator {
            Some(v) => v.exit_code,
            None => main.exit_code,
        }
    } else {
        main.exit_code
    }
}

/// With `--parallel` the validator can only rescue a group: when it ran,
/// the invocation succeeds (code 0) if the group or the validator
/// succeeded, and fails with code 1 otherwise; when it did not run, the
/// group's own code stands.
pub open spec fn group_final_code(group: RunReport, validator: Option<RunReport>) -> i32 {
    if validator_runs(group.status) {
        match validator {
            Some(v) => if group.status == RunStatus::Success || v.status == RunStatus::Success {
                0
            } else {
                1
            },
            None => group.exit_code,
        }
    } else {
        group.exit_code
    }
}

/// Combines a group's report with the validator's report (when a validator
/// was given and ran) into the process exit code.
pub fn group_final_exit_code(group: RunReport, validator: Option<RunReport>) -> (code: i32)
    ensures
        code == group_final_code(group, validator),
{
    if validator_applies(group.status) {
        match validator {
            Some(v) => if group.status.is_success() || v.status.is_success() {
                0
            } else {
                1
            },
            None => group.exit_code,
        }
    } else {
        group.exit_code
    }
}

/// `--quiet` takes effect unless `--succinct` is given, which overrides it.
pub fn quiet_applies(quiet: bool, succinct: bool) -> (b: bool)
    ensures
        b == (quiet && !succinct),
{
    quiet && !succinct
}

} // verus!
