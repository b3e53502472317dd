//! Plugin outcomes and the status codes the host understands.

use vstd::prelude::*;
use libc::c_int;

verus! {

/// Status code: the operation succeeded and the command may go on.
pub const SUDO_PLUGIN_OK: c_int = 1;

/// Status code: the operation is refused. Returned from `open`, the host
/// never starts the command; returned from a log entry point, the host
/// terminates the running command.
pub const SUDO_PLUGIN_REJECT: c_int = 0;

/// Status code: the operation failed for a reason other than a refusal.
pub const SUDO_PLUGIN_ERROR: c_int = -1;

/// Status code: the host called the plugin in a way its interface does
/// not allow.
pub const SUDO_PLUGIN_USAGE_ERROR: c_int = -2;

/// Why a plugin operation did not succeed.
#[derive(Debug)]
pub enum PluginError {
    /// The operation is refused: the command must not start, or must stop.
    Unauthorized,
    /// The operation failed for the reason given.
    Failure(String),
}

/// What a plugin operation came to.
#[derive(Debug)]
pub enum Outcome {
    /// The operation succeeded.
    Success,
    /// The operation failed for the reason given; the command is not
    /// affected.
    Failure(String),
    /// The operation is refused; the command must not start, or must stop.
    Unauthorized,
}

/// What an entry point hands back to the host: the status code, and the
/// text, if any, that is to be shown to the user.
#[derive(Debug)]
pub struct Report {
    pub code: i32,
    pub message: Option<String>,
}

/// The outcome that a plugin's answer stands for.
pub open spec fn spec_outcome_of(answer: Result<(), PluginError>) -> Outcome {
    match answer {
        Ok(_) => Outcome::Success,
        Err(PluginError::Unauthorized) => Outcome::Unauthorized,
        Err(PluginError::Failure(reason)) => Outcome::Failure(reason),
    }
}

/// The status code of an outcome.
pub open spec fn spec_status_code(outcome: Outcome) -> i32 {
    match outcome {
        Outcome::Success => SUDO_PLUGIN_OK,
        Outcome::Failure(_) => SUDO_PLUGIN_ERROR,
        Outcome::Unauthorized => SUDO_PLUGIN_REJECT,
    }
}

/// The status code of an entry point the plugin may have left out: a
/// plugin with no opinion lets the command go on.
pub open spec fn spec_optional_status_code(outcome: Option<Outcome>) -> i32 {
    match outcome {
        Some(o) => spec_status_code(o),
        None => SUDO_PLUGIN_OK,
    }
}

/// The text an outcome asks to be shown: the reason of a failure.
pub open spec fn spec_diagnostic(outcome: Outcome) -> Option<String> {
    match outcome {
        Outcome::Failure(reason) => Some(reason),
        _ => None,
    }
}

/// What the host is told of an outcome.
pub open spec fn spec_report(outcome: Outcome) -> Report {
    Report { code: spec_status_code(outcome), message: spec_diagnostic(outcome) }
}

/// Turns a plugin's answer into an outcome.
pub fn outcome_of(answer: Result<(), PluginError>) -> (outcome: Outcome)
    ensures
        outcome == spec_outcome_of(answer),
{
    match answer {
        Ok(_) => Outcome::Success,
        Err(PluginError::Unauthorized) => Outcome::Unauthorized,
        Err(PluginError::Failure(reason)) => Outcome::Failure(reason),
    }
}

/// Whether an outcome ends the command.
pub fn is_fatal(outcome: &Outcome) -> (fatal: bool)
    ensures
        fatal == (*outcome is Unauthorized),
        fatal == (spec_status_code(*outcome) == SUDO_PLUGIN_REJECT),
{
    match outcome {
        Outcome::Unauthorized => true,
        _ => false,
    }
}

/// The status code that tells the host of `outcome`.
pub fn status_code(outcome: &Outcome) -> (code: i32)
    ensures
        code == spec_status_code(*outcome),
{
    match outcome {
        Outcome::Success => SUDO_PLUGIN_OK,
        Outcome::Failure(_) => SUDO_PLUGIN_ERROR,
        Outcome::Unauthorized => SUDO_PLUGIN_REJECT,
    }
}

/// The status code for an entry point the plugin may have left out.
pub fn optional_status_code(outcome: Option<&Outcome>) -> (code: i32)
    ensures
        code == match outcome {
            Some(o) => spec_status_code(*o),
            None => SUDO_PLUGIN_OK,
        },
{
    match outcome {
        Some(o) => status_code(o),
        None => SUDO_PLUGIN_OK,
    }
}

/// The status code for a fault inside plugin code that was caught at the
/// boundary: the command does not go on.
pub fn fault_code() -> (code: i32)
    ensures
        code == SUDO_PLUGIN_REJECT,
{
    SUDO_PLUGIN_REJECT
}

/// Builds the report of an outcome: its status code, and the reason of a
/// failure as the text to show.
pub fn report(outcome: Outcome) -> (r: Report)
    ensures
        r == spec_report(outcome),
{
    let code = status_code(&outcome);
    let message = match outcome {
        Outcome::Failure(reason) => Some(reason),
        _ => None,
    };
    Report { code, message }
}

/// Every outcome becomes one of the three codes for success, refusal and
/// failure, and only a refusal becomes the code that ends the command.
pub proof fn status_code_is_total(outcome: Outcome)
    ensures
        spec_status_code(outcome) == SUDO_PLUGIN_OK || spec_status_code(outcome)
            == SUDO_PLUGIN_REJECT || spec_status_code(outcome) == SUDO_PLUGIN_ERROR,
        spec_status_code(outcome) == SUDO_PLUGIN_REJECT <==> outcome is Unauthorized,
        spec_status_code(outcome) == SUDO_PLUGIN_OK <==> outcome is Success,
{
}

} // verus!
