//! Classifying the raw result of one tool invocation, and short remediation
//! hints for common vendor failure messages.

use vstd::prelude::*;
use crate::text::{seq_contains_sub, str_contains, trim_spec, trim_str};

verus! {

/// Failures of one tool invocation.
#[derive(Debug)]
pub enum AdbError {
    /// The tool could not be spawned at all (not installed or not on the
    /// execution path).
    Spawn(String),
    /// The tool ran but reported a non-success exit status.
    NonZero { code: i32, msg: String },
}

/// The captured streams of one successful tool invocation.
#[derive(Debug, Clone)]
pub struct AdbOutput {
    pub stdout: String,
    pub stderr: String,
}

/// The message reported for a failed invocation: the trimmed error stream,
/// or — since some tool variants print failures to standard output — the
/// trimmed output stream when the error stream is empty.
pub open spec fn nonzero_message(stdout: Seq<char>, stderr: Seq<char>) -> Seq<char> {
    if trim_spec(stderr).len() == 0 && trim_spec(stdout).len() > 0 {
        trim_spec(stdout)
    } else {
        trim_spec(stderr)
    }
}

/// Classifies one finished tool invocation from its captured streams and
/// exit status: the streams on success, and on a non-zero status the more
/// informative of the two, trimmed.
pub fn collect_adb_output(stdout: String, stderr: String, success: bool, code: i32) -> (r:
    Result<AdbOutput, AdbError>)
    ensures
        success ==> (r matches Ok(o) && o.stdout@ == stdout@ && o.stderr@ == stderr@),
        !success ==> (r matches Err(AdbError::NonZero { code: c, msg }) && c == code && msg@
            == nonzero_message(stdout@, stderr@)),
{
    if success {
        Result::Ok(AdbOutput { stdout, stderr })
    } else {
        let trimmed_err = trim_str(stderr.as_str());
        let msg = if trimmed_err.unicode_len() == 0 {
            let trimmed_out = trim_str(stdout.as_str());
            if trimmed_out.unicode_len() > 0 {
                String::from_str(trimmed_out)
            } else {
                String::from_str(trimmed_err)
            }
        } else {
            String::from_str(trimmed_err)
        };
        Result::Err(AdbError::NonZero { code, msg })
    }
}

/// The hint attached to well-known vendor failure messages, if any.
pub open spec fn friendly_hint_spec(e: Seq<char>) -> Option<Seq<char>> {
    if seq_contains_sub(e, "DELETE_FAILED_USER_RESTRICTED"@) || seq_contains_sub(
        e,
        "package is protected"@,
    ) {
        Option::Some("This package is protected by the vendor. Try Disable instead."@)
    } else if seq_contains_sub(e, "NOT_INSTALLED_FOR_USER"@) {
        Option::Some("It's already gone for this user. Refresh the list."@)
    } else if seq_contains_sub(e, "Shell does not have permission to access user"@) {
        Option::Some("Wrong user/profile. Use the primary user or a permitted profile."@)
    } else {
        Option::None
    }
}

/// Picks a short remediation hint for common vendor failure messages.
pub fn friendly_hint(err_msg: &str) -> (r: Option<&'static str>)
    ensures
        (match r {
            Option::Some(s) => friendly_hint_spec(err_msg@) == Option::Some(s@),
            Option::None => friendly_hint_spec(err_msg@) is None,
        }),
{
    if str_contains(err_msg, "DELETE_FAILED_USER_RESTRICTED") || str_contains(
        err_msg,
        "package is protected",
    ) {
        Option::Some("This package is protected by the vendor. Try Disable instead.")
    } else if str_contains(err_msg, "NOT_INSTALLED_FOR_USER") {
        Option::Some("It's already gone for this user. Refresh the list.")
    } else if str_contains(err_msg, "Shell does not have permission to access user") {
        Option::Some("Wrong user/profile. Use the primary user or a permitted profile.")
    } else {
        Option::None
    }
}

} // verus!
