use vstd::prelude::*;
use crate::quote::{quote_cmdline, quoted_cmdline};
use crate::runner::ProcessStatus;

verus! {

/// Exit code reported when the command has no exit code of its own (it did
/// not run, or a signal ended it).
pub const NO_EXIT_CODE: i32 = 255;

/// Whether the run counts as a success: the process ran and exited with
/// code zero.
pub open spec fn spec_succeeded(status: Option<ProcessStatus>) -> bool {
    status matches Some(s) && s.spec_success()
}

pub fn succeeded(status: &Option<ProcessStatus>) -> (r: bool)
    ensures
        r == spec_succeeded(*status),
{
    match status {
        Some(s) => s.success(),
        None => false,
    }
}

/// Whether a notification is sent: never for a success that the user asked
/// to skip (all successes with `only_failures`, quiet successes unless
/// `always_notify`), always for a failure.
pub open spec fn spec_should_notify(always_notify: bool, only_failures: bool, success: bool, empty: bool) -> bool {
    !(success && ((!always_notify && empty) || only_failures))
}

#[verifier::when_used_as_spec(spec_should_notify)]
pub fn should_notify(always_notify: bool, only_failures: bool, success: bool, empty: bool) -> (r: bool)
    ensures
        r == spec_should_notify(always_notify, only_failures, success, empty),
{
    if !always_notify && success && empty {
        false
    } else if only_failures && success {
        false
    } else {
        true
    }
}

/// The title of the notification: the title given for the outcome if there
/// is one, else `Success: ` or `Failure: ` before the general title, which
/// defaults to the quoted command line.
pub open spec fn title_text(
    success: bool,
    title: Option<String>,
    success_title: Option<String>,
    failure_title: Option<String>,
    cmdline: Seq<String>,
) -> Seq<char> {
    let fallback = match title {
        Some(t) => t@,
        None => quoted_cmdline(cmdline),
    };
    if success {
        match success_title {
            Some(t) => t@,
            None => "Success: "@ + fallback,
        }
    } else {
        match failure_title {
            Some(t) => t@,
            None => "Failure: "@ + fallback,
        }
    }
}

pub fn notification_title(
    success: bool,
    title: Option<String>,
    success_title: Option<String>,
    failure_title: Option<String>,
    cmdline: &[String],
) -> (r: String)
    ensures
        r@ == title_text(success, title, success_title, failure_title, cmdline@),
{
    let fallback = match title {
        Some(t) => t,
        None => quote_cmdline(cmdline),
    };
    if success {
        match success_title {
            Some(t) => t,
            None => {
                let mut r = String::from_str("Success: ");
                r.append(fallback.as_str());
                r
            },
        }
    } else {
        match failure_title {
            Some(t) => t,
            None => {
                let mut r = String::from_str("Failure: ");
                r.append(fallback.as_str());
                r
            },
        }
    }
}

/// The exit code to leave with once the notification is sent: the
/// command's own exit code, or [`NO_EXIT_CODE`] when it has none.
pub fn exit_code(status: &Option<ProcessStatus>) -> (r: i32)
    ensures
        r == match *status {
            Some(s) => match s.code {
                Some(c) => c,
                None => NO_EXIT_CODE,
            },
            None => NO_EXIT_CODE,
        },
{
    match status {
        Some(s) => match s.code {
            Some(c) => c,
            None => NO_EXIT_CODE,
        },
        None => NO_EXIT_CODE,
    }
}

} // verus!
