//! Decisions of the updater relay process: it runs an installer to
//! completion, and only when the installer succeeded does it relaunch the
//! application; otherwise it reports the failure and exits with status 1.

use vstd::prelude::*;
use vstd::string::StringExecFns;
use crate::text::opt_code_seq;
use crate::text::opt_code_text;

verus! {

/// What became of the installer the relay ran: it exited with the given code
/// (`None` when it was terminated without one), or it could not be launched
/// at all.
#[derive(Clone, Copy, PartialEq, Eq, Debug)]
pub enum InstallerOutcome {
    Exited { code: Option<i32> },
    LaunchFailed,
}

/// The relay's next step: relaunch the application and exit cleanly, or
/// report the failure on standard error and stop.
#[derive(Clone, Copy, PartialEq, Eq, Debug)]
pub enum RelayStep {
    LaunchApp,
    ReportAndStop,
}

/// The application is relaunched exactly when the installer exited with
/// code 0.
pub open spec fn relay_step_spec(o: InstallerOutcome) -> RelayStep {
    match o {
        InstallerOutcome::Exited { code } => if code == Some(0i32) {
            RelayStep::LaunchApp
        } else {
            RelayStep::ReportAndStop
        },
        InstallerOutcome::LaunchFailed => RelayStep::ReportAndStop,
    }
}

pub fn relay_step(o: &InstallerOutcome) -> (r: RelayStep)
    ensures
        r == relay_step_spec(*o),
{
    match o {
        InstallerOutcome::Exited { code: Some(c) } => if *c == 0 {
            RelayStep::LaunchApp
        } else {
            RelayStep::ReportAndStop
        },
        InstallerOutcome::Exited { code: None } => RelayStep::ReportAndStop,
        InstallerOutcome::LaunchFailed => RelayStep::ReportAndStop,
    }
}

/// The relay's exit status: 0 after a successful install and relaunch, 1
/// after any failure.
pub fn relay_exit_code(r: &RelayStep) -> (c: i32)
    ensures
        *r is LaunchApp ==> c == 0,
        *r is ReportAndStop ==> c == 1,
{
    match r {
        RelayStep::LaunchApp => 0,
        RelayStep::ReportAndStop => 1,
    }
}

/// The message reported when the relay cannot proceed, for each failing
/// outcome; a successful outcome has none.
pub open spec fn relay_report_spec(o: InstallerOutcome) -> Option<Seq<char>> {
    match o {
        InstallerOutcome::Exited { code } => if code == Some(0i32) {
            None
        } else {
            Some("Installer exited with code "@ + opt_code_seq(code))
        },
        InstallerOutcome::LaunchFailed => Some("Failed to run installer"@),
    }
}

/// The report the relay prints to standard error: present exactly when the
/// step is to stop, naming the installer's exit code, or the launch failure.
pub fn relay_report(o: &InstallerOutcome) -> (r: Option<String>)
    ensures
        match r {
            Some(msg) => relay_report_spec(*o) == Some(msg@),
            None => relay_report_spec(*o) is None,
        },
        r is Some <==> relay_step_spec(*o) is ReportAndStop,
{
    match o {
        InstallerOutcome::Exited { code } => {
            let is_success = match code {
                Some(c) => *c == 0,
                None => false,
            };
            if is_success {
                None
            } else {
                let mut msg: String = "Installer exited with code ".to_owned();
                let rendered = opt_code_text(code);
                msg.append(rendered.as_str());
                Some(msg)
            }
        },
        InstallerOutcome::LaunchFailed => Some("Failed to run installer".to_owned()),
    }
}

/// The relay requires an installer path and an application path; `n` is the
/// full argument count, program name included.
pub fn enough_args(n: usize) -> (ok: bool)
    ensures
        ok == (n >= 3),
{
    n >= 3
}

/// The usage line printed when the relay is started with too few arguments.
pub fn usage_message() -> (u: String)
    ensures
        u@ == "Usage: mini_updater <installer_path> <app_path> [installer_args...]"@,
{
    "Usage: mini_updater <installer_path> <app_path> [installer_args...]".to_owned()
}

/// An installer that exited 0 leads to a relaunch and exit status 0, with
/// nothing reported; any other exit code, a termination without one, and a
/// failed launch all lead to a report and exit status 1, with no relaunch.
pub proof fn lemma_relay_relaunches_only_on_success(o: InstallerOutcome)
    ensures
        relay_step_spec(o) is LaunchApp <==> o == (InstallerOutcome::Exited {
            code: Some(0i32),
        }),
        relay_report_spec(o) is None <==> relay_step_spec(o) is LaunchApp,
{
}

} // verus!
