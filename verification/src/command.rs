//! The boundary to external processes, as data: the argument list an
//! invocation needs, the captured outcome the caller hands back, and the
//! classification of that outcome into the crate's error taxonomy.
//!
//! Nothing here spawns a process. The caller runs the plan, captures what
//! happened, and the functions below decide what it meant.

use vstd::prelude::*;
use vstd::string::StrSliceExecFns;
use crate::error::AsusctlError;
use crate::error::is_command_failed;
use crate::text::contains;
use crate::text::contains_seq;
use crate::text::spec_trim;
use crate::text::trim;
use crate::text::views_of;

verus! {

/// One subprocess invocation: the program to run and its arguments, in
/// order.
#[derive(Debug, Clone, PartialEq)]
pub struct CommandPlan {
    pub program: String,
    pub args: Vec<String>,
}

/// `plan` names exactly this program and argument list.
pub open spec fn is_plan(plan: CommandPlan, program: Seq<char>, args: Seq<Seq<char>>) -> bool {
    &&& plan.program@ == program
    &&& views_of(plan.args@) == args
}

/// What happened when the caller ran one external command.
#[derive(Debug, Clone, PartialEq)]
pub enum ExecOutcome {
    /// The process could not be spawned; `not_found` says whether the
    /// program was absent, and `message` carries the OS error text.
    SpawnError { not_found: bool, message: String },
    /// The process ran to completion; `success` is a zero exit status, and
    /// the two streams are captured as text.
    Completed { success: bool, stdout: String, stderr: String },
}

/// The stderr patterns that show the backing service is absent.
pub open spec fn spec_service_missing(stderr: Seq<char>) -> bool {
    contains_seq(stderr, "Connection refused"@) || contains_seq(stderr, "asusd"@)
}

/// The control tool's outcome yields usable stdout: it ran, and nothing in
/// stderr disqualified the run.
pub open spec fn spec_asusctl_ok(o: ExecOutcome) -> bool {
    match o {
        ExecOutcome::Completed { stderr, .. } => !spec_service_missing(stderr@),
        _ => false,
    }
}

/// The stdout text of a completed run.
pub open spec fn spec_asusctl_stdout(o: ExecOutcome) -> Seq<char> {
    match o {
        ExecOutcome::Completed { stdout, .. } => stdout@,
        _ => Seq::empty(),
    }
}

/// `e` is the error that classifying a disqualified control-tool outcome
/// produces.
pub open spec fn spec_asusctl_err(o: ExecOutcome, e: AsusctlError) -> bool {
    match o {
        ExecOutcome::SpawnError { not_found, message } => {
            if not_found {
                e == AsusctlError::NotInstalled
            } else {
                is_command_failed(e, message@)
            }
        },
        ExecOutcome::Completed { stderr, .. } => spec_service_missing(stderr@) && e
            == AsusctlError::ServiceNotRunning,
    }
}

/// Classify the outcome of running the control tool.
///
/// A spawn failure is `NotInstalled` when the binary was absent, otherwise
/// `CommandFailed` with the OS error text. Once the process ran, stderr
/// containing the service-name token or a connection-refused phrase means
/// `ServiceNotRunning`, whatever the exit status was; otherwise stdout is
/// returned as is — a non-zero exit status alone is not a failure.
pub fn run_asusctl(outcome: ExecOutcome) -> (r: Result<String, AsusctlError>)
    ensures
        match outcome {
            ExecOutcome::SpawnError { not_found, message } => {
                if not_found {
                    r == Err::<String, AsusctlError>(AsusctlError::NotInstalled)
                } else {
                    r is Err && is_command_failed(r->Err_0, message@)
                }
            },
            ExecOutcome::Completed { success, stdout, stderr } => {
                if spec_service_missing(stderr@) {
                    r == Err::<String, AsusctlError>(AsusctlError::ServiceNotRunning)
                } else {
                    r is Ok && r->Ok_0@ == stdout@
                }
            },
        },
{
    match outcome {
        ExecOutcome::SpawnError { not_found, message } => {
            if not_found {
                Err(AsusctlError::NotInstalled)
            } else {
                Err(AsusctlError::CommandFailed(message))
            }
        },
        ExecOutcome::Completed { success: _, stdout, stderr } => {
            if contains(stderr.as_str(), "Connection refused") || contains(
                stderr.as_str(),
                "asusd",
            ) {
                Err(AsusctlError::ServiceNotRunning)
            } else {
                Ok(stdout)
            }
        },
    }
}

/// The stderr patterns that show the requested bus object is absent.
pub open spec fn spec_bus_object_missing(stderr: Seq<char>) -> bool {
    contains_seq(stderr, "No such"@) || contains_seq(stderr, "not found"@)
}

/// The bus utility's outcome yields a wire value: it ran and exited zero.
pub open spec fn spec_bus_ok(o: ExecOutcome) -> bool {
    match o {
        ExecOutcome::Completed { success, .. } => success,
        _ => false,
    }
}

/// The trimmed stdout of a successful bus read: the wire value.
pub open spec fn spec_bus_value(o: ExecOutcome) -> Seq<char> {
    match o {
        ExecOutcome::Completed { stdout, .. } => spec_trim(stdout@),
        _ => Seq::empty(),
    }
}

/// `e` is the error that classifying a failed bus read produces.
pub open spec fn spec_bus_err(o: ExecOutcome, e: AsusctlError) -> bool {
    match o {
        ExecOutcome::SpawnError { message, .. } => is_command_failed(
            e,
            "busctl failed: "@ + message@,
        ),
        ExecOutcome::Completed { success, stderr, .. } => !success && (if spec_bus_object_missing(
            stderr@,
        ) {
            e == AsusctlError::ServiceNotRunning
        } else {
            is_command_failed(e, stderr@)
        }),
    }
}

/// Classify the outcome of running the bus-introspection utility for one
/// property read.
///
/// On a zero exit status the trimmed stdout is the wire value. On a
/// non-zero exit status, stderr naming a missing object means
/// `ServiceNotRunning`; anything else is `CommandFailed` with stderr as the
/// detail. A spawn failure of any kind is `CommandFailed`.
pub fn read_dbus_property(outcome: ExecOutcome) -> (r: Result<String, AsusctlError>)
    ensures
        match outcome {
            ExecOutcome::SpawnError { not_found, message } => r is Err && is_command_failed(
                r->Err_0,
                "busctl failed: "@ + message@,
            ),
            ExecOutcome::Completed { success, stdout, stderr } => {
                if success {
                    r is Ok && r->Ok_0@ == spec_trim(stdout@)
                } else if spec_bus_object_missing(stderr@) {
                    r == Err::<String, AsusctlError>(AsusctlError::ServiceNotRunning)
                } else {
                    r is Err && is_command_failed(r->Err_0, stderr@)
                }
            },
        },
{
    match outcome {
        ExecOutcome::SpawnError { not_found: _, message } => {
            Err(
                AsusctlError::CommandFailed(
                    "busctl failed: ".to_owned().concat(message.as_str()),
                ),
            )
        },
        ExecOutcome::Completed { success, stdout, stderr } => {
            if success {
                Ok(trim(stdout.as_str()).to_owned())
            } else if contains(stderr.as_str(), "No such") || contains(
                stderr.as_str(),
                "not found",
            ) {
                Err(AsusctlError::ServiceNotRunning)
            } else {
                Err(AsusctlError::CommandFailed(stderr))
            }
        },
    }
}

// ---------------------------------------------------------------------------
// Plan construction
// ---------------------------------------------------------------------------

/// A plan with one argument.
pub(crate) fn plan1(program: &str, a0: &str) -> (p: CommandPlan)
    ensures
        is_plan(p, program@, seq![a0@]),
{
    let mut args: Vec<String> = Vec::new();
    args.push(a0.to_owned());
    proof {
        assert(views_of(args@) =~= seq![a0@]);
    }
    CommandPlan { program: program.to_owned(), args }
}

/// A plan with two arguments.
pub(crate) fn plan2(program: &str, a0: &str, a1: &str) -> (p: CommandPlan)
    ensures
        is_plan(p, program@, seq![a0@, a1@]),
{
    let mut args: Vec<String> = Vec::new();
    args.push(a0.to_owned());
    args.push(a1.to_owned());
    proof {
        assert(views_of(args@) =~= seq![a0@, a1@]);
    }
    CommandPlan { program: program.to_owned(), args }
}

/// A plan with three arguments.
pub(crate) fn plan3(program: &str, a0: &str, a1: &str, a2: &str) -> (p: CommandPlan)
    ensures
        is_plan(p, program@, seq![a0@, a1@, a2@]),
{
    let mut args: Vec<String> = Vec::new();
    args.push(a0.to_owned());
    args.push(a1.to_owned());
    args.push(a2.to_owned());
    proof {
        assert(views_of(args@) =~= seq![a0@, a1@, a2@]);
    }
    CommandPlan { program: program.to_owned(), args }
}

/// The invocation that asks the bus-introspection utility for one property
/// of the control daemon: `get-property`, the fixed destination, then the
/// object path, interface and property name.
pub fn dbus_property_request(path: &str, interface: &str, property: &str) -> (p: CommandPlan)
    ensures
        is_plan(
            p,
            "busctl"@,
            seq!["get-property"@, "xyz.ljones.Asusd"@, path@, interface@, property@],
        ),
{
    let mut args: Vec<String> = Vec::new();
    args.push("get-property".to_owned());
    args.push("xyz.ljones.Asusd".to_owned());
    args.push(path.to_owned());
    args.push(interface.to_owned());
    args.push(property.to_owned());
    proof {
        assert(views_of(args@) =~= seq![
            "get-property"@,
            "xyz.ljones.Asusd"@,
            path@,
            interface@,
            property@,
        ]);
    }
    CommandPlan { program: "busctl".to_owned(), args }
}

} // verus!
