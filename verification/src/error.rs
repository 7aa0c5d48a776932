//! The single error currency of the crate.

use vstd::prelude::*;
use vstd::string::StringExecFns;

verus! {

/// Why an operation against the control tool or the property bus failed.
#[derive(Debug, Clone, PartialEq)]
pub enum AsusctlError {
    /// The control binary could not be found.
    NotInstalled,
    /// The backing service or bus object is absent or unreachable.
    ServiceNotRunning,
    /// The external process ran but failed for another reason.
    CommandFailed(String),
    /// Output was received but did not match the expected grammar.
    ParseError(String),
}

/// `e` is a `ParseError` carrying exactly `msg`.
pub open spec fn is_parse_error(e: AsusctlError, msg: Seq<char>) -> bool {
    &&& e is ParseError
    &&& e->ParseError_0@ == msg
}

/// `e` is a `CommandFailed` carrying exactly `msg`.
pub open spec fn is_command_failed(e: AsusctlError, msg: Seq<char>) -> bool {
    &&& e is CommandFailed
    &&& e->CommandFailed_0@ == msg
}

impl AsusctlError {
    /// The stable display text of this error.
    pub open spec fn spec_message(self) -> Seq<char> {
        match self {
            AsusctlError::NotInstalled => "asusctl is not installed"@,
            AsusctlError::ServiceNotRunning => "asusd service is not running"@,
            AsusctlError::CommandFailed(m) => "Command failed: "@ + m@,
            AsusctlError::ParseError(m) => "Parse error: "@ + m@,
        }
    }

    /// Human-readable message, one stable form per error kind.
    pub fn message(&self) -> (r: String)
        ensures
            r@ == self.spec_message(),
    {
        match self {
            AsusctlError::NotInstalled => "asusctl is not installed".to_owned(),
            AsusctlError::ServiceNotRunning => "asusd service is not running".to_owned(),
            AsusctlError::CommandFailed(m) => "Command failed: ".to_owned().concat(m.as_str()),
            AsusctlError::ParseError(m) => "Parse error: ".to_owned().concat(m.as_str()),
        }
    }
}

/// `r` realizes the specified parse outcome `spec`: the same value on
/// success, a `ParseError` with exactly the specified message on failure.
pub open spec fn parse_result_matches<T>(r: Result<T, AsusctlError>, spec: Result<T, Seq<char>>) -> bool {
    match spec {
        Ok(v) => r == Ok::<T, AsusctlError>(v),
        Err(msg) => r is Err && is_parse_error(r->Err_0, msg),
    }
}

/// A `ParseError` whose message is `prefix` followed by `detail`.
pub fn parse_error(prefix: &str, detail: &str) -> (r: AsusctlError)
    ensures
        is_parse_error(r, prefix@ + detail@),
{
    AsusctlError::ParseError(prefix.to_owned().concat(detail))
}

} // verus!
