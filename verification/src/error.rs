//! What can go wrong, and how it is reported.

use vstd::prelude::*;
use vstd::string::StringExecFns;

verus! {

/// The kinds of failure. Each ends the run with exit code 1.
#[derive(Debug, Clone, Copy, PartialEq, Eq, Structural)]
pub enum ErrorKind {
    /// The policy file of the entry does not exist.
    ConfigNotFound,
    /// The policy file exists and could not be read.
    ConfigReadFailure,
    /// A user name did not resolve.
    LookupFailure,
    /// The caller may not run the entry, or could not become its user.
    PermissionDenied,
    /// An inherited variable is missing, or the environment could not be
    /// changed.
    EnvironmentSetupFailure,
    /// A step of the identity change, or of the hardening, failed.
    PrivilegeDropFailure,
    /// The command could not be started.
    ExecFailure,
}

/// A failure: its kind and the line that tells the user about it.
#[derive(Debug, PartialEq, Eq)]
pub struct Error {
    pub kind: ErrorKind,
    pub message: String,
}

/// The mathematical content of an [`Error`].
pub struct ErrorView {
    pub kind: ErrorKind,
    pub message: Seq<char>,
}

impl View for Error {
    type V = ErrorView;

    open spec fn view(&self) -> ErrorView {
        ErrorView { kind: self.kind, message: self.message@ }
    }
}

/// The content of an optional error.
pub open spec fn failure_view(failure: Option<Error>) -> Option<ErrorView> {
    match failure {
        Some(error) => Some(error@),
        None => None,
    }
}

/// The error of kind `kind` whose message is `context` followed by `detail`.
pub open spec fn report(kind: ErrorKind, context: Seq<char>, detail: Seq<char>) -> ErrorView {
    ErrorView { kind, message: context + detail }
}

impl Error {
    /// The error of kind `kind` whose message is `context` followed by
    /// `detail`.
    pub fn new(kind: ErrorKind, context: &str, detail: &str) -> (error: Error)
        ensures
            error@ == report(kind, context@, detail@),
    {
        Error { kind, message: String::from_str(context).concat(detail) }
    }
}

impl Clone for Error {
    fn clone(&self) -> (copy: Error)
        ensures
            copy@ == self@,
    {
        Error { kind: self.kind, message: self.message.clone() }
    }
}

/// Turns the return value of a system call into a result: zero is success,
/// anything else is a failure described by `os_error`, the system's text for
/// the error that the call left behind.
pub fn errnowrapper(ret: i32, os_error: String) -> (outcome: Result<(), String>)
    ensures
        ret == 0 ==> outcome == Ok::<(), String>(()),
        ret != 0 ==> outcome == Err::<(), String>(os_error),
{
    if ret != 0 {
        return Err(os_error);
    }
    Ok(())
}

/// The exit code of a run that ended with `failure`: 0 without one, else 1.
pub open spec fn exit_status(failure: Option<ErrorView>) -> i32 {
    if failure is Some {
        1
    } else {
        0
    }
}

/// The exit code of a run that ended with `failure`.
pub fn exit_code(failure: &Option<Error>) -> (code: i32)
    ensures
        code == exit_status(failure_view(*failure)),
{
    match failure {
        Some(_) => 1,
        None => 0,
    }
}

} // verus!
