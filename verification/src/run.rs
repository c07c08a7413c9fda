//! One run of the tool, from the name of an entry to the start of its
//! command.
//!
//! The run is a dialogue with the host. [`exec`] begins it; [`Run::request`]
//! says what the host has to do next; [`Run::step`] takes the host's answer
//! and moves on. The host decides nothing: it performs each request once,
//! answers it, and stops at [`Request::Exit`].

use vstd::prelude::*;
use vstd::string::StringExecFns;
use crate::args::{create_execv_args, execv_args};
use crate::auth::{
    allowed_first,
    allowed_next,
    candidate,
    candidate_name,
    denial,
    ensure_allowed,
    ensure_allowed_next,
    not_allowed,
    Verdict,
    VerdictView,
};
use crate::entry::{blank, Entry, EntryView};
use crate::environ::{first_missing, missing_variable, sanitizing, setup_environment};
use crate::error::{exit_code, exit_status, failure_view, report, Error, ErrorKind, ErrorView};
use crate::identity::{Passwd, PasswdView};
use crate::policy::{assigned_lines, create_entry, ignored_words};
use crate::privs::{become_user, drop_privs, hardening, identity_change};
use crate::steps::{advanced, failure_text, fresh, pending, Op, OpView, Sequence, SequenceView};
use crate::text::{duplicate_all, lines};

verus! {

/// What the host is asked to do.
#[derive(Debug, PartialEq, Eq)]
pub enum Request {
    /// Say whether a file exists at `path`. Answered by [`Reply::Exists`].
    PolicyExists { path: String },
    /// Read the file at `path`. Answered by [`Reply::Text`].
    ReadPolicy { path: String },
    /// Tell the user that the lines with these words were ignored. Any
    /// reply will do as the answer.
    Warn { ignored: Vec<String> },
    /// Look the user `name` up. Answered by [`Reply::Identity`].
    Lookup { name: String },
    /// Say under which effective user id the process runs. Answered by
    /// [`Reply::Uid`].
    EffectiveUid,
    /// Read the variables `names` from the environment. Answered by
    /// [`Reply::Vars`].
    CaptureEnv { names: Vec<String> },
    /// Perform `op`. Answered by [`Reply::Status`].
    Perform { op: Op },
    /// Leave with `code`, after telling the user of `failure` if there is
    /// one. The run is over.
    Exit { code: i32, failure: Option<Error> },
}

/// The mathematical content of a [`Request`].
pub enum RequestView {
    PolicyExists { path: Seq<char> },
    ReadPolicy { path: Seq<char> },
    Warn { ignored: Seq<Seq<char>> },
    Lookup { name: Seq<char> },
    EffectiveUid,
    CaptureEnv { names: Seq<Seq<char>> },
    Perform { op: OpView },
    Exit { code: i32, failure: Option<ErrorView> },
}

impl View for Request {
    type V = RequestView;

    open spec fn view(&self) -> RequestView {
        match self {
            Request::PolicyExists { path } => RequestView::PolicyExists { path: path@ },
            Request::ReadPolicy { path } => RequestView::ReadPolicy { path: path@ },
            Request::Warn { ignored } => RequestView::Warn { ignored: ignored.deep_view() },
            Request::Lookup { name } => RequestView::Lookup { name: name@ },
            Request::EffectiveUid => RequestView::EffectiveUid,
            Request::CaptureEnv { names } => RequestView::CaptureEnv { names: names.deep_view() },
            Request::Perform { op } => RequestView::Perform { op: op@ },
            Request::Exit { code, failure } => RequestView::Exit {
                code: *code,
                failure: failure_view(*failure),
            },
        }
    }
}

impl Clone for Request {
    fn clone(&self) -> (copy: Request)
        ensures
            copy@ == self@,
    {
        match self {
            Request::PolicyExists { path } => Request::PolicyExists { path: path.clone() },
            Request::ReadPolicy { path } => Request::ReadPolicy { path: path.clone() },
            Request::Warn { ignored } => Request::Warn { ignored: duplicate_all(ignored) },
            Request::Lookup { name } => Request::Lookup { name: name.clone() },
            Request::EffectiveUid => Request::EffectiveUid,
            Request::CaptureEnv { names } => Request::CaptureEnv { names: duplicate_all(names) },
            Request::Perform { op } => Request::Perform { op: op.clone() },
            Request::Exit { code, failure } => Request::Exit {
                code: *code,
                failure: match failure {
                    Some(error) => Some(error.clone()),
                    None => None,
                },
            },
        }
    }
}

/// What the host answers.
#[derive(Debug, PartialEq, Eq)]
pub enum Reply {
    /// Whether the file exists.
    Exists(bool),
    /// The content of the file, or the system's text for why it could not
    /// be read.
    Text(Result<String, String>),
    /// The record of the user, or the system's text for why there is none.
    Identity(Result<Passwd, String>),
    /// The effective user id.
    Uid(u32),
    /// For each name that was asked for, in the same order: the value of
    /// the variable, or `None` if it is not set.
    Vars(Vec<Option<String>>),
    /// How the operation ended: well, or with the system's text for the
    /// failure.
    Status(Result<(), String>),
}

/// The mathematical content of a [`Reply`].
pub enum ReplyView {
    Exists(bool),
    Text(Result<Seq<char>, Seq<char>>),
    Identity(Result<PasswdView, Seq<char>>),
    Uid(u32),
    Vars(Seq<Option<Seq<char>>>),
    /// The text of the failure; `None` for a success.
    Status(Option<Seq<char>>),
}

impl View for Reply {
    type V = ReplyView;

    open spec fn view(&self) -> ReplyView {
        match self {
            Reply::Exists(found) => ReplyView::Exists(*found),
            Reply::Text(read) => ReplyView::Text(
                match read {
                    Ok(text) => Ok(text@),
                    Err(why) => Err(why@),
                },
            ),
            Reply::Identity(found) => ReplyView::Identity(
                match found {
                    Ok(passwd) => Ok(passwd@),
                    Err(why) => Err(why@),
                },
            ),
            Reply::Uid(uid) => ReplyView::Uid(*uid),
            Reply::Vars(values) => ReplyView::Vars(values.deep_view()),
            Reply::Status(outcome) => ReplyView::Status(failure_text(*outcome)),
        }
    }
}

/// How far a run has come. Each stage waits for the answer to the request
/// that [`Run::request`] names.
#[derive(Debug, PartialEq, Eq)]
pub enum Run {
    /// Waits to hear whether the policy file exists.
    Locate { path: String, cmdargs: Vec<String> },
    /// Waits for the content of the policy file.
    Read { path: String, cmdargs: Vec<String> },
    /// Waits for the user to be told of ignored lines.
    Warn { entry: Entry, ignored: Vec<String>, cmdargs: Vec<String> },
    /// Waits for the record of the target user.
    Resolve { entry: Entry, cmdargs: Vec<String> },
    /// Waits for the effective user id of the caller.
    Identify { entry: Entry, target: Passwd, cmdargs: Vec<String> },
    /// Waits for the record of the candidate at `position`.
    Authorize { entry: Entry, target: Passwd, argv: Vec<String>, userid: u32, position: usize },
    /// The caller is authorized. Waits for the pending operation of the
    /// identity change or, once that is complete, for the values of the
    /// inherited variables.
    Switch { entry: Entry, target: Passwd, argv: Vec<String>, steps: Sequence },
    /// Waits for the pending operation of what is left: the new
    /// environment, the hardening, the start of the command. With nothing
    /// pending the run has ended well.
    Finish { steps: Sequence },
    /// The run has failed.
    Failed { error: Error },
}

/// The mathematical content of a [`Run`].
pub enum RunView {
    Locate { path: Seq<char>, cmdargs: Seq<Seq<char>> },
    Read { path: Seq<char>, cmdargs: Seq<Seq<char>> },
    Warn { entry: EntryView, ignored: Seq<Seq<char>>, cmdargs: Seq<Seq<char>> },
    Resolve { entry: EntryView, cmdargs: Seq<Seq<char>> },
    Identify { entry: EntryView, target: PasswdView, cmdargs: Seq<Seq<char>> },
    Authorize {
        entry: EntryView,
        target: PasswdView,
        argv: Seq<Seq<char>>,
        userid: u32,
        position: nat,
    },
    Switch { entry: EntryView, target: PasswdView, argv: Seq<Seq<char>>, steps: SequenceView },
    Finish { steps: SequenceView },
    Failed { error: ErrorView },
}

impl View for Run {
    type V = RunView;

    open spec fn view(&self) -> RunView {
        match self {
            Run::Locate { path, cmdargs } => RunView::Locate {
                path: path@,
                cmdargs: cmdargs.deep_view(),
            },
            Run::Read { path, cmdargs } => RunView::Read {
                path: path@,
                cmdargs: cmdargs.deep_view(),
            },
            Run::Warn { entry, ignored, cmdargs } => RunView::Warn {
                entry: entry@,
                ignored: ignored.deep_view(),
                cmdargs: cmdargs.deep_view(),
            },
            Run::Resolve { entry, cmdargs } => RunView::Resolve {
                entry: entry@,
                cmdargs: cmdargs.deep_view(),
            },
            Run::Identify { entry, target, cmdargs } => RunView::Identify {
                entry: entry@,
                target: target@,
                cmdargs: cmdargs.deep_view(),
            },
            Run::Authorize { entry, target, argv, userid, position } => RunView::Authorize {
                entry: entry@,
                target: target@,
                argv: argv.deep_view(),
                userid: *userid,
                position: *position as nat,
            },
            Run::Switch { entry, target, argv, steps } => RunView::Switch {
                entry: entry@,
                target: target@,
                argv: argv.deep_view(),
                steps: steps@,
            },
            Run::Finish { steps } => RunView::Finish { steps: steps@ },
            Run::Failed { error } => RunView::Failed { error: error@ },
        }
    }
}

/// Where the policy file of the entry `entryname` lies.
pub open spec fn policy_path(entryname: Seq<char>) -> Seq<char> {
    "/etc/raou.d/"@ + entryname
}

/// The error for an entry without a policy file at `path`.
pub open spec fn not_found(path: Seq<char>) -> ErrorView {
    ErrorView {
        kind: ErrorKind::ConfigNotFound,
        message: "The entry "@ + path + " does not exist"@,
    }
}

/// The text that stands for the system's when a reply does not answer the
/// pending request. Such a reply fails the run as if the request had failed
/// with this text.
pub open spec fn unanswered() -> Seq<char> {
    "unexpected reply"@
}

/// The error of kind `kind` for a request that was not answered.
pub open spec fn unexpected(kind: ErrorKind) -> ErrorView {
    ErrorView { kind, message: unanswered() }
}

/// The error for a user whose lookup failed, where the system said `why`.
pub open spec fn lookup_failure(why: Seq<char>) -> ErrorView {
    report(ErrorKind::LookupFailure, "Lookup of user failed: "@, why)
}

/// The error for an environment that could not be planned, where `why`
/// tells the reason.
pub open spec fn capture_failure(why: Seq<char>) -> ErrorView {
    report(ErrorKind::EnvironmentSetupFailure, "Environment setup failure: "@, why)
}

/// The error that the user sees when `op` has failed and the system said
/// `text`: the text behind a few words that say what was being done. A
/// failed step of the identity change is reported as `PermissionDenied`,
/// since it means that the caller could not become the target user; every
/// other failure keeps the kind that the operation gives it.
pub open spec fn reported(op: OpView, text: Seq<char>) -> ErrorView {
    match op {
        OpView::InitGroups { .. }
        | OpView::SetGid { .. }
        | OpView::SetUid { .. }
        | OpView::ChangeDir { .. } => report(
            ErrorKind::PermissionDenied,
            "Failed to switch user: "@,
            text,
        ),
        OpView::ClearEnv | OpView::SetEnv { .. } => report(
            ErrorKind::EnvironmentSetupFailure,
            "Environment setup failure: "@,
            text,
        ),
        OpView::DisableDump | OpView::NoNewPrivs => report(
            ErrorKind::PrivilegeDropFailure,
            "Failed to drop priviliges: "@,
            text,
        ),
        OpView::Exec { .. } => report(ErrorKind::ExecFailure, "execv failed: "@, text),
    }
}

/// What is left to do once the values `captured` of the inherited variables
/// are known: the new environment, the hardening, the start of the command.
pub open spec fn remaining(
    e: EntryView,
    target: PasswdView,
    argv: Seq<Seq<char>>,
    captured: Seq<Option<Seq<char>>>,
) -> Seq<OpView> {
    sanitizing(target, e.inherit_envs, captured) + hardening(e) + seq![
        OpView::Exec { path: e.cmd, argv },
    ]
}

/// The stage at which a run for the entry `entryname` begins.
pub open spec fn start(entryname: Seq<char>, cmdargs: Seq<Seq<char>>) -> RunView {
    RunView::Locate { path: policy_path(entryname), cmdargs }
}

/// The stage that follows the reading of the policy file with content
/// `text`.
pub open spec fn loaded(text: Seq<char>, cmdargs: Seq<Seq<char>>) -> RunView {
    let entry = assigned_lines(blank(), lines(text));
    let ignored = ignored_words(lines(text));
    if ignored.len() > 0 {
        RunView::Warn { entry, ignored, cmdargs }
    } else {
        RunView::Resolve { entry, cmdargs }
    }
}

/// The user id that a lookup has found: none if the name did not resolve.
pub open spec fn found_id(found: Result<PasswdView, Seq<char>>) -> Option<u32> {
    match found {
        Ok(passwd) => Some(passwd.pw_uid),
        Err(_) => None,
    }
}

/// The stage that follows the verdict `verdict` of the authorization check,
/// where a lookup that it asks for is that of the candidate at `position`.
pub open spec fn judged(
    verdict: VerdictView,
    entry: EntryView,
    target: PasswdView,
    argv: Seq<Seq<char>>,
    userid: u32,
    position: nat,
) -> RunView {
    match verdict {
        VerdictView::Granted => RunView::Switch {
            entry,
            target,
            argv,
            steps: fresh(identity_change(target)),
        },
        VerdictView::Lookup { .. } => RunView::Authorize { entry, target, argv, userid, position },
        VerdictView::Denied => RunView::Failed { error: denial() },
    }
}

/// The stage that follows the reading of the inherited variables, where
/// `captured` holds what was read. A missing variable fails the run before
/// anything is changed; else what is left to do is planned.
pub open spec fn planned(
    entry: EntryView,
    target: PasswdView,
    argv: Seq<Seq<char>>,
    captured: Seq<Option<Seq<char>>>,
) -> RunView {
    let k = first_missing(captured, 0, entry.inherit_envs.len() as int);
    if k < entry.inherit_envs.len() {
        RunView::Failed {
            error: capture_failure(missing_variable(entry.inherit_envs[k]).message),
        }
    } else {
        RunView::Finish { steps: fresh(remaining(entry, target, argv, captured)) }
    }
}

/// The stage that follows the end of the pending operation `op` of `steps`.
pub open spec fn performed_step(steps: SequenceView, op: OpView, failure: Option<Seq<char>>)
    -> Result<SequenceView, ErrorView> {
    match advanced(steps, failure) {
        Ok(moved) => Ok(moved),
        Err(inner) => Err(reported(op, inner.message)),
    }
}

/// The request that the host has to serve at the stage `run`.
pub open spec fn request_of(run: RunView) -> RequestView {
    match run {
        RunView::Locate { path, .. } => RequestView::PolicyExists { path },
        RunView::Read { path, .. } => RequestView::ReadPolicy { path },
        RunView::Warn { ignored, .. } => RequestView::Warn { ignored },
        RunView::Resolve { entry, .. } => RequestView::Lookup { name: entry.dest_user },
        RunView::Identify { .. } => RequestView::EffectiveUid,
        RunView::Authorize { entry, position, .. } => RequestView::Lookup {
            name: candidate(entry, position as int),
        },
        RunView::Switch { entry, steps, .. } => match pending(steps) {
            Some(op) => RequestView::Perform { op },
            None => RequestView::CaptureEnv { names: entry.inherit_envs },
        },
        RunView::Finish { steps } => match pending(steps) {
            Some(op) => RequestView::Perform { op },
            None => RequestView::Exit { code: exit_status(None), failure: None },
        },
        RunView::Failed { error } => RequestView::Exit {
            code: exit_status(Some(error)),
            failure: Some(error),
        },
    }
}

/// The stage that follows `run` when the host answers `reply`.
///
/// A reply of another kind than the request asks for fails the run, as if
/// the request had failed. A run that is over stays as it is.
pub open spec fn stepped(run: RunView, reply: ReplyView) -> RunView {
    match run {
        RunView::Locate { path, cmdargs } => match reply {
            ReplyView::Exists(found) => if found {
                RunView::Read { path, cmdargs }
            } else {
                RunView::Failed { error: not_found(path) }
            },
            _ => RunView::Failed { error: unexpected(ErrorKind::ConfigNotFound) },
        },
        RunView::Read { path, cmdargs } => match reply {
            ReplyView::Text(Ok(text)) => loaded(text, cmdargs),
            ReplyView::Text(Err(why)) => RunView::Failed {
                error: ErrorView { kind: ErrorKind::ConfigReadFailure, message: why },
            },
            _ => RunView::Failed { error: unexpected(ErrorKind::ConfigReadFailure) },
        },
        RunView::Warn { entry, ignored, cmdargs } => RunView::Resolve { entry, cmdargs },
        RunView::Resolve { entry, cmdargs } => match reply {
            ReplyView::Identity(Ok(target)) => RunView::Identify { entry, target, cmdargs },
            ReplyView::Identity(Err(why)) => RunView::Failed { error: lookup_failure(why) },
            _ => RunView::Failed { error: lookup_failure(unanswered()) },
        },
        RunView::Identify { entry, target, cmdargs } => match reply {
            ReplyView::Uid(userid) => judged(
                allowed_first(userid, entry),
                entry,
                target,
                execv_args(entry, cmdargs),
                userid,
                0,
            ),
            _ => RunView::Failed { error: unexpected(ErrorKind::PermissionDenied) },
        },
        RunView::Authorize { entry, target, argv, userid, position } => match reply {
            ReplyView::Identity(found) => judged(
                allowed_next(userid, entry, position as int, found_id(found)),
                entry,
                target,
                argv,
                userid,
                position + 1,
            ),
            _ => RunView::Failed { error: unexpected(ErrorKind::PermissionDenied) },
        },
        RunView::Switch { entry, target, argv, steps } => match pending(steps) {
            Some(op) => match reply {
                ReplyView::Status(failure) => match performed_step(steps, op, failure) {
                    Ok(moved) => RunView::Switch { entry, target, argv, steps: moved },
                    Err(error) => RunView::Failed { error },
                },
                _ => RunView::Failed { error: reported(op, unanswered()) },
            },
            None => match reply {
                ReplyView::Vars(captured) => planned(entry, target, argv, captured),
                _ => RunView::Failed { error: capture_failure(unanswered()) },
            },
        },
        RunView::Finish { steps } => match pending(steps) {
            Some(op) => match reply {
                ReplyView::Status(failure) => match performed_step(steps, op, failure) {
                    Ok(moved) => RunView::Finish { steps: moved },
                    Err(error) => RunView::Failed { error },
                },
                _ => RunView::Failed { error: reported(op, unanswered()) },
            },
            None => run,
        },
        RunView::Failed { .. } => run,
    }
}

/// The stage that `run` has come to after the host answered with each of
/// `replies` in turn.
pub open spec fn stepped_through(run: RunView, replies: Seq<ReplyView>) -> RunView
    decreases replies.len(),
{
    if replies.len() == 0 {
        run
    } else {
        stepped(stepped_through(run, replies.drop_last()), replies.last())
    }
}

/// Whether the stage `run` lies behind the authorization: operations on the
/// process are asked for at such stages only.
pub open spec fn authorized(run: RunView) -> bool {
    run is Switch || run is Finish
}

/// The error for a request that was not answered.
fn unexpected_reply(kind: ErrorKind) -> (error: Error)
    ensures
        error@ == unexpected(kind),
{
    Error { kind, message: "unexpected reply".to_owned() }
}

/// The error for an entry without a policy file at `path`.
pub fn report_missing(path: &str) -> (error: Error)
    ensures
        error@ == not_found(path@),
{
    let message = String::from_str("The entry ").concat(path).concat(" does not exist");
    Error { kind: ErrorKind::ConfigNotFound, message }
}

/// The error for a user whose lookup failed, where the system said `why`.
pub fn report_lookup(why: &str) -> (error: Error)
    ensures
        error@ == lookup_failure(why@),
{
    Error::new(ErrorKind::LookupFailure, "Lookup of user failed: ", why)
}

/// The error for an environment that could not be planned, where `why`
/// tells the reason.
pub fn report_capture(why: &str) -> (error: Error)
    ensures
        error@ == capture_failure(why@),
{
    Error::new(ErrorKind::EnvironmentSetupFailure, "Environment setup failure: ", why)
}

/// The error that the user sees when `op` has failed and the system said
/// `text`.
pub fn report_failure(op: &Op, text: &str) -> (error: Error)
    ensures
        error@ == reported(op@, text@),
{
    match op {
        Op::InitGroups { .. } | Op::SetGid { .. } | Op::SetUid { .. } | Op::ChangeDir { .. } => {
            Error::new(ErrorKind::PermissionDenied, "Failed to switch user: ", text)
        },
        Op::ClearEnv | Op::SetEnv { .. } => Error::new(
            ErrorKind::EnvironmentSetupFailure,
            "Environment setup failure: ",
            text,
        ),
        Op::DisableDump | Op::NoNewPrivs => Error::new(
            ErrorKind::PrivilegeDropFailure,
            "Failed to drop priviliges: ",
            text,
        ),
        Op::Exec { .. } => Error::new(ErrorKind::ExecFailure, "execv failed: ", text),
    }
}

/// The stage that follows the verdict of the authorization check.
fn judge(
    verdict: Verdict,
    entry: Entry,
    target: Passwd,
    argv: Vec<String>,
    userid: u32,
    position: usize,
) -> (run: Run)
    ensures
        run@ == judged(verdict@, entry@, target@, argv.deep_view(), userid, position as nat),
{
    match verdict {
        Verdict::Granted => {
            let steps = Sequence::new(become_user(&target));
            Run::Switch { entry, target, argv, steps }
        },
        Verdict::Lookup { .. } => Run::Authorize { entry, target, argv, userid, position },
        Verdict::Denied => Run::Failed { error: not_allowed() },
    }
}

/// Records how the pending operation `op` of `steps` ended.
fn perform(steps: Sequence, op: &Op, outcome: Result<(), String>) -> (moved: Result<
    Sequence,
    Error,
>)
    requires
        pending(steps@) == Some(op@),
    ensures
        match moved {
            Ok(sequence) => performed_step(steps@, op@, failure_text(outcome)) == Ok::<
                SequenceView,
                ErrorView,
            >(sequence@),
            Err(error) => performed_step(steps@, op@, failure_text(outcome)) == Err::<
                SequenceView,
                ErrorView,
            >(error@),
        },
{
    match steps.advance(outcome) {
        Ok(sequence) => Ok(sequence),
        Err(inner) => Err(report_failure(op, inner.message.as_str())),
    }
}

/// What is left to do once the values of the inherited variables are known,
/// or the error if one of them is missing.
fn plan_remaining(
    entry: &Entry,
    target: &Passwd,
    argv: Vec<String>,
    captured: &Vec<Option<String>>,
) -> (run: Run)
    ensures
        run@ == planned(entry@, target@, argv.deep_view(), captured.deep_view()),
{
    match setup_environment(target, &entry.inherit_envs, captured) {
        Err(inner) => Run::Failed { error: report_capture(inner.message.as_str()) },
        Ok(ops) => {
            let mut ops = ops;
            let ghost first = ops.deep_view();
            let mut harden = drop_privs(entry);
            let ghost second = harden.deep_view();
            ops.append(&mut harden);
            let last = Op::Exec { path: entry.cmd.clone(), argv };
            ops.push(last);
            assert(ops.deep_view() =~= first + second + seq![last@]);
            Run::Finish { steps: Sequence::new(ops) }
        },
    }
}

/// Begins a run for the entry `entryname`. `cmdargs` is what the tool itself
/// was started with: its own name, the name of the entry, and what the
/// caller added.
pub fn exec(entryname: &str, cmdargs: Vec<String>) -> (run: Run)
    ensures
        run@ == start(entryname@, cmdargs.deep_view()),
{
    Run::Locate { path: String::from_str("/etc/raou.d/").concat(entryname), cmdargs }
}

impl Run {
    /// What the host has to do next.
    pub fn request(&self) -> (request: Request)
        ensures
            request@ == request_of(self@),
    {
        match self {
            Run::Locate { path, .. } => Request::PolicyExists { path: path.clone() },
            Run::Read { path, .. } => Request::ReadPolicy { path: path.clone() },
            Run::Warn { ignored, .. } => Request::Warn { ignored: duplicate_all(ignored) },
            Run::Resolve { entry, .. } => Request::Lookup { name: entry.dest_user.clone() },
            Run::Identify { .. } => Request::EffectiveUid,
            Run::Authorize { entry, position, .. } => Request::Lookup {
                name: candidate_name(entry, *position),
            },
            Run::Switch { entry, steps, .. } => match steps.pending() {
                Some(op) => Request::Perform { op },
                None => Request::CaptureEnv { names: duplicate_all(&entry.inherit_envs) },
            },
            Run::Finish { steps } => match steps.pending() {
                Some(op) => Request::Perform { op },
                None => Request::Exit { code: exit_code(&None), failure: None },
            },
            Run::Failed { error } => {
                let failure = Some(error.clone());
                Request::Exit { code: exit_code(&failure), failure }
            },
        }
    }

    /// Takes the host's answer to the pending request and moves on.
    pub fn step(self, reply: Reply) -> (next: Run)
        ensures
            next@ == stepped(self@, reply@),
    {
        match self {
            Run::Locate { path, cmdargs } => match reply {
                Reply::Exists(found) => {
                    if found {
                        Run::Read { path, cmdargs }
                    } else {
                        Run::Failed { error: report_missing(path.as_str()) }
                    }
                },
                _ => Run::Failed { error: unexpected_reply(ErrorKind::ConfigNotFound) },
            },
            Run::Read { path, cmdargs } => match reply {
                Reply::Text(Ok(text)) => {
                    let (entry, ignored) = create_entry(text.as_str());
                    if ignored.len() > 0 {
                        Run::Warn { entry, ignored, cmdargs }
                    } else {
                        Run::Resolve { entry, cmdargs }
                    }
                },
                Reply::Text(Err(why)) => Run::Failed {
                    error: Error { kind: ErrorKind::ConfigReadFailure, message: why },
                },
                _ => Run::Failed { error: unexpected_reply(ErrorKind::ConfigReadFailure) },
            },
            Run::Warn { entry, ignored, cmdargs } => Run::Resolve { entry, cmdargs },
            Run::Resolve { entry, cmdargs } => match reply {
                Reply::Identity(Ok(target)) => Run::Identify { entry, target, cmdargs },
                Reply::Identity(Err(why)) => Run::Failed { error: report_lookup(why.as_str()) },
                _ => Run::Failed { error: report_lookup("unexpected reply") },
            },
            Run::Identify { entry, target, cmdargs } => match reply {
                Reply::Uid(userid) => {
                    let argv = create_execv_args(&entry, &cmdargs);
                    let verdict = ensure_allowed(userid, &entry);
                    judge(verdict, entry, target, argv, userid, 0)
                },
                _ => Run::Failed { error: unexpected_reply(ErrorKind::PermissionDenied) },
            },
            Run::Authorize { entry, target, argv, userid, position } => match reply {
                Reply::Identity(found) => {
                    let id = match found {
                        Ok(passwd) => Some(passwd.pw_uid),
                        Err(_) => None,
                    };
                    let verdict = ensure_allowed_next(userid, &entry, position, id);
                    // Behind the target user no lookup follows, and the
                    // position is of no use any more.
                    let following = if position < entry.users.len() {
                        position + 1
                    } else {
                        position
                    };
                    judge(verdict, entry, target, argv, userid, following)
                },
                _ => Run::Failed { error: unexpected_reply(ErrorKind::PermissionDenied) },
            },
            Run::Switch { entry, target, argv, steps } => match steps.pending() {
                Some(op) => match reply {
                    Reply::Status(outcome) => match perform(steps, &op, outcome) {
                        Ok(moved) => Run::Switch { entry, target, argv, steps: moved },
                        Err(error) => Run::Failed { error },
                    },
                    _ => Run::Failed { error: report_failure(&op, "unexpected reply") },
                },
                None => match reply {
                    Reply::Vars(captured) => plan_remaining(&entry, &target, argv, &captured),
                    _ => Run::Failed { error: report_capture("unexpected reply") },
                },
            },
            Run::Finish { steps } => match steps.pending() {
                Some(op) => match reply {
                    Reply::Status(outcome) => match perform(steps, &op, outcome) {
                        Ok(moved) => Run::Finish { steps: moved },
                        Err(error) => Run::Failed { error },
                    },
                    _ => Run::Failed { error: report_failure(&op, "unexpected reply") },
                },
                None => Run::Finish { steps },
            },
            Run::Failed { error } => Run::Failed { error },
        }
    }
}

} // verus!
