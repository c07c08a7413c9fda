//! What holds of every run, whatever the host answers.
//!
//! The laws here are stated of the stages of a run and of the answers that
//! take it from one to the next, as [`crate::run`] defines them.

use vstd::prelude::*;
use crate::args::execv_args;
use crate::auth::{allowed_next, candidate, denial, granted, granted_from, VerdictView};
use crate::entry::EntryView;
use crate::environ::{
    capture,
    performed_all,
    sanitizing,
    Environment,
    law_nothing_missing,
    lemma_performed_both,
};
use crate::error::{exit_status, ErrorKind, ErrorView};
use crate::identity::PasswdView;
use crate::privs::{hardening, identity_change};
use crate::run::{
    authorized,
    found_id,
    not_found,
    policy_path,
    remaining,
    reported,
    request_of,
    start,
    stepped,
    stepped_through,
    ReplyView,
    RequestView,
    RunView,
};
use crate::steps::{fresh, pending, OpView, SequenceView};

verus! {

/// Whether the answer `reply` at the stage `run` is the one that authorizes
/// the caller: the caller is root, or the candidate just looked up has the
/// caller's id.
pub open spec fn grants(run: RunView, reply: ReplyView) -> bool {
    match run {
        RunView::Identify { .. } => reply == ReplyView::Uid(0),
        RunView::Authorize { entry, userid, position, .. } => {
            &&& reply matches ReplyView::Identity(found)
            &&& allowed_next(userid, entry, position as int, found_id(found))
                == VerdictView::Granted
        },
        _ => false,
    }
}

/// A run that has failed stays failed, whatever the host answers: it asks
/// for nothing but the exit with code 1.
pub proof fn law_failure_is_final(error: ErrorView, replies: Seq<ReplyView>)
    ensures
        stepped_through(RunView::Failed { error }, replies) == (RunView::Failed { error }),
        request_of(RunView::Failed { error }) == (RequestView::Exit {
            code: 1,
            failure: Some(error),
        }),
    decreases replies.len(),
{
    if replies.len() > 0 {
        law_failure_is_final(error, replies.drop_last());
    }
}

/// Two runs of replies, one after the other, are one run of both.
pub proof fn lemma_stepped_through_both(run: RunView, first: Seq<ReplyView>, second: Seq<ReplyView>)
    ensures
        stepped_through(run, first + second) == stepped_through(
            stepped_through(run, first),
            second,
        ),
    decreases second.len(),
{
    if second.len() > 0 {
        lemma_stepped_through_both(run, first, second.drop_last());
        assert((first + second).drop_last() =~= first + second.drop_last());
    }
}

/// An entry without a policy file ends the run at once: the first request
/// asks whether the file exists, and after the answer that it does not, the
/// run has failed with `ConfigNotFound` and never asks for anything but the
/// exit with code 1. Nothing was read, looked up, or changed.
pub proof fn law_missing_policy(
    entryname: Seq<char>,
    cmdargs: Seq<Seq<char>>,
    replies: Seq<ReplyView>,
)
    ensures
        request_of(start(entryname, cmdargs)) == (RequestView::PolicyExists {
            path: policy_path(entryname),
        }),
        stepped_through(start(entryname, cmdargs), seq![ReplyView::Exists(false)] + replies) == (
        RunView::Failed { error: not_found(policy_path(entryname)) }),
        not_found(policy_path(entryname)).kind == ErrorKind::ConfigNotFound,
        request_of(
            stepped_through(start(entryname, cmdargs), seq![ReplyView::Exists(false)] + replies),
        ) == (RequestView::Exit {
            code: 1,
            failure: Some(not_found(policy_path(entryname))),
        }),
{
    let begin = start(entryname, cmdargs);
    let first = seq![ReplyView::Exists(false)];
    assert(first.drop_last() =~= Seq::<ReplyView>::empty());
    assert(stepped_through(begin, first) == stepped(
        stepped_through(begin, first.drop_last()),
        first.last(),
    ));
    lemma_stepped_through_both(begin, first, replies);
    law_failure_is_final(not_found(policy_path(entryname)), replies);
}

/// Operations on the process, and the reading of the environment, are asked
/// for only behind the authorization; and a single answer takes a run there
/// only if it is the one that authorizes the caller.
pub proof fn law_operations_need_authorization(run: RunView, reply: ReplyView)
    ensures
        request_of(run) is Perform || request_of(run) is CaptureEnv ==> authorized(run),
        authorized(stepped(run, reply)) && !authorized(run) ==> grants(run, reply),
{
}

/// A run that has come behind the authorization has been given the answer
/// that authorizes the caller: no operation on the process is asked for
/// before the caller is approved.
pub proof fn law_no_operation_before_grant(
    entryname: Seq<char>,
    cmdargs: Seq<Seq<char>>,
    replies: Seq<ReplyView>,
)
    ensures
        authorized(stepped_through(start(entryname, cmdargs), replies)) ==> exists|k: int|
            0 <= k < replies.len() && grants(
                stepped_through(start(entryname, cmdargs), #[trigger] replies.take(k)),
                replies[k],
            ),
    decreases replies.len(),
{
    let begin = start(entryname, cmdargs);
    if replies.len() > 0 && authorized(stepped_through(begin, replies)) {
        let before = replies.drop_last();
        let k = replies.len() - 1;
        assert(replies.take(k) =~= before);
        if authorized(stepped_through(begin, before)) {
            law_no_operation_before_grant(entryname, cmdargs, before);
            let j = choose|j: int|
                0 <= j < before.len() && grants(
                    stepped_through(begin, #[trigger] before.take(j)),
                    before[j],
                );
            assert(before.take(j) =~= replies.take(j));
            assert(grants(stepped_through(begin, replies.take(j)), replies[j]));
        } else {
            law_operations_need_authorization(stepped_through(begin, before), replies.last());
            assert(grants(stepped_through(begin, replies.take(k)), replies[k]));
        }
    }
}

/// Whether the stage `run` lies behind the resolution of the target user.
pub open spec fn resolved(run: RunView) -> bool {
    run is Identify || run is Authorize || run is Switch || run is Finish
}

/// Whether the answer `reply` at the stage `run` is the record of the
/// target user.
pub open spec fn resolves(run: RunView, reply: ReplyView) -> bool {
    run is Resolve && reply matches ReplyView::Identity(Ok(_))
}

/// The target user is resolved before all else that concerns the caller or
/// the process: a run asks for the caller's id, checks the authorization or
/// changes anything only once the host has answered the lookup of the
/// target user with a record.
pub proof fn law_target_resolved_first(
    entryname: Seq<char>,
    cmdargs: Seq<Seq<char>>,
    replies: Seq<ReplyView>,
)
    ensures
        resolved(stepped_through(start(entryname, cmdargs), replies)) ==> exists|k: int|
            0 <= k < replies.len() && resolves(
                stepped_through(start(entryname, cmdargs), #[trigger] replies.take(k)),
                replies[k],
            ),
    decreases replies.len(),
{
    let begin = start(entryname, cmdargs);
    if replies.len() > 0 && resolved(stepped_through(begin, replies)) {
        let before = replies.drop_last();
        let k = replies.len() - 1;
        assert(replies.take(k) =~= before);
        if resolved(stepped_through(begin, before)) {
            law_target_resolved_first(entryname, cmdargs, before);
            let j = choose|j: int|
                0 <= j < before.len() && resolves(
                    stepped_through(begin, #[trigger] before.take(j)),
                    before[j],
                );
            assert(before.take(j) =~= replies.take(j));
            assert(resolves(stepped_through(begin, replies.take(j)), replies[j]));
        } else {
            assert(resolves(stepped_through(begin, replies.take(k)), replies[k]));
        }
    }
}

/// Once the caller is authorized, the failure of any operation ends the
/// run: it has failed with the error of that operation, and nothing more is
/// asked for.
pub proof fn law_failed_operation_ends_run(run: RunView, text: Seq<char>)
    requires
        authorized(run),
        request_of(run) is Perform,
    ensures
        stepped(run, ReplyView::Status(Some(text))) == (RunView::Failed {
            error: reported(request_of(run)->op, text),
        }),
{
}

/// A run ends with code 0 only if no operation is left and none has failed;
/// every failure ends it with code 1.
pub proof fn law_exit_code(run: RunView)
    ensures
        request_of(run) matches RequestView::Exit { code, failure } ==> {
            &&& code == exit_status(failure)
            &&& code == 0 <==> run is Finish
        },
{
}

/// The stage `run` with `done` of its operations done; `run` itself where it
/// has no operations.
pub open spec fn moved_to(run: RunView, done: nat) -> RunView {
    match run {
        RunView::Switch { entry, target, argv, steps } => RunView::Switch {
            entry,
            target,
            argv,
            steps: SequenceView { ops: steps.ops, done },
        },
        RunView::Finish { steps } => RunView::Finish {
            steps: SequenceView { ops: steps.ops, done },
        },
        _ => run,
    }
}

/// The operations of the stage `run` and how many of them are done.
pub open spec fn steps_of(run: RunView) -> SequenceView {
    match run {
        RunView::Switch { steps, .. } => steps,
        RunView::Finish { steps } => steps,
        _ => fresh(Seq::empty()),
    }
}

/// `count` answers that say that an operation has succeeded.
pub open spec fn successes(count: nat) -> Seq<ReplyView> {
    Seq::new(count, |i: int| ReplyView::Status(None))
}

/// Behind the authorization the host is asked for the operations one by
/// one, in their order: after `count` more successes, `count` more are
/// done, and the next one is asked for.
pub proof fn law_operations_in_order(run: RunView, count: nat)
    requires
        authorized(run),
        steps_of(run).done + count <= steps_of(run).ops.len(),
    ensures
        stepped_through(run, successes(count)) == moved_to(run, steps_of(run).done + count),
        steps_of(run).done + count < steps_of(run).ops.len() ==> request_of(
            stepped_through(run, successes(count)),
        ) == (RequestView::Perform { op: steps_of(run).ops[(steps_of(run).done + count) as int] }),
    decreases count,
{
    if count > 0 {
        law_operations_in_order(run, (count - 1) as nat);
        assert(successes(count).drop_last() =~= successes((count - 1) as nat));
    }
}

/// Once the caller is authorized, the run asks for the identity change in
/// its one order, each operation after the success of the one before:
/// supplementary groups, group id, user id, working directory. Only then
/// does it ask for the inherited variables.
pub proof fn law_identity_change_in_order(
    entry: EntryView,
    target: PasswdView,
    argv: Seq<Seq<char>>,
)
    ensures
        ({
            let run = RunView::Switch {
                entry,
                target,
                argv,
                steps: fresh(identity_change(target)),
            };
            &&& request_of(stepped_through(run, successes(0))) == (RequestView::Perform {
                op: OpView::InitGroups { user: target.pw_name, gid: target.pw_gid },
            })
            &&& request_of(stepped_through(run, successes(1))) == (RequestView::Perform {
                op: OpView::SetGid { gid: target.pw_gid },
            })
            &&& request_of(stepped_through(run, successes(2))) == (RequestView::Perform {
                op: OpView::SetUid { uid: target.pw_uid },
            })
            &&& request_of(stepped_through(run, successes(3))) == (RequestView::Perform {
                op: OpView::ChangeDir { dir: target.pw_dir },
            })
            &&& request_of(stepped_through(run, successes(4))) == (RequestView::CaptureEnv {
                names: entry.inherit_envs,
            })
        }),
{
    let run = RunView::Switch { entry, target, argv, steps: fresh(identity_change(target)) };
    law_operations_in_order(run, 0);
    law_operations_in_order(run, 1);
    law_operations_in_order(run, 2);
    law_operations_in_order(run, 3);
    law_operations_in_order(run, 4);
}

/// The stage that a run comes to from `run` when every candidate that the
/// authorization check asks for is looked up in `lookup`.
pub open spec fn authorized_by(
    run: RunView,
    lookup: spec_fn(Seq<char>) -> Result<PasswdView, Seq<char>>,
) -> RunView
    decreases
        (match run {
            RunView::Authorize { entry, position, .. } => entry.users.len() + 1 - position,
            _ => 0,
        }),
{
    match run {
        RunView::Authorize { entry, position, .. } => if position <= entry.users.len() {
            authorized_by(
                stepped(run, ReplyView::Identity(lookup(candidate(entry, position as int)))),
                lookup,
            )
        } else {
            run
        },
        _ => run,
    }
}

/// The check within a run, taken up at `position`, ends behind the
/// authorization exactly if the check grants, and else in the denial.
proof fn lemma_authorized_from(
    entry: EntryView,
    target: PasswdView,
    argv: Seq<Seq<char>>,
    userid: u32,
    position: nat,
    lookup: spec_fn(Seq<char>) -> Result<PasswdView, Seq<char>>,
)
    requires
        userid != 0,
        position <= entry.users.len(),
    ensures
        authorized_by(RunView::Authorize { entry, target, argv, userid, position }, lookup) == (
        if granted_from(userid, entry, |name: Seq<char>| found_id(lookup(name)), position as int) {
            RunView::Switch { entry, target, argv, steps: fresh(identity_change(target)) }
        } else {
            RunView::Failed { error: denial() }
        }),
    decreases entry.users.len() - position,
{
    let run = RunView::Authorize { entry, target, argv, userid, position };
    let found = lookup(candidate(entry, position as int));
    let next = stepped(run, ReplyView::Identity(found));
    assert(authorized_by(run, lookup) == authorized_by(next, lookup));
    if next is Authorize {
        lemma_authorized_from(entry, target, argv, userid, position + 1, lookup);
    }
}

/// A run lets the caller pass exactly if the authorization check grants:
/// with the caller's id known and every candidate looked up in `lookup`, it
/// comes to the identity change if the caller is root or has the id of an
/// allowed user or of the target user, and else it has failed with
/// `PermissionDenied`, nothing changed.
pub proof fn law_run_passes_iff_granted(
    entry: EntryView,
    target: PasswdView,
    cmdargs: Seq<Seq<char>>,
    userid: u32,
    lookup: spec_fn(Seq<char>) -> Result<PasswdView, Seq<char>>,
)
    ensures
        authorized_by(
            stepped(RunView::Identify { entry, target, cmdargs }, ReplyView::Uid(userid)),
            lookup,
        ) == (if granted(userid, entry, |name: Seq<char>| found_id(lookup(name))) {
            RunView::Switch {
                entry,
                target,
                argv: execv_args(entry, cmdargs),
                steps: fresh(identity_change(target)),
            }
        } else {
            RunView::Failed { error: denial() }
        }),
        denial().kind == ErrorKind::PermissionDenied,
{
    if userid != 0 {
        lemma_authorized_from(entry, target, execv_args(entry, cmdargs), userid, 0, lookup);
    }
}

/// Operations that are not on the environment leave it as it is.
proof fn lemma_environment_kept(env: Environment, ops: Seq<OpView>)
    requires
        forall|i: int| 0 <= i < ops.len() ==> !(ops[i] is ClearEnv) && !(ops[i] is SetEnv),
    ensures
        performed_all(env, ops) == env,
    decreases ops.len(),
{
    if ops.len() > 0 {
        lemma_environment_kept(env, ops.drop_last());
    }
}

/// With every inherited variable set in the caller's environment `env`, the
/// answer to the capture takes the run to what is left to do, and the
/// command starts in the environment that the sanitizing operations leave:
/// the hardening and the start of the command change nothing in it.
pub proof fn law_command_environment(
    entry: EntryView,
    target: PasswdView,
    argv: Seq<Seq<char>>,
    steps: SequenceView,
    env: Environment,
)
    requires
        pending(steps) is None,
        forall|i: int|
            0 <= i < entry.inherit_envs.len() ==> env.dom().contains(
                #[trigger] entry.inherit_envs[i],
            ),
    ensures
        ({
            let captured = capture(env, entry.inherit_envs);
            &&& stepped(
                RunView::Switch { entry, target, argv, steps },
                ReplyView::Vars(captured),
            ) == (RunView::Finish { steps: fresh(remaining(entry, target, argv, captured)) })
            &&& performed_all(env, remaining(entry, target, argv, captured)) == performed_all(
                env,
                sanitizing(target, entry.inherit_envs, captured),
            )
        }),
{
    let captured = capture(env, entry.inherit_envs);
    let clean = sanitizing(target, entry.inherit_envs, captured);
    let rest = hardening(entry) + seq![OpView::Exec { path: entry.cmd, argv }];
    law_nothing_missing(env, entry.inherit_envs);
    assert(remaining(entry, target, argv, captured) =~= clean + rest);
    lemma_performed_both(env, clean, rest);
    lemma_environment_kept(performed_all(env, clean), rest);
}

/// Whether what is left to do at the stage `run` ends with the start of the
/// command. This holds throughout every run.
pub open spec fn ends_with_start(run: RunView) -> bool {
    run matches RunView::Finish { steps } ==> steps.ops.len() > 0 && steps.ops.last() is Exec
}

/// Whether the answer `reply` at the stage `run` says that the command has
/// started: the start of the command was asked for, and it has succeeded.
pub open spec fn started(run: RunView, reply: ReplyView) -> bool {
    &&& run matches RunView::Finish { steps }
    &&& pending(steps) matches Some(op)
    &&& op is Exec
    &&& reply == ReplyView::Status(None)
}

/// Every stage of a run ends with the start of the command.
pub proof fn lemma_ends_with_start(
    entryname: Seq<char>,
    cmdargs: Seq<Seq<char>>,
    replies: Seq<ReplyView>,
)
    ensures
        ends_with_start(stepped_through(start(entryname, cmdargs), replies)),
    decreases replies.len(),
{
    if replies.len() > 0 {
        lemma_ends_with_start(entryname, cmdargs, replies.drop_last());
    }
}

/// A run ends with code 0 only if the host has said that the command has
/// started: the operation asked for was the start of the command, and the
/// answer was a success. A host that replaces the process when it starts
/// the command never gives that answer, so that such a run never ends with
/// code 0, and a failed start never passes for a success.
pub proof fn law_success_means_started(
    entryname: Seq<char>,
    cmdargs: Seq<Seq<char>>,
    replies: Seq<ReplyView>,
)
    ensures
        request_of(stepped_through(start(entryname, cmdargs), replies)) == (RequestView::Exit {
            code: 0,
            failure: None,
        }) ==> exists|k: int|
            0 <= k < replies.len() && started(
                stepped_through(start(entryname, cmdargs), #[trigger] replies.take(k)),
                replies[k],
            ),
    decreases replies.len(),
{
    let begin = start(entryname, cmdargs);
    let end = stepped_through(begin, replies);
    if replies.len() > 0 && request_of(end) == (RequestView::Exit { code: 0, failure: None }) {
        let before = replies.drop_last();
        let k = replies.len() - 1;
        let previous = stepped_through(begin, before);
        assert(replies.take(k) =~= before);
        lemma_ends_with_start(entryname, cmdargs, before);
        if request_of(previous) == (RequestView::Exit { code: 0, failure: None }) {
            law_success_means_started(entryname, cmdargs, before);
            let j = choose|j: int|
                0 <= j < before.len() && started(
                    stepped_through(begin, #[trigger] before.take(j)),
                    before[j],
                );
            assert(before.take(j) =~= replies.take(j));
            assert(started(stepped_through(begin, replies.take(j)), replies[j]));
        } else {
            assert(started(stepped_through(begin, replies.take(k)), replies[k]));
        }
    }
}

} // verus!
