//! Operations on the process, and sequences of them that stop at the first
//! failure.

use vstd::prelude::*;
use crate::error::{Error, ErrorKind, ErrorView};
use crate::text::duplicate_all;

verus! {

/// One operation that the host performs on the running process. Each either
/// succeeds or fails; none is tried twice.
#[derive(Debug, PartialEq, Eq)]
pub enum Op {
    /// Take on the supplementary groups of `user`, with `gid` added.
    InitGroups { user: String, gid: u32 },
    /// Set the group id.
    SetGid { gid: u32 },
    /// Set the user id.
    SetUid { uid: u32 },
    /// Make `dir` the working directory.
    ChangeDir { dir: String },
    /// Remove every variable from the environment.
    ClearEnv,
    /// Set the variable `name` to `value`.
    SetEnv { name: String, value: String },
    /// Switch off core dumps and tracing of the process.
    DisableDump,
    /// Switch off any later gain of privileges.
    NoNewPrivs,
    /// Replace the process by the program at `path`, started with `argv`.
    Exec { path: String, argv: Vec<String> },
}

/// The mathematical content of an [`Op`].
pub enum OpView {
    InitGroups { user: Seq<char>, gid: u32 },
    SetGid { gid: u32 },
    SetUid { uid: u32 },
    ChangeDir { dir: Seq<char> },
    ClearEnv,
    SetEnv { name: Seq<char>, value: Seq<char> },
    DisableDump,
    NoNewPrivs,
    Exec { path: Seq<char>, argv: Seq<Seq<char>> },
}

impl DeepView for Op {
    type V = OpView;

    open spec fn deep_view(&self) -> OpView {
        match self {
            Op::InitGroups { user, gid } => OpView::InitGroups { user: user@, gid: *gid },
            Op::SetGid { gid } => OpView::SetGid { gid: *gid },
            Op::SetUid { uid } => OpView::SetUid { uid: *uid },
            Op::ChangeDir { dir } => OpView::ChangeDir { dir: dir@ },
            Op::ClearEnv => OpView::ClearEnv,
            Op::SetEnv { name, value } => OpView::SetEnv { name: name@, value: value@ },
            Op::DisableDump => OpView::DisableDump,
            Op::NoNewPrivs => OpView::NoNewPrivs,
            Op::Exec { path, argv } => OpView::Exec { path: path@, argv: argv.deep_view() },
        }
    }
}

impl View for Op {
    type V = OpView;

    open spec fn view(&self) -> OpView {
        self.deep_view()
    }
}

/// The kind of error that a failure of `op` is.
pub open spec fn failure_kind(op: OpView) -> ErrorKind {
    match op {
        OpView::InitGroups { .. } => ErrorKind::PrivilegeDropFailure,
        OpView::SetGid { .. } => ErrorKind::PrivilegeDropFailure,
        OpView::SetUid { .. } => ErrorKind::PrivilegeDropFailure,
        OpView::ChangeDir { .. } => ErrorKind::PrivilegeDropFailure,
        OpView::ClearEnv => ErrorKind::EnvironmentSetupFailure,
        OpView::SetEnv { .. } => ErrorKind::EnvironmentSetupFailure,
        OpView::DisableDump => ErrorKind::PrivilegeDropFailure,
        OpView::NoNewPrivs => ErrorKind::PrivilegeDropFailure,
        OpView::Exec { .. } => ErrorKind::ExecFailure,
    }
}

impl Clone for Op {
    fn clone(&self) -> (copy: Op)
        ensures
            copy@ == self@,
    {
        match self {
            Op::InitGroups { user, gid } => Op::InitGroups { user: user.clone(), gid: *gid },
            Op::SetGid { gid } => Op::SetGid { gid: *gid },
            Op::SetUid { uid } => Op::SetUid { uid: *uid },
            Op::ChangeDir { dir } => Op::ChangeDir { dir: dir.clone() },
            Op::ClearEnv => Op::ClearEnv,
            Op::SetEnv { name, value } => Op::SetEnv { name: name.clone(), value: value.clone() },
            Op::DisableDump => Op::DisableDump,
            Op::NoNewPrivs => Op::NoNewPrivs,
            Op::Exec { path, argv } => Op::Exec { path: path.clone(), argv: duplicate_all(argv) },
        }
    }

}

impl Op {
    /// The kind of error that a failure of this operation is.
    pub fn kind_of_failure(&self) -> (kind: ErrorKind)
        ensures
            kind == failure_kind(self@),
    {
        match self {
            Op::ClearEnv => ErrorKind::EnvironmentSetupFailure,
            Op::SetEnv { .. } => ErrorKind::EnvironmentSetupFailure,
            Op::Exec { .. } => ErrorKind::ExecFailure,
            _ => ErrorKind::PrivilegeDropFailure,
        }
    }
}

/// Operations to perform one after the other, and how many of them have
/// succeeded so far. The next one is performed only once all before it have
/// succeeded, and the first failure ends the sequence.
#[derive(Debug, PartialEq, Eq)]
pub struct Sequence {
    pub ops: Vec<Op>,
    pub done: usize,
}

/// The mathematical content of a [`Sequence`].
pub struct SequenceView {
    pub ops: Seq<OpView>,
    pub done: nat,
}

impl View for Sequence {
    type V = SequenceView;

    open spec fn view(&self) -> SequenceView {
        SequenceView { ops: self.ops.deep_view(), done: self.done as nat }
    }
}

/// A vector with the same operations.
pub fn duplicate_ops(ops: &Vec<Op>) -> (copy: Vec<Op>)
    ensures
        copy.deep_view() == ops.deep_view(),
{
    let mut copy: Vec<Op> = Vec::new();
    let mut i: usize = 0;
    while i < ops.len()
        invariant
            i <= ops.len(),
            copy.len() == i,
            forall|j: int| 0 <= j < i ==> copy[j]@ == ops[j]@,
        decreases ops.len() - i,
    {
        copy.push(ops[i].clone());
        i += 1;
    }
    copy
}

impl Clone for Sequence {
    fn clone(&self) -> (copy: Sequence)
        ensures
            copy@ == self@,
    {
        Sequence { ops: duplicate_ops(&self.ops), done: self.done }
    }
}

/// The sequence of `ops` of which none was performed yet.
pub open spec fn fresh(ops: Seq<OpView>) -> SequenceView {
    SequenceView { ops, done: 0 }
}

/// The operation to perform next, if one is left.
pub open spec fn pending(s: SequenceView) -> Option<OpView> {
    if s.done < s.ops.len() {
        Some(s.ops[s.done as int])
    } else {
        None
    }
}

/// What the outcome of an operation says of its failure: nothing if it
/// succeeded, else the system's text.
pub open spec fn failure_text(outcome: Result<(), String>) -> Option<Seq<char>> {
    match outcome {
        Ok(_) => None,
        Err(text) => Some(text@),
    }
}

/// The sequence once the pending operation has ended, with `failure` saying
/// how. A success moves on to the next operation. A failure is an error of
/// the operation's kind with the system's text. With nothing pending nothing
/// changes.
pub open spec fn advanced(s: SequenceView, failure: Option<Seq<char>>) -> Result<
    SequenceView,
    ErrorView,
> {
    match pending(s) {
        None => Ok(s),
        Some(op) => match failure {
            None => Ok(SequenceView { ops: s.ops, done: s.done + 1 }),
            Some(text) => Err(ErrorView { kind: failure_kind(op), message: text }),
        },
    }
}

/// The sequence once operation after operation has ended as `failures` say,
/// starting from `s`. An error ends it: what follows is not looked at.
pub open spec fn advanced_through(s: SequenceView, failures: Seq<Option<Seq<char>>>) -> Result<
    SequenceView,
    ErrorView,
>
    decreases failures.len(),
{
    if failures.len() == 0 {
        Ok(s)
    } else {
        match advanced_through(s, failures.drop_last()) {
            Ok(t) => advanced(t, failures.last()),
            Err(e) => Err(e),
        }
    }
}

impl Sequence {
    /// The sequence of `ops`, none performed yet.
    pub fn new(ops: Vec<Op>) -> (sequence: Sequence)
        ensures
            sequence@ == fresh(ops.deep_view()),
    {
        Sequence { ops, done: 0 }
    }

    /// The operation to perform next; `None` once all have succeeded.
    pub fn pending(&self) -> (op: Option<Op>)
        ensures
            op.deep_view() == pending(self@),
    {
        if self.done < self.ops.len() {
            Some(self.ops[self.done].clone())
        } else {
            None
        }
    }

    /// Records how the pending operation ended and moves on.
    pub fn advance(self, outcome: Result<(), String>) -> (next: Result<Sequence, Error>)
        ensures
            match next {
                Ok(sequence) => advanced(self@, failure_text(outcome)) == Ok::<
                    SequenceView,
                    ErrorView,
                >(sequence@),
                Err(error) => advanced(self@, failure_text(outcome)) == Err::<
                    SequenceView,
                    ErrorView,
                >(error@),
            },
    {
        if self.done >= self.ops.len() {
            return Ok(self);
        }
        match outcome {
            Ok(_) => Ok(Sequence { ops: self.ops, done: self.done + 1 }),
            Err(text) => Err(Error { kind: self.ops[self.done].kind_of_failure(), message: text }),
        }
    }
}

/// Operations are performed in their order, each only after all before it
/// have succeeded, and the first failure ends the sequence with the error of
/// the operation that failed. Stated of a fresh sequence and any outcomes:
/// it is still alive exactly if none of the operations reached has failed,
/// and then as many are done as there were outcomes, at most all.
pub proof fn law_in_order_until_failure(ops: Seq<OpView>, failures: Seq<Option<Seq<char>>>)
    ensures
        match advanced_through(fresh(ops), failures) {
            Ok(t) => {
                &&& t.ops == ops
                &&& t.done == if failures.len() <= ops.len() {
                    failures.len()
                } else {
                    ops.len()
                }
                &&& forall|i: int| 0 <= i < t.done ==> failures[i] is None
            },
            Err(e) => exists|k: int|
                {
                    &&& 0 <= k < failures.len()
                    &&& k < ops.len()
                    &&& forall|i: int| 0 <= i < k ==> failures[i] is None
                    &&& #[trigger] failures[k] == Some(e.message)
                    &&& e.kind == failure_kind(ops[k])
                },
        },
    decreases failures.len(),
{
    if failures.len() > 0 {
        let before = failures.drop_last();
        law_in_order_until_failure(ops, before);
        match advanced_through(fresh(ops), before) {
            Ok(t) => {
                assert forall|i: int| 0 <= i < t.done implies failures[i] is None by {
                    assert(before[i] == failures[i]);
                }
                if let Err(e) = advanced(t, failures.last()) {
                    assert(failures[failures.len() - 1] == Some(e.message));
                }
            },
            Err(e) => {
                let k = choose|k: int|
                    {
                        &&& 0 <= k < before.len()
                        &&& k < ops.len()
                        &&& forall|i: int| 0 <= i < k ==> before[i] is None
                        &&& #[trigger] before[k] == Some(e.message)
                        &&& e.kind == failure_kind(ops[k])
                    };
                assert forall|i: int| 0 <= i < k implies failures[i] is None by {
                    assert(before[i] == failures[i]);
                }
                assert(failures[k] == Some(e.message));
            },
        }
    }
}

} // verus!
