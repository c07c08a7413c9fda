//! The authorization check: may the caller run the entry?
//!
//! The check looks names up in the identity database, which only the host
//! can reach. So it is written as a dialogue: it names the user to look up,
//! the host answers with that user's id, and the check names the next user
//! or decides.

use vstd::prelude::*;
use crate::entry::{Entry, EntryView};
use crate::error::{Error, ErrorKind, ErrorView};

verus! {

/// What the check asks for or decides.
#[derive(Debug, PartialEq, Eq)]
pub enum Verdict {
    /// The id of the user `name` is needed to go on.
    Lookup { name: String },
    /// The caller may run the entry.
    Granted,
    /// The caller may not run the entry.
    Denied,
}

/// The mathematical content of a [`Verdict`].
pub enum VerdictView {
    Lookup { name: Seq<char> },
    Granted,
    Denied,
}

impl View for Verdict {
    type V = VerdictView;

    open spec fn view(&self) -> VerdictView {
        match self {
            Verdict::Lookup { name } => VerdictView::Lookup { name: name@ },
            Verdict::Granted => VerdictView::Granted,
            Verdict::Denied => VerdictView::Denied,
        }
    }
}

impl Clone for Verdict {
    fn clone(&self) -> (copy: Verdict)
        ensures
            copy@ == self@,
    {
        match self {
            Verdict::Lookup { name } => Verdict::Lookup { name: name.clone() },
            Verdict::Granted => Verdict::Granted,
            Verdict::Denied => Verdict::Denied,
        }
    }
}

/// The user examined at `position`: the allowed users in their order, then
/// the target user.
pub open spec fn candidate(e: EntryView, position: int) -> Seq<char> {
    if 0 <= position < e.users.len() {
        e.users[position]
    } else {
        e.dest_user
    }
}

/// How the check begins: root is granted at once, for anyone else the first
/// candidate is looked up.
pub open spec fn allowed_first(userid: u32, e: EntryView) -> VerdictView {
    if userid == 0 {
        VerdictView::Granted
    } else {
        VerdictView::Lookup { name: candidate(e, 0) }
    }
}

/// How the check goes on once the candidate at `position` was looked up.
/// `found` is that user's id, or `None` if the name did not resolve. A
/// candidate with the caller's id settles the matter; else the next one is
/// looked up, and behind the target user nothing is left.
pub open spec fn allowed_next(userid: u32, e: EntryView, position: int, found: Option<u32>)
    -> VerdictView {
    if userid == 0 || found == Some(userid) {
        VerdictView::Granted
    } else if 0 <= position < e.users.len() {
        VerdictView::Lookup { name: candidate(e, position + 1) }
    } else {
        VerdictView::Denied
    }
}

/// The error that a denied caller gets.
pub open spec fn denial() -> ErrorView {
    ErrorView {
        kind: ErrorKind::PermissionDenied,
        message: "Not allowed to become target user"@,
    }
}

/// Whether the check, taken up at `position`, ends in a grant when every
/// lookup is answered by `resolve`.
pub open spec fn granted_from(
    userid: u32,
    e: EntryView,
    resolve: spec_fn(Seq<char>) -> Option<u32>,
    position: int,
) -> bool
    decreases e.users.len() - position,
{
    match allowed_next(userid, e, position, resolve(candidate(e, position))) {
        VerdictView::Granted => true,
        VerdictView::Denied => false,
        VerdictView::Lookup { .. } => if 0 <= position < e.users.len() {
            granted_from(userid, e, resolve, position + 1)
        } else {
            false
        },
    }
}

/// Whether the whole check ends in a grant when every lookup is answered by
/// `resolve`.
pub open spec fn granted(userid: u32, e: EntryView, resolve: spec_fn(Seq<char>) -> Option<u32>)
    -> bool {
    match allowed_first(userid, e) {
        VerdictView::Granted => true,
        VerdictView::Denied => false,
        VerdictView::Lookup { .. } => granted_from(userid, e, resolve, 0),
    }
}

/// Whether the caller's id is that of an allowed user from `position` on, or
/// that of the target user.
pub open spec fn listed_from(
    userid: u32,
    e: EntryView,
    resolve: spec_fn(Seq<char>) -> Option<u32>,
    position: int,
) -> bool {
    ||| exists|i: int|
        position <= i < e.users.len() && resolve(#[trigger] e.users[i]) == Some(userid)
    ||| resolve(e.dest_user) == Some(userid)
}

/// Begins the check for the caller with effective id `userid`.
pub fn ensure_allowed(userid: u32, entry: &Entry) -> (verdict: Verdict)
    ensures
        verdict@ == allowed_first(userid, entry@),
{
    if userid == 0 {
        return Verdict::Granted;
    }
    Verdict::Lookup { name: candidate_name(entry, 0) }
}

/// Goes on with the check once the candidate at `position` was looked up and
/// `found` came back: the id, or `None` for a name that did not resolve.
pub fn ensure_allowed_next(
    userid: u32,
    entry: &Entry,
    position: usize,
    found: Option<u32>,
) -> (verdict: Verdict)
    ensures
        verdict@ == allowed_next(userid, entry@, position as int, found),
{
    if userid == 0 {
        return Verdict::Granted;
    }
    match found {
        Some(id) => {
            if id == userid {
                return Verdict::Granted;
            }
        },
        None => {},
    }
    if position < entry.users.len() {
        Verdict::Lookup { name: candidate_name(entry, position + 1) }
    } else {
        Verdict::Denied
    }
}

/// The name of the user examined at `position`.
pub fn candidate_name(entry: &Entry, position: usize) -> (name: String)
    ensures
        name@ == candidate(entry@, position as int),
{
    if position < entry.users.len() {
        entry.users[position].clone()
    } else {
        entry.dest_user.clone()
    }
}

/// The error for a denied caller.
pub fn not_allowed() -> (error: Error)
    ensures
        error@ == denial(),
{
    Error {
        kind: ErrorKind::PermissionDenied,
        message: "Not allowed to become target user".to_owned(),
    }
}

/// Root is always granted, whoever is listed and whatever resolves.
pub proof fn law_root_is_granted(e: EntryView, resolve: spec_fn(Seq<char>) -> Option<u32>)
    ensures
        granted(0, e, resolve),
        forall|position: int, found: Option<u32>|
            allowed_next(0, e, position, found) == VerdictView::Granted,
{
}

/// Taken up at `position`, the check grants exactly the callers whose id is
/// that of an allowed user from there on, or that of the target user.
pub proof fn law_granted_from(
    userid: u32,
    e: EntryView,
    resolve: spec_fn(Seq<char>) -> Option<u32>,
    position: int,
)
    requires
        userid != 0,
        0 <= position <= e.users.len(),
    ensures
        granted_from(userid, e, resolve, position) == listed_from(userid, e, resolve, position),
    decreases e.users.len() - position,
{
    if position < e.users.len() {
        if resolve(e.users[position]) != Some(userid) {
            law_granted_from(userid, e, resolve, position + 1);
        }
    }
}

/// Anyone but root is granted if and only if their id is the resolved id of
/// an allowed user or of the target user. A name that does not resolve
/// matches nobody.
pub proof fn law_granted_iff_listed(
    userid: u32,
    e: EntryView,
    resolve: spec_fn(Seq<char>) -> Option<u32>,
)
    requires
        userid != 0,
    ensures
        granted(userid, e, resolve) <==> {
            ||| exists|i: int|
                0 <= i < e.users.len() && resolve(#[trigger] e.users[i]) == Some(userid)
            ||| resolve(e.dest_user) == Some(userid)
        },
{
    law_granted_from(userid, e, resolve, 0);
}

} // verus!
