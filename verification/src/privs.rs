//! The change of identity and the hardening that follows it.

use vstd::prelude::*;
use crate::entry::{Entry, EntryView};
use crate::identity::{Passwd, PasswdView};
use crate::steps::{advanced_through, fresh, pending, Op, OpView, law_in_order_until_failure};

verus! {

/// The operations that turn the process into the user `p`, in the one order
/// that works: the supplementary groups and the group id need the privilege
/// that is gone once the user id has changed, so the user id comes after
/// both; the working directory comes last.
pub open spec fn identity_change(p: PasswdView) -> Seq<OpView> {
    seq![
        OpView::InitGroups { user: p.pw_name, gid: p.pw_gid },
        OpView::SetGid { gid: p.pw_gid },
        OpView::SetUid { uid: p.pw_uid },
        OpView::ChangeDir { dir: p.pw_dir },
    ]
}

/// The operations that harden the process for entry `e`: none unless the
/// entry asks for it, else dumping is switched off, then the gain of
/// privileges.
pub open spec fn hardening(e: EntryView) -> Seq<OpView> {
    if e.no_new_privs {
        seq![OpView::DisableDump, OpView::NoNewPrivs]
    } else {
        Seq::empty()
    }
}

/// The operation that the host is asked for once the operations of the
/// identity change have ended as `failures` say; `None` once the change is
/// over, be it complete or failed.
pub open spec fn asked_after(p: PasswdView, failures: Seq<Option<Seq<char>>>) -> Option<OpView> {
    match advanced_through(fresh(identity_change(p)), failures) {
        Ok(t) => pending(t),
        Err(_) => None,
    }
}

/// The operations that turn the process into the user `passwd`.
pub fn become_user(passwd: &Passwd) -> (plan: Vec<Op>)
    ensures
        plan.deep_view() == identity_change(passwd@),
{
    let mut plan: Vec<Op> = Vec::new();
    plan.push(Op::InitGroups { user: passwd.pw_name.clone(), gid: passwd.pw_gid });
    plan.push(Op::SetGid { gid: passwd.pw_gid });
    plan.push(Op::SetUid { uid: passwd.pw_uid });
    plan.push(Op::ChangeDir { dir: passwd.pw_dir.clone() });
    plan
}

/// The operations that harden the process before the command of `entry`
/// runs.
pub fn drop_privs(entry: &Entry) -> (plan: Vec<Op>)
    ensures
        plan.deep_view() == hardening(entry@),
{
    let mut plan: Vec<Op> = Vec::new();
    if entry.no_new_privs {
        plan.push(Op::DisableDump);
        plan.push(Op::NoNewPrivs);
    }
    plan
}

/// The user id changes only after the supplementary groups were set and the
/// group id was changed, both with success. Whatever the outcomes: when the
/// host is asked to set the user id, exactly two operations have ended, both
/// well, and they were asked for in this order: groups, group id.
pub proof fn law_groups_before_user(p: PasswdView, failures: Seq<Option<Seq<char>>>)
    ensures
        asked_after(p, failures) == Some(OpView::SetUid { uid: p.pw_uid }) ==> {
            &&& failures.len() == 2
            &&& failures[0] is None
            &&& failures[1] is None
            &&& asked_after(p, failures.take(0)) == Some(
                OpView::InitGroups { user: p.pw_name, gid: p.pw_gid },
            )
            &&& asked_after(p, failures.take(1)) == Some(OpView::SetGid { gid: p.pw_gid })
        },
{
    let plan = identity_change(p);
    law_in_order_until_failure(plan, failures);
    if asked_after(p, failures) == Some(OpView::SetUid { uid: p.pw_uid }) {
        law_in_order_until_failure(plan, failures.take(0));
        law_in_order_until_failure(plan, failures.take(1));
    }
}

/// A change of identity that is complete has gone through all four
/// operations in their order, and each of them has succeeded.
pub proof fn law_complete_change(p: PasswdView, failures: Seq<Option<Seq<char>>>)
    requires
        failures.len() == 4,
    ensures
        advanced_through(fresh(identity_change(p)), failures) is Ok <==> forall|i: int|
            0 <= i < 4 ==> failures[i] is None,
        forall|k: int|
            0 <= k < 4 && (forall|i: int| 0 <= i < k ==> failures[i] is None) ==> asked_after(
                p,
                #[trigger] failures.take(k),
            ) == Some(identity_change(p)[k]),
{
    let plan = identity_change(p);
    law_in_order_until_failure(plan, failures);
    assert forall|k: int|
        0 <= k < 4 && (forall|i: int| 0 <= i < k ==> failures[i] is None) implies asked_after(
        p,
        #[trigger] failures.take(k),
    ) == Some(plan[k]) by {
        law_in_order_until_failure(plan, failures.take(k));
        if let Err(e) = advanced_through(fresh(plan), failures.take(k)) {
            let j = choose|j: int|
                {
                    &&& 0 <= j < failures.take(k).len()
                    &&& #[trigger] failures.take(k)[j] == Some(e.message)
                };
            assert(failures.take(k)[j] == failures[j]);
        }
    }
}

} // verus!
