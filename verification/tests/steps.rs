use raou::entry::Entry;
use raou::error::{exit_code, Error, ErrorKind};
use raou::identity::Passwd;
use raou::privs::{become_user, drop_privs};
use raou::steps::{Op, Sequence};

fn www() -> Passwd {
    Passwd {
        pw_name: "www".to_string(),
        pw_uid: 33,
        pw_gid: 34,
        pw_dir: "/var/www".to_string(),
        pw_shell: "/usr/sbin/nologin".to_string(),
    }
}

/// Feeds `outcomes` to a fresh sequence of `ops`; returns the operations
/// that were asked for and how it ended.
fn drive(ops: Vec<Op>, outcomes: &[Result<(), &str>]) -> (Vec<Op>, Result<Sequence, Error>) {
    let mut sequence = Sequence::new(ops);
    let mut asked = Vec::new();
    for outcome in outcomes {
        match sequence.pending() {
            Some(op) => asked.push(op),
            None => break,
        }
        match sequence.advance(outcome.map_err(|text| text.to_string())) {
            Ok(next) => sequence = next,
            Err(error) => return (asked, Err(error)),
        }
    }
    (asked, Ok(sequence))
}

#[test]
fn identity_change_has_its_four_operations_in_order() {
    assert_eq!(
        become_user(&www()),
        vec![
            Op::InitGroups { user: "www".to_string(), gid: 34 },
            Op::SetGid { gid: 34 },
            Op::SetUid { uid: 33 },
            Op::ChangeDir { dir: "/var/www".to_string() },
        ]
    );
}

#[test]
fn groups_and_group_id_come_before_the_user_id() {
    let plan = become_user(&www());
    let place = |wanted: fn(&Op) -> bool| plan.iter().position(wanted).unwrap();
    let groups = place(|op| matches!(op, Op::InitGroups { .. }));
    let group_id = place(|op| matches!(op, Op::SetGid { .. }));
    let user_id = place(|op| matches!(op, Op::SetUid { .. }));
    let directory = place(|op| matches!(op, Op::ChangeDir { .. }));
    assert!(groups < group_id);
    assert!(group_id < user_id);
    assert!(user_id < directory);
}

#[test]
fn successful_change_asks_for_every_operation_once_in_order() {
    let plan = become_user(&www());
    let (asked, end) = drive(plan.clone(), &[Ok(()), Ok(()), Ok(()), Ok(())]);
    assert_eq!(asked, plan);
    let end = end.unwrap();
    assert_eq!(end.done, 4);
    assert_eq!(end.pending(), None);
}

#[test]
fn failed_group_setup_never_reaches_the_user_id() {
    let plan = become_user(&www());
    let (asked, end) = drive(plan.clone(), &[Err("Operation not permitted"), Ok(()), Ok(())]);
    assert_eq!(asked, plan[..1].to_vec());
    assert_eq!(
        end,
        Err(Error {
            kind: ErrorKind::PrivilegeDropFailure,
            message: "Operation not permitted".to_string()
        })
    );
}

#[test]
fn failed_group_id_never_reaches_the_user_id() {
    let plan = become_user(&www());
    let (asked, end) = drive(plan.clone(), &[Ok(()), Err("EPERM"), Ok(()), Ok(())]);
    assert_eq!(asked, plan[..2].to_vec());
    assert_eq!(end.unwrap_err().kind, ErrorKind::PrivilegeDropFailure);
}

#[test]
fn each_step_of_the_change_fails_as_privilege_drop_failure() {
    for failing in 0..4 {
        let mut outcomes = vec![Ok(()); 4];
        outcomes[failing] = Err("no");
        let (asked, end) = drive(become_user(&www()), &outcomes);
        assert_eq!(asked.len(), failing + 1);
        assert_eq!(
            end,
            Err(Error { kind: ErrorKind::PrivilegeDropFailure, message: "no".to_string() })
        );
    }
}

#[test]
fn sequence_moves_one_operation_per_success() {
    let sequence = Sequence::new(vec![Op::ClearEnv, Op::DisableDump]);
    assert_eq!(sequence.done, 0);
    assert_eq!(sequence.pending(), Some(Op::ClearEnv));
    let sequence = sequence.advance(Ok(())).unwrap();
    assert_eq!(sequence.done, 1);
    assert_eq!(sequence.pending(), Some(Op::DisableDump));
    let sequence = sequence.advance(Ok(())).unwrap();
    assert_eq!(sequence.done, 2);
    assert_eq!(sequence.pending(), None);
}

#[test]
fn sequence_with_nothing_pending_stays_as_it_is() {
    let sequence = Sequence::new(vec![Op::ClearEnv]).advance(Ok(())).unwrap();
    let same = sequence.clone().advance(Ok(())).unwrap();
    assert_eq!(same, sequence);
    let same = sequence.clone().advance(Err("late".to_string())).unwrap();
    assert_eq!(same, sequence);
    let empty = Sequence::new(Vec::new());
    assert_eq!(empty.pending(), None);
    assert_eq!(empty.clone().advance(Err("x".to_string())).unwrap(), empty);
}

#[test]
fn failure_kind_follows_the_operation() {
    let fail = |op: Op| Sequence::new(vec![op]).advance(Err("why".to_string())).unwrap_err();
    let name = || "n".to_string();
    assert_eq!(fail(Op::InitGroups { user: name(), gid: 1 }).kind, ErrorKind::PrivilegeDropFailure);
    assert_eq!(fail(Op::SetGid { gid: 1 }).kind, ErrorKind::PrivilegeDropFailure);
    assert_eq!(fail(Op::SetUid { uid: 1 }).kind, ErrorKind::PrivilegeDropFailure);
    assert_eq!(fail(Op::ChangeDir { dir: name() }).kind, ErrorKind::PrivilegeDropFailure);
    assert_eq!(fail(Op::ClearEnv).kind, ErrorKind::EnvironmentSetupFailure);
    assert_eq!(
        fail(Op::SetEnv { name: name(), value: name() }).kind,
        ErrorKind::EnvironmentSetupFailure
    );
    assert_eq!(fail(Op::DisableDump).kind, ErrorKind::PrivilegeDropFailure);
    assert_eq!(fail(Op::NoNewPrivs).kind, ErrorKind::PrivilegeDropFailure);
    assert_eq!(fail(Op::Exec { path: name(), argv: vec![] }).kind, ErrorKind::ExecFailure);
    assert_eq!(fail(Op::ClearEnv).message, "why");
}

#[test]
fn kind_of_failure_is_what_advance_reports() {
    assert_eq!(Op::SetUid { uid: 0 }.kind_of_failure(), ErrorKind::PrivilegeDropFailure);
    assert_eq!(Op::ClearEnv.kind_of_failure(), ErrorKind::EnvironmentSetupFailure);
    assert_eq!(
        Op::Exec { path: String::new(), argv: vec![] }.kind_of_failure(),
        ErrorKind::ExecFailure
    );
}

#[test]
fn hardening_is_on_by_default() {
    assert_eq!(drop_privs(&Entry::new()), vec![Op::DisableDump, Op::NoNewPrivs]);
}

#[test]
fn hardening_can_be_switched_off() {
    let mut entry = Entry::new();
    entry.no_new_privs = false;
    assert_eq!(drop_privs(&entry), Vec::<Op>::new());
}

#[test]
fn each_hardening_flag_is_fatal_on_its_own() {
    let (asked, end) = drive(drop_privs(&Entry::new()), &[Err("first")]);
    assert_eq!(asked, vec![Op::DisableDump]);
    assert_eq!(end.unwrap_err().kind, ErrorKind::PrivilegeDropFailure);
    let (asked, end) = drive(drop_privs(&Entry::new()), &[Ok(()), Err("second")]);
    assert_eq!(asked, vec![Op::DisableDump, Op::NoNewPrivs]);
    assert_eq!(
        end,
        Err(Error { kind: ErrorKind::PrivilegeDropFailure, message: "second".to_string() })
    );
}

#[test]
fn op_clone_is_equal() {
    let op = Op::Exec { path: "/bin/ls".to_string(), argv: vec!["ls".to_string(), "-l".to_string()] };
    assert_eq!(op.clone(), op);
    let op = Op::SetEnv { name: "A".to_string(), value: "b".to_string() };
    assert_eq!(op.clone(), op);
    assert_eq!(www().clone(), www());
}

#[test]
fn error_is_built_from_context_and_detail() {
    let error = Error::new(ErrorKind::ExecFailure, "execv failed: ", "No such file or directory");
    assert_eq!(error.kind, ErrorKind::ExecFailure);
    assert_eq!(error.message, "execv failed: No such file or directory");
    assert_eq!(error.clone(), error);
}

#[test]
fn exit_code_is_zero_without_failure_and_one_with() {
    assert_eq!(exit_code(&None), 0);
    for kind in [
        ErrorKind::ConfigNotFound,
        ErrorKind::ConfigReadFailure,
        ErrorKind::LookupFailure,
        ErrorKind::PermissionDenied,
        ErrorKind::EnvironmentSetupFailure,
        ErrorKind::PrivilegeDropFailure,
        ErrorKind::ExecFailure,
    ] {
        assert_eq!(exit_code(&Some(Error { kind, message: String::new() })), 1);
    }
}
