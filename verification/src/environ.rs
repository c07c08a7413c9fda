//! The environment that the command starts with.
//!
//! The inherited variables are read first, then everything is removed, then
//! the four variables that describe the user are set, then the inherited
//! ones are put back. Reading is the host's part and comes before all else;
//! the rest is a list of operations.

use vstd::prelude::*;
use crate::error::{Error, ErrorKind, ErrorView};
use crate::identity::{Passwd, PasswdView};
use crate::steps::{Op, OpView};

verus! {

/// The variables that describe the user: home directory, name, name again
/// for those who read `LOGNAME`, and shell.
pub open spec fn fixed_variables(p: PasswdView) -> Seq<OpView> {
    seq![
        OpView::SetEnv { name: "HOME"@, value: p.pw_dir },
        OpView::SetEnv { name: "USER"@, value: p.pw_name },
        OpView::SetEnv { name: "LOGNAME"@, value: p.pw_name },
        OpView::SetEnv { name: "SHELL"@, value: p.pw_shell },
    ]
}

/// One operation for each of `names`, which sets it to the value that was
/// read for it.
pub open spec fn inherited_variables(names: Seq<Seq<char>>, captured: Seq<Option<Seq<char>>>)
    -> Seq<OpView> {
    Seq::new(
        names.len(),
        |i: int| OpView::SetEnv { name: names[i], value: captured[i].unwrap() },
    )
}

/// The operations that leave the environment with the variables of the
/// user and the inherited ones, and nothing else.
pub open spec fn sanitizing(
    p: PasswdView,
    names: Seq<Seq<char>>,
    captured: Seq<Option<Seq<char>>>,
) -> Seq<OpView> {
    seq![OpView::ClearEnv] + fixed_variables(p) + inherited_variables(names, captured)
}

/// The index, at or behind `from`, of the first of `count` names for which
/// no value was read; `count` if each has one.
pub open spec fn first_missing(captured: Seq<Option<Seq<char>>>, from: int, count: int) -> int
    decreases count - from,
{
    if from >= count {
        count
    } else if from < 0 || from >= captured.len() || captured[from] is None {
        from
    } else {
        first_missing(captured, from + 1, count)
    }
}

/// The error for an inherited variable that the caller's environment lacks.
pub open spec fn missing_variable(name: Seq<char>) -> ErrorView {
    ErrorView { kind: ErrorKind::EnvironmentSetupFailure, message: "No such var: "@ + name }
}

/// An environment: the value of each variable that is set.
pub type Environment = Map<Seq<char>, Seq<char>>;

/// What is read from `env` for each of `names`: its value, or `None` if it
/// is not set.
pub open spec fn capture(env: Environment, names: Seq<Seq<char>>) -> Seq<Option<Seq<char>>> {
    Seq::new(
        names.len(),
        |i: int|
            if env.dom().contains(names[i]) {
                Some(env[names[i]])
            } else {
                None
            },
    )
}

/// The environment after `op` was performed on `env`. Only the two
/// operations on the environment change it.
pub open spec fn performed(env: Environment, op: OpView) -> Environment {
    match op {
        OpView::ClearEnv => Map::empty(),
        OpView::SetEnv { name, value } => env.insert(name, value),
        _ => env,
    }
}

/// The environment after each of `ops` was performed on `env` in turn.
pub open spec fn performed_all(env: Environment, ops: Seq<OpView>) -> Environment
    decreases ops.len(),
{
    if ops.len() == 0 {
        env
    } else {
        performed(performed_all(env, ops.drop_last()), ops.last())
    }
}

/// Whether `name` is one of the four variables that describe the user.
pub open spec fn is_fixed(name: Seq<char>) -> bool {
    name == "HOME"@ || name == "USER"@ || name == "LOGNAME"@ || name == "SHELL"@
}

/// Plans the new environment. `captured` holds, for each of `envs` in their
/// order, the value read from the caller's environment, or `None` where the
/// variable is not set; a name without an answer counts as not set. If one
/// is missing, the first such is reported and nothing is to be changed.
/// Else the operations are returned: clear, set the four variables of
/// `passwd`, set each inherited variable to its value.
pub fn setup_environment(
    passwd: &Passwd,
    envs: &Vec<String>,
    captured: &Vec<Option<String>>,
) -> (plan: Result<Vec<Op>, Error>)
    ensures
        match plan {
            Ok(ops) => {
                &&& first_missing(captured.deep_view(), 0, envs.len() as int) == envs.len()
                &&& ops.deep_view() == sanitizing(
                    passwd@,
                    envs.deep_view(),
                    captured.deep_view(),
                )
            },
            Err(error) => {
                let k = first_missing(captured.deep_view(), 0, envs.len() as int);
                &&& 0 <= k < envs.len()
                &&& error@ == missing_variable(envs.deep_view()[k])
            },
        },
{
    let mut ops: Vec<Op> = Vec::new();
    ops.push(Op::ClearEnv);
    ops.push(Op::SetEnv { name: "HOME".to_owned(), value: passwd.pw_dir.clone() });
    ops.push(Op::SetEnv { name: "USER".to_owned(), value: passwd.pw_name.clone() });
    ops.push(Op::SetEnv { name: "LOGNAME".to_owned(), value: passwd.pw_name.clone() });
    ops.push(Op::SetEnv { name: "SHELL".to_owned(), value: passwd.pw_shell.clone() });
    let ghost names = envs.deep_view();
    let ghost values = captured.deep_view();
    let ghost head = seq![OpView::ClearEnv] + fixed_variables(passwd@);
    let mut i: usize = 0;
    while i < envs.len()
        invariant
            i <= envs.len(),
            names == envs.deep_view(),
            values == captured.deep_view(),
            first_missing(values, 0, envs.len() as int) == first_missing(
                values,
                i as int,
                envs.len() as int,
            ),
            ops.deep_view() == head + inherited_variables(names, values).take(i as int),
        decreases envs.len() - i,
    {
        if i >= captured.len() {
            return Err(missing(envs[i].as_str()));
        }
        match &captured[i] {
            None => {
                return Err(missing(envs[i].as_str()));
            },
            Some(value) => {
                let ghost before = ops.deep_view();
                let op = Op::SetEnv { name: envs[i].clone(), value: value.clone() };
                ops.push(op);
                assert(ops.deep_view() =~= before.push(op@));
            },
        }
        i += 1;
    }
    Ok(ops)
}

/// The error for the inherited variable `name` that is not set.
pub fn missing(name: &str) -> (error: Error)
    ensures
        error@ == missing_variable(name@),
{
    Error::new(ErrorKind::EnvironmentSetupFailure, "No such var: ", name)
}

/// `first_missing` returns an index from `from` to `count`; each name from
/// `from` up to it has a value; and unless it is `count`, the name there has
/// none.
pub proof fn law_first_missing(captured: Seq<Option<Seq<char>>>, from: int, count: int)
    requires
        0 <= from <= count,
    ensures
        from <= first_missing(captured, from, count) <= count,
        forall|i: int|
            from <= i < first_missing(captured, from, count) ==> i < captured.len()
                && captured[i] is Some,
        first_missing(captured, from, count) < count ==> {
            ||| first_missing(captured, from, count) >= captured.len()
            ||| captured[first_missing(captured, from, count)] is None
        },
    decreases count - from,
{
    if from < count && from < captured.len() && captured[from] is Some {
        law_first_missing(captured, from + 1, count);
    }
}

/// Nothing is missing from what was read from an environment in which all
/// of `names` are set.
pub proof fn law_nothing_missing(env: Environment, names: Seq<Seq<char>>)
    requires
        forall|i: int| 0 <= i < names.len() ==> env.dom().contains(#[trigger] names[i]),
    ensures
        first_missing(capture(env, names), 0, names.len() as int) == names.len(),
{
    law_first_missing(capture(env, names), 0, names.len() as int);
    let k = first_missing(capture(env, names), 0, names.len() as int);
    if k < names.len() {
        assert(env.dom().contains(names[k]));
    }
}

/// Performing one list of operations and then another is performing both in
/// a row.
pub proof fn lemma_performed_both(env: Environment, first: Seq<OpView>, second: Seq<OpView>)
    ensures
        performed_all(env, first + second) == performed_all(performed_all(env, first), second),
    decreases second.len(),
{
    if second.len() > 0 {
        lemma_performed_both(env, first, second.drop_last());
        assert((first + second).drop_last() =~= first + second.drop_last());
    }
}

/// Performing a list of operations and then one more.
proof fn lemma_performed_one_more(env: Environment, ops: Seq<OpView>, op: OpView)
    ensures
        performed_all(env, ops.push(op)) == performed(performed_all(env, ops), op),
{
    assert(ops.push(op).drop_last() =~= ops);
}

/// The environment once it was cleared and the variables of the user were
/// set.
pub open spec fn user_only(p: PasswdView) -> Environment {
    Map::<Seq<char>, Seq<char>>::empty().insert("HOME"@, p.pw_dir).insert(
        "USER"@,
        p.pw_name,
    ).insert("LOGNAME"@, p.pw_name).insert("SHELL"@, p.pw_shell)
}

/// Clearing and setting the variables of the user leaves those four and
/// nothing else, whatever was set before.
proof fn lemma_user_only(p: PasswdView, env: Environment)
    ensures
        performed_all(env, seq![OpView::ClearEnv] + fixed_variables(p)) == user_only(p),
{
    let clear = Seq::<OpView>::empty().push(OpView::ClearEnv);
    let home = clear.push(OpView::SetEnv { name: "HOME"@, value: p.pw_dir });
    let user = home.push(OpView::SetEnv { name: "USER"@, value: p.pw_name });
    let logname = user.push(OpView::SetEnv { name: "LOGNAME"@, value: p.pw_name });
    let shell = logname.push(OpView::SetEnv { name: "SHELL"@, value: p.pw_shell });
    lemma_performed_one_more(env, Seq::empty(), OpView::ClearEnv);
    lemma_performed_one_more(env, clear, OpView::SetEnv { name: "HOME"@, value: p.pw_dir });
    lemma_performed_one_more(env, home, OpView::SetEnv { name: "USER"@, value: p.pw_name });
    lemma_performed_one_more(env, user, OpView::SetEnv { name: "LOGNAME"@, value: p.pw_name });
    lemma_performed_one_more(env, logname, OpView::SetEnv { name: "SHELL"@, value: p.pw_shell });
    assert(shell =~= seq![OpView::ClearEnv] + fixed_variables(p));
}

/// Putting the first `k` inherited variables back into `base` adds them
/// with the values they had in `env`, and leaves every other variable of
/// `base` as it was.
proof fn lemma_restored(base: Environment, names: Seq<Seq<char>>, env: Environment, k: int)
    requires
        0 <= k <= names.len(),
        forall|i: int| 0 <= i < names.len() ==> env.dom().contains(#[trigger] names[i]),
    ensures
        ({
            let after = performed_all(
                base,
                inherited_variables(names, capture(env, names)).take(k),
            );
            &&& forall|name: Seq<char>|
                after.dom().contains(name) <==> (base.dom().contains(name) || exists|i: int|
                    0 <= i < k && #[trigger] names[i] == name)
            &&& forall|i: int| 0 <= i < k ==> after[#[trigger] names[i]] == env[names[i]]
            &&& forall|name: Seq<char>|
                base.dom().contains(name) && (forall|i: int|
                    0 <= i < k ==> #[trigger] names[i] != name) ==> after[name] == base[name]
        }),
    decreases k,
{
    let restore = inherited_variables(names, capture(env, names));
    if k > 0 {
        lemma_restored(base, names, env, k - 1);
        let before = performed_all(base, restore.take(k - 1));
        let after = performed_all(base, restore.take(k));
        assert(restore.take(k) =~= restore.take(k - 1).push(restore[k - 1]));
        lemma_performed_one_more(base, restore.take(k - 1), restore[k - 1]);
        assert(after == before.insert(names[k - 1], env[names[k - 1]]));
        assert forall|name: Seq<char>| after.dom().contains(name) implies (base.dom().contains(
            name,
        ) || exists|i: int| 0 <= i < k && #[trigger] names[i] == name) by {
            if name != names[k - 1] && !base.dom().contains(name) {
                let i = choose|i: int| 0 <= i < k - 1 && #[trigger] names[i] == name;
                assert(0 <= i < k && names[i] == name);
            }
        }
        assert forall|name: Seq<char>|
            (exists|i: int| 0 <= i < k && #[trigger] names[i] == name) implies after.dom().contains(
            name,
        ) by {
            let i = choose|i: int| 0 <= i < k && #[trigger] names[i] == name;
            if i < k - 1 {
                assert(0 <= i < k - 1 && names[i] == name);
            }
        }
    }
}

/// After the operations of `sanitizing` the environment holds exactly the
/// four variables of the user and the inherited ones. Each inherited
/// variable has the value it had before. Each variable of the user has the
/// value from the user's record, unless it is itself inherited. Nothing else
/// that was set before is left. This is stated of every environment `env` in
/// which all of `names` are set.
pub proof fn law_sanitized(p: PasswdView, names: Seq<Seq<char>>, env: Environment)
    requires
        forall|i: int| 0 <= i < names.len() ==> env.dom().contains(#[trigger] names[i]),
    ensures
        ({
            let after = performed_all(env, sanitizing(p, names, capture(env, names)));
            &&& forall|name: Seq<char>|
                after.dom().contains(name) <==> (is_fixed(name) || names.contains(name))
            &&& forall|i: int| 0 <= i < names.len() ==> after[#[trigger] names[i]] == env[names[i]]
            &&& !names.contains("HOME"@) ==> after["HOME"@] == p.pw_dir
            &&& !names.contains("USER"@) ==> after["USER"@] == p.pw_name
            &&& !names.contains("LOGNAME"@) ==> after["LOGNAME"@] == p.pw_name
            &&& !names.contains("SHELL"@) ==> after["SHELL"@] == p.pw_shell
        }),
{
    let head = seq![OpView::ClearEnv] + fixed_variables(p);
    let restore = inherited_variables(names, capture(env, names));
    let after = performed_all(env, sanitizing(p, names, capture(env, names)));
    lemma_user_only(p, env);
    lemma_performed_both(env, head, restore);
    lemma_restored(user_only(p), names, env, names.len() as int);
    assert(restore.take(names.len() as int) =~= restore);
    assert(after == performed_all(user_only(p), restore));
    assert("HOME"@ != "USER"@ && "HOME"@ != "LOGNAME"@ && "HOME"@ != "SHELL"@ && "USER"@
        != "LOGNAME"@ && "USER"@ != "SHELL"@ && "LOGNAME"@ != "SHELL"@) by {
        reveal_strlit("HOME");
        reveal_strlit("USER");
        reveal_strlit("LOGNAME");
        reveal_strlit("SHELL");
        assert("HOME"@[0] == 'H' && "USER"@[0] == 'U');
        assert("LOGNAME"@[0] == 'L' && "SHELL"@[0] == 'S');
    }
    assert forall|name: Seq<char>| after.dom().contains(name) implies (is_fixed(name)
        || names.contains(name)) by {
        if !is_fixed(name) {
            let i = choose|i: int| 0 <= i < names.len() && #[trigger] names[i] == name;
            assert(names[i] == name);
        }
    }
    assert forall|name: Seq<char>|
        (is_fixed(name) || names.contains(name)) implies after.dom().contains(name) by {
        if !is_fixed(name) {
            let i = choose|i: int| 0 <= i < names.len() && names[i] == name;
            assert(0 <= i < names.len() && names[i] == name);
        }
    }
}

} // verus!
