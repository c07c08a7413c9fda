//! The argument vector handed to the command.

use vstd::prelude::*;
use crate::entry::{Entry, EntryView};
use crate::text::{base, basename, split_whitespace, words};

verus! {

/// The name under which the command sees itself: the one set in the entry,
/// else the last component of its path.
pub open spec fn program_name(e: EntryView) -> Seq<char> {
    if e.argv0.len() > 0 {
        e.argv0
    } else {
        base(e.cmd)
    }
}

/// The arguments behind the program name. `cmdargs` is what the tool itself
/// was started with: its own name, the entry's name, and what the caller
/// added. Where the entry lets the caller choose and the caller added
/// something, that is taken; else the words of the entry's `args`.
pub open spec fn trailing_args(e: EntryView, cmdargs: Seq<Seq<char>>) -> Seq<Seq<char>> {
    if e.arbitrary_args && cmdargs.len() > 2 {
        cmdargs.skip(2)
    } else {
        words(e.args)
    }
}

/// The whole argument vector: program name, then the arguments.
pub open spec fn execv_args(e: EntryView, cmdargs: Seq<Seq<char>>) -> Seq<Seq<char>> {
    seq![program_name(e)] + trailing_args(e, cmdargs)
}

/// The argument vector begins with the program name: the one set in the
/// entry, else the base of the command's path. Behind it stand the caller's
/// own arguments, word for word, if the entry lets the caller choose and the
/// caller gave any; else the words of the entry's `args`, and what the caller
/// gave is not looked at.
pub proof fn law_argument_vector(e: EntryView, cmdargs: Seq<Seq<char>>)
    ensures
        execv_args(e, cmdargs).len() >= 1,
        e.argv0.len() > 0 ==> execv_args(e, cmdargs)[0] == e.argv0,
        e.argv0.len() == 0 ==> execv_args(e, cmdargs)[0] == base(e.cmd),
        e.arbitrary_args && cmdargs.len() > 2 ==> execv_args(e, cmdargs).skip(1) == cmdargs.skip(
            2,
        ),
        !(e.arbitrary_args && cmdargs.len() > 2) ==> execv_args(e, cmdargs).skip(1) == words(
            e.args,
        ),
{
    assert(execv_args(e, cmdargs).skip(1) =~= trailing_args(e, cmdargs));
}

/// Builds the argument vector for `entry`, given the arguments `cmdargs`
/// that the tool itself was started with.
pub fn create_execv_args(entry: &Entry, cmdargs: &Vec<String>) -> (argv: Vec<String>)
    ensures
        argv.deep_view() == execv_args(entry@, cmdargs.deep_view()),
{
    let mut argv: Vec<String> = Vec::new();
    if !entry.argv0.as_str().is_empty() {
        argv.push(entry.argv0.clone());
    } else {
        argv.push(basename(entry.cmd.as_str()));
    }
    if entry.arbitrary_args && cmdargs.len() > 2 {
        let mut i: usize = 2;
        while i < cmdargs.len()
            invariant
                2 <= i <= cmdargs.len(),
                argv.deep_view() == seq![program_name(entry@)] + cmdargs.deep_view().subrange(
                    2,
                    i as int,
                ),
            decreases cmdargs.len() - i,
        {
            let ghost before = argv.deep_view();
            argv.push(cmdargs[i].clone());
            assert(argv.deep_view() =~= before.push(cmdargs[i as int]@));
            i += 1;
        }
    } else {
        let mut rest = split_whitespace(entry.args.as_str());
        argv.append(&mut rest);
    }
    argv
}

} // verus!
