//! The policy entry: who may run which command as whom.

use vstd::prelude::*;
use crate::text::duplicate_all;

verus! {

/// One policy entry, as loaded from its file.
#[derive(Debug, PartialEq, Eq)]
pub struct Entry {
    /// Names of the users who may invoke the entry.
    pub users: Vec<String>,
    /// Name of the user the command runs as.
    pub dest_user: String,
    /// Path of the program to run.
    pub cmd: String,
    /// Arguments used when the caller may not pass its own.
    pub args: String,
    /// Program name shown to the command; empty if unset.
    pub argv0: String,
    /// Names of the environment variables that survive.
    pub inherit_envs: Vec<String>,
    /// Whether privilege escalation and dumping are switched off before the
    /// command runs.
    pub no_new_privs: bool,
    /// Whether the caller's own arguments replace `args`.
    pub arbitrary_args: bool,
}

/// The mathematical content of an [`Entry`].
pub struct EntryView {
    pub users: Seq<Seq<char>>,
    pub dest_user: Seq<char>,
    pub cmd: Seq<char>,
    pub args: Seq<char>,
    pub argv0: Seq<char>,
    pub inherit_envs: Seq<Seq<char>>,
    pub no_new_privs: bool,
    pub arbitrary_args: bool,
}

impl View for Entry {
    type V = EntryView;

    open spec fn view(&self) -> EntryView {
        EntryView {
            users: self.users.deep_view(),
            dest_user: self.dest_user@,
            cmd: self.cmd@,
            args: self.args@,
            argv0: self.argv0@,
            inherit_envs: self.inherit_envs.deep_view(),
            no_new_privs: self.no_new_privs,
            arbitrary_args: self.arbitrary_args,
        }
    }
}

/// The entry that a file without any recognised line describes.
pub open spec fn blank() -> EntryView {
    EntryView {
        users: Seq::empty(),
        dest_user: Seq::empty(),
        cmd: Seq::empty(),
        args: Seq::empty(),
        argv0: Seq::empty(),
        inherit_envs: Seq::empty(),
        no_new_privs: true,
        arbitrary_args: false,
    }
}

impl Entry {
    /// An entry with nothing set: no users, no command, caller arguments
    /// refused, hardening switched on.
    pub fn new() -> (entry: Entry)
        ensures
            entry@ == blank(),
    {
        let entry = Entry {
            users: Vec::new(),
            dest_user: String::new(),
            cmd: String::new(),
            args: String::new(),
            argv0: String::new(),
            inherit_envs: Vec::new(),
            no_new_privs: true,
            arbitrary_args: false,
        };
        assert(entry.users.deep_view() =~= Seq::<Seq<char>>::empty());
        assert(entry.inherit_envs.deep_view() =~= Seq::<Seq<char>>::empty());
        entry
    }
}

impl Clone for Entry {
    fn clone(&self) -> (copy: Entry)
        ensures
            copy@ == self@,
    {
        Entry {
            users: duplicate_all(&self.users),
            dest_user: self.dest_user.clone(),
            cmd: self.cmd.clone(),
            args: self.args.clone(),
            argv0: self.argv0.clone(),
            inherit_envs: duplicate_all(&self.inherit_envs),
            no_new_privs: self.no_new_privs,
            arbitrary_args: self.arbitrary_args,
        }
    }
}

} // verus!
