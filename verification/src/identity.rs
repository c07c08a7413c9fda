//! A resolved user: what the identity database holds for a name.

use vstd::prelude::*;

verus! {

/// The record of one user.
#[derive(Debug, PartialEq, Eq)]
pub struct Passwd {
    /// Login name.
    pub pw_name: String,
    /// Numeric user id.
    pub pw_uid: u32,
    /// Numeric id of the primary group.
    pub pw_gid: u32,
    /// Home directory.
    pub pw_dir: String,
    /// Login shell.
    pub pw_shell: String,
}

/// The mathematical content of a [`Passwd`].
pub struct PasswdView {
    pub pw_name: Seq<char>,
    pub pw_uid: u32,
    pub pw_gid: u32,
    pub pw_dir: Seq<char>,
    pub pw_shell: Seq<char>,
}

impl View for Passwd {
    type V = PasswdView;

    open spec fn view(&self) -> PasswdView {
        PasswdView {
            pw_name: self.pw_name@,
            pw_uid: self.pw_uid,
            pw_gid: self.pw_gid,
            pw_dir: self.pw_dir@,
            pw_shell: self.pw_shell@,
        }
    }
}

impl Clone for Passwd {
    fn clone(&self) -> (copy: Passwd)
        ensures
            copy@ == self@,
    {
        Passwd {
            pw_name: self.pw_name.clone(),
            pw_uid: self.pw_uid,
            pw_gid: self.pw_gid,
            pw_dir: self.pw_dir.clone(),
            pw_shell: self.pw_shell.clone(),
        }
    }
}

} // verus!
