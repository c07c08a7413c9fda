//! Decision core of `raou`, a small tool that runs the command of a policy
//! entry as the entry's target user.
//!
//! The crate holds no I/O and touches nothing of the process it runs in. A
//! host program performs the requests that a [`run::Run`] issues and hands
//! the answers back; every decision in between is taken here, and what is
//! decided is stated in the contracts.
//!
//! - [`text`]: searching and splitting text.
//! - [`entry`] and [`policy`]: the policy entry and the file it is read from.
//! - [`identity`]: the record of a user.
//! - [`error`]: the failures and their exit code.
//! - [`auth`]: may the caller run the entry?
//! - [`args`]: the argument vector of the command.
//! - [`steps`]: operations on the process, performed in order until one
//!   fails.
//! - [`privs`]: the change of identity and the hardening.
//! - [`environ`]: the environment of the command.
//! - [`run`]: the whole run, step by step.
//! - [`guarantees`]: what holds of every run.

pub mod args;
pub mod auth;
pub mod entry;
pub mod environ;
pub mod error;
pub mod guarantees;
pub mod identity;
pub mod policy;
pub mod privs;
pub mod run;
pub mod steps;
pub mod text;
