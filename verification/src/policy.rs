//! The policy file format: one `key value` pair per line.

use vstd::prelude::*;
use crate::entry::{blank, Entry, EntryView};
use crate::text::{
    fields,
    find,
    lines,
    same_text,
    slice,
    split,
    split_lines,
    to_chars,
    lemma_find_is,
};

verus! {

/// The keys that a policy file may hold.
#[derive(Debug, Clone, Copy, PartialEq, Eq, Structural)]
pub enum Key {
    Path,
    User,
    EnvVars,
    Argv0,
    TargetUser,
    AllowArgs,
    Args,
    NoNewPrivs,
}

/// The key that `word` names, if it names one.
pub open spec fn key_of(word: Seq<char>) -> Option<Key> {
    if word == "path"@ {
        Some(Key::Path)
    } else if word == "user"@ {
        Some(Key::User)
    } else if word == "env_vars"@ {
        Some(Key::EnvVars)
    } else if word == "argv0"@ {
        Some(Key::Argv0)
    } else if word == "target_user"@ {
        Some(Key::TargetUser)
    } else if word == "allow_args"@ {
        Some(Key::AllowArgs)
    } else if word == "args"@ {
        Some(Key::Args)
    } else if word == "no_new_privs"@ {
        Some(Key::NoNewPrivs)
    } else {
        None
    }
}

/// Whether `value` switches a boolean key on: it is `1` or `true`.
pub open spec fn is_true(value: Seq<char>) -> bool {
    value == "1"@ || value == "true"@
}

/// `e` after `value` was assigned to `key`.
pub open spec fn assigned(e: EntryView, key: Key, value: Seq<char>) -> EntryView {
    match key {
        Key::Path => EntryView { cmd: value, ..e },
        Key::User => EntryView { users: e.users + fields(value, ','), ..e },
        Key::EnvVars => EntryView { inherit_envs: e.inherit_envs + fields(value, ','), ..e },
        Key::Argv0 => EntryView { argv0: value, ..e },
        Key::TargetUser => EntryView { dest_user: value, ..e },
        Key::AllowArgs => EntryView { arbitrary_args: is_true(value), ..e },
        Key::Args => EntryView { args: value, ..e },
        Key::NoNewPrivs => EntryView { no_new_privs: is_true(value), ..e },
    }
}

/// `e` after the pair `word value` was read: unchanged if `word` names no key.
pub open spec fn assigned_word(e: EntryView, word: Seq<char>, value: Seq<char>) -> EntryView {
    match key_of(word) {
        Some(key) => assigned(e, key, value),
        None => e,
    }
}

/// Whether `line` holds a pair: it holds a space.
pub open spec fn has_pair(line: Seq<char>) -> bool {
    find(line, ' ') < line.len()
}

/// The word before the first space of `line`.
pub open spec fn word_of(line: Seq<char>) -> Seq<char> {
    line.take(find(line, ' '))
}

/// What follows the first space of `line`.
pub open spec fn value_of(line: Seq<char>) -> Seq<char> {
    line.skip(find(line, ' ') + 1)
}

/// `e` after `line` was read: unchanged if the line holds no pair.
pub open spec fn assigned_line(e: EntryView, line: Seq<char>) -> EntryView {
    if has_pair(line) {
        assigned_word(e, word_of(line), value_of(line))
    } else {
        e
    }
}

/// The word of `line` if the line holds a pair whose word names no key.
pub open spec fn ignored_word(line: Seq<char>) -> Option<Seq<char>> {
    if has_pair(line) && key_of(word_of(line)) is None {
        Some(word_of(line))
    } else {
        None
    }
}

/// `e` after each of `ls` was read in turn.
pub open spec fn assigned_lines(e: EntryView, ls: Seq<Seq<char>>) -> EntryView
    decreases ls.len(),
{
    if ls.len() == 0 {
        e
    } else {
        assigned_line(assigned_lines(e, ls.drop_last()), ls.last())
    }
}

/// The words of the lines of `ls` that were ignored, in order.
pub open spec fn ignored_words(ls: Seq<Seq<char>>) -> Seq<Seq<char>>
    decreases ls.len(),
{
    if ls.len() == 0 {
        Seq::empty()
    } else {
        match ignored_word(ls.last()) {
            Some(word) => ignored_words(ls.drop_last()).push(word),
            None => ignored_words(ls.drop_last()),
        }
    }
}

/// The keys `user` and `env_vars` gather their values: each line adds the
/// pieces between its commas behind what earlier lines gave, in the order
/// read. Every other key keeps the value of its last line.
pub proof fn law_values_accumulate(e: EntryView, first: Seq<char>, second: Seq<char>)
    ensures
        assigned(assigned(e, Key::User, first), Key::User, second).users == e.users + fields(
            first,
            ',',
        ) + fields(second, ','),
        assigned(assigned(e, Key::EnvVars, first), Key::EnvVars, second).inherit_envs
            == e.inherit_envs + fields(first, ',') + fields(second, ','),
        assigned(assigned(e, Key::Path, first), Key::Path, second).cmd == second,
        assigned(assigned(e, Key::Argv0, first), Key::Argv0, second).argv0 == second,
        assigned(assigned(e, Key::TargetUser, first), Key::TargetUser, second).dest_user == second,
        assigned(assigned(e, Key::Args, first), Key::Args, second).args == second,
        assigned(assigned(e, Key::AllowArgs, first), Key::AllowArgs, second).arbitrary_args
            == is_true(second),
        assigned(assigned(e, Key::NoNewPrivs, first), Key::NoNewPrivs, second).no_new_privs
            == is_true(second),
{
}

/// Whether `value` is `1` or `true`.
pub fn parse_bool(value: &str) -> (on: bool)
    ensures
        on == is_true(value@),
{
    same_text(value, "1") || same_text(value, "true")
}

/// The key that `word` names.
pub fn parse_key(word: &str) -> (key: Option<Key>)
    ensures
        key == key_of(word@),
{
    if same_text(word, "path") {
        Some(Key::Path)
    } else if same_text(word, "user") {
        Some(Key::User)
    } else if same_text(word, "env_vars") {
        Some(Key::EnvVars)
    } else if same_text(word, "argv0") {
        Some(Key::Argv0)
    } else if same_text(word, "target_user") {
        Some(Key::TargetUser)
    } else if same_text(word, "allow_args") {
        Some(Key::AllowArgs)
    } else if same_text(word, "args") {
        Some(Key::Args)
    } else if same_text(word, "no_new_privs") {
        Some(Key::NoNewPrivs)
    } else {
        None
    }
}

/// Appends to `vec` the pieces of `val` between its commas: `val` itself if
/// it holds none.
pub fn add_multi(vec: &mut Vec<String>, val: String)
    ensures
        final(vec).deep_view() == old(vec).deep_view() + fields(val@, ','),
{
    let mut parts = split(val.as_str(), ',');
    vec.append(&mut parts);
}

/// Assigns `value` to the field of `entry` that `key` names. Returns whether
/// `key` names one; if it does not, `entry` is left as it was.
pub fn assign(entry: &mut Entry, key: &str, value: &str) -> (known: bool)
    ensures
        final(entry)@ == assigned_word(old(entry)@, key@, value@),
        known == (key_of(key@) is Some),
{
    match parse_key(key) {
        Some(Key::Path) => {
            entry.cmd = value.to_owned();
            true
        },
        Some(Key::User) => {
            add_multi(&mut entry.users, value.to_owned());
            true
        },
        Some(Key::EnvVars) => {
            add_multi(&mut entry.inherit_envs, value.to_owned());
            true
        },
        Some(Key::Argv0) => {
            entry.argv0 = value.to_owned();
            true
        },
        Some(Key::TargetUser) => {
            entry.dest_user = value.to_owned();
            true
        },
        Some(Key::AllowArgs) => {
            entry.arbitrary_args = parse_bool(value);
            true
        },
        Some(Key::Args) => {
            entry.args = value.to_owned();
            true
        },
        Some(Key::NoNewPrivs) => {
            entry.no_new_privs = parse_bool(value);
            true
        },
        None => false,
    }
}

/// Reads one line of a policy file into `entry`. The line is cut at its first
/// space into a word and a value; a line without a space changes nothing.
/// Returns the word if the line holds a pair and the word names no key: such
/// a line changes nothing either, and the caller may want to say so.
pub fn assign_from_line(entry: &mut Entry, line: &str) -> (ignored: Option<String>)
    ensures
        final(entry)@ == assigned_line(old(entry)@, line@),
        match ignored {
            Some(word) => ignored_word(line@) == Some(word@),
            None => ignored_word(line@) is None,
        },
{
    let chars = to_chars(line);
    let n = chars.len();
    let mut k: usize = 0;
    while k < n && chars[k] != ' '
        invariant
            k <= n,
            n == line@.len(),
            chars@ == line@,
            forall|j: int| 0 <= j < k ==> line@[j] != ' ',
        decreases n - k,
    {
        k += 1;
    }
    proof {
        lemma_find_is(line@, ' ', k as int);
    }
    if k >= n {
        return None;
    }
    let key = slice(line, 0, k);
    let value = slice(line, k + 1, n);
    if assign(entry, key.as_str(), value.as_str()) {
        None
    } else {
        Some(key)
    }
}

/// Reads a whole policy file. Returns the entry that its lines describe, and
/// the words of the lines that were ignored because they name no key.
pub fn create_entry(text: &str) -> (loaded: (Entry, Vec<String>))
    ensures
        loaded.0@ == assigned_lines(blank(), lines(text@)),
        loaded.1.deep_view() == ignored_words(lines(text@)),
{
    let mut entry = Entry::new();
    let mut ignored: Vec<String> = Vec::new();
    let ls = split_lines(text);
    let mut i: usize = 0;
    while i < ls.len()
        invariant
            i <= ls.len(),
            ls.deep_view() == lines(text@),
            entry@ == assigned_lines(blank(), ls.deep_view().take(i as int)),
            ignored.deep_view() == ignored_words(ls.deep_view().take(i as int)),
        decreases ls.len() - i,
    {
        let ghost seen = ls.deep_view().take(i as int);
        let ghost next = ls.deep_view().take(i + 1);
        assert(next.drop_last() =~= seen);
        match assign_from_line(&mut entry, ls[i].as_str()) {
            Some(word) => {
                ignored.push(word);
            },
            None => {},
        }
        i += 1;
    }
    assert(ls.deep_view().take(ls.len() as int) =~= ls.deep_view());
    (entry, ignored)
}

} // verus!
