use raou::entry::Entry;
use raou::policy::{
    add_multi, assign, assign_from_line, create_entry, parse_bool, parse_key, Key,
};

fn names(items: &[&str]) -> Vec<String> {
    items.iter().map(|s| s.to_string()).collect()
}

#[test]
fn new_entry_has_the_defaults() {
    let entry = Entry::new();
    assert!(entry.users.is_empty());
    assert_eq!(entry.dest_user, "");
    assert_eq!(entry.cmd, "");
    assert_eq!(entry.args, "");
    assert_eq!(entry.argv0, "");
    assert!(entry.inherit_envs.is_empty());
    assert!(entry.no_new_privs);
    assert!(!entry.arbitrary_args);
}

#[test]
fn repeated_user_lines_accumulate() {
    let (entry, ignored) = create_entry("user alice\nuser bob,carol\n");
    assert_eq!(entry.users, names(&["alice", "bob", "carol"]));
    assert!(ignored.is_empty());
}

#[test]
fn repeated_env_vars_lines_accumulate() {
    let (entry, _) = create_entry("env_vars TERM\nenv_vars LANG,DISPLAY\n");
    assert_eq!(entry.inherit_envs, names(&["TERM", "LANG", "DISPLAY"]));
}

#[test]
fn every_key_reaches_its_field() {
    let text = "path /usr/bin/mytool\nuser alice\nenv_vars TERM\nargv0 tool\n\
                target_user www\nallow_args 1\nargs -l -a\nno_new_privs 0\n";
    let (entry, ignored) = create_entry(text);
    assert_eq!(entry.cmd, "/usr/bin/mytool");
    assert_eq!(entry.users, names(&["alice"]));
    assert_eq!(entry.inherit_envs, names(&["TERM"]));
    assert_eq!(entry.argv0, "tool");
    assert_eq!(entry.dest_user, "www");
    assert!(entry.arbitrary_args);
    assert_eq!(entry.args, "-l -a");
    assert!(!entry.no_new_privs);
    assert!(ignored.is_empty());
}

#[test]
fn later_single_values_replace_earlier_ones() {
    let (entry, _) = create_entry("path /bin/a\npath /bin/b\ntarget_user x\ntarget_user y\n");
    assert_eq!(entry.cmd, "/bin/b");
    assert_eq!(entry.dest_user, "y");
}

#[test]
fn unknown_keys_are_ignored_and_reported() {
    let (entry, ignored) = create_entry("colour blue\npath /bin/ls\nshape round\n");
    assert_eq!(entry.cmd, "/bin/ls");
    assert_eq!(ignored, names(&["colour", "shape"]));
    let mut expected = Entry::new();
    expected.cmd = "/bin/ls".to_string();
    assert_eq!(entry, expected);
}

#[test]
fn lines_without_a_space_are_skipped_in_silence() {
    let (entry, ignored) = create_entry("path\n\nnonsense\nuser\talice\n");
    assert_eq!(entry, Entry::new());
    assert!(ignored.is_empty());
}

#[test]
fn empty_policy_is_the_default_entry() {
    let (entry, ignored) = create_entry("");
    assert_eq!(entry, Entry::new());
    assert!(ignored.is_empty());
}

#[test]
fn carriage_returns_before_line_feeds_are_no_part_of_values() {
    let (entry, _) = create_entry("path /bin/ls\r\ntarget_user www\r\n");
    assert_eq!(entry.cmd, "/bin/ls");
    assert_eq!(entry.dest_user, "www");
}

#[test]
fn last_line_needs_no_line_feed() {
    let (entry, _) = create_entry("path /bin/ls\ntarget_user www");
    assert_eq!(entry.dest_user, "www");
}

#[test]
fn line_is_cut_at_its_first_space_only() {
    let mut entry = Entry::new();
    assert_eq!(assign_from_line(&mut entry, "args -l  -a "), None);
    assert_eq!(entry.args, "-l  -a ");
}

#[test]
fn line_with_empty_value_assigns_the_empty_string() {
    let mut entry = Entry::new();
    entry.cmd = "/bin/old".to_string();
    assert_eq!(assign_from_line(&mut entry, "path "), None);
    assert_eq!(entry.cmd, "");
}

#[test]
fn line_that_begins_with_a_space_has_an_empty_unknown_key() {
    let mut entry = Entry::new();
    assert_eq!(assign_from_line(&mut entry, " path /bin/ls"), Some(String::new()));
    assert_eq!(entry, Entry::new());
}

#[test]
fn line_without_space_changes_nothing() {
    let mut entry = Entry::new();
    assert_eq!(assign_from_line(&mut entry, "path=/bin/ls"), None);
    assert_eq!(assign_from_line(&mut entry, ""), None);
    assert_eq!(entry, Entry::new());
}

#[test]
fn line_with_unknown_key_returns_the_key() {
    let mut entry = Entry::new();
    assert_eq!(assign_from_line(&mut entry, "Path /bin/ls"), Some("Path".to_string()));
    assert_eq!(entry, Entry::new());
}

#[test]
fn assign_says_whether_the_key_is_known() {
    let mut entry = Entry::new();
    assert!(assign(&mut entry, "path", "/bin/ls"));
    assert!(assign(&mut entry, "user", "a,b"));
    assert!(!assign(&mut entry, "paths", "/bin/ls"));
    assert!(!assign(&mut entry, "", "x"));
    assert_eq!(entry.cmd, "/bin/ls");
    assert_eq!(entry.users, names(&["a", "b"]));
}

#[test]
fn booleans_are_true_for_1_and_true_only() {
    assert!(parse_bool("1"));
    assert!(parse_bool("true"));
    for other in ["0", "false", "yes", "True", "TRUE", "", " 1", "1 ", "11", "on"] {
        assert!(!parse_bool(other), "{:?}", other);
    }
}

#[test]
fn boolean_keys_can_be_switched_both_ways() {
    let mut entry = Entry::new();
    assign(&mut entry, "allow_args", "true");
    assign(&mut entry, "no_new_privs", "false");
    assert!(entry.arbitrary_args);
    assert!(!entry.no_new_privs);
    assign(&mut entry, "allow_args", "yes");
    assign(&mut entry, "no_new_privs", "1");
    assert!(!entry.arbitrary_args);
    assert!(entry.no_new_privs);
}

#[test]
fn keys_are_matched_exactly() {
    assert_eq!(parse_key("path"), Some(Key::Path));
    assert_eq!(parse_key("user"), Some(Key::User));
    assert_eq!(parse_key("env_vars"), Some(Key::EnvVars));
    assert_eq!(parse_key("argv0"), Some(Key::Argv0));
    assert_eq!(parse_key("target_user"), Some(Key::TargetUser));
    assert_eq!(parse_key("allow_args"), Some(Key::AllowArgs));
    assert_eq!(parse_key("args"), Some(Key::Args));
    assert_eq!(parse_key("no_new_privs"), Some(Key::NoNewPrivs));
    for other in ["", "Path", "users", "arg", "argv", "env", "target", "path "] {
        assert_eq!(parse_key(other), None, "{:?}", other);
    }
}

#[test]
fn add_multi_appends_the_pieces_between_commas() {
    let mut list = names(&["first"]);
    add_multi(&mut list, "bob,carol".to_string());
    assert_eq!(list, names(&["first", "bob", "carol"]));
}

#[test]
fn add_multi_appends_a_value_without_comma_whole() {
    let mut list = Vec::new();
    add_multi(&mut list, "alice".to_string());
    add_multi(&mut list, "".to_string());
    assert_eq!(list, names(&["alice", ""]));
}

#[test]
fn add_multi_keeps_empty_pieces() {
    let mut list = Vec::new();
    add_multi(&mut list, "a,,b,".to_string());
    assert_eq!(list, names(&["a", "", "b", ""]));
}

#[test]
fn add_multi_keeps_duplicates_and_order() {
    let mut list = Vec::new();
    add_multi(&mut list, "b,a".to_string());
    add_multi(&mut list, "a".to_string());
    assert_eq!(list, names(&["b", "a", "a"]));
}

#[test]
fn entry_clone_is_equal() {
    let (entry, _) = create_entry("path /bin/ls\nuser a,b\nenv_vars X\nallow_args 1\n");
    assert_eq!(entry.clone(), entry);
}
