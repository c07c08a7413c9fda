use raou::args::create_execv_args;
use raou::entry::Entry;

fn list(items: &[&str]) -> Vec<String> {
    items.iter().map(|s| s.to_string()).collect()
}

fn entry_for(cmd: &str, args: &str) -> Entry {
    let mut entry = Entry::new();
    entry.cmd = cmd.to_string();
    entry.args = args.to_string();
    entry
}

#[test]
fn configured_args_are_split_at_white_space() {
    let entry = entry_for("/usr/bin/mytool", "-l -a");
    let argv = create_execv_args(&entry, &list(&["tool", "myentry"]));
    assert_eq!(argv[1..], list(&["-l", "-a"])[..]);
    assert_eq!(argv, list(&["mytool", "-l", "-a"]));
}

#[test]
fn caller_args_replace_configured_args_where_allowed() {
    let mut entry = entry_for("/usr/bin/mytool", "-l -a");
    entry.arbitrary_args = true;
    let argv = create_execv_args(&entry, &list(&["tool", "myentry", "foo", "bar"]));
    assert_eq!(argv[1..], list(&["foo", "bar"])[..]);
    assert_eq!(argv, list(&["mytool", "foo", "bar"]));
}

#[test]
fn caller_args_are_taken_verbatim() {
    let mut entry = entry_for("/bin/echo", "");
    entry.arbitrary_args = true;
    let argv = create_execv_args(&entry, &list(&["tool", "e", "a b", "", " c"]));
    assert_eq!(argv, list(&["echo", "a b", "", " c"]));
}

#[test]
fn caller_args_are_ignored_where_not_allowed() {
    let entry = entry_for("/usr/bin/mytool", "-l -a");
    let argv = create_execv_args(&entry, &list(&["tool", "myentry", "foo", "bar"]));
    assert_eq!(argv, list(&["mytool", "-l", "-a"]));
}

#[test]
fn configured_args_are_used_when_the_caller_adds_none() {
    let mut entry = entry_for("/usr/bin/mytool", "-l -a");
    entry.arbitrary_args = true;
    let argv = create_execv_args(&entry, &list(&["tool", "myentry"]));
    assert_eq!(argv, list(&["mytool", "-l", "-a"]));
    let argv = create_execv_args(&entry, &list(&["tool"]));
    assert_eq!(argv, list(&["mytool", "-l", "-a"]));
    let argv = create_execv_args(&entry, &Vec::new());
    assert_eq!(argv, list(&["mytool", "-l", "-a"]));
}

#[test]
fn program_name_is_the_basename_of_the_path() {
    let entry = entry_for("/usr/bin/mytool", "");
    let argv = create_execv_args(&entry, &list(&["tool", "myentry"]));
    assert_eq!(argv[0], "mytool");
    assert_eq!(argv.len(), 1);
}

#[test]
fn program_name_override_wins() {
    let mut entry = entry_for("/usr/bin/mytool", "x");
    entry.argv0 = "-sh".to_string();
    let argv = create_execv_args(&entry, &list(&["tool", "myentry"]));
    assert_eq!(argv, list(&["-sh", "x"]));
}

#[test]
fn program_name_of_a_path_without_slash_is_the_path() {
    let entry = entry_for("mytool", "");
    assert_eq!(create_execv_args(&entry, &list(&["tool", "e"])), list(&["mytool"]));
}

#[test]
fn program_name_of_a_path_with_trailing_slash_is_empty() {
    let entry = entry_for("/usr/bin/", "a");
    assert_eq!(create_execv_args(&entry, &list(&["tool", "e"])), list(&["", "a"]));
}

#[test]
fn configured_args_with_extra_white_space() {
    let entry = entry_for("/bin/ls", "  -l\t\t-a \u{3000} --color  ");
    assert_eq!(
        create_execv_args(&entry, &list(&["tool", "e"])),
        list(&["ls", "-l", "-a", "--color"])
    );
}
