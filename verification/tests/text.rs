use raou::error::errnowrapper;
use std::io::BufRead;
use raou::text::{
    basename, duplicate_all, is_whitespace, same_text, slice, split, split_lines,
    split_whitespace, to_chars,
};

fn strings(items: &[&str]) -> Vec<String> {
    items.iter().map(|s| s.to_string()).collect()
}

#[test]
fn split_cuts_at_every_separator() {
    assert_eq!(split("bob,carol", ','), strings(&["bob", "carol"]));
    assert_eq!(split("a,b,c", ','), strings(&["a", "b", "c"]));
}

#[test]
fn split_without_separator_is_one_piece() {
    assert_eq!(split("alice", ','), strings(&["alice"]));
    assert_eq!(split("", ','), strings(&[""]));
}

#[test]
fn split_keeps_empty_pieces() {
    assert_eq!(split("a,,b", ','), strings(&["a", "", "b"]));
    assert_eq!(split(",", ','), strings(&["", ""]));
    assert_eq!(split(",a,", ','), strings(&["", "a", ""]));
}

#[test]
fn split_agrees_with_std() {
    for text in ["", ",", "a", "a,b", ",,", "x,,y,", "é,ü"] {
        let expected: Vec<String> = text.split(',').map(|s| s.to_string()).collect();
        assert_eq!(split(text, ','), expected);
    }
}

#[test]
fn split_whitespace_drops_empty_pieces() {
    assert_eq!(split_whitespace("-l -a"), strings(&["-l", "-a"]));
    assert_eq!(split_whitespace("  -l \t -a\n"), strings(&["-l", "-a"]));
    assert_eq!(split_whitespace(""), strings(&[]));
    assert_eq!(split_whitespace(" \t "), strings(&[]));
    assert_eq!(split_whitespace("one"), strings(&["one"]));
}

#[test]
fn split_whitespace_knows_unicode_spaces() {
    assert_eq!(split_whitespace("a\u{3000}b\u{a0}c\u{2003}d"), strings(&["a", "b", "c", "d"]));
    assert_eq!(split_whitespace("a\u{200b}b"), strings(&["a\u{200b}b"]));
}

#[test]
fn split_whitespace_agrees_with_std() {
    for text in ["", " ", "a b", " a  b ", "a\tb\nc", "x\u{85}y", "\u{1680}z\u{205f}"] {
        let expected: Vec<String> = text.split_whitespace().map(|s| s.to_string()).collect();
        assert_eq!(split_whitespace(text), expected);
    }
}

#[test]
fn is_whitespace_agrees_with_std_on_every_char() {
    let mut code: u32 = 0;
    while code <= 0x10ffff {
        if let Some(c) = char::from_u32(code) {
            assert_eq!(is_whitespace(c), c.is_whitespace(), "U+{:04X}", code);
        }
        code += 1;
    }
}

#[test]
fn basename_is_what_follows_the_last_slash() {
    assert_eq!(basename("/usr/bin/mytool"), "mytool");
    assert_eq!(basename("bin/tool"), "tool");
    assert_eq!(basename("/tool"), "tool");
}

#[test]
fn basename_without_slash_is_the_whole_path() {
    assert_eq!(basename("mytool"), "mytool");
    assert_eq!(basename(""), "");
}

#[test]
fn basename_after_trailing_slash_is_empty() {
    assert_eq!(basename("/usr/bin/"), "");
    assert_eq!(basename("/"), "");
}

#[test]
fn split_lines_ends_lines_at_line_feeds() {
    assert_eq!(split_lines("a\nb\n"), strings(&["a", "b"]));
    assert_eq!(split_lines("a\nb"), strings(&["a", "b"]));
    assert_eq!(split_lines(""), strings(&[]));
    assert_eq!(split_lines("\n"), strings(&[""]));
    assert_eq!(split_lines("\n\n"), strings(&["", ""]));
    assert_eq!(split_lines("a\n\nb"), strings(&["a", "", "b"]));
}

#[test]
fn split_lines_drops_carriage_return_before_line_feed() {
    assert_eq!(split_lines("a\r\nb\r\n"), strings(&["a", "b"]));
    assert_eq!(split_lines("a\r\r\n"), strings(&["a\r"]));
    assert_eq!(split_lines("\r\n"), strings(&[""]));
}

#[test]
fn split_lines_keeps_carriage_return_without_line_feed() {
    assert_eq!(split_lines("a\r"), strings(&["a\r"]));
    assert_eq!(split_lines("a\rb\nc\r"), strings(&["a\rb", "c\r"]));
}

#[test]
fn split_lines_agrees_with_buffered_reader() {
    for text in ["", "\n", "a", "a\n", "a\r\n", "a\r", "a\n\r\nb", "x\r\ny\r", "\r", "\r\r\n\n"] {
        let expected: Vec<String> =
            std::io::Cursor::new(text).lines().map(|line| line.unwrap()).collect();
        assert_eq!(split_lines(text), expected, "{:?}", text);
    }
}

#[test]
fn to_chars_lists_every_character() {
    assert_eq!(to_chars("aé\u{3000}"), vec!['a', 'é', '\u{3000}']);
    assert_eq!(to_chars(""), Vec::<char>::new());
}

#[test]
fn same_text_compares_characters() {
    assert!(same_text("path", "path"));
    assert!(same_text("", ""));
    assert!(!same_text("path", "paths"));
    assert!(!same_text("path", "pith"));
    assert!(!same_text("", "x"));
}

#[test]
fn slice_counts_characters_not_bytes() {
    assert_eq!(slice("héllo", 1, 3), "él");
    assert_eq!(slice("héllo", 0, 0), "");
    assert_eq!(slice("héllo", 5, 5), "");
    assert_eq!(slice("héllo", 0, 5), "héllo");
}

#[test]
fn duplicate_all_copies_each_string() {
    let source = strings(&["a", "", "bc"]);
    assert_eq!(duplicate_all(&source), source);
    assert_eq!(duplicate_all(&Vec::new()), Vec::<String>::new());
}

#[test]
fn errnowrapper_zero_is_success() {
    assert_eq!(errnowrapper(0, "ignored".to_string()), Ok(()));
}

#[test]
fn errnowrapper_nonzero_is_the_system_error() {
    assert_eq!(
        errnowrapper(-1, "Operation not permitted".to_string()),
        Err("Operation not permitted".to_string())
    );
    assert_eq!(errnowrapper(7, "x".to_string()), Err("x".to_string()));
}

#[test]
fn split_pieces_joined_are_the_text_again() {
    for text in ["", ",", "a", "a,b", ",,", "x,,y,", "é,ü", "no comma at all", ",lead", "trail,"] {
        let pieces = split(text, ',');
        assert!(!pieces.is_empty());
        assert!(pieces.iter().all(|piece| !piece.contains(',')));
        assert_eq!(pieces.join(","), text);
    }
}

#[test]
fn words_are_never_empty_and_hold_no_white_space() {
    for text in ["", "  ", "a", " a  b ", "a\tb\nc", "x\u{85}y", "\u{1680}z\u{205f}", "-l -a"] {
        for word in split_whitespace(text) {
            assert!(!word.is_empty());
            assert!(!word.chars().any(|c| c.is_whitespace()));
            assert!(text.contains(&word));
        }
    }
}

#[test]
fn basename_is_the_longest_end_without_slash() {
    for path in ["", "/", "a", "/a", "a/", "/usr/bin/mytool", "bin/tool", "//x//y", "a/b/"] {
        let name = basename(path);
        assert!(!name.contains('/'));
        assert!(path.ends_with(&name));
        let before = &path[..path.len() - name.len()];
        assert!(before.is_empty() || before.ends_with('/'));
    }
}
