//! Text primitives: searching and splitting sequences of characters.

use vstd::prelude::*;

verus! {

/// Characters with the Unicode property `White_Space`.
pub open spec fn is_space(c: char) -> bool {
    ||| c == ' '
    ||| ('\u{9}' <= c && c <= '\u{d}')
    ||| c == '\u{85}'
    ||| c == '\u{a0}'
    ||| c == '\u{1680}'
    ||| ('\u{2000}' <= c && c <= '\u{200a}')
    ||| c == '\u{2028}'
    ||| c == '\u{2029}'
    ||| c == '\u{202f}'
    ||| c == '\u{205f}'
    ||| c == '\u{3000}'
}

/// Index of the first occurrence of `c` in `s`, or `s.len()` if there is none.
pub open spec fn find(s: Seq<char>, c: char) -> int
    decreases s.len(),
{
    if s.len() == 0 || s[0] == c {
        0
    } else {
        1 + find(s.skip(1), c)
    }
}

/// Index just behind the last occurrence of `c` in `s`, or `0` if there is none.
pub open spec fn after_last(s: Seq<char>, c: char) -> int
    decreases s.len(),
{
    if s.len() == 0 {
        0
    } else if s.last() == c {
        s.len() as int
    } else {
        after_last(s.drop_last(), c)
    }
}

/// Length of the longest prefix of `s` that holds no white space.
pub open spec fn word_len(s: Seq<char>) -> int
    decreases s.len(),
{
    if s.len() == 0 || is_space(s[0]) {
        0
    } else {
        1 + word_len(s.skip(1))
    }
}

/// The pieces of `s` between occurrences of `sep`. There is always at least
/// one piece, and pieces may be empty.
pub open spec fn fields(s: Seq<char>, sep: char) -> Seq<Seq<char>>
    decreases s.len(),
    via fields_terminates
{
    let k = find(s, sep);
    if k < s.len() {
        seq![s.take(k)] + fields(s.skip(k + 1), sep)
    } else {
        seq![s]
    }
}

#[via_fn]
proof fn fields_terminates(s: Seq<char>, sep: char) {
    law_find(s, sep);
}

/// The maximal runs of characters of `s` that are not white space, in order.
pub open spec fn words(s: Seq<char>) -> Seq<Seq<char>>
    decreases s.len(),
    via words_terminates
{
    if s.len() == 0 {
        Seq::empty()
    } else if is_space(s[0]) {
        words(s.skip(1))
    } else {
        let n = word_len(s);
        seq![s.take(n)] + words(s.skip(n))
    }
}

#[via_fn]
proof fn words_terminates(s: Seq<char>) {
    if s.len() > 0 && !is_space(s[0]) {
        law_word_len(s.skip(1));
    }
}

/// What follows the last `/` of `path`; all of `path` if it holds none.
pub open spec fn base(path: Seq<char>) -> Seq<char> {
    path.skip(after_last(path, '/'))
}

/// `line` without one trailing carriage return.
pub open spec fn chomp(line: Seq<char>) -> Seq<char> {
    if line.len() > 0 && line.last() == '\r' {
        line.drop_last()
    } else {
        line
    }
}

/// The lines of `text`. A line ends at a line feed; a carriage return just
/// before that line feed is not part of the line. What follows the last line
/// feed is a line of its own unless it is empty.
pub open spec fn lines(text: Seq<char>) -> Seq<Seq<char>>
    decreases text.len(),
    via lines_terminates
{
    if text.len() == 0 {
        Seq::empty()
    } else {
        let k = find(text, '\n');
        if k < text.len() {
            seq![chomp(text.take(k))] + lines(text.skip(k + 1))
        } else {
            seq![text]
        }
    }
}

#[via_fn]
proof fn lines_terminates(text: Seq<char>) {
    law_find(text, '\n');
}

/// `find` returns an index within `s` or its length; no occurrence of `c`
/// precedes it; and unless it is the length, `c` stands there.
pub proof fn law_find(s: Seq<char>, c: char)
    ensures
        0 <= find(s, c) <= s.len(),
        forall|i: int| 0 <= i < find(s, c) ==> s[i] != c,
        find(s, c) < s.len() ==> s[find(s, c)] == c,
    decreases s.len(),
{
    if s.len() > 0 && s[0] != c {
        law_find(s.skip(1), c);
        assert forall|i: int| 0 <= i < find(s, c) implies s[i] != c by {
            if i > 0 {
                assert(s.skip(1)[i - 1] == s[i]);
            }
        }
    }
}

/// An index that no occurrence precedes, and that holds one or is the length,
/// is what `find` returns.
pub proof fn lemma_find_is(s: Seq<char>, c: char, k: int)
    requires
        0 <= k <= s.len(),
        forall|i: int| 0 <= i < k ==> s[i] != c,
        k < s.len() ==> s[k] == c,
    ensures
        find(s, c) == k,
    decreases s.len(),
{
    if s.len() > 0 && s[0] != c {
        lemma_find_is(s.skip(1), c, k - 1);
    }
}

/// `word_len` returns the index of the first white space, or the length.
pub proof fn lemma_word_len_is(s: Seq<char>, k: int)
    requires
        0 <= k <= s.len(),
        forall|i: int| 0 <= i < k ==> !is_space(s[i]),
        k < s.len() ==> is_space(s[k]),
    ensures
        word_len(s) == k,
    decreases s.len(),
{
    if s.len() > 0 && !is_space(s[0]) {
        lemma_word_len_is(s.skip(1), k - 1);
    }
}

/// An index that no occurrence follows, and that is `0` or stands just behind
/// one, is what `after_last` returns.
pub proof fn lemma_after_last_is(s: Seq<char>, c: char, k: int)
    requires
        0 <= k <= s.len(),
        forall|i: int| k <= i < s.len() ==> s[i] != c,
        k > 0 ==> s[k - 1] == c,
    ensures
        after_last(s, c) == k,
    decreases s.len(),
{
    if s.len() > 0 && s.last() != c {
        lemma_after_last_is(s.drop_last(), c, k);
    }
}

/// `word_len` returns an index within `s` or its length; no white space
/// precedes it; and unless it is the length, white space stands there.
pub proof fn law_word_len(s: Seq<char>)
    ensures
        0 <= word_len(s) <= s.len(),
        forall|i: int| 0 <= i < word_len(s) ==> !is_space(s[i]),
        word_len(s) < s.len() ==> is_space(s[word_len(s)]),
    decreases s.len(),
{
    if s.len() > 0 && !is_space(s[0]) {
        law_word_len(s.skip(1));
        assert forall|i: int| 0 <= i < word_len(s) implies !is_space(s[i]) by {
            if i > 0 {
                assert(s.skip(1)[i - 1] == s[i]);
            }
        }
    }
}

/// `after_last` returns an index within `s` or its length; no occurrence of
/// `c` stands at or behind it; and unless it is `0`, `c` stands just before
/// it.
pub proof fn law_after_last(s: Seq<char>, c: char)
    ensures
        0 <= after_last(s, c) <= s.len(),
        forall|i: int| after_last(s, c) <= i < s.len() ==> s[i] != c,
        after_last(s, c) > 0 ==> s[after_last(s, c) - 1] == c,
    decreases s.len(),
{
    if s.len() > 0 && s.last() != c {
        law_after_last(s.drop_last(), c);
        assert forall|i: int| after_last(s, c) <= i < s.len() implies s[i] != c by {
            if i < s.len() - 1 {
                assert(s.drop_last()[i] == s[i]);
            }
        }
    }
}

/// The pieces of `parts` with `sep` between each two of them.
pub open spec fn joined(parts: Seq<Seq<char>>, sep: char) -> Seq<char>
    decreases parts.len(),
{
    if parts.len() == 0 {
        Seq::empty()
    } else if parts.len() == 1 {
        parts[0]
    } else {
        parts[0] + seq![sep] + joined(parts.skip(1), sep)
    }
}

/// Splitting loses nothing and leaves no separator behind: there is at
/// least one piece, no piece holds the separator, and the pieces joined by
/// the separator are the text that was split.
pub proof fn law_fields_rejoin(s: Seq<char>, sep: char)
    ensures
        fields(s, sep).len() >= 1,
        forall|i: int, j: int|
            0 <= i < fields(s, sep).len() && 0 <= j < fields(s, sep)[i].len() ==> fields(
                s,
                sep,
            )[i][j] != sep,
        joined(fields(s, sep), sep) == s,
    decreases s.len(),
{
    law_find(s, sep);
    let k = find(s, sep);
    if k < s.len() {
        law_fields_rejoin(s.skip(k + 1), sep);
        assert(fields(s, sep).skip(1) =~= fields(s.skip(k + 1), sep));
    }
}

/// A word is never empty and never holds white space.
pub proof fn law_words_hold_no_space(s: Seq<char>)
    ensures
        forall|i: int| 0 <= i < words(s).len() ==> (#[trigger] words(s)[i]).len() > 0,
        forall|i: int, j: int|
            0 <= i < words(s).len() && 0 <= j < words(s)[i].len() ==> !is_space(words(s)[i][j]),
    decreases s.len(),
{
    if s.len() > 0 && is_space(s[0]) {
        law_words_hold_no_space(s.skip(1));
        assert(words(s) == words(s.skip(1)));
    } else if s.len() > 0 {
        law_word_len(s);
        law_words_hold_no_space(s.skip(word_len(s)));
        assert(words(s) == seq![s.take(word_len(s))] + words(s.skip(word_len(s))));
    }
}

/// The base of a path is the longest end of it without a `/`: it holds
/// none, it is what is left of the path behind some index, and that index
/// is the start of the path or stands just behind a `/`.
pub proof fn law_base(path: Seq<char>)
    ensures
        forall|i: int| 0 <= i < base(path).len() ==> base(path)[i] != '/',
        base(path).len() <= path.len(),
        base(path) == path.skip(path.len() - base(path).len()),
        base(path).len() < path.len() ==> path[path.len() - base(path).len() - 1] == '/',
{
    law_after_last(path, '/');
}

/// Whether `c` has the Unicode property `White_Space`.
pub fn is_whitespace(c: char) -> (b: bool)
    ensures
        b == is_space(c),
{
    c == ' ' || ('\u{9}' <= c && c <= '\u{d}') || c == '\u{85}' || c == '\u{a0}' || c == '\u{1680}'
        || ('\u{2000}' <= c && c <= '\u{200a}') || c == '\u{2028}' || c == '\u{2029}' || c
        == '\u{202f}' || c == '\u{205f}' || c == '\u{3000}'
}

/// The characters of `s`, one element each.
pub fn to_chars(s: &str) -> (v: Vec<char>)
    ensures
        v@ == s@,
{
    broadcast use vstd::string::group_string_axioms;

    let mut v: Vec<char> = Vec::new();
    for c in it: s.chars()
        invariant
            v@ == s@.take(it.index()),
            it.seq() == s@,
    {
        v.push(c);
    }
    v
}

/// Whether `a` and `b` hold the same characters.
pub fn same_text(a: &str, b: &str) -> (same: bool)
    ensures
        same == (a@ == b@),
{
    let x = to_chars(a);
    let y = to_chars(b);
    if x.len() != y.len() {
        return false;
    }
    let mut i: usize = 0;
    while i < x.len()
        invariant
            i <= x.len(),
            x.len() == y.len(),
            x@ == a@,
            y@ == b@,
            forall|j: int| 0 <= j < i ==> x@[j] == y@[j],
        decreases x.len() - i,
    {
        if x[i] != y[i] {
            return false;
        }
        i += 1;
    }
    assert(x@ =~= y@);
    true
}

/// The characters of `s` from index `from` up to, not including, index `to`.
pub fn slice(s: &str, from: usize, to: usize) -> (piece: String)
    requires
        from <= to <= s@.len(),
    ensures
        piece@ == s@.subrange(from as int, to as int),
{
    s.substring_char(from, to).to_owned()
}

/// Splits `s` at every occurrence of `sep`.
pub fn split(s: &str, sep: char) -> (parts: Vec<String>)
    ensures
        parts.deep_view() == fields(s@, sep),
{
    let chars = to_chars(s);
    let n = chars.len();
    let mut parts: Vec<String> = Vec::new();
    let mut start: usize = 0;
    let mut i: usize = 0;
    assert(s@.skip(0) =~= s@);
    while i < n
        invariant
            start <= i <= n,
            n == s@.len(),
            chars@ == s@,
            forall|j: int| start <= j < i ==> s@[j] != sep,
            fields(s@, sep) == parts.deep_view() + fields(s@.skip(start as int), sep),
        decreases n - i,
    {
        if chars[i] == sep {
            let piece = slice(s, start, i);
            proof {
                let rest = s@.skip(start as int);
                lemma_find_is(rest, sep, i - start);
                assert(rest.take(i - start) =~= piece@);
                assert(rest.skip(i - start + 1) =~= s@.skip(i + 1));
            }
            parts.push(piece);
            start = i + 1;
        }
        i += 1;
    }
    let piece = slice(s, start, n);
    proof {
        let rest = s@.skip(start as int);
        lemma_find_is(rest, sep, rest.len() as int);
    }
    parts.push(piece);
    parts
}

/// Splits `s` at white space and leaves out the empty pieces.
pub fn split_whitespace(s: &str) -> (parts: Vec<String>)
    ensures
        parts.deep_view() == words(s@),
{
    let chars = to_chars(s);
    let n = chars.len();
    let mut parts: Vec<String> = Vec::new();
    let mut i: usize = 0;
    assert(s@.skip(0) =~= s@);
    while i < n
        invariant
            i <= n,
            n == s@.len(),
            chars@ == s@,
            words(s@) == parts.deep_view() + words(s@.skip(i as int)),
        decreases n - i,
    {
        let ghost rest = s@.skip(i as int);
        if is_whitespace(chars[i]) {
            assert(rest.skip(1) =~= s@.skip(i + 1));
            i += 1;
        } else {
            let start = i;
            while i < n && !is_whitespace(chars[i])
                invariant
                    start <= i <= n,
                    n == s@.len(),
                    chars@ == s@,
                    forall|j: int| start <= j < i ==> !is_space(s@[j]),
                decreases n - i,
            {
                i += 1;
            }
            let piece = slice(s, start, i);
            proof {
                lemma_word_len_is(rest, i - start);
                assert(rest.take(i - start) =~= piece@);
                assert(rest.skip(i - start) =~= s@.skip(i as int));
            }
            parts.push(piece);
        }
    }
    parts
}

/// The last component of `path`: what follows its last `/`.
pub fn basename(path: &str) -> (name: String)
    ensures
        name@ == base(path@),
{
    let chars = to_chars(path);
    let n = chars.len();
    let mut cut: usize = 0;
    let mut i: usize = 0;
    while i < n
        invariant
            cut <= i <= n,
            n == path@.len(),
            chars@ == path@,
            forall|j: int| cut <= j < i ==> path@[j] != '/',
            cut > 0 ==> path@[cut - 1] == '/',
        decreases n - i,
    {
        if chars[i] == '/' {
            cut = i + 1;
        }
        i += 1;
    }
    proof {
        lemma_after_last_is(path@, '/', cut as int);
    }
    slice(path, cut, n)
}

/// Splits `text` into its lines, without their line ends.
pub fn split_lines(text: &str) -> (parts: Vec<String>)
    ensures
        parts.deep_view() == lines(text@),
{
    let chars = to_chars(text);
    let n = chars.len();
    let mut parts: Vec<String> = Vec::new();
    let mut start: usize = 0;
    let mut i: usize = 0;
    assert(text@.skip(0) =~= text@);
    while i < n
        invariant
            start <= i <= n,
            n == text@.len(),
            chars@ == text@,
            forall|j: int| start <= j < i ==> text@[j] != '\n',
            lines(text@) == parts.deep_view() + lines(text@.skip(start as int)),
        decreases n - i,
    {
        if chars[i] == '\n' {
            let end = if start < i && chars[i - 1] == '\r' {
                i - 1
            } else {
                i
            };
            let piece = slice(text, start, end);
            proof {
                let rest = text@.skip(start as int);
                lemma_find_is(rest, '\n', i - start);
                assert(chomp(rest.take(i - start)) =~= piece@);
                assert(rest.skip(i - start + 1) =~= text@.skip(i + 1));
            }
            parts.push(piece);
            start = i + 1;
        }
        i += 1;
    }
    if start < n {
        let piece = slice(text, start, n);
        proof {
            let rest = text@.skip(start as int);
            lemma_find_is(rest, '\n', rest.len() as int);
        }
        parts.push(piece);
    }
    parts
}

/// A vector with the same strings.
pub fn duplicate_all(strings: &Vec<String>) -> (copy: Vec<String>)
    ensures
        copy.deep_view() == strings.deep_view(),
{
    let mut copy: Vec<String> = Vec::new();
    let mut i: usize = 0;
    while i < strings.len()
        invariant
            i <= strings.len(),
            copy.len() == i,
            forall|j: int| 0 <= j < i ==> copy[j]@ == strings[j]@,
        decreases strings.len() - i,
    {
        copy.push(strings[i].clone());
        i += 1;
    }
    copy
}

} // verus!
