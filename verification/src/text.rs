use vstd::prelude::*;

verus! {

/// The characters counted as blank when looking for the first marked
/// character of a line: the whitespace characters other than the line feed,
/// which ends the line instead.
pub open spec fn is_blank(c: char) -> bool {
    c == ' ' || c == '\t' || c == '\r' || c == '\u{000B}' || c == '\u{000C}' || c == '\u{0085}'
        || c == '\u{00A0}' || c == '\u{1680}' || ('\u{2000}' <= c && c <= '\u{200A}') || c
        == '\u{2028}' || c == '\u{2029}' || c == '\u{202F}' || c == '\u{205F}' || c == '\u{3000}'
}

/// Whether one character counts as blank, exact against `is_blank`.
pub fn is_blank_char(c: char) -> (r: bool)
    ensures
        r == is_blank(c),
{
    c == ' ' || c == '\t' || c == '\r' || c == '\u{000B}' || c == '\u{000C}' || c == '\u{0085}'
        || c == '\u{00A0}' || c == '\u{1680}' || ('\u{2000}' <= c && c <= '\u{200A}') || c
        == '\u{2028}' || c == '\u{2029}' || c == '\u{202F}' || c == '\u{205F}' || c == '\u{3000}'
}

/// The number of line terminators in the text.
pub open spec fn newline_count(t: Seq<char>) -> nat
    decreases t,
{
    if t.len() == 0 {
        0
    } else {
        newline_count(t.drop_last()) + (if t.last() == '\n' {
            1nat
        } else {
            0nat
        })
    }
}

/// The line count of raw text. The convention, fixed here: the number of line
/// terminators, plus one when the text is non-empty and its last line lacks a
/// trailing terminator. Under it an empty text has no lines and a trailing
/// terminator opens no further line.
pub open spec fn spec_loc(t: Seq<char>) -> nat {
    newline_count(t) + (if t.len() > 0 && t.last() != '\n' {
        1nat
    } else {
        0nat
    })
}

/// Whether the line that starts at position `i` begins, after any leading
/// blanks, with the two characters that mark a line comment.
pub open spec fn line_is_comment(t: Seq<char>, i: int) -> bool
    decreases t.len() - i,
{
    if i < 0 || i >= t.len() {
        false
    } else if t[i] == '\n' {
        false
    } else if is_blank(t[i]) {
        line_is_comment(t, i + 1)
    } else {
        t[i] == '/' && i + 1 < t.len() && t[i + 1] == '/'
    }
}

/// The position of the terminator of the line that starts at `i`, or the end
/// of the text when that line is unterminated.
pub open spec fn line_end(t: Seq<char>, i: int) -> int
    decreases t.len() - i,
{
    if i < 0 || i >= t.len() {
        t.len() as int
    } else if t[i] == '\n' {
        i
    } else {
        line_end(t, i + 1)
    }
}

/// A line's terminator lies between its start and the end of the text.
pub proof fn lemma_line_end_bounds(t: Seq<char>, i: int)
    requires
        0 <= i <= t.len(),
    ensures
        i <= line_end(t, i) <= t.len(),
    decreases t.len() - i,
{
    if i < t.len() && t[i] != '\n' {
        lemma_line_end_bounds(t, i + 1);
    }
}

/// The number of comment lines from line-start position `i` to the end of the
/// text.
pub open spec fn comment_count_from(t: Seq<char>, i: int) -> nat
    decreases t.len() - i + 1,
        when 0 <= i
    via comment_count_from_decreases
{
    if i >= t.len() {
        0
    } else {
        (if line_is_comment(t, i) {
            1nat
        } else {
            0nat
        }) + comment_count_from(t, line_end(t, i) + 1)
    }
}

#[via_fn]
proof fn comment_count_from_decreases(t: Seq<char>, i: int) {
    if i < t.len() {
        lemma_line_end_bounds(t, i);
    }
}

/// The number of lines of the text whose first non-blank characters mark a
/// line comment.
pub open spec fn spec_comments(t: Seq<char>) -> nat {
    comment_count_from(t, 0)
}

/// There are no more line terminators than characters.
pub proof fn lemma_newline_count_le(t: Seq<char>)
    ensures
        newline_count(t) <= t.len(),
    decreases t,
{
    if t.len() > 0 {
        lemma_newline_count_le(t.drop_last());
    }
}

/// Count the lines of raw text, exact against `spec_loc`.
pub fn count_loc(chars: &Vec<char>) -> (loc: usize)
    ensures
        loc as nat == spec_loc(chars@),
        loc <= chars.len(),
{
    let n = chars.len();
    let mut count: usize = 0;
    let mut i: usize = 0;
    assert(chars@.subrange(0, 0) =~= Seq::<char>::empty());
    while i < n
        invariant
            n == chars.len(),
            i <= n,
            count <= i,
            count as nat == newline_count(chars@.subrange(0, i as int)),
        decreases n - i,
    {
        proof {
            let extended = chars@.subrange(0, i + 1);
            assert(extended.drop_last() =~= chars@.subrange(0, i as int));
            assert(extended.last() == chars@[i as int]);
        }
        if chars[i] == '\n' {
            count = count + 1;
        }
        i = i + 1;
    }
    proof {
        assert(chars@.subrange(0, n as int) =~= chars@);
    }
    if n > 0 && chars[n - 1] != '\n' {
        proof {
            lemma_newline_count_le(chars@.drop_last());
            assert(newline_count(chars@) == newline_count(chars@.drop_last()));
        }
        count = count + 1;
    }
    count
}

/// Whether the line starting at `i` is a comment line, exact against
/// `line_is_comment`.
fn line_is_comment_at(chars: &Vec<char>, i: usize) -> (r: bool)
    ensures
        r == line_is_comment(chars@, i as int),
{
    let n = chars.len();
    let mut j: usize = i;
    while j < n && is_blank_char(chars[j])
        invariant
            n == chars.len(),
            i <= j,
            line_is_comment(chars@, i as int) == line_is_comment(chars@, j as int),
        decreases n - j,
    {
        j = j + 1;
    }
    if j >= n {
        false
    } else if chars[j] == '\n' {
        false
    } else {
        chars[j] == '/' && j + 1 < n && chars[j + 1] == '/'
    }
}

/// The position of the line terminator at or after `i`, exact against
/// `line_end`.
fn find_line_end(chars: &Vec<char>, i: usize) -> (e: usize)
    requires
        i <= chars.len(),
    ensures
        e as int == line_end(chars@, i as int),
        i <= e <= chars.len(),
{
    let n = chars.len();
    let mut j: usize = i;
    while j < n && chars[j] != '\n'
        invariant
            n == chars.len(),
            i <= j <= n,
            line_end(chars@, i as int) == line_end(chars@, j as int),
        decreases n - j,
    {
        j = j + 1;
    }
    j
}

/// Count the comment lines of raw text, exact against `spec_comments`.
pub fn count_comments(chars: &Vec<char>) -> (comments: usize)
    ensures
        comments as nat == spec_comments(chars@),
        comments <= chars.len(),
{
    let n = chars.len();
    let mut count: usize = 0;
    let mut i: usize = 0;
    while i < n
        invariant
            n == chars.len(),
            i <= n,
            count <= i,
            spec_comments(chars@) == count + comment_count_from(chars@, i as int),
        decreases n - i,
    {
        let is_comment = line_is_comment_at(chars, i);
        let e = find_line_end(chars, i);
        if is_comment {
            count = count + 1;
        }
        if e >= n {
            proof {
                assert(comment_count_from(chars@, e as int + 1) == 0);
                assert(comment_count_from(chars@, n as int) == 0);
            }
            i = n;
        } else {
            i = e + 1;
        }
    }
    count
}

/// Relies on str::chars: it yields exactly the characters of the string, in
/// order, which is the string's view.
#[verifier::external_body]
pub fn char_vec(text: &str) -> (r: Vec<char>)
    ensures
        r@ == text@,
{
    text.chars().collect()
}

} // verus!
