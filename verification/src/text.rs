//! Character-level text rules: Unicode white space, leading-space skipping,
//! the first word of a text, ASCII case-insensitive comparison, and the
//! joining of lines.

use vstd::prelude::*;
use vstd::string::{StrSliceExecFns, StringExecFns};

verus! {

/// The Unicode `White_Space` property, which `char::is_whitespace` tests.
pub open spec fn is_white_space(c: char) -> bool {
    ||| ('\u{9}' <= c && c <= '\u{d}')
    ||| c == ' '
    ||| c == '\u{85}'
    ||| c == '\u{a0}'
    ||| c == '\u{1680}'
    ||| ('\u{2000}' <= c && c <= '\u{200a}')
    ||| c == '\u{2028}'
    ||| c == '\u{2029}'
    ||| c == '\u{202f}'
    ||| c == '\u{205f}'
    ||| c == '\u{3000}'
}

/// Whether a character has the Unicode `White_Space` property, as
/// `char::is_whitespace` tests it.
pub fn char_is_whitespace(c: char) -> (b: bool)
    ensures
        b == is_white_space(c),
{
    match c {
        '\u{9}'..='\u{d}' | ' ' | '\u{85}' | '\u{a0}' | '\u{1680}' | '\u{2000}'..='\u{200a}'
        | '\u{2028}' | '\u{2029}' | '\u{202f}' | '\u{205f}' | '\u{3000}' => true,
        _ => false,
    }
}

/// The index of the first character at or after `i` that is not white space.
pub open spec fn skip_space_from(s: Seq<char>, i: int) -> int
    decreases s.len() - i,
{
    if i < 0 || i >= s.len() || !is_white_space(s[i]) {
        i
    } else {
        skip_space_from(s, i + 1)
    }
}

/// The index of the first white space at or after `i`.
pub open spec fn word_end_from(s: Seq<char>, i: int) -> int
    decreases s.len() - i,
{
    if i < 0 || i >= s.len() || is_white_space(s[i]) {
        i
    } else {
        word_end_from(s, i + 1)
    }
}

/// Where a text starts once its leading white space is dropped.
pub open spec fn content_start(s: Seq<char>) -> int {
    skip_space_from(s, 0)
}

/// The text without its leading white space (`str::trim_start`).
pub open spec fn trim_start_spec(s: Seq<char>) -> Seq<char> {
    s.subrange(content_start(s), s.len() as int)
}

/// The first white-space separated word of a text (empty if there is none).
pub open spec fn first_word(s: Seq<char>) -> Seq<char> {
    s.subrange(content_start(s), word_end_from(s, content_start(s)))
}

/// Whether a text is nothing but white space (its trim is empty).
pub open spec fn is_blank(s: Seq<char>) -> bool {
    content_start(s) == s.len()
}

/// The ASCII lower-case form of a character; other characters stay.
pub open spec fn ascii_lower(c: char) -> char {
    if 'A' <= c && c <= 'Z' {
        ((c as u32) + 32) as char
    } else {
        c
    }
}

/// Equality up to ASCII case.
pub open spec fn eq_ignore_ascii_case(a: Seq<char>, b: Seq<char>) -> bool {
    a.len() == b.len() && forall|i: int| 0 <= i < a.len() ==> ascii_lower(a[i]) == ascii_lower(b[i])
}

proof fn lemma_skip_bounds(s: Seq<char>, i: int)
    requires
        0 <= i <= s.len(),
    ensures
        i <= skip_space_from(s, i) <= s.len(),
        forall|k: int| i <= k < skip_space_from(s, i) ==> is_white_space(s[k]),
        skip_space_from(s, i) < s.len() ==> !is_white_space(s[skip_space_from(s, i)]),
    decreases s.len() - i,
{
    if i < s.len() && is_white_space(s[i]) {
        lemma_skip_bounds(s, i + 1);
    }
}

proof fn lemma_word_end_bounds(s: Seq<char>, i: int)
    requires
        0 <= i <= s.len(),
    ensures
        i <= word_end_from(s, i) <= s.len(),
        forall|k: int| i <= k < word_end_from(s, i) ==> !is_white_space(s[k]),
        word_end_from(s, i) < s.len() ==> is_white_space(s[word_end_from(s, i)]),
    decreases s.len() - i,
{
    if i < s.len() && !is_white_space(s[i]) {
        lemma_word_end_bounds(s, i + 1);
    }
}

/// The first word of a text is what follows its leading white space up to the
/// next white space or the end: everything before it is white space, it holds
/// none, and it is followed by white space unless it ends the text. A text is
/// blank exactly when all of it is white space; trimming drops exactly the
/// leading white space.
pub proof fn law_first_word_is_the_leading_word(s: Seq<char>)
    ensures
        ({
            let c = content_start(s);
            let w = first_word(s);
            &&& 0 <= c <= s.len()
            &&& forall|k: int| 0 <= k < c ==> is_white_space(#[trigger] s[k])
            &&& c < s.len() ==> !is_white_space(s[c])
            &&& c + w.len() <= s.len()
            &&& w == s.subrange(c, c + w.len())
            &&& forall|k: int| 0 <= k < w.len() ==> !is_white_space(#[trigger] w[k])
            &&& c + w.len() < s.len() ==> is_white_space(s[c + w.len()])
            &&& (c < s.len() ==> w.len() > 0)
            &&& trim_start_spec(s) == s.subrange(c, s.len() as int)
        }),
        is_blank(s) <==> (forall|k: int| 0 <= k < s.len() ==> is_white_space(#[trigger] s[k])),
{
    lemma_skip_bounds(s, 0);
    let c = content_start(s);
    lemma_word_end_bounds(s, c);
    let w = first_word(s);
    assert forall|k: int| 0 <= k < w.len() implies !is_white_space(#[trigger] w[k]) by {
        assert(w[k] == s[c + k]);
    }
    if !is_blank(s) {
        assert(!is_white_space(s[c]));
    }
}

/// The index where `text` stops being white space.
pub fn content_start_index(text: &str) -> (i: usize)
    ensures
        i == content_start(text@),
        i <= text@.len(),
{
    let n = text.unicode_len();
    let mut i: usize = 0;
    while i < n && char_is_whitespace(text.get_char(i))
        invariant
            n == text@.len(),
            i <= n,
            skip_space_from(text@, i as int) == content_start(text@),
        decreases n - i,
    {
        i = i + 1;
    }
    i
}

/// The first word of `text`.
pub fn first_word_of(text: &str) -> (w: &str)
    ensures
        w@ == first_word(text@),
{
    let n = text.unicode_len();
    let start = content_start_index(text);
    proof { lemma_skip_bounds(text@, 0); }
    let mut j: usize = start;
    while j < n && !char_is_whitespace(text.get_char(j))
        invariant
            n == text@.len(),
            start <= j <= n,
            start == content_start(text@),
            word_end_from(text@, j as int) == word_end_from(text@, start as int),
        decreases n - j,
    {
        j = j + 1;
    }
    text.substring_char(start, j)
}

/// Whether `a` equals `b` up to ASCII case.
pub fn chars_eq_ignore_ascii_case(a: &str, b: &str) -> (r: bool)
    ensures
        r == eq_ignore_ascii_case(a@, b@),
{
    let n = a.unicode_len();
    if n != b.unicode_len() {
        return false;
    }
    for i in 0..n
        invariant
            n == a@.len(),
            n == b@.len(),
            forall|k: int| 0 <= k < i ==> ascii_lower(a@[k]) == ascii_lower(b@[k]),
    {
        if to_ascii_lower(a.get_char(i)) != to_ascii_lower(b.get_char(i)) {
            return false;
        }
    }
    true
}

/// The ASCII lower-case form of `c`.
pub fn to_ascii_lower(c: char) -> (r: char)
    ensures
        r == ascii_lower(c),
{
    if 'A' <= c && c <= 'Z' {
        let code = (c as u32) + 32;
        char_from_ascii_code(code)
    } else {
        c
    }
}

fn char_from_ascii_code(code: u32) -> (c: char)
    requires
        code < 128,
    ensures
        c == code as char,
{
    (code as u8) as char
}

/// The decimal digit character of `d` (`0..=9`).
pub open spec fn digit_char(d: int) -> char {
    (48 + d) as char
}

/// The decimal text of a number, without leading zeros (as `Display` writes it).
pub open spec fn decimal(n: nat) -> Seq<char>
    decreases n,
{
    if n < 10 {
        seq![digit_char(n as int)]
    } else {
        decimal(n / 10).push(digit_char((n % 10) as int))
    }
}

fn digit_str(d: u128) -> (s: &'static str)
    requires
        d < 10,
    ensures
        s@ == seq![digit_char(d as int)],
{
    proof {
        reveal_strlit("0");
        reveal_strlit("1");
        reveal_strlit("2");
        reveal_strlit("3");
        reveal_strlit("4");
        reveal_strlit("5");
        reveal_strlit("6");
        reveal_strlit("7");
        reveal_strlit("8");
        reveal_strlit("9");
    }
    let s = if d == 0 {
        "0"
    } else if d == 1 {
        "1"
    } else if d == 2 {
        "2"
    } else if d == 3 {
        "3"
    } else if d == 4 {
        "4"
    } else if d == 5 {
        "5"
    } else if d == 6 {
        "6"
    } else if d == 7 {
        "7"
    } else if d == 8 {
        "8"
    } else {
        "9"
    };
    assert(s@ =~= seq![digit_char(d as int)]);
    s
}

/// The decimal text of `n`.
pub fn decimal_string(n: u128) -> (s: String)
    ensures
        s@ == decimal(n as nat),
    decreases n,
{
    if n < 10 {
        let mut s = String::new();
        s.append(digit_str(n));
        s
    } else {
        let mut s = decimal_string(n / 10);
        s.append(digit_str(n % 10));
        s
    }
}

} // verus!
