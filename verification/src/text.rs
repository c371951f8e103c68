//! Small verified helpers on strings, stated over their views (`Seq<char>`).

use vstd::prelude::*;
use vstd::string::*;

verus! {

/// The character that stands for the decimal digit `d`.
pub open spec fn digit_char(d: nat) -> char {
    if d == 0 {
        '0'
    } else if d == 1 {
        '1'
    } else if d == 2 {
        '2'
    } else if d == 3 {
        '3'
    } else if d == 4 {
        '4'
    } else if d == 5 {
        '5'
    } else if d == 6 {
        '6'
    } else if d == 7 {
        '7'
    } else if d == 8 {
        '8'
    } else {
        '9'
    }
}

/// The decimal representation of `n`, most significant digit first, without
/// leading zeros (`0` is written as the single digit `0`).
pub open spec fn decimal_digits(n: nat) -> Seq<char>
    decreases n,
{
    if n < 10 {
        seq![digit_char(n)]
    } else {
        decimal_digits(n / 10).push(digit_char(n % 10))
    }
}

fn digit_str(d: usize) -> (r: &'static str)
    requires
        d < 10,
    ensures
        r@ == seq![digit_char(d as nat)],
{
    proof {
        reveal_strlit("0");
        reveal_strlit("1");
        reveal_strlit("2");
        reveal_strlit("3");
        reveal_strlit("4");
        reveal_strlit("5");
        reveal_strlit("6");
        reveal_strlit("7");
        reveal_strlit("8");
        reveal_strlit("9");
    }
    let r = if d == 0 {
        "0"
    } else if d == 1 {
        "1"
    } else if d == 2 {
        "2"
    } else if d == 3 {
        "3"
    } else if d == 4 {
        "4"
    } else if d == 5 {
        "5"
    } else if d == 6 {
        "6"
    } else if d == 7 {
        "7"
    } else if d == 8 {
        "8"
    } else {
        "9"
    };
    assert(r@ =~= seq![digit_char(d as nat)]);
    r
}

/// Writes `n` in decimal.
pub fn decimal_string(n: usize) -> (r: String)
    ensures
        r@ == decimal_digits(n as nat),
    decreases n,
{
    if n < 10 {
        String::from_str(digit_str(n))
    } else {
        let mut text = decimal_string(n / 10);
        text.append(digit_str(n % 10));
        assert(text@ =~= decimal_digits(n as nat));
        text
    }
}

/// The empty string literal holds no character.
pub proof fn lemma_empty_literal()
    ensures
        ""@ == Seq::<char>::empty(),
{
    reveal_strlit("");
    assert(""@ =~= Seq::<char>::empty());
}

/// Whether two string slices hold the same characters.
pub fn str_eq(a: &str, b: &str) -> (r: bool)
    ensures
        r == (a@ == b@),
{
    let left = String::from_str(a);
    let right = String::from_str(b);
    left == right
}

/// The concatenation of two string slices as an owned string.
pub fn concat2(a: &str, b: &str) -> (r: String)
    ensures
        r@ == a@ + b@,
{
    let mut text = String::from_str(a);
    text.append(b);
    text
}

/// Whether `text` begins with the characters of `prefix`.
pub fn starts_with(text: &str, prefix: &str) -> (r: bool)
    ensures
        r == prefix@.is_prefix_of(text@),
{
    let prefix_len = prefix.unicode_len();
    if prefix_len > text.unicode_len() {
        return false;
    }
    str_eq(text.substring_char(0, prefix_len), prefix)
}

/// Whether the first character of `text` is `c`.
pub fn first_char_is(text: &str, c: char) -> (r: bool)
    ensures
        r == (text@.len() > 0 && text@[0] == c),
{
    text.unicode_len() > 0 && text.get_char(0) == c
}

/// Whether the last character of `text` is `c`.
pub fn last_char_is(text: &str, c: char) -> (r: bool)
    ensures
        r == (text@.len() > 0 && text@.last() == c),
{
    let len = text.unicode_len();
    len > 0 && text.get_char(len - 1) == c
}

/// `text` without its first character.
pub fn without_first_char(text: &str) -> (rest: &str)
    requires
        text@.len() > 0,
    ensures
        rest@ == text@.drop_first(),
{
    text.substring_char(1, text.unicode_len())
}

/// The characters of `text`, in order.
pub fn chars_of(text: &str) -> (chars: Vec<char>)
    ensures
        chars@ == text@,
{
    let mut chars: Vec<char> = Vec::new();
    for c in it: text.chars()
        invariant
            it.seq() == text@,
            chars@ == text@.subrange(0, it.index() as int),
    {
        chars.push(c);
        assert(chars@ =~= text@.subrange(0, it.index() + 1));
    }
    assert(text@.subrange(0, text@.len() as int) =~= text@);
    chars
}

/// The place of the first character from `from` on that is no white space,
/// or the length of the text if there is none.
pub open spec fn skip_whitespace(text: Seq<char>, from: int) -> int
    decreases text.len() - from,
{
    if from < 0 || from >= text.len() {
        text.len() as int
    } else if is_whitespace_char(text[from]) {
        skip_whitespace(text, from + 1)
    } else {
        from
    }
}

/// The place behind the last character before `end` that is no white space,
/// or 0 if there is none.
pub open spec fn drop_whitespace(text: Seq<char>, end: int) -> int
    decreases end,
{
    if end <= 0 || end > text.len() {
        0
    } else if is_whitespace_char(text[end - 1]) {
        drop_whitespace(text, end - 1)
    } else {
        end
    }
}

/// What `str::trim` leaves of a text: the text without the white space at
/// its two ends.
pub open spec fn trimmed(text: Seq<char>) -> Seq<char> {
    let start = skip_whitespace(text, 0);
    let end = drop_whitespace(text, text.len() as int);
    if start < end {
        text.subrange(start, end)
    } else {
        Seq::empty()
    }
}

/// What `str::to_uppercase` makes of a text.
pub uninterp spec fn uppercased(text: Seq<char>) -> Seq<char>;

/// What `str::to_lowercase` makes of a text.
pub uninterp spec fn lowercased(text: Seq<char>) -> Seq<char>;

/// What `char::to_uppercase` makes of a character: one character or more.
pub uninterp spec fn uppercased_char(c: char) -> Seq<char>;

/// Whether `char::is_whitespace` counts a character as white space.
pub uninterp spec fn is_whitespace_char(c: char) -> bool;

/// `str::trim`: the slice without leading and trailing white space, where
/// white space is what `char::is_whitespace` counts as such.
#[verifier::external_body]
pub(crate) fn trim(text: &str) -> (inner: &str)
    ensures
        inner@ == trimmed(text@),
{
    text.trim()
}

/// `str::to_uppercase`: the upper-case equivalent of the text.
#[verifier::external_body]
pub(crate) fn to_uppercase(text: &str) -> (upper: String)
    ensures
        upper@ == uppercased(text@),
{
    text.to_uppercase()
}

/// `str::to_lowercase`: the lower-case equivalent of the text.
#[verifier::external_body]
pub(crate) fn to_lowercase(text: &str) -> (lower: String)
    ensures
        lower@ == lowercased(text@),
{
    text.to_lowercase()
}

/// `char::to_uppercase`, collected: the upper-case equivalent of the
/// character, which may be more than one character.
#[verifier::external_body]
pub(crate) fn char_to_uppercase(c: char) -> (upper: String)
    ensures
        upper@ == uppercased_char(c),
{
    c.to_uppercase().collect()
}

/// `char::is_whitespace`: whether the character has the Unicode property
/// `White_Space`.
#[verifier::external_body]
pub(crate) fn is_whitespace(c: char) -> (white: bool)
    ensures
        white == is_whitespace_char(c),
{
    c.is_whitespace()
}

/// `String::push`: appends the character to the end of the string.
#[verifier::external_body]
pub(crate) fn push_char(text: &mut String, c: char)
    ensures
        final(text)@ == old(text)@.push(c),
{
    text.push(c)
}

/// The string of the characters `chars`.
pub fn string_of(chars: &Vec<char>) -> (text: String)
    ensures
        text@ == chars@,
{
    let mut text = String::new();
    let mut position: usize = 0;
    while position < chars.len()
        invariant
            position <= chars.len(),
            text@ == chars@.subrange(0, position as int),
        decreases chars.len() - position,
    {
        push_char(&mut text, chars[position]);
        position += 1;
        assert(text@ =~= chars@.subrange(0, position as int));
    }
    assert(chars@.subrange(0, chars.len() as int) =~= chars@);
    text
}

} // verus!
