//! Texts and numbers: how an integer is written out and read, what counts as
//! white space, and the few functions of the standard library that the
//! interface relies on for them.

use vstd::prelude::*;

verus! {

/// The character that stands for the decimal digit `d`.
pub open spec fn digit(d: int) -> char {
    seq!['0', '1', '2', '3', '4', '5', '6', '7', '8', '9'][d]
}

/// The decimal digits of `n`, without leading zeros.
pub open spec fn decimal_digits(n: nat) -> Seq<char>
    decreases n,
{
    if n < 10 {
        seq![digit(n as int)]
    } else {
        decimal_digits(n / 10).push(digit((n % 10) as int))
    }
}

/// How an integer is written out: its decimal digits, after a minus sign where
/// it is negative.
pub open spec fn decimal_text(i: int) -> Seq<char> {
    if i < 0 {
        seq!['-'] + decimal_digits((-i) as nat)
    } else {
        decimal_digits(i as nat)
    }
}

/// The code point of a character.
pub open spec fn code(c: char) -> int {
    c as int
}

/// The character counts as white space: it has the Unicode property
/// `White_Space`.
pub open spec fn is_white_space(c: char) -> bool {
    let code = code(c);
    ||| 0x09 <= code <= 0x0d
    ||| code == 0x20
    ||| code == 0x85
    ||| code == 0xa0
    ||| code == 0x1680
    ||| 0x2000 <= code <= 0x200a
    ||| code == 0x2028
    ||| code == 0x2029
    ||| code == 0x202f
    ||| code == 0x205f
    ||| code == 0x3000
}

/// A text without the white space at its start.
pub open spec fn trimmed_start(s: Seq<char>) -> Seq<char>
    decreases s.len(),
{
    if s.len() > 0 && is_white_space(s[0]) {
        trimmed_start(s.skip(1))
    } else {
        s
    }
}

/// A text without the white space at its end.
pub open spec fn trimmed_end(s: Seq<char>) -> Seq<char>
    decreases s.len(),
{
    if s.len() > 0 && is_white_space(s.last()) {
        trimmed_end(s.drop_last())
    } else {
        s
    }
}

/// A text without the white space at its start and at its end.
pub open spec fn trimmed(s: Seq<char>) -> Seq<char> {
    trimmed_end(trimmed_start(s))
}

/// The words of a text: its longest runs of characters that are no white
/// space, in their order.
pub open spec fn words_of(s: Seq<char>) -> Seq<Seq<char>>
    decreases s.len(),
{
    if s.len() == 0 {
        Seq::empty()
    } else {
        let before = words_of(s.drop_last());
        if is_white_space(s.last()) {
            before
        } else if s.len() >= 2 && !is_white_space(s[s.len() - 2]) && before.len() > 0 {
            before.drop_last().push(before.last().push(s.last()))
        } else {
            before.push(seq![s.last()])
        }
    }
}

/// The number that a decimal digit stands for.
pub open spec fn digit_value(c: char) -> Option<int> {
    if 0x30 <= code(c) <= 0x39 {
        Some(code(c) - 0x30)
    } else {
        None
    }
}

/// The number that a text of decimal digits stands for; a text that is
/// empty or holds anything else stands for none.
pub open spec fn digits_value(s: Seq<char>) -> Option<int>
    decreases s.len(),
{
    if s.len() == 0 {
        None
    } else if s.len() == 1 {
        digit_value(s[0])
    } else {
        match (digits_value(s.drop_last()), digit_value(s.last())) {
            (Some(value), Some(digit)) => Some(10 * value + digit),
            _ => None,
        }
    }
}

/// The number that a text is read as: decimal digits, after a plus or a
/// minus sign or none, that stay within 32 bits. Any other text is no
/// number.
pub open spec fn parsed_i32(s: Seq<char>) -> Option<i32> {
    let signed = s.len() > 0 && (s[0] == '-' || s[0] == '+');
    let digits = if signed {
        s.skip(1)
    } else {
        s
    };
    match digits_value(digits) {
        Some(value) => {
            let number = if signed && s[0] == '-' {
                -value
            } else {
                value
            };
            if i32::MIN <= number <= i32::MAX {
                Some(number as i32)
            } else {
                None
            }
        },
        None => None,
    }
}

/// What each of the texts holds.
pub open spec fn texts(list: Seq<String>) -> Seq<Seq<char>> {
    list.map_values(|s: String| s@)
}

/// What an optional text holds.
pub open spec fn opt_text(text: Option<String>) -> Option<Seq<char>> {
    match text {
        Some(t) => Some(t@),
        None => None,
    }
}

/// A text that holds a character that is no digit stands for no number.
pub proof fn lemma_digits_only(s: Seq<char>, i: int)
    requires
        0 <= i < s.len(),
        digit_value(s[i]).is_none(),
    ensures
        digits_value(s).is_none(),
    decreases s.len(),
{
    if i < s.len() - 1 {
        lemma_digits_only(s.drop_last(), i);
    }
}

/// A text is read as no number where it begins with a character that is
/// neither a sign nor a digit.
pub proof fn lemma_no_number(s: Seq<char>)
    requires
        s.len() > 0,
        s[0] != '-',
        s[0] != '+',
        digit_value(s[0]).is_none(),
    ensures
        parsed_i32(s).is_none(),
{
    lemma_digits_only(s, 0);
}

/// A text without white space at its start and at its end is left as it is.
pub proof fn lemma_trimmed_is_fixed(s: Seq<char>)
    requires
        s.len() > 0 ==> !is_white_space(s[0]) && !is_white_space(s.last()),
    ensures
        trimmed(s) == s,
{
}

/// A text that holds nothing but white space is trimmed to nothing.
pub proof fn lemma_blank_trims_to_nothing(s: Seq<char>)
    requires
        forall|i: int| 0 <= i < s.len() ==> is_white_space(#[trigger] s[i]),
    ensures
        trimmed(s).len() == 0,
    decreases s.len(),
{
    if s.len() > 0 {
        lemma_blank_trims_to_nothing(s.skip(1));
    }
}

/// Whether the character counts as white space.
pub fn white_space(c: char) -> (r: bool)
    ensures
        r == is_white_space(c),
{
    let code = c as u32;
    (0x09 <= code && code <= 0x0d) || code == 0x20 || code == 0x85 || code == 0xa0 || code
        == 0x1680 || (0x2000 <= code && code <= 0x200a) || code == 0x2028 || code == 0x2029
        || code == 0x202f || code == 0x205f || code == 0x3000
}

/// Calls `i128::to_string`. Trusted: the standard library writes an integer
/// in decimal, with a minus sign before a negative one.
#[verifier::external_body]
pub(crate) fn decimal(i: i128) -> (r: String)
    ensures
        r@ == decimal_text(i as int),
{
    i.to_string()
}

/// Calls `str::trim`. Trusted: the standard library removes the leading and
/// the trailing white space.
#[verifier::external_body]
pub(crate) fn trim(s: &str) -> (r: String)
    ensures
        r@ == trimmed(s@),
{
    s.trim().to_string()
}

/// Calls `str::parse::<i32>`. Trusted: the standard library reads decimal
/// digits after an optional sign, and refuses a text that holds anything
/// else, no digit at all, or a number beyond 32 bits.
#[verifier::external_body]
pub(crate) fn parse_i32(s: &str) -> (r: Option<i32>)
    ensures
        r == parsed_i32(s@),
{
    s.parse::<i32>().ok()
}

/// Calls `str::split_whitespace`. Trusted: the standard library hands out
/// the parts of the text that are separated by any amount of white space.
#[verifier::external_body]
pub(crate) fn split_words(s: &str) -> (r: Vec<String>)
    ensures
        texts(r@) == words_of(s@),
{
    s.split_whitespace().map(str::to_string).collect()
}

} // verus!
