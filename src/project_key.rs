//! Project keys: the initials of a title, then a number.
use crate::picker::random_between;
use crate::text::{decimal_digits, decimal_text};
use vstd::prelude::*;

verus! {

/// Smallest number put after the initials.
pub const KEY_NUMBER_MIN: u32 = 1;

/// Largest number put after the initials.
pub const KEY_NUMBER_MAX: u32 = 99;

/// Relies on `String::push`: the character is appended.
#[verifier::external_body]
fn push_char(s: &mut String, c: char)
    ensures
        final(s)@ == old(s)@.push(c),
{
    s.push(c)
}

/// The characters with the Unicode White_Space property.
pub open spec fn is_white(c: char) -> bool {
    let u = c as u32;
    ||| 0x09 <= u <= 0x0d
    ||| u == 0x20
    ||| u == 0x85
    ||| u == 0xa0
    ||| u == 0x1680
    ||| 0x2000 <= u <= 0x200a
    ||| u == 0x2028
    ||| u == 0x2029
    ||| u == 0x202f
    ||| u == 0x205f
    ||| u == 0x3000
}

pub open spec fn is_ascii_letter(c: char) -> bool {
    ('a' <= c && c <= 'z') || ('A' <= c && c <= 'Z')
}

pub open spec fn ascii_upper(c: char) -> char {
    if 'a' <= c && c <= 'z' {
        ((c as u32 - 32) as u8) as char
    } else {
        c
    }
}

/// Whether a word starts at `i`: a character that is not white space, first or
/// after white space.
pub open spec fn starts_word(s: Seq<char>, i: int) -> bool {
    !is_white(s[i]) && (i == 0 || is_white(s[i - 1]))
}

/// The upper-cased first letters of the whitespace-separated words of `s`, taking
/// only words that start with an ASCII letter.
pub open spec fn initials(s: Seq<char>) -> Seq<char>
    decreases s.len(),
{
    if s.len() == 0 {
        Seq::empty()
    } else {
        let i = s.len() - 1;
        if starts_word(s, i) && is_ascii_letter(s[i]) {
            initials(s.drop_last()).push(ascii_upper(s[i]))
        } else {
            initials(s.drop_last())
        }
    }
}

/// Whether `c` has the Unicode White_Space property.
pub fn is_white_char(c: char) -> (r: bool)
    ensures
        r == is_white(c),
{
    let u = c as u32;
    (0x09 <= u && u <= 0x0d) || u == 0x20 || u == 0x85 || u == 0xa0 || u == 0x1680 || (0x2000 <= u
        && u <= 0x200a) || u == 0x2028 || u == 0x2029 || u == 0x202f || u == 0x205f || u == 0x3000
}

/// `c` in upper case when it is an ASCII lower-case letter, else unchanged.
pub fn to_ascii_upper(c: char) -> (r: char)
    ensures
        r == ascii_upper(c),
{
    if 'a' <= c && c <= 'z' {
        let u = c as u32;
        ((u - 32) as u8) as char
    } else {
        c
    }
}

/// The initials of `title` followed by `number` in decimal.
pub fn project_key_with(title: &str, number: u32) -> (r: String)
    ensures
        r@ == initials(title@) + decimal_digits(number as nat),
{
    let n = title.unicode_len();
    let mut key = String::new();
    let mut i: usize = 0;
    while i < n
        invariant
            n == title@.len(),
            i <= n,
            key@ == initials(title@.subrange(0, i as int)),
        decreases n - i,
    {
        let ghost pre = title@.subrange(0, i as int);
        let ghost next = title@.subrange(0, i + 1);
        assert(next.drop_last() == pre);
        let c = title.get_char(i);
        let starts = !is_white_char(c) && (i == 0 || is_white_char(title.get_char(i - 1)));
        assert(starts == starts_word(next, i as int));
        let letter = ('a' <= c && c <= 'z') || ('A' <= c && c <= 'Z');
        if starts && letter {
            push_char(&mut key, to_ascii_upper(c));
        }
        i = i + 1;
    }
    assert(title@.subrange(0, n as int) == title@);
    let digits = decimal_text(number as u128);
    key.append(digits.as_str());
    key
}

/// A key for a project titled `title`: its initials, then a random number from
/// `KEY_NUMBER_MIN` to `KEY_NUMBER_MAX`.
pub fn generate_project_key(title: &str) -> (r: String)
    ensures
        exists|number: nat|
            KEY_NUMBER_MIN <= number <= KEY_NUMBER_MAX && r@ == initials(title@) + decimal_digits(
                number,
            ),
{
    let number = random_between(KEY_NUMBER_MIN as usize, KEY_NUMBER_MAX as usize) as u32;
    project_key_with(title, number)
}

} // verus!
