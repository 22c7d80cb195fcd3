//! Input-format validation: phone numbers, usernames and passwords.
//!
//! Each predicate exists twice: a spec function stating the format exactly,
//! and an executable check proved against it.

use vstd::prelude::*;
use vstd::string::StrSliceExecFns;

verus! {

/// An ASCII decimal digit.
pub open spec fn is_digit(c: char) -> bool {
    48 <= c as u32 && c as u32 <= 57
}

/// An ASCII letter, digit, or underscore.
pub open spec fn is_word_char(c: char) -> bool {
    ||| is_digit(c)
    ||| 65 <= c as u32 && c as u32 <= 90
    ||| 97 <= c as u32 && c as u32 <= 122
    ||| c as u32 == 95
}

/// An ASCII lowercase letter.
pub open spec fn is_lower(c: char) -> bool {
    97 <= c as u32 && c as u32 <= 122
}

/// An ASCII uppercase letter.
pub open spec fn is_upper(c: char) -> bool {
    65 <= c as u32 && c as u32 <= 90
}

/// A character from the accepted set of password special characters.
pub open spec fn is_special(c: char) -> bool {
    ||| c == '.' || c == '!' || c == '@' || c == '#' || c == '$' || c == '%' || c == '^'
    ||| c == '&' || c == '{' || c == '}' || c == '[' || c == ']' || c == ':' || c == ';'
    ||| c == '<' || c == '>' || c == ',' || c == '?' || c == '\\' || c == '/' || c == '~'
    ||| c == '_' || c == '+' || c == '-' || c == '=' || c == '|' || c == '\'' || c == '*'
    ||| c == '(' || c == ')'
}

/// A well-formed phone number: a zero followed by nine further decimal digits.
pub open spec fn is_valid_phone(s: Seq<char>) -> bool {
    &&& s.len() == 10
    &&& s[0] as u32 == 48
    &&& forall|i: int| 0 <= i < 10 ==> is_digit(#[trigger] s[i])
}

/// A well-formed username: one to thirty-two letters, digits or underscores.
pub open spec fn is_valid_username(s: Seq<char>) -> bool {
    &&& 1 <= s.len() <= 32
    &&& forall|i: int| 0 <= i < s.len() ==> is_word_char(#[trigger] s[i])
}

/// A well-formed password: eight to sixty-four characters with at least one
/// digit, one lowercase letter, one uppercase letter and one special
/// character.
pub open spec fn is_valid_password(s: Seq<char>) -> bool {
    &&& 8 <= s.len() <= 64
    &&& exists|i: int| 0 <= i < s.len() && is_digit(#[trigger] s[i])
    &&& exists|i: int| 0 <= i < s.len() && is_lower(#[trigger] s[i])
    &&& exists|i: int| 0 <= i < s.len() && is_upper(#[trigger] s[i])
    &&& exists|i: int| 0 <= i < s.len() && is_special(#[trigger] s[i])
}

/// Decides `is_valid_phone`.
pub fn validate_phone(phone: &str) -> (r: bool)
    ensures
        r == is_valid_phone(phone@),
{
    let n = phone.unicode_len();
    if n != 10 {
        return false;
    }
    if phone.get_char(0) as u32 != 48 {
        return false;
    }
    let mut i: usize = 0;
    while i < 10
        invariant
            phone@.len() == 10,
            i <= 10,
            forall|j: int| 0 <= j < i ==> is_digit(#[trigger] phone@[j]),
        decreases 10 - i,
    {
        let c = phone.get_char(i) as u32;
        if !(48 <= c && c <= 57) {
            return false;
        }
        i = i + 1;
    }
    true
}

/// Decides `is_valid_username`.
pub fn validate_username(username: &str) -> (r: bool)
    ensures
        r == is_valid_username(username@),
{
    let n = username.unicode_len();
    if n < 1 || n > 32 {
        return false;
    }
    let mut i: usize = 0;
    while i < n
        invariant
            n == username@.len(),
            i <= n,
            forall|j: int| 0 <= j < i ==> is_word_char(#[trigger] username@[j]),
        decreases n - i,
    {
        let c = username.get_char(i) as u32;
        let ok = (48 <= c && c <= 57) || (65 <= c && c <= 90) || (97 <= c && c <= 122) || c == 95;
        if !ok {
            return false;
        }
        i = i + 1;
    }
    true
}

/// Decides `is_special`.
fn special_char(c: char) -> (r: bool)
    ensures
        r == is_special(c),
{
    c == '.' || c == '!' || c == '@' || c == '#' || c == '$' || c == '%' || c == '^' || c == '&'
        || c == '{' || c == '}' || c == '[' || c == ']' || c == ':' || c == ';' || c == '<' || c
        == '>' || c == ',' || c == '?' || c == '\\' || c == '/' || c == '~' || c == '_' || c == '+'
        || c == '-' || c == '=' || c == '|' || c == '\'' || c == '*' || c == '(' || c == ')'
}

/// Decides `is_valid_password`.
pub fn validate_password(password: &str) -> (r: bool)
    ensures
        r == is_valid_password(password@),
{
    let n = password.unicode_len();
    if n < 8 || n > 64 {
        return false;
    }
    let mut has_digit = false;
    let mut has_lower = false;
    let mut has_upper = false;
    let mut has_special = false;
    let mut i: usize = 0;
    while i < n
        invariant
            n == password@.len(),
            i <= n,
            has_digit == exists|j: int| 0 <= j < i && is_digit(#[trigger] password@[j]),
            has_lower == exists|j: int| 0 <= j < i && is_lower(#[trigger] password@[j]),
            has_upper == exists|j: int| 0 <= j < i && is_upper(#[trigger] password@[j]),
            has_special == exists|j: int| 0 <= j < i && is_special(#[trigger] password@[j]),
        decreases n - i,
    {
        let c = password.get_char(i);
        let v = c as u32;
        if 48 <= v && v <= 57 {
            has_digit = true;
        }
        if 97 <= v && v <= 122 {
            has_lower = true;
        }
        if 65 <= v && v <= 90 {
            has_upper = true;
        }
        if special_char(c) {
            has_special = true;
        }
        i = i + 1;
    }
    has_digit && has_lower && has_upper && has_special
}

} // verus!
