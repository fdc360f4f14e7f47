use vstd::prelude::*;

use crate::error::{Error, ErrorKind};
use crate::reserved::{is_reserved, reserved_name};

verus! {

/// The largest number of characters a package name may have.
pub const MAX_PACKAGE_NAME_LENGTH: usize = 214;

/// What `char::is_uppercase` says of a character (its Unicode `Uppercase` property).
pub uninterp spec fn uppercase_char(c: char) -> bool;

/// The Unicode `White_Space` property, which `char::is_whitespace` reports.
pub open spec fn whitespace_char(c: char) -> bool {
    ||| '\u{9}' <= c <= '\u{d}'
    ||| c == '\u{20}'
    ||| c == '\u{85}'
    ||| c == '\u{a0}'
    ||| c == '\u{1680}'
    ||| '\u{2000}' <= c <= '\u{200a}'
    ||| c == '\u{2028}'
    ||| c == '\u{2029}'
    ||| c == '\u{202f}'
    ||| c == '\u{205f}'
    ||| c == '\u{3000}'
}

/// Relies on `char::is_uppercase`, which depends on the character alone.
#[verifier::external_body]
fn is_uppercase(c: char) -> (r: bool)
    ensures
        r == uppercase_char(c),
{
    c.is_uppercase()
}

/// Relies on `char::is_whitespace`: true exactly for the characters with the Unicode
/// `White_Space` property.
#[verifier::external_body]
fn is_whitespace(c: char) -> (r: bool)
    ensures
        r == whitespace_char(c),
{
    c.is_whitespace()
}

/// The punctuation that may not appear anywhere in a name.
pub open spec fn forbidden_punctuation(c: char) -> bool {
    c == '~' || c == ')' || c == '(' || c == '\'' || c == '!' || c == '*'
}

/// The URL-safety rule for one character: `:` is never allowed, and `/` only in a
/// scoped name (one that begins with `@`).
pub open spec fn url_verdict(c: char, scoped: bool) -> Option<ErrorKind> {
    if (c == '/' && !scoped) || c == ':' {
        Some(ErrorKind::NotUrlSafe)
    } else {
        None
    }
}

/// The rule that one character breaks, given whether it is uppercase and whether it is
/// whitespace: uppercase first, then a disallowed character, then URL safety.
pub open spec fn char_rule(c: char, scoped: bool, upper: bool, white: bool) -> Option<ErrorKind> {
    if upper {
        Some(ErrorKind::ContainsCapitalLetter)
    } else if white || forbidden_punctuation(c) {
        Some(ErrorKind::InvalidCharacter)
    } else {
        url_verdict(c, scoped)
    }
}

/// The rule that one character breaks, if any.
pub open spec fn char_verdict(c: char, scoped: bool) -> Option<ErrorKind> {
    char_rule(c, scoped, uppercase_char(c), whitespace_char(c))
}

/// The rule broken by the first offending character of `s` at or after index `i`,
/// scanning left to right.
pub open spec fn scan_from(s: Seq<char>, scoped: bool, i: int) -> Option<ErrorKind>
    decreases s.len() - i,
{
    if i < 0 || i >= s.len() {
        None
    } else if char_verdict(s[i], scoped) is Some {
        char_verdict(s[i], scoped)
    } else {
        scan_from(s, scoped, i + 1)
    }
}

/// The rule broken by the first offending character of `s`, if any.
pub open spec fn scan_verdict(s: Seq<char>, scoped: bool) -> Option<ErrorKind> {
    scan_from(s, scoped, 0)
}

/// Checks one character against the URL-safety rule.
pub fn is_url_safe(c: char, starts_with_at: bool) -> (r: Option<ErrorKind>)
    ensures
        r == url_verdict(c, starts_with_at),
{
    if c == '/' && !starts_with_at {
        return Some(ErrorKind::NotUrlSafe);
    }
    if c == ':' {
        Some(ErrorKind::NotUrlSafe)
    } else {
        None
    }
}

/// Applies the per-character rules to `c`, given whether it is uppercase (`upper`)
/// and whether it is whitespace (`white`).
pub fn classify_char(c: char, starts_with_at: bool, upper: bool, white: bool) -> (r: Option<
    ErrorKind,
>)
    ensures
        r == char_rule(c, starts_with_at, upper, white),
{
    if upper {
        return Some(ErrorKind::ContainsCapitalLetter);
    }
    if white || c == '~' || c == ')' || c == '(' || c == '\'' || c == '!' || c == '*' {
        return Some(ErrorKind::InvalidCharacter);
    }
    is_url_safe(c, starts_with_at)
}

/// Checks one character against every per-character rule, in their fixed order.
pub fn is_valid_char(c: char, starts_with_at: bool) -> (r: Option<ErrorKind>)
    ensures
        r == char_verdict(c, starts_with_at),
{
    classify_char(c, starts_with_at, is_uppercase(c), is_whitespace(c))
}

/// The rule that `s` breaks first, in the fixed order of the checks, or `None` when
/// `s` is a valid package name.
pub open spec fn name_verdict(s: Seq<char>) -> Option<ErrorKind> {
    if s.len() == 0 {
        Some(ErrorKind::LessThanZero)
    } else if s.len() > MAX_PACKAGE_NAME_LENGTH {
        Some(ErrorKind::LongerThanMax)
    } else if s[0] == '.' {
        Some(ErrorKind::StartsWithAPeriod)
    } else if s[0] == '_' {
        Some(ErrorKind::StartsWithAnUnderscore)
    } else if scan_verdict(s, s[0] == '@') is Some {
        scan_verdict(s, s[0] == '@')
    } else if reserved_name(s) {
        Some(ErrorKind::InBlackList)
    } else {
        None
    }
}

/// Whether `s` is a valid package name.
pub open spec fn is_valid_name(s: Seq<char>) -> bool {
    name_verdict(s) is None
}

/// What validating `name` gives: `name` itself when it is valid, else the first
/// rule it breaks.
pub open spec fn validation<'a>(name: &'a str) -> Result<&'a str, Error> {
    match name_verdict(name@) {
        None => Ok(name),
        Some(kind) => Err(Error { kind }),
    }
}

/// Scans `name` left to right and reports the rule broken by its first offending
/// character.
pub fn scan_chars(name: &str, starts_with_at: bool) -> (r: Option<ErrorKind>)
    ensures
        r == scan_verdict(name@, starts_with_at),
{
    for c in it: name.chars()
        invariant
            it.seq() == name@,
            scan_verdict(name@, starts_with_at) == scan_from(name@, starts_with_at, it.index() as int),
    {
        let v = is_valid_char(c, starts_with_at);
        if v.is_some() {
            return v;
        }
    }
    None
}

/// Applies the rules to `name` in their fixed order and stops at the first one
/// broken.
pub fn validate(name: &str) -> (r: Result<&str, Error>)
    ensures
        r == validation(name),
{
    if name.is_empty() {
        return Err(Error::from(ErrorKind::LessThanZero));
    }
    if name.unicode_len() > MAX_PACKAGE_NAME_LENGTH {
        return Err(Error::from(ErrorKind::LongerThanMax));
    }
    let first = name.get_char(0);
    if first == '.' {
        return Err(Error::from(ErrorKind::StartsWithAPeriod));
    }
    if first == '_' {
        return Err(Error::from(ErrorKind::StartsWithAnUnderscore));
    }
    let starts_with_at = first == '@';
    match scan_chars(name, starts_with_at) {
        Some(kind) => {
            return Err(Error::from(kind));
        },
        None => {},
    }
    if is_reserved(name) {
        return Err(Error::from(ErrorKind::InBlackList));
    }
    Ok(name)
}

} // verus!
