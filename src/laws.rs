use vstd::prelude::*;

use crate::error::ErrorKind;
use crate::reserved::reserved_name;
use crate::rules::{
    char_verdict, is_valid_name, name_verdict, scan_from, scan_verdict, uppercase_char,
    url_verdict, MAX_PACKAGE_NAME_LENGTH,
};

verus! {

/// Whether `s` gets past the checks that come before the character scan: its length
/// is in range and it starts with neither `.` nor `_`.
pub open spec fn passes_leading_checks(s: Seq<char>) -> bool {
    &&& 0 < s.len() <= MAX_PACKAGE_NAME_LENGTH
    &&& s[0] != '.'
    &&& s[0] != '_'
}

/// Whether no character of `s` before index `i` breaks a per-character rule.
pub open spec fn clean_before(s: Seq<char>, scoped: bool, i: int) -> bool {
    forall|j: int| 0 <= j < i ==> char_verdict(#[trigger] s[j], scoped) is None
}

/// When the first offending character of `s` stands at `i`, the scan from any `k` up
/// to `i` reports its rule.
proof fn lemma_scan_reports_first(s: Seq<char>, scoped: bool, i: int, k: int)
    requires
        0 <= k <= i < s.len(),
        char_verdict(s[i], scoped) is Some,
        clean_before(s, scoped, i),
    ensures
        scan_from(s, scoped, k) == char_verdict(s[i], scoped),
    decreases i - k,
{
    if k < i {
        assert(char_verdict(s[k], scoped) is None);
        lemma_scan_reports_first(s, scoped, i, k + 1);
    }
}

/// When the character at `i` breaks a rule, the scan from any `k` up to `i` reports one.
proof fn lemma_scan_finds(s: Seq<char>, scoped: bool, i: int, k: int)
    requires
        0 <= k <= i < s.len(),
        char_verdict(s[i], scoped) is Some,
    ensures
        scan_from(s, scoped, k) is Some,
    decreases i - k,
{
    if k < i && char_verdict(s[k], scoped) is None {
        lemma_scan_finds(s, scoped, i, k + 1);
    }
}

/// When no character of `s` breaks a rule, the scan from any `k` reports nothing.
proof fn lemma_scan_clean(s: Seq<char>, scoped: bool, k: int)
    requires
        0 <= k <= s.len(),
        clean_before(s, scoped, s.len() as int),
    ensures
        scan_from(s, scoped, k) is None,
    decreases s.len() - k,
{
    if k < s.len() {
        assert(char_verdict(s[k], scoped) is None);
        lemma_scan_clean(s, scoped, k + 1);
    }
}

/// Validation is a function of the text alone: two equal texts get the same verdict.
pub proof fn lemma_deterministic(s: Seq<char>, t: Seq<char>)
    requires
        s == t,
    ensures
        name_verdict(s) == name_verdict(t),
{
}

/// The empty name is rejected as too short.
pub proof fn lemma_empty(s: Seq<char>)
    requires
        s.len() == 0,
    ensures
        name_verdict(s) == Some(ErrorKind::LessThanZero),
{
}

/// A name of more than the maximum number of characters is rejected as too long.
pub proof fn lemma_too_long(s: Seq<char>)
    requires
        s.len() > MAX_PACKAGE_NAME_LENGTH,
    ensures
        name_verdict(s) == Some(ErrorKind::LongerThanMax),
{
}

/// A name of allowed length that starts with `.` is rejected for that; one that starts
/// with `_` is rejected for that.
pub proof fn lemma_leading_char(s: Seq<char>)
    requires
        0 < s.len() <= MAX_PACKAGE_NAME_LENGTH,
    ensures
        s[0] == '.' ==> name_verdict(s) == Some(ErrorKind::StartsWithAPeriod),
        s[0] == '_' ==> name_verdict(s) == Some(ErrorKind::StartsWithAnUnderscore),
{
}

/// A name that holds an uppercase character is never valid, and where that character
/// is the first to break any rule, the name is rejected for containing a capital.
pub proof fn lemma_uppercase(s: Seq<char>, i: int)
    requires
        0 <= i < s.len(),
        uppercase_char(s[i]),
    ensures
        !is_valid_name(s),
        passes_leading_checks(s) && clean_before(s, s[0] == '@', i) ==> name_verdict(s) == Some(
            ErrorKind::ContainsCapitalLetter,
        ),
{
    if passes_leading_checks(s) {
        let scoped = s[0] == '@';
        lemma_scan_finds(s, scoped, i, 0);
        if clean_before(s, scoped, i) {
            lemma_scan_reports_first(s, scoped, i, 0);
        }
    }
}

/// A name that does not start with `@` and holds a `/` is never valid. Where that `/`
/// is the first character to break a rule, the verdict is what the character rules say
/// of `/`: not URL-safe, unless `/` counted as uppercase.
pub proof fn lemma_slash_unscoped(s: Seq<char>, i: int)
    requires
        0 <= i < s.len(),
        s[0] != '@',
        s[i] == '/',
    ensures
        !is_valid_name(s),
        passes_leading_checks(s) && clean_before(s, false, i) ==> name_verdict(s) == char_verdict(
            '/',
            false,
        ),
        !uppercase_char('/') ==> char_verdict('/', false) == Some(
            ErrorKind::NotUrlSafe,
        ),
{
    if passes_leading_checks(s) {
        lemma_scan_finds(s, false, i, 0);
        if clean_before(s, false, i) {
            lemma_scan_reports_first(s, false, i, 0);
        }
    }
}

/// In a name that starts with `@`, the URL-safety rule accepts `/`: where every other
/// character passes the character rules, and `/` does not count as uppercase,
/// the character scan reports nothing however many `/` the name holds.
pub proof fn lemma_slash_scoped(s: Seq<char>)
    requires
        s.len() > 0,
        s[0] == '@',
        forall|j: int| 0 <= j < s.len() && s[j] != '/' ==> char_verdict(#[trigger] s[j], true) is None,
        !uppercase_char('/'),
    ensures
        url_verdict('/', true) is None,
        scan_verdict(s, true) is None,
{
    assert(clean_before(s, true, s.len() as int)) by {
        assert forall|j: int| 0 <= j < s.len() implies char_verdict(#[trigger] s[j], true) is None by {
            if s[j] == '/' {
                assert(char_verdict('/', true) is None);
            }
        }
    }
    lemma_scan_clean(s, true, 0);
}

/// A name that holds `:` is never valid, scoped or not. Where that `:` is the first
/// character to break a rule, the verdict is what the character rules say of `:`: not
/// URL-safe, unless `:` counted as uppercase.
pub proof fn lemma_colon(s: Seq<char>, i: int)
    requires
        0 <= i < s.len(),
        s[i] == ':',
    ensures
        !is_valid_name(s),
        passes_leading_checks(s) && clean_before(s, s[0] == '@', i) ==> name_verdict(s)
            == char_verdict(':', s[0] == '@'),
        forall|scoped: bool|
            !uppercase_char(':') ==> #[trigger] char_verdict(':', scoped)
                == Some(ErrorKind::NotUrlSafe),
{
    if passes_leading_checks(s) {
        let scoped = s[0] == '@';
        lemma_scan_finds(s, scoped, i, 0);
        if clean_before(s, scoped, i) {
            lemma_scan_reports_first(s, scoped, i, 0);
        }
    }
}

/// A reserved name that passes every other rule is rejected as reserved.
pub proof fn lemma_reserved(s: Seq<char>)
    requires
        passes_leading_checks(s),
        scan_verdict(s, s[0] == '@') is None,
        reserved_name(s),
    ensures
        name_verdict(s) == Some(ErrorKind::InBlackList),
{
}

} // verus!
