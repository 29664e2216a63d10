use vstd::prelude::*;

verus! {

/// The pattern that a new password must match: one or more ASCII letters or
/// digits and nothing else.
pub open spec fn alphanumeric_pattern() -> Seq<char> {
    "^[[:alnum:]]+$"@
}

/// `c` is in the class `[[:alnum:]]`, that is `[0-9A-Za-z]`.
pub open spec fn is_ascii_alnum(c: char) -> bool {
    ('0' <= c && c <= '9') || ('A' <= c && c <= 'Z') || ('a' <= c && c <= 'z')
}

/// `s` matches `^[[:alnum:]]+$`: it is not empty and every character is an
/// ASCII letter or digit.
pub open spec fn is_alphanumeric_text(s: Seq<char>) -> bool {
    s.len() > 0 && forall|i: int| 0 <= i < s.len() ==> is_ascii_alnum(#[trigger] s[i])
}

/// Compiles `pattern` with `regex::Regex::new` and runs `Regex::is_match` on
/// `haystack`. It is only called with the pattern `^[[:alnum:]]+$`, which
/// compiles (so the `unwrap` cannot panic); the crate documents
/// `[[:alnum:]]` as `[0-9A-Za-z]`, and `^`, `$` anchor at the two ends of the
/// haystack, so the match succeeds exactly on non-empty texts made of ASCII
/// letters and digits.
#[verifier::external_body]
pub(crate) fn regex_is_match(pattern: &str, haystack: &str) -> (res: bool)
    requires
        pattern@ == alphanumeric_pattern(),
    ensures
        res == is_alphanumeric_text(haystack@),
{
    regex::Regex::new(pattern).unwrap().is_match(haystack)
}

/// The format rule for passwords: `pwd` matches `^[[:alnum:]]+$`.
pub fn matches_alphanumeric(pwd: &String) -> (res: bool)
    ensures
        res == is_alphanumeric_text(pwd@),
{
    regex_is_match("^[[:alnum:]]+$", pwd.as_str())
}

} // verus!
