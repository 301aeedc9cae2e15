use vstd::prelude::*;

verus! {

/// Whether `name` matches the regular expression `^[\w\_\-]+$` of the
/// `regex` crate: one or more word characters, underscores or hyphens. In
/// that crate `\w` is Unicode-aware (`\p{Alphabetic}`, `\p{M}`, `\d`,
/// `\p{Pc}`, `\p{Join_Control}`).
pub uninterp spec fn market_name_pattern(name: Seq<char>) -> bool;

/// An ASCII character that the pattern accepts: a letter, a digit, `_` or `-`.
pub open spec fn ascii_name_char(c: char) -> bool {
    ||| 'a' <= c <= 'z'
    ||| 'A' <= c <= 'Z'
    ||| '0' <= c <= '9'
    ||| c == '_'
    ||| c == '-'
}

/// The pattern accepts no empty name, no name with an ASCII character other
/// than a letter, a digit, `_` or `-`, and every non-empty name made of those
/// characters alone (the regex crate documents the ASCII part of `\w` as
/// `[0-9A-Za-z_]`).
pub open spec fn pattern_on_ascii(name: Seq<char>, matched: bool) -> bool {
    &&& name.len() == 0 ==> !matched
    &&& (exists|i: int|
        0 <= i < name.len() && (#[trigger] name[i] as u32) < 128 && !ascii_name_char(name[i]))
        ==> !matched
    &&& (name.len() > 0 && forall|i: int| 0 <= i < name.len() ==> ascii_name_char(#[trigger] name[i]))
        ==> matched
}

/// Matches the name against `^[\w\_\-]+$` with the `regex` crate
/// (`Regex::new(..)` on that constant pattern, then `is_match`).
///
/// Claimed of it: the result is a function of the name, and on ASCII
/// characters it is as the crate's documentation of `\w` gives.
#[verifier::external_body]
fn regex_market_name(name: &str) -> (matched: bool)
    ensures
        matched == market_name_pattern(name@),
        pattern_on_ascii(name@, matched),
{
    regex::Regex::new(r"^[\w\_\-]+$").unwrap().is_match(name)
}

/// Whether `name` is a well-formed market name: one or more word characters,
/// underscores or hyphens.
pub fn validate_market_name(name: &str) -> (valid: bool)
    ensures
        valid == market_name_pattern(name@),
        pattern_on_ascii(name@, valid),
{
    regex_market_name(name)
}

} // verus!
