//! The regular-expression engine, as far as this library relies on it.
//!
//! Nothing here is proved. The functions in this module call the `regex`
//! crate, and their contracts record what its documentation promises of
//! those calls. What a pattern means is the engine's business: it enters
//! the contracts of this library only under the three names below, and in
//! the one fact that a captured text is a piece of the text searched.

use vstd::prelude::*;
use crate::text::has_infix;

verus! {

/// `regex::Error`, carried through but never looked into.
#[verifier::external_type_specification]
#[verifier::external_body]
pub struct ExRegexError(regex::Error);

/// Whether the engine accepts `pattern` as a regular expression
/// (`Regex::new` returns `Ok`).
pub uninterp spec fn pattern_compiles(pattern: Seq<char>) -> bool;

/// Whether `pattern` has a match anywhere in `text` (`Regex::captures`
/// returns `Some`). Meaningful only where `pattern_compiles(pattern)`.
pub uninterp spec fn pattern_matches(pattern: Seq<char>, text: Seq<char>) -> bool;

/// In the first match of `pattern` in `text`, the characters that capture
/// group number `group` spans (`Captures::get` on what `Regex::captures`
/// returns); `None` when the pattern has no such group or the group took no
/// part in the match. Meaningful only where `pattern_matches(pattern, text)`.
pub uninterp spec fn group_text(pattern: Seq<char>, text: Seq<char>, group: nat) -> Option<
    Seq<char>,
>;

/// What a search for one capture group found.
#[derive(Debug)]
pub enum Capture {
    /// The pattern matches nowhere in the text.
    NoMatch,
    /// The pattern matches, but the group asked for is not part of the match.
    NoGroup,
    /// The text that the group spans in the first match.
    Text(String),
}

/// `Regex::new(pattern)`, then `Regex::captures(text)`, `Captures::get(group)`
/// and `Match::as_str`.
///
/// Claims that compilation fails exactly on the patterns the engine
/// refuses; that the text handed back is that of the requested group in
/// the first match; and that this text is a piece of `text`, which `as_str`
/// cuts out of it.
#[verifier::external_body]
pub(crate) fn capture(pattern: &str, text: &str, group: usize) -> (r: Result<
    Capture,
    regex::Error,
>)
    ensures
        r is Ok <==> pattern_compiles(pattern@),
        r matches Ok(c) ==> (c is NoMatch <==> !pattern_matches(pattern@, text@)),
        r matches Ok(Capture::NoGroup) ==> group_text(pattern@, text@, group as nat) is None,
        r matches Ok(Capture::Text(t)) ==> group_text(pattern@, text@, group as nat) == Some(t@),
        r matches Ok(Capture::Text(t)) ==> has_infix(text@, t@),
{
    let re = regex::Regex::new(pattern)?;
    let found = match re.captures(text) {
        None => Capture::NoMatch,
        Some(groups) => match groups.get(group) {
            None => Capture::NoGroup,
            Some(m) => Capture::Text(m.as_str().to_string()),
        },
    };
    Ok(found)
}

/// The engine's own account of why it refused a pattern: `regex::Error`
/// rendered through `Display`. Nothing is claimed of the text.
#[verifier::external_body]
pub(crate) fn describe(e: &regex::Error) -> String {
    e.to_string()
}

} // verus!
