//! Web addresses: what this library reads of a parsed URL.
//!
//! Parsing itself is the `url` crate's work. An [`Url`] holds, as plain
//! strings, the three things the rest of the library looks at.

use vstd::prelude::*;
use vstd::std_specs::cmp::PartialEqSpecImpl;
use crate::text::{contains, has_infix};

verus! {

/// `url::ParseError`, carried through but never looked into.
#[verifier::external_type_specification]
#[verifier::external_body]
pub struct ExUrlParseError(url::ParseError);

/// The serialization of the URL that the parser makes of `input`; `None`
/// where the parser rejects `input`.
pub uninterp spec fn parsed_text(input: Seq<char>) -> Option<Seq<char>>;

/// The host of the URL that the parser makes of `input`, if it has one.
/// Meaningful only where `parsed_text(input)` is `Some`.
pub uninterp spec fn parsed_host(input: Seq<char>) -> Option<Seq<char>>;

/// The path of the URL that the parser makes of `input`.
/// Meaningful only where `parsed_text(input)` is `Some`.
pub uninterp spec fn parsed_path(input: Seq<char>) -> Seq<char>;

/// The host name every clip address carries.
pub const YARN_HOST: &'static str = "getyarn.io";

/// The path marker every clip address carries.
pub const CLIP_MARK: &'static str = "yarn-clip";

/// A parsed absolute URL.
#[derive(Debug)]
pub struct Url {
    /// The URL written out in full.
    pub text: String,
    /// Its host, for URLs that have one.
    pub host: Option<String>,
    /// Its path.
    pub path: String,
}

/// The mathematical content of an [`Url`].
pub struct UrlView {
    pub text: Seq<char>,
    pub host: Option<Seq<char>>,
    pub path: Seq<char>,
}

impl View for Url {
    type V = UrlView;

    open spec fn view(&self) -> UrlView {
        UrlView {
            text: self.text@,
            host: match self.host {
                Some(h) => Some(h@),
                None => None,
            },
            path: self.path@,
        }
    }
}

/// Why an address could not be parsed.
#[derive(Debug)]
pub struct UrlError(pub url::ParseError);

/// What the parser makes of `input`: the URL, or `None` where it rejects
/// the input.
pub open spec fn parsed(input: Seq<char>) -> Option<UrlView> {
    match parsed_text(input) {
        Some(text) => Some(UrlView { text, host: parsed_host(input), path: parsed_path(input) }),
        None => None,
    }
}

/// A clip address has a host that contains `getyarn.io` and a path that
/// contains `yarn-clip`.
pub open spec fn is_yarn_clip(u: UrlView) -> bool {
    &&& u.host matches Some(host) && has_infix(host, YARN_HOST@)
    &&& has_infix(u.path, CLIP_MARK@)
}

/// `Url::parse`, then `Url::as_str`, `Url::host_str` and `Url::path` on the
/// URL it returns.
///
/// Claims only that what the four return depends on nothing but `input`:
/// the contract gives each of them a name and says no more of it.
#[verifier::external_body]
fn parse_outside(input: &str) -> (r: Result<Url, url::ParseError>)
    ensures
        r is Ok <==> parsed_text(input@) is Some,
        r matches Ok(u) ==> parsed_text(input@) == Some(u@.text),
        r matches Ok(u) ==> parsed_host(input@) == u@.host,
        r matches Ok(u) ==> parsed_path(input@) == u@.path,
{
    let u = url::Url::parse(input)?;
    let host = match u.host_str() {
        Some(h) => Some(h.to_string()),
        None => None,
    };
    Ok(Url { text: u.as_str().to_string(), host, path: u.path().to_string() })
}

/// The parser's own account of why it rejected an input: `url::ParseError`
/// rendered through `Display`. Nothing is claimed of the text.
#[verifier::external_body]
pub(crate) fn describe(e: &url::ParseError) -> String {
    e.to_string()
}

impl Url {
    /// Parses an absolute URL.
    pub fn parse(input: &str) -> (r: Result<Url, UrlError>)
        ensures
            r matches Ok(url) ==> parsed(input@) == Some(url@),
            r is Err ==> parsed(input@) is None,
    {
        match parse_outside(input) {
            Ok(u) => Ok(u),
            Err(e) => Err(UrlError(e)),
        }
    }

    /// The URL written out in full.
    pub fn as_str(&self) -> (s: &str)
        ensures
            s@ == self@.text,
    {
        self.text.as_str()
    }

    /// Whether this is the address of a clip.
    pub fn is_yarn_clip(&self) -> (ok: bool)
        ensures
            ok == is_yarn_clip(self@),
    {
        match &self.host {
            Some(host) => contains(host.as_str(), YARN_HOST) && contains(
                self.path.as_str(),
                CLIP_MARK,
            ),
            None => false,
        }
    }
}

impl PartialEq for Url {
    fn eq(&self, other: &Url) -> (same: bool) {
        let hosts = match (&self.host, &other.host) {
            (Some(a), Some(b)) => *a == *b,
            (None, None) => true,
            _ => false,
        };
        hosts && self.text == other.text && self.path == other.path
    }
}

impl PartialEqSpecImpl for Url {
    open spec fn obeys_eq_spec() -> bool {
        true
    }

    open spec fn eq_spec(&self, other: &Url) -> bool {
        self@ == other@
    }
}

} // verus!
