//! Clip identifiers.

use vstd::prelude::*;
use vstd::std_specs::cmp::PartialEqSpecImpl;
use crate::address::Url;
use crate::outcome::outcome;
use crate::pattern::{self, Capture, pattern_compiles, pattern_matches, group_text};
use crate::text::has_infix;

verus! {

/// The shape of a clip identifier, as a regular expression with the whole
/// identifier as its first group.
pub const UID_PATTERN: &'static str =
    "([0-9a-f]{8}-[0-9a-f]{4}-[0-9a-f]{4}-[0-9a-f]{4}-[0-9a-f]{12})";

/// A clip identifier.
#[derive(Debug)]
pub struct Uid(pub String);

impl View for Uid {
    type V = Seq<char>;

    open spec fn view(&self) -> Seq<char> {
        self.0@
    }
}

/// Why no identifier was produced.
#[derive(Debug)]
pub enum UidError {
    /// The engine refused the identifier pattern itself; its reason comes
    /// along.
    Pattern(regex::Error),
    /// The string given is no identifier.
    Invalid,
    /// The address holds no identifier.
    NoCapture,
    /// An identifier was matched, but its capture group is missing.
    NoGroup,
}

/// A [`UidError`] without the engine's reason.
pub enum UidFault {
    Pattern,
    Invalid,
    NoCapture,
    NoGroup,
}

impl View for UidError {
    type V = UidFault;

    open spec fn view(&self) -> UidFault {
        match self {
            UidError::Pattern(_) => UidFault::Pattern,
            UidError::Invalid => UidFault::Invalid,
            UidError::NoCapture => UidFault::NoCapture,
            UidError::NoGroup => UidFault::NoGroup,
        }
    }
}

impl UidFault {
    /// What to tell the user.
    pub open spec fn message(self) -> Seq<char> {
        match self {
            UidFault::Pattern => "uid capture regex creation failed"@,
            UidFault::Invalid => "Invalid UID"@,
            UidFault::NoCapture => "Unable to capture a getyarn uid from the provided URL"@,
            UidFault::NoGroup => "Unable to capture (group 1) from getyarn string"@,
        }
    }
}

/// What becomes of a string offered as an identifier: it is taken if the
/// whole of it is one identifier, which is to say that the first
/// identifier found in it is the string itself.
pub open spec fn uid_of_raw(raw: Seq<char>) -> Result<Seq<char>, UidFault> {
    if !pattern_compiles(UID_PATTERN@) {
        Err(UidFault::Pattern)
    } else if pattern_matches(UID_PATTERN@, raw) && group_text(UID_PATTERN@, raw, 1) == Some(raw) {
        Ok(raw)
    } else {
        Err(UidFault::Invalid)
    }
}

/// The identifier of the clip whose address is written `text`: the first
/// one that occurs in it.
pub open spec fn uid_in_address(text: Seq<char>) -> Result<Seq<char>, UidFault> {
    if !pattern_compiles(UID_PATTERN@) {
        Err(UidFault::Pattern)
    } else if !pattern_matches(UID_PATTERN@, text) {
        Err(UidFault::NoCapture)
    } else {
        match group_text(UID_PATTERN@, text, 1) {
            Some(uid) => Ok(uid),
            None => Err(UidFault::NoGroup),
        }
    }
}

impl UidError {
    /// What to tell the user.
    pub fn message(&self) -> (s: &'static str)
        ensures
            s@ == self@.message(),
    {
        match self {
            UidError::Pattern(_) => "uid capture regex creation failed",
            UidError::Invalid => "Invalid UID",
            UidError::NoCapture => "Unable to capture a getyarn uid from the provided URL",
            UidError::NoGroup => "Unable to capture (group 1) from getyarn string",
        }
    }
}

impl Uid {
    /// Decides, on what a search for the first group of [`UID_PATTERN`]
    /// found in `raw_uid`, whether `raw_uid` becomes an identifier: it does
    /// where the text found is the whole of it.
    pub fn from_whole(raw_uid: String, found: Result<Capture, regex::Error>) -> (r: Result<
        Uid,
        UidError,
    >)
        ensures
            found matches Ok(Capture::Text(t)) ==> (if t@ == raw_uid@ {
                r matches Ok(uid) && uid@ == raw_uid@
            } else {
                r matches Err(UidError::Invalid)
            }),
            found matches Ok(Capture::NoMatch) ==> r matches Err(UidError::Invalid),
            found matches Ok(Capture::NoGroup) ==> r matches Err(UidError::Invalid),
            found matches Err(e) ==> r matches Err(UidError::Pattern(cause)) && cause == e,
    {
        match found {
            Ok(Capture::Text(t)) => if t == raw_uid {
                Ok(Uid(raw_uid))
            } else {
                Err(UidError::Invalid)
            },
            Ok(_) => Err(UidError::Invalid),
            Err(e) => Err(UidError::Pattern(e)),
        }
    }

    /// Accepts `raw_uid` if the whole of it is one identifier.
    pub fn new(raw_uid: String) -> (r: Result<Uid, UidError>)
        ensures
            outcome(r) == uid_of_raw(raw_uid@),
    {
        let found = pattern::capture(UID_PATTERN, raw_uid.as_str(), 1);
        Uid::from_whole(raw_uid, found)
    }

    /// The identifier as text.
    pub fn as_str(&self) -> (s: &str)
        ensures
            s@ == self@,
    {
        self.0.as_str()
    }

    /// Turns what a search for the first group of [`UID_PATTERN`] found
    /// into an identifier.
    pub fn from_capture(found: Result<Capture, regex::Error>) -> (r: Result<Uid, UidError>)
        ensures
            found matches Ok(Capture::Text(t)) ==> r matches Ok(uid) && uid@ == t@,
            found matches Ok(Capture::NoMatch) ==> r matches Err(UidError::NoCapture),
            found matches Ok(Capture::NoGroup) ==> r matches Err(UidError::NoGroup),
            found matches Err(e) ==> r matches Err(UidError::Pattern(cause)) && cause == e,
    {
        match found {
            Ok(Capture::Text(t)) => Ok(Uid(t)),
            Ok(Capture::NoMatch) => Err(UidError::NoCapture),
            Ok(Capture::NoGroup) => Err(UidError::NoGroup),
            Err(e) => Err(UidError::Pattern(e)),
        }
    }

    /// The first identifier that occurs in the address, written out in full.
    pub fn from_url(url: &Url) -> (r: Result<Uid, UidError>)
        ensures
            outcome(r) == uid_in_address(url@.text),
            r matches Ok(uid) ==> has_infix(url@.text, uid@),
    {
        Uid::from_capture(pattern::capture(UID_PATTERN, url.as_str(), 1))
    }
}

impl PartialEq for Uid {
    fn eq(&self, other: &Uid) -> (same: bool) {
        self.0 == other.0
    }
}

impl PartialEqSpecImpl for Uid {
    open spec fn obeys_eq_spec() -> bool {
        true
    }

    open spec fn eq_spec(&self, other: &Uid) -> bool {
        self@ == other@
    }
}

} // verus!
