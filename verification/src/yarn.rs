//! From a clip address to the address of the clip's raw GIF.

use vstd::prelude::*;
use vstd::string::StringExecFns;
use crate::address::{self, Url, UrlError, parsed, parsed_text};
use crate::pattern;
use crate::text::has_infix;
use crate::uid::{Uid, UidError, UidFault, uid_in_address};

verus! {

/// Where the raw GIF files are served from.
pub const GIF_BASE: &'static str = "https://y.yarn.co/";

/// What follows the identifier in the address of a raw GIF file.
pub const GIF_SUFFIX: &'static str = "_text.gif";

/// How the complaint about a refused identifier pattern begins.
pub const PATTERN_COMPLAINT: &'static str =
    "There was an error in the creation of the yarn regex capture: ";

/// The address, as text, of the raw GIF file of the clip `uid`.
pub open spec fn gif_address(uid: Seq<char>) -> Seq<char> {
    GIF_BASE@ + uid + GIF_SUFFIX@
}

/// Whether `msg` is the complaint that goes with `fault`. A refused
/// pattern is complained of in the engine's own words, after a fixed
/// beginning; every other fault has its fixed message.
pub open spec fn complains_of(msg: Seq<char>, fault: UidFault) -> bool {
    match fault {
        UidFault::Pattern => PATTERN_COMPLAINT@.is_prefix_of(msg),
        _ => msg == fault.message(),
    }
}

/// Writes out the address of the raw GIF file of the clip `uid`.
pub fn gif_path(uid: &str) -> (path: String)
    ensures
        path@ == gif_address(uid@),
{
    GIF_BASE.to_owned().concat(uid).concat(GIF_SUFFIX)
}

/// The address of the raw GIF file of the clip `uid`.
pub fn raw_gif_url(uid: String) -> (r: Result<Url, UrlError>)
    ensures
        r matches Ok(url) ==> parsed(gif_address(uid@)) == Some(url@),
        r is Err ==> parsed(gif_address(uid@)) is None,
{
    let path = gif_path(uid.as_str());
    Url::parse(path.as_str())
}

/// The first identifier in the address, as text. An address that holds
/// none is an error, with the message of that fault.
pub fn capture_uid(url: &Url) -> (r: Result<String, String>)
    ensures
        r is Ok <==> uid_in_address(url@.text) is Ok,
        r matches Ok(uid) ==> uid_in_address(url@.text) == Ok::<Seq<char>, UidFault>(uid@),
        r matches Ok(uid) ==> has_infix(url@.text, uid@),
        r matches Err(msg) ==> (uid_in_address(url@.text) matches Err(fault) && complains_of(
            msg@,
            fault,
        )),
{
    match Uid::from_url(url) {
        Ok(uid) => Ok(uid.0),
        Err(UidError::Pattern(e)) => {
            let detail = pattern::describe(&e);
            Err(PATTERN_COMPLAINT.to_owned().concat(detail.as_str()))
        },
        Err(e) => Err(e.message().to_owned()),
    }
}

/// The address to fetch for the clip at `url`, written out in full. There
/// is none for an address without identifier: that is an error, with the
/// message that `capture_uid` gives.
pub fn gif_location(url: &Url) -> (r: Result<String, String>)
    ensures
        r is Ok <==> (uid_in_address(url@.text) matches Ok(uid) && parsed(gif_address(uid)) is Some),
        r matches Ok(location) ==> (uid_in_address(url@.text) matches Ok(uid) && parsed_text(
            gif_address(uid),
        ) == Some(location@)),
        r matches Err(msg) ==> (uid_in_address(url@.text) matches Err(fault) ==> complains_of(
            msg@,
            fault,
        )),
{
    match capture_uid(url) {
        Err(msg) => Err(msg),
        Ok(uid) => match raw_gif_url(uid) {
            Ok(gif) => Ok(gif.text),
            Err(e) => Err(address::describe(&e.0)),
        },
    }
}

} // verus!
