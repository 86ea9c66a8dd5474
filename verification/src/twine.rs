//! The whole way from the command line's argument to the address to fetch.

use vstd::prelude::*;
use crate::address::{Url, UrlError, UrlView, parsed, is_yarn_clip};
use crate::outcome::outcome;
use crate::text::has_infix;
use crate::uid::{Uid, UidError, UidFault, uid_in_address};
use crate::yarn::{gif_address, gif_path};

verus! {

/// What the command line holds.
#[derive(Debug)]
pub struct Args {
    /// A valid yarn URL.
    pub url: String,
}

/// A clip address taken apart: the address itself, the clip's identifier
/// and the address of the clip's raw GIF file.
#[derive(Debug)]
pub struct Twine {
    /// The command line as it was given.
    pub args: Args,
    /// The clip address.
    pub url: Url,
    /// The clip's identifier.
    pub uid: Uid,
    /// The address of the clip's raw GIF file.
    pub file_url: Url,
}

/// The mathematical content of a [`Twine`].
pub struct TwineView {
    pub input: Seq<char>,
    pub url: UrlView,
    pub uid: Seq<char>,
    pub file_url: UrlView,
}

impl View for Twine {
    type V = TwineView;

    open spec fn view(&self) -> TwineView {
        TwineView {
            input: self.args.url@,
            url: self.url@,
            uid: self.uid@,
            file_url: self.file_url@,
        }
    }
}

/// Why an argument did not lead to a clip.
#[derive(Debug)]
pub enum TwineError {
    /// The argument is no URL; the parser's reason comes along.
    Parse(UrlError),
    /// The argument is a URL, but not the address of a clip.
    NotYarn,
    /// The address holds no clip identifier.
    Uid(UidError),
    /// The address of the raw GIF file is no URL; the parser's reason comes
    /// along.
    FileUrl(UrlError),
}

/// A [`TwineError`] without the reasons that the parser and the engine gave.
pub enum TwineFault {
    Parse,
    NotYarn,
    Uid(UidFault),
    FileUrl,
}

impl View for TwineError {
    type V = TwineFault;

    open spec fn view(&self) -> TwineFault {
        match self {
            TwineError::Parse(_) => TwineFault::Parse,
            TwineError::NotYarn => TwineFault::NotYarn,
            TwineError::Uid(e) => TwineFault::Uid(e@),
            TwineError::FileUrl(_) => TwineFault::FileUrl,
        }
    }
}

impl TwineFault {
    /// What to tell the user.
    pub open spec fn message(self) -> Seq<char> {
        match self {
            TwineFault::Parse => "Unable to parse the provided URL"@,
            TwineFault::NotYarn =>
                "It appears that you have entered a URL from a site other than getyarn.io"@,
            TwineFault::Uid(_) => "Unable to generate uid from provided URL"@,
            TwineFault::FileUrl => "Unable to generate raw file url"@,
        }
    }
}

/// What `input` leads to. Four conditions are tried in a fixed order, and
/// the first that fails names the fault: the input parses as a URL; the URL
/// is the address of a clip; an identifier occurs in the URL as written
/// out; the address of the raw GIF file parses as a URL.
pub open spec fn twine_of(input: Seq<char>) -> Result<TwineView, TwineFault> {
    match parsed(input) {
        None => Err(TwineFault::Parse),
        Some(url) => if !is_yarn_clip(url) {
            Err(TwineFault::NotYarn)
        } else {
            match uid_in_address(url.text) {
                Err(fault) => Err(TwineFault::Uid(fault)),
                Ok(uid) => match parsed(gif_address(uid)) {
                    None => Err(TwineFault::FileUrl),
                    Some(file_url) => Ok(TwineView { input, url, uid, file_url }),
                },
            }
        },
    }
}

impl TwineError {
    /// What to tell the user.
    pub fn message(&self) -> (s: &'static str)
        ensures
            s@ == self@.message(),
    {
        match self {
            TwineError::Parse(_) => "Unable to parse the provided URL",
            TwineError::NotYarn =>
                "It appears that you have entered a URL from a site other than getyarn.io",
            TwineError::Uid(_) => "Unable to generate uid from provided URL",
            TwineError::FileUrl(_) => "Unable to generate raw file url",
        }
    }
}

impl Twine {
    /// Takes the argument apart: parses it, makes sure that it is the
    /// address of a clip, finds the clip's identifier and derives the
    /// address of the raw GIF file. The identifier is a piece of the
    /// address as written out.
    pub fn new(args: Args) -> (r: Result<Twine, TwineError>)
        ensures
            outcome(r) == twine_of(args.url@),
            r matches Ok(twine) ==> has_infix(twine@.url.text, twine@.uid),
    {
        let url = match Url::parse(args.url.as_str()) {
            Ok(url) => url,
            Err(e) => return Err(TwineError::Parse(e)),
        };
        if !Twine::valid_yarn_url(&url) {
            return Err(TwineError::NotYarn);
        }
        let uid = match Uid::from_url(&url) {
            Ok(uid) => uid,
            Err(e) => return Err(TwineError::Uid(e)),
        };
        let file_url = match Twine::raw_gif_url(&uid) {
            Ok(file_url) => file_url,
            Err(e) => return Err(TwineError::FileUrl(e)),
        };
        Ok(Twine { url, uid, args, file_url })
    }

    /// Whether `url` is the address of a clip.
    pub fn valid_yarn_url(url: &Url) -> (ok: bool)
        ensures
            ok == is_yarn_clip(url@),
    {
        url.is_yarn_clip()
    }

    /// The address of the raw GIF file of the clip `uid`.
    pub fn raw_gif_url(uid: &Uid) -> (r: Result<Url, UrlError>)
        ensures
            r matches Ok(url) ==> parsed(gif_address(uid@)) == Some(url@),
            r is Err ==> parsed(gif_address(uid@)) is None,
    {
        let path = gif_path(uid.as_str());
        Url::parse(path.as_str())
    }
}

} // verus!
