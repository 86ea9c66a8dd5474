//! The clip address among a program's arguments.

use vstd::prelude::*;
use crate::address::{Url, UrlView, parsed, is_yarn_clip};
use crate::outcome::outcome;

verus! {

/// The complaint about a missing argument.
pub const NO_ARGUMENT: &'static str = "Please Provide a URL";

/// The complaint about an empty argument.
pub const EMPTY_ARGUMENT: &'static str = "No URL provided";

/// The complaint about an argument that is no URL.
pub const NOT_A_URL: &'static str = "Please provide a valid URL";

/// The complaint about a URL that is not the address of a clip.
pub const NOT_YARN: &'static str =
    "It appears that you have entered a URL from a site other than getyarn.io";

/// What a run works on.
#[derive(Debug)]
pub struct Config {
    /// The clip address.
    pub url: Url,
}

/// What the arguments lead to: the clip address, or a complaint. The
/// address is the argument after the program's name. Four conditions are
/// tried in a fixed order, and the first that fails names the complaint:
/// the argument is there; it is not empty; it parses as a URL; the URL is
/// the address of a clip.
pub open spec fn config_of(args: Seq<String>) -> Result<UrlView, Seq<char>> {
    if args.len() < 2 {
        Err(NO_ARGUMENT@)
    } else if args[1]@.len() == 0 {
        Err(EMPTY_ARGUMENT@)
    } else {
        match parsed(args[1]@) {
            None => Err(NOT_A_URL@),
            Some(url) => if is_yarn_clip(url) {
                Ok(url)
            } else {
                Err(NOT_YARN@)
            },
        }
    }
}

impl View for Config {
    type V = UrlView;

    open spec fn view(&self) -> UrlView {
        self.url@
    }
}

impl Config {
    /// Reads the clip address from the program's arguments.
    pub fn new(args: &[String]) -> (r: Result<Config, &'static str>)
        ensures
            outcome(r) == config_of(args@),
    {
        if args.len() < 2 {
            return Err(NO_ARGUMENT);
        }
        let url_arg = &args[1];
        if url_arg.as_str().is_empty() {
            return Err(EMPTY_ARGUMENT);
        }
        let yarn_url = match Url::parse(url_arg.as_str()) {
            Ok(url) => url,
            Err(_) => return Err(NOT_A_URL),
        };
        if !Config::matches_yarn_url(&yarn_url) {
            return Err(NOT_YARN);
        }
        Ok(Config { url: yarn_url })
    }

    /// Whether `url` is the address of a clip.
    pub fn matches_yarn_url(url: &Url) -> (ok: bool)
        ensures
            ok == is_yarn_clip(url@),
    {
        url.is_yarn_clip()
    }
}

} // verus!
