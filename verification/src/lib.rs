//! Turning a getyarn.io clip address into the address of its raw GIF.

pub mod address;
pub mod config;
pub mod outcome;
pub mod pattern;
pub mod text;
pub mod twine;
pub mod uid;
pub mod yarn;

pub use address::{Url, UrlError};
pub use config::Config;
pub use twine::{Args, Twine, TwineError};
pub use uid::{Uid, UidError};
