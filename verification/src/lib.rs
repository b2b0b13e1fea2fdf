//! Typed records for several Minecraft distribution services, and the rule
//! engine that decides which libraries, native artifacts and launch
//! arguments apply to a given host.

use vstd::prelude::*;

pub mod fabric;
pub mod forge;
pub mod hangar;
pub mod mclogs;
pub mod papermc;
pub mod pattern;
pub mod purpurmc;
pub mod quilt;
pub mod table;
pub mod template;
pub mod text;
pub mod vanilla;
pub mod version;

pub use template::dollar_repl;
pub use version::{MCVersion, MCVersionReq};

verus! {

/// What can go wrong in this library.
#[derive(Debug)]
pub enum McError {
    /// The named thing does not exist.
    NotFound(String),
    /// The text is not a version of the game.
    InvalidVersion(String),
    /// A rule carries a version pattern that is no regular expression.
    Regex(regex::Error),
    /// A text that should be an XML document is none.
    XML(roxmltree::Error),
}

/// The side of the game that a file belongs to.
#[derive(Debug)]
pub enum Side {
    Server,
    Client,
}

} // verus!
