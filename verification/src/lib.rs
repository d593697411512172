//! Automatic moderation of chat messages: settings, the decisions taken on a
//! message, and the requests that carry those decisions out.

pub mod actions;
pub mod discord;
pub mod embed;
pub mod enforcement;
pub mod initialization;
pub mod message;
pub mod parsing;
pub mod report;
pub mod settings;
pub mod text;
pub mod validation;

use vstd::prelude::*;

verus! {

/// The moderation plugin. Its behaviour lives in associated functions spread
/// over the modules of this crate.
pub struct Plugin {}

} // verus!
