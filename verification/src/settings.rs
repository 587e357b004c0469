//! The settings of the server that offers the media files.

use vstd::prelude::*;

verus! {

/// Where the media files are and how they are played.
#[derive(Debug, Clone)]
pub struct Config {
    pub path: String,
    /// Whether the player should be fullscreen or not.
    pub fullscreen: bool,
}

/// What `fullscreen` is where the settings do not say.
pub fn default_true() -> (on: bool)
    ensures
        on,
{
    true
}

} // verus!
