//! What the browser and the server say to each other about media files.

use vstd::prelude::*;

verus! {

/// One file that matches a search.
#[derive(Debug)]
pub struct SearchResult {
    pub filename: String,
}

/// The answer to a search.
#[derive(Debug)]
pub struct SearchResponse {
    pub items: Vec<SearchResult>,
}

/// The request to play a file.
#[derive(Debug)]
pub struct PlayCommand {
    pub filename: String,
}

} // verus!
