//! The wire messages of the single-listener API where they differ from the
//! first revision: search results carry their variant as `kind`, and pages
//! carry the continuation token as plain text; and the status messages.

use vstd::prelude::*;

use crate::wire;

verus! {

/// One search result message.
#[derive(Debug)]
pub struct SearchResult {
    pub kind: Option<wire::SearchResultItemKind>,
}

/// A page of search results.
#[derive(Debug)]
pub struct SearchResponse {
    pub items: Vec<SearchResult>,
    pub continuation_token: Option<String>,
}

/// A page of a watch playlist.
#[derive(Debug)]
pub struct WatchPlaylistResponse {
    pub items: Vec<wire::WatchTrackItem>,
    pub continuation_token: Option<String>,
}

/// A request for the service status.
#[derive(Debug)]
pub struct GetStatusRequest {}

/// What the status service reports.
#[derive(Debug)]
pub struct GetStatusResponse {
    pub version: String,
    pub started_at_unix_seconds: u64,
    pub listen_addr: String,
    pub ytmusic_ready: bool,
    pub cipher_ready: bool,
    pub lifecycle: String,
}

} // verus!
