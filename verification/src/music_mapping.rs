//! Translation of catalogue results into the single-listener API's wire
//! messages. Items translate as in the first revision; song metadata has
//! the same shape in both.

use vstd::prelude::*;

use crate::catalogue;
use crate::mapping::{search_result_mapped, search_result_to_proto, watch_track_mapped, watch_track_to_proto};
use crate::requests;
use crate::seqmap::{map_option, map_vec, option_mapped, seq_mapped};
use crate::wire;
use crate::wire_v2;

pub use crate::mapping::song_response_to_proto;

verus! {

/// The single-listener search result carries the variant of the first
/// revision's translation as its `kind`.
pub open spec fn search_result_v2_mapped(src: catalogue::SearchResult, dst: wire_v2::SearchResult) -> bool {
    search_result_mapped(src, wire::SearchResultItem { item: dst.kind })
}

/// The plain-text token carries the catalogue token's text.
pub open spec fn token_text_mapped(src: requests::ContinuationToken, dst: String) -> bool {
    dst == src.value
}

fn search_result_v2_to_proto(result: catalogue::SearchResult) -> (r: wire_v2::SearchResult)
    ensures
        search_result_v2_mapped(result, r),
{
    let item = search_result_to_proto(result);
    wire_v2::SearchResult { kind: item.item }
}

fn token_text(token: requests::ContinuationToken) -> (r: String)
    ensures
        token_text_mapped(token, r),
{
    token.value
}

/// Translates a page of search results: the items in order, each
/// translated, and the continuation token as text.
pub fn search_page_to_proto(page: catalogue::Page<catalogue::SearchResult>) -> (r:
    wire_v2::SearchResponse)
    ensures
        seq_mapped(page.items@, r.items@, |a, b| search_result_v2_mapped(a, b)),
        option_mapped(page.continuation, r.continuation_token, |a, b| token_text_mapped(a, b)),
{
    wire_v2::SearchResponse {
        items: map_vec(page.items, search_result_v2_to_proto, Ghost(|a, b| search_result_v2_mapped(a, b))),
        continuation_token: map_option(
            page.continuation,
            token_text,
            Ghost(|a, b| token_text_mapped(a, b)),
        ),
    }
}

/// Translates a page of a watch playlist: the tracks in order, each
/// translated, and the continuation token as text.
pub fn watch_page_to_proto(page: catalogue::Page<catalogue::WatchTrack>) -> (r:
    wire_v2::WatchPlaylistResponse)
    ensures
        seq_mapped(page.items@, r.items@, |a, b| watch_track_mapped(a, b)),
        option_mapped(page.continuation, r.continuation_token, |a, b| token_text_mapped(a, b)),
{
    wire_v2::WatchPlaylistResponse {
        items: map_vec(page.items, watch_track_to_proto, Ghost(|a, b| watch_track_mapped(a, b))),
        continuation_token: map_option(
            page.continuation,
            token_text,
            Ghost(|a, b| token_text_mapped(a, b)),
        ),
    }
}

} // verus!
