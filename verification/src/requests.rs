//! Validation of incoming music and cipher requests, and their translation
//! into queries for the music catalogue client.

use vstd::prelude::*;

use crate::status::{RpcCode, RpcStatus, RpcStatusView};
use crate::text::{concat, decimal_text, is_blank, is_blank_text, push_decimal_i32};

verus! {

/// The status with which a request is refused: `InvalidArgument`, the given
/// message, and no subsystem metadata.
pub open spec fn invalid_argument_view(message: Seq<char>) -> RpcStatusView {
    RpcStatusView { code: RpcCode::InvalidArgument, message, subsystem: None }
}

fn invalid_argument(message: String) -> (status: RpcStatus)
    ensures
        status@ == invalid_argument_view(message@),
{
    RpcStatus { code: RpcCode::InvalidArgument, message, subsystem: None }
}

/// Accepts `value` unchanged unless it is blank (white space only), in which
/// case the request is refused with `message`.
pub fn required_non_empty(value: String, message: &str) -> (r: Result<String, RpcStatus>)
    ensures
        is_blank_text(value@) ==> (r matches Err(status) && status@ == invalid_argument_view(
            message@,
        )),
        !is_blank_text(value@) ==> r == Ok::<String, RpcStatus>(value),
{
    if is_blank(value.as_str()) {
        return Err(invalid_argument(String::from_str(message)));
    }
    Ok(value)
}

/// Accepts an absent value, or a present one that is not blank; a blank
/// value is refused with `message`.
pub fn optional_non_empty(value: Option<String>, message: &str) -> (r: Result<
    Option<String>,
    RpcStatus,
>)
    ensures
        (value matches Some(v) && is_blank_text(v@)) ==> (r matches Err(status) && status@
            == invalid_argument_view(message@)),
        !(value matches Some(v) && is_blank_text(v@)) ==> r == Ok::<Option<String>, RpcStatus>(
            value,
        ),
{
    match value {
        Some(v) => {
            if is_blank(v.as_str()) {
                Err(invalid_argument(String::from_str(message)))
            } else {
                Ok(Some(v))
            }
        },
        None => Ok(None),
    }
}

/// Checks a continuation token as `required_non_empty` does and builds the
/// typed token from it.
pub fn continuation_token<T, F: FnOnce(String) -> T>(value: String, message: &str, build: F) -> (r:
    Result<T, RpcStatus>)
    requires
        build.requires((value,)),
    ensures
        is_blank_text(value@) ==> (r matches Err(status) && status@ == invalid_argument_view(
            message@,
        )),
        !is_blank_text(value@) ==> (r matches Ok(token) && build.ensures((value,), token)),
{
    let value = required_non_empty(value, message)?;
    Ok(build(value))
}

/// The listing families whose pages can be continued.
#[derive(Clone, Copy, Debug, PartialEq, Eq, Structural)]
pub enum ContinuationKind {
    Search,
    WatchPlaylist,
    LibraryPlaylists,
    LibraryArtists,
    LibraryAlbums,
    LibrarySubscriptions,
    LibraryChannels,
    LibraryPodcasts,
    LibrarySongs,
    LikedSongs,
    SavedEpisodes,
}

/// A continuation token of one listing family.
#[derive(Debug)]
pub struct ContinuationToken {
    pub kind: ContinuationKind,
    pub value: String,
}

/// The message with which a blank continuation token of `kind` is refused.
pub open spec fn continuation_message(kind: ContinuationKind) -> Seq<char> {
    match kind {
        ContinuationKind::Search => "search continuation token must not be empty"@,
        ContinuationKind::WatchPlaylist => "watch playlist continuation token must not be empty"@,
        ContinuationKind::LibraryPlaylists => "library playlists continuation token must not be empty"@,
        ContinuationKind::LibraryArtists => "library artists continuation token must not be empty"@,
        ContinuationKind::LibraryAlbums => "library albums continuation token must not be empty"@,
        ContinuationKind::LibrarySubscriptions => "library subscriptions continuation token must not be empty"@,
        ContinuationKind::LibraryChannels => "library channels continuation token must not be empty"@,
        ContinuationKind::LibraryPodcasts => "library podcasts continuation token must not be empty"@,
        ContinuationKind::LibrarySongs => "library songs continuation token must not be empty"@,
        ContinuationKind::LikedSongs => "liked songs continuation token must not be empty"@,
        ContinuationKind::SavedEpisodes => "saved episodes continuation token must not be empty"@,
    }
}

fn continuation_message_exec(kind: ContinuationKind) -> (m: &'static str)
    ensures
        m@ == continuation_message(kind),
{
    match kind {
        ContinuationKind::Search => "search continuation token must not be empty",
        ContinuationKind::WatchPlaylist => "watch playlist continuation token must not be empty",
        ContinuationKind::LibraryPlaylists => "library playlists continuation token must not be empty",
        ContinuationKind::LibraryArtists => "library artists continuation token must not be empty",
        ContinuationKind::LibraryAlbums => "library albums continuation token must not be empty",
        ContinuationKind::LibrarySubscriptions => "library subscriptions continuation token must not be empty",
        ContinuationKind::LibraryChannels => "library channels continuation token must not be empty",
        ContinuationKind::LibraryPodcasts => "library podcasts continuation token must not be empty",
        ContinuationKind::LibrarySongs => "library songs continuation token must not be empty",
        ContinuationKind::LikedSongs => "liked songs continuation token must not be empty",
        ContinuationKind::SavedEpisodes => "saved episodes continuation token must not be empty",
    }
}

/// Validates the token of a continuation request of `kind`: a blank token is
/// refused with the family's message, any other is accepted unchanged.
pub fn continuation_request(kind: ContinuationKind, token: String) -> (r: Result<
    ContinuationToken,
    RpcStatus,
>)
    ensures
        is_blank_text(token@) ==> (r matches Err(status) && status@ == invalid_argument_view(
            continuation_message(kind),
        )),
        !is_blank_text(token@) ==> (r matches Ok(t) && t.kind == kind && t.value == token),
{
    let build = |value: String| -> (t: ContinuationToken)
        ensures
            t.kind == kind && t.value == value,
        { ContinuationToken { kind, value } };
    continuation_token(token, continuation_message_exec(kind), build)
}

/// A search request as it arrives on the wire; `filter` is the raw value of
/// the wire search-filter enumeration.
#[derive(Debug)]
pub struct SearchRequest {
    pub query: String,
    pub filter: Option<i32>,
    pub ignore_spelling: bool,
}

/// The wire search-filter enumeration, numbered in declaration order.
#[derive(Clone, Copy, Debug, PartialEq, Eq, Structural)]
pub enum WireSearchFilter {
    Unspecified,
    Songs,
    Videos,
    Albums,
    Artists,
    Playlists,
}

/// The wire filter that a raw value names, if any.
pub open spec fn wire_search_filter_spec(value: i32) -> Option<WireSearchFilter> {
    if value == 0 {
        Some(WireSearchFilter::Unspecified)
    } else if value == 1 {
        Some(WireSearchFilter::Songs)
    } else if value == 2 {
        Some(WireSearchFilter::Videos)
    } else if value == 3 {
        Some(WireSearchFilter::Albums)
    } else if value == 4 {
        Some(WireSearchFilter::Artists)
    } else if value == 5 {
        Some(WireSearchFilter::Playlists)
    } else {
        None
    }
}

/// Decodes a raw wire filter value.
pub fn wire_search_filter(value: i32) -> (r: Option<WireSearchFilter>)
    ensures
        r == wire_search_filter_spec(value),
{
    if value == 0 {
        Some(WireSearchFilter::Unspecified)
    } else if value == 1 {
        Some(WireSearchFilter::Songs)
    } else if value == 2 {
        Some(WireSearchFilter::Videos)
    } else if value == 3 {
        Some(WireSearchFilter::Albums)
    } else if value == 4 {
        Some(WireSearchFilter::Artists)
    } else if value == 5 {
        Some(WireSearchFilter::Playlists)
    } else {
        None
    }
}

/// The result categories that a catalogue search can be restricted to.
#[derive(Clone, Copy, Debug, PartialEq, Eq, Structural)]
pub enum SearchFilter {
    Songs,
    Videos,
    Albums,
    Artists,
    Playlists,
}

/// A catalogue search query.
#[derive(Debug)]
pub struct SearchQuery {
    pub query: String,
    pub filter: Option<SearchFilter>,
    pub ignore_spelling: bool,
}

impl SearchQuery {
    /// A query for `query`, unfiltered, with spelling correction.
    pub fn new(query: String) -> (q: SearchQuery)
        ensures
            q.query == query,
            q.filter is None,
            !q.ignore_spelling,
    {
        SearchQuery { query, filter: None, ignore_spelling: false }
    }

    /// The same query restricted to `filter`.
    pub fn with_filter(self, filter: SearchFilter) -> (q: SearchQuery)
        ensures
            q.query == self.query,
            q.filter == Some(filter),
            q.ignore_spelling == self.ignore_spelling,
    {
        SearchQuery { filter: Some(filter), ..self }
    }

    /// The same query without spelling correction.
    pub fn ignore_spelling(self) -> (q: SearchQuery)
        ensures
            q.query == self.query,
            q.filter == self.filter,
            q.ignore_spelling,
    {
        SearchQuery { ignore_spelling: true, ..self }
    }
}

/// The catalogue filter for a wire filter; `Unspecified` leaves the search
/// unfiltered.
pub open spec fn catalogue_filter(f: WireSearchFilter) -> Option<SearchFilter> {
    match f {
        WireSearchFilter::Unspecified => None,
        WireSearchFilter::Songs => Some(SearchFilter::Songs),
        WireSearchFilter::Videos => Some(SearchFilter::Videos),
        WireSearchFilter::Albums => Some(SearchFilter::Albums),
        WireSearchFilter::Artists => Some(SearchFilter::Artists),
        WireSearchFilter::Playlists => Some(SearchFilter::Playlists),
    }
}

/// The message with which an unknown filter value is refused.
pub open spec fn unknown_filter_message(value: i32) -> Seq<char> {
    "unknown search filter value: "@ + decimal_text(value as int)
}

/// Translates a search request into a catalogue query. A blank query text
/// is refused first, then an unknown filter value; otherwise the query
/// keeps the text, the filter that the wire value names (none for
/// `Unspecified` or an absent filter) and the spelling flag.
pub fn search_request_to_query(request: SearchRequest) -> (r: Result<SearchQuery, RpcStatus>)
    ensures
        is_blank_text(request.query@) ==> (r matches Err(status) && status@
            == invalid_argument_view("query must not be empty"@)),
        request.filter matches Some(v) ==> ((!is_blank_text(request.query@)
            && wire_search_filter_spec(v) is None) ==> (r matches Err(status) && status@
            == invalid_argument_view(unknown_filter_message(v)))),
        r matches Ok(q) ==> {
            &&& !is_blank_text(request.query@)
            &&& q.query == request.query
            &&& q.ignore_spelling == request.ignore_spelling
            &&& match request.filter {
                None => q.filter is None,
                Some(v) => wire_search_filter_spec(v) matches Some(f) && q.filter
                    == catalogue_filter(f),
            }
        },
        !is_blank_text(request.query@) && !(request.filter matches Some(v)
            && wire_search_filter_spec(v) is None) ==> r is Ok,
{
    let SearchRequest { query, filter, ignore_spelling } = request;
    let query_text = required_non_empty(query, "query must not be empty")?;
    let mut query = SearchQuery::new(query_text);

    if let Some(value) = filter {
        match wire_search_filter(value) {
            Some(WireSearchFilter::Unspecified) => {},
            Some(WireSearchFilter::Songs) => {
                query = query.with_filter(SearchFilter::Songs);
            },
            Some(WireSearchFilter::Videos) => {
                query = query.with_filter(SearchFilter::Videos);
            },
            Some(WireSearchFilter::Albums) => {
                query = query.with_filter(SearchFilter::Albums);
            },
            Some(WireSearchFilter::Artists) => {
                query = query.with_filter(SearchFilter::Artists);
            },
            Some(WireSearchFilter::Playlists) => {
                query = query.with_filter(SearchFilter::Playlists);
            },
            None => {
                let mut message = String::from_str("unknown search filter value: ");
                push_decimal_i32(&mut message, value);
                return Err(invalid_argument(message));
            },
        }
    }
    if ignore_spelling {
        query = query.ignore_spelling();
    }
    Ok(query)
}

/// A watch-playlist request as it arrives on the wire.
#[derive(Debug)]
pub struct GetWatchPlaylistRequest {
    pub video_id: Option<String>,
    pub playlist_id: Option<String>,
    pub radio: bool,
    pub shuffle: bool,
}

/// A watch-playlist query for the music catalogue client.
#[derive(Debug)]
pub struct WatchPlaylistQuery {
    pub video_id: Option<String>,
    pub playlist_id: Option<String>,
    pub radio: bool,
    pub shuffle: bool,
}

impl WatchPlaylistQuery {
    /// What every query sent upstream satisfies: it names a video or a
    /// playlist, shuffles only a playlist, and never shuffles a radio.
    pub open spec fn is_well_formed(&self) -> bool {
        &&& (self.video_id is Some || self.playlist_id is Some)
        &&& (self.shuffle ==> self.playlist_id is Some)
        &&& !(self.radio && self.shuffle)
    }

    /// An empty query.
    pub fn new() -> (q: WatchPlaylistQuery)
        ensures
            q.video_id is None,
            q.playlist_id is None,
            !q.radio,
            !q.shuffle,
    {
        WatchPlaylistQuery { video_id: None, playlist_id: None, radio: false, shuffle: false }
    }

    /// The same query for the given video.
    pub fn with_video_id(self, video_id: String) -> (q: WatchPlaylistQuery)
        ensures
            q.video_id == Some(video_id),
            q.playlist_id == self.playlist_id,
            q.radio == self.radio,
            q.shuffle == self.shuffle,
    {
        WatchPlaylistQuery { video_id: Some(video_id), ..self }
    }

    /// The same query for the given playlist.
    pub fn with_playlist_id(self, playlist_id: String) -> (q: WatchPlaylistQuery)
        ensures
            q.video_id == self.video_id,
            q.playlist_id == Some(playlist_id),
            q.radio == self.radio,
            q.shuffle == self.shuffle,
    {
        WatchPlaylistQuery { playlist_id: Some(playlist_id), ..self }
    }

    /// The same query as a radio.
    pub fn radio(self) -> (q: WatchPlaylistQuery)
        ensures
            q.video_id == self.video_id,
            q.playlist_id == self.playlist_id,
            q.radio,
            q.shuffle == self.shuffle,
    {
        WatchPlaylistQuery { radio: true, ..self }
    }

    /// The same query, shuffled.
    pub fn shuffle(self) -> (q: WatchPlaylistQuery)
        ensures
            q.video_id == self.video_id,
            q.playlist_id == self.playlist_id,
            q.radio == self.radio,
            q.shuffle,
    {
        WatchPlaylistQuery { shuffle: true, ..self }
    }
}

/// Whether an optional identifier is present but blank.
pub open spec fn present_and_blank(value: Option<String>) -> bool {
    value matches Some(v) && is_blank_text(v@)
}

/// The message with which a watch-playlist request is refused, checked in
/// this order, or `None` when it is accepted.
pub open spec fn watch_request_refusal(request: GetWatchPlaylistRequest) -> Option<Seq<char>> {
    if present_and_blank(request.video_id) {
        Some("video_id must not be empty"@)
    } else if present_and_blank(request.playlist_id) {
        Some("playlist_id must not be empty"@)
    } else if request.video_id is None && request.playlist_id is None {
        Some("watch playlist query requires video_id or playlist_id"@)
    } else if request.shuffle && request.playlist_id is None {
        Some("watch playlist shuffle requires playlist_id"@)
    } else if request.radio && request.shuffle {
        Some("watch playlist shuffle cannot be combined with radio"@)
    } else {
        None
    }
}

/// Translates a watch-playlist request into a query: refused exactly when
/// `watch_request_refusal` names a message, and otherwise carrying the
/// request's identifiers and flags unchanged.
pub fn watch_playlist_request_to_query(request: GetWatchPlaylistRequest) -> (r: Result<
    WatchPlaylistQuery,
    RpcStatus,
>)
    ensures
        match watch_request_refusal(request) {
            Some(message) => r matches Err(status) && status@ == invalid_argument_view(message),
            None => r matches Ok(q) && q.video_id == request.video_id && q.playlist_id
                == request.playlist_id && q.radio == request.radio && q.shuffle == request.shuffle,
        },
        r matches Ok(q) ==> q.is_well_formed(),
{
    let GetWatchPlaylistRequest { video_id, playlist_id, radio, shuffle } = request;
    let video_id = optional_non_empty(video_id, "video_id must not be empty")?;
    let playlist_id = optional_non_empty(playlist_id, "playlist_id must not be empty")?;

    if video_id.is_none() && playlist_id.is_none() {
        return Err(
            invalid_argument(String::from_str("watch playlist query requires video_id or playlist_id")),
        );
    }
    if shuffle && playlist_id.is_none() {
        return Err(invalid_argument(String::from_str("watch playlist shuffle requires playlist_id")));
    }
    if radio && shuffle {
        return Err(
            invalid_argument(String::from_str("watch playlist shuffle cannot be combined with radio")),
        );
    }

    let mut query = WatchPlaylistQuery::new();
    if let Some(video_id) = video_id {
        query = query.with_video_id(video_id);
    }
    if let Some(playlist_id) = playlist_id {
        query = query.with_playlist_id(playlist_id);
    }
    if radio {
        query = query.radio();
    }
    if shuffle {
        query = query.shuffle();
    }
    Ok(query)
}

} // verus!
