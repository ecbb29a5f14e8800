use ytmusic_service::requests::{
    continuation_request, continuation_token, optional_non_empty, required_non_empty,
    search_request_to_query, watch_playlist_request_to_query, wire_search_filter,
    ContinuationKind, GetWatchPlaylistRequest, SearchFilter, SearchRequest, WireSearchFilter,
};
use ytmusic_service::status::RpcCode;

fn search(query: &str, filter: Option<i32>, ignore_spelling: bool) -> SearchRequest {
    SearchRequest { query: query.to_owned(), filter, ignore_spelling }
}

#[test]
fn public_search_rejects_empty_query() {
    let status = search_request_to_query(search("   ", None, false)).unwrap_err();

    assert_eq!(status.code, RpcCode::InvalidArgument);
}

#[test]
fn public_api_public_search_rejects_empty_query() {
    let status = search_request_to_query(search("   ", None, false)).unwrap_err();

    assert_eq!(status.code, RpcCode::InvalidArgument);
    assert_eq!(status.message, "query must not be empty");
}

#[test]
fn search_maps_filters_and_spelling() {
    let query = search_request_to_query(search("miles davis", Some(1), true)).unwrap();
    assert_eq!(query.query, "miles davis");
    assert_eq!(query.filter, Some(SearchFilter::Songs));
    assert!(query.ignore_spelling);

    let unfiltered = search_request_to_query(search("miles davis", Some(0), false)).unwrap();
    assert_eq!(unfiltered.filter, None);
    assert!(!unfiltered.ignore_spelling);

    let absent = search_request_to_query(search("miles davis", None, false)).unwrap();
    assert_eq!(absent.filter, None);

    let expected = [
        (2, SearchFilter::Videos),
        (3, SearchFilter::Albums),
        (4, SearchFilter::Artists),
        (5, SearchFilter::Playlists),
    ];
    for (value, filter) in expected {
        let query = search_request_to_query(search("x", Some(value), false)).unwrap();
        assert_eq!(query.filter, Some(filter));
    }
}

#[test]
fn search_rejects_unknown_filter_values() {
    let status = search_request_to_query(search("miles davis", Some(42), false)).unwrap_err();
    assert_eq!(status.code, RpcCode::InvalidArgument);
    assert_eq!(status.message, "unknown search filter value: 42");

    let negative = search_request_to_query(search("x", Some(-7), false)).unwrap_err();
    assert_eq!(negative.message, "unknown search filter value: -7");

    let minimum = search_request_to_query(search("x", Some(i32::MIN), false)).unwrap_err();
    assert_eq!(minimum.message, format!("unknown search filter value: {}", i32::MIN));

    let blank_first = search_request_to_query(search(" ", Some(42), false)).unwrap_err();
    assert_eq!(blank_first.message, "query must not be empty");
}

#[test]
fn wire_filter_values_decode_in_declaration_order() {
    assert_eq!(wire_search_filter(0), Some(WireSearchFilter::Unspecified));
    assert_eq!(wire_search_filter(5), Some(WireSearchFilter::Playlists));
    assert_eq!(wire_search_filter(6), None);
}

#[test]
fn required_non_empty_treats_unicode_space_as_blank() {
    assert!(required_non_empty("\u{3000}\t\n".to_owned(), "m").is_err());
    assert!(required_non_empty(String::new(), "m").is_err());
    assert_eq!(required_non_empty(" a ".to_owned(), "m").unwrap(), " a ");
    let status = required_non_empty("\u{a0}".to_owned(), "value must not be empty").unwrap_err();
    assert_eq!(status.message, "value must not be empty");
    assert_eq!(status.subsystem, None);
}

#[test]
fn optional_non_empty_accepts_absent_values() {
    assert_eq!(optional_non_empty(None, "m").unwrap(), None);
    assert_eq!(optional_non_empty(Some("id".to_owned()), "m").unwrap(), Some("id".to_owned()));
    let status = optional_non_empty(Some("  ".to_owned()), "id must not be empty").unwrap_err();
    assert_eq!(status.code, RpcCode::InvalidArgument);
    assert_eq!(status.message, "id must not be empty");
}

#[test]
fn continuation_token_builds_from_non_blank_values() {
    let token = continuation_token("next".to_owned(), "m", |value| value.len()).unwrap();
    assert_eq!(token, 4);
    assert!(continuation_token(" ".to_owned(), "m", |value| value.len()).is_err());
}

#[test]
fn public_api_library_playlists_continuation_rejects_empty_token() {
    let status =
        continuation_request(ContinuationKind::LibraryPlaylists, "   ".to_owned()).unwrap_err();

    assert_eq!(status.code, RpcCode::InvalidArgument);
    assert_eq!(status.message, "library playlists continuation token must not be empty");
}

#[test]
fn library_playlists_continuation_rejects_blank_tokens() {
    let status =
        continuation_request(ContinuationKind::LibraryPlaylists, "   ".to_owned()).unwrap_err();

    assert_eq!(status.code, RpcCode::InvalidArgument);
}

#[test]
fn continuation_requests_keep_kind_and_value() {
    let token = continuation_request(ContinuationKind::SavedEpisodes, "abc".to_owned()).unwrap();
    assert_eq!(token.kind, ContinuationKind::SavedEpisodes);
    assert_eq!(token.value, "abc");

    let messages = [
        (ContinuationKind::Search, "search continuation token must not be empty"),
        (ContinuationKind::WatchPlaylist, "watch playlist continuation token must not be empty"),
        (ContinuationKind::LibraryArtists, "library artists continuation token must not be empty"),
        (ContinuationKind::LibraryAlbums, "library albums continuation token must not be empty"),
        (
            ContinuationKind::LibrarySubscriptions,
            "library subscriptions continuation token must not be empty",
        ),
        (ContinuationKind::LibraryChannels, "library channels continuation token must not be empty"),
        (ContinuationKind::LibraryPodcasts, "library podcasts continuation token must not be empty"),
        (ContinuationKind::LibrarySongs, "library songs continuation token must not be empty"),
        (ContinuationKind::LikedSongs, "liked songs continuation token must not be empty"),
        (ContinuationKind::SavedEpisodes, "saved episodes continuation token must not be empty"),
    ];
    for (kind, message) in messages {
        assert_eq!(continuation_request(kind, String::new()).unwrap_err().message, message);
    }
}

fn watch(
    video_id: Option<&str>,
    playlist_id: Option<&str>,
    radio: bool,
    shuffle: bool,
) -> GetWatchPlaylistRequest {
    GetWatchPlaylistRequest {
        video_id: video_id.map(str::to_owned),
        playlist_id: playlist_id.map(str::to_owned),
        radio,
        shuffle,
    }
}

#[test]
fn get_watch_playlist_rejects_missing_video_and_playlist_ids() {
    let status = watch_playlist_request_to_query(watch(None, None, false, false)).unwrap_err();

    assert_eq!(status.code, RpcCode::InvalidArgument);
    assert_eq!(status.message, "watch playlist query requires video_id or playlist_id");
}

#[test]
fn watch_playlist_refusals_follow_their_order() {
    let blank_video = watch_playlist_request_to_query(watch(Some(" "), Some(" "), true, true));
    assert_eq!(blank_video.unwrap_err().message, "video_id must not be empty");

    let blank_playlist = watch_playlist_request_to_query(watch(Some("v"), Some(" "), true, true));
    assert_eq!(blank_playlist.unwrap_err().message, "playlist_id must not be empty");

    let shuffle_video = watch_playlist_request_to_query(watch(Some("v"), None, false, true));
    assert_eq!(shuffle_video.unwrap_err().message, "watch playlist shuffle requires playlist_id");

    let radio_shuffle = watch_playlist_request_to_query(watch(None, Some("p"), true, true));
    assert_eq!(
        radio_shuffle.unwrap_err().message,
        "watch playlist shuffle cannot be combined with radio"
    );
}

#[test]
fn watch_playlist_accepts_valid_combinations() {
    let radio = watch_playlist_request_to_query(watch(Some("v"), None, true, false)).unwrap();
    assert_eq!(radio.video_id.as_deref(), Some("v"));
    assert_eq!(radio.playlist_id, None);
    assert!(radio.radio);
    assert!(!radio.shuffle);

    let shuffled = watch_playlist_request_to_query(watch(Some("v"), Some("p"), false, true)).unwrap();
    assert_eq!(shuffled.video_id.as_deref(), Some("v"));
    assert_eq!(shuffled.playlist_id.as_deref(), Some("p"));
    assert!(shuffled.shuffle);
}
