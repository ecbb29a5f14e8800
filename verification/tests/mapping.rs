use ytmusic_service::catalogue;
use ytmusic_service::mapping;
use ytmusic_service::music_mapping;
use ytmusic_service::requests::{ContinuationKind, ContinuationToken};
use ytmusic_service::wire;

fn artist_ref(id: &str, name: &str) -> catalogue::ArtistRef {
    catalogue::ArtistRef { id: id.to_owned(), name: name.to_owned() }
}

fn album_ref(id: &str, name: &str) -> catalogue::AlbumRef {
    catalogue::AlbumRef { id: id.to_owned(), name: name.to_owned() }
}

fn thumbnail(url: &str, width: u32, height: u32) -> catalogue::Thumbnail {
    catalogue::Thumbnail { url: url.to_owned(), width, height }
}

fn token(kind: ContinuationKind, value: &str) -> ContinuationToken {
    ContinuationToken { kind, value: value.to_owned() }
}

#[test]
fn public_api_account_info_to_proto_preserves_fields() {
    let proto = mapping::account_info_to_proto(catalogue::AccountInfo {
        account_name: "listener@example.com".to_owned(),
        channel_handle: Some("@listener".to_owned()),
        account_photo_url: "https://example.com/profile.jpg".to_owned(),
    });

    assert_eq!(proto.account_name, "listener@example.com");
    assert_eq!(proto.channel_handle.as_deref(), Some("@listener"));
    assert_eq!(proto.account_photo_url, "https://example.com/profile.jpg");
}

#[test]
fn public_api_liked_songs_page_to_proto_preserves_playlist_item_and_continuation_fields() {
    let proto = mapping::liked_songs_page_to_proto(catalogue::LikedSongsPage {
        playlist_id: "LM".to_owned(),
        title: "Liked Music".to_owned(),
        items: vec![catalogue::LikedSongItem {
            video_id: "video-123".to_owned(),
            title: "Signal".to_owned(),
            artists: vec![artist_ref("artist-1", "The Signalers")],
            album: Some(album_ref("album-1", "Patterns")),
            duration: Some("3:45".to_owned()),
            thumbnails: vec![thumbnail("https://example.com/song.jpg", 120, 120)],
            like_status: Some(catalogue::LibraryLikeStatus::Like),
        }],
        thumbnails: vec![thumbnail("https://example.com/playlist.jpg", 640, 640)],
        continuation: Some(token(ContinuationKind::LikedSongs, "next-liked")),
    });

    assert_eq!(proto.playlist_id, "LM");
    assert_eq!(proto.title, "Liked Music");
    assert_eq!(proto.items.len(), 1);
    assert_eq!(proto.items[0].video_id, "video-123");
    assert_eq!(proto.items[0].title, "Signal");
    assert_eq!(proto.items[0].artists[0].name, "The Signalers");
    assert_eq!(proto.items[0].album.as_ref().map(|album| album.name.as_str()), Some("Patterns"));
    assert_eq!(proto.items[0].duration.as_deref(), Some("3:45"));
    assert_eq!(proto.items[0].thumbnails[0].url, "https://example.com/song.jpg");
    assert_eq!(proto.items[0].like_status, Some(wire::LibraryLikeStatus::Like.number()));
    assert_eq!(proto.continuation.as_ref().map(|token| token.value.as_str()), Some("next-liked"));
}

#[test]
fn public_api_library_podcasts_page_to_proto_preserves_nested_channel_fields() {
    let proto = mapping::library_podcasts_page_to_proto(catalogue::Page {
        items: vec![catalogue::LibraryPodcast {
            title: "On Air".to_owned(),
            browse_id: "browse-1".to_owned(),
            podcast_id: "podcast-1".to_owned(),
            channel: catalogue::LibraryPodcastChannel {
                id: Some("channel-42".to_owned()),
                name: "Waveform".to_owned(),
            },
            thumbnails: vec![thumbnail("https://example.com/podcast.jpg", 320, 320)],
        }],
        continuation: Some(token(ContinuationKind::LibraryPodcasts, "next-podcast")),
    });

    assert_eq!(proto.items.len(), 1);
    assert_eq!(proto.items[0].title, "On Air");
    assert_eq!(proto.items[0].browse_id, "browse-1");
    assert_eq!(proto.items[0].podcast_id, "podcast-1");
    assert_eq!(
        proto.items[0].channel.as_ref().and_then(|channel| channel.id.as_deref()),
        Some("channel-42")
    );
    assert_eq!(
        proto.items[0].channel.as_ref().map(|channel| channel.name.as_str()),
        Some("Waveform")
    );
    assert_eq!(
        proto.continuation.as_ref().map(|token| token.value.as_str()),
        Some("next-podcast")
    );
}

#[test]
fn public_api_saved_episodes_page_to_proto_preserves_episode_fields() {
    let proto = mapping::saved_episodes_page_to_proto(catalogue::SavedEpisodesPage {
        playlist_id: "SE".to_owned(),
        title: "Saved Episodes".to_owned(),
        items: vec![catalogue::SavedEpisodeItem {
            video_id: "episode-7".to_owned(),
            title: "Episode Seven".to_owned(),
            channel: "Waveform".to_owned(),
            podcast: "On Air".to_owned(),
            duration: Some("42:00".to_owned()),
            thumbnails: vec![thumbnail("https://example.com/episode.jpg", 480, 480)],
        }],
        thumbnails: vec![thumbnail("https://example.com/saved.jpg", 800, 800)],
        continuation: Some(token(ContinuationKind::SavedEpisodes, "next-saved")),
    });

    assert_eq!(proto.playlist_id, "SE");
    assert_eq!(proto.title, "Saved Episodes");
    assert_eq!(proto.items.len(), 1);
    assert_eq!(proto.items[0].video_id, "episode-7");
    assert_eq!(proto.items[0].channel, "Waveform");
    assert_eq!(proto.items[0].podcast, "On Air");
    assert_eq!(proto.items[0].duration.as_deref(), Some("42:00"));
    assert_eq!(proto.continuation.as_ref().map(|token| token.value.as_str()), Some("next-saved"));
}

#[test]
fn get_account_info_maps_account_fields() {
    let proto = mapping::account_info_to_proto(catalogue::AccountInfo {
        account_name: "Test Account".to_owned(),
        channel_handle: Some("@test".to_owned()),
        account_photo_url: String::new(),
    });

    assert_eq!(proto.account_name, "Test Account");
    assert_eq!(proto.channel_handle.as_deref(), Some("@test"));
}

#[test]
fn public_api_account_info_response_keeps_name_field() {
    let response = wire::AccountInfoResponse {
        account_name: "listener@example.com".to_owned(),
        channel_handle: None,
        account_photo_url: String::new(),
    };

    assert_eq!(response.account_name, "listener@example.com");
}

fn song_result(title: &str) -> catalogue::SongResult {
    catalogue::SongResult {
        category: Some("Songs".to_owned()),
        result_type: catalogue::SearchResultType::Song,
        video_id: "song-1".to_owned(),
        title: title.to_owned(),
        artists: vec![artist_ref("a1", "Miles Davis")],
        album: None,
        duration: Some("9:22".to_owned()),
        thumbnails: vec![],
        is_explicit: false,
    }
}

fn video_result(result_type: catalogue::SearchResultType, title: &str) -> catalogue::VideoResult {
    catalogue::VideoResult {
        category: None,
        result_type,
        title: title.to_owned(),
        video_id: "video-1".to_owned(),
        video_type: Some("MUSIC_VIDEO_TYPE_OMV".to_owned()),
        artists: vec![],
        thumbnails: vec![thumbnail("https://example.com/v.jpg", 60, 60)],
        duration: None,
        views: Some("1M".to_owned()),
        date: None,
        podcast: Some(album_ref("pod-1", "Pod")),
        live: true,
    }
}

fn playlist_result(result_type: catalogue::SearchResultType) -> catalogue::PlaylistResult {
    catalogue::PlaylistResult {
        category: None,
        result_type,
        browse_id: "VL1".to_owned(),
        title: "Kind of Blue".to_owned(),
        author: Some("Columbia".to_owned()),
        item_count: Some("5".to_owned()),
        thumbnails: vec![],
    }
}

#[test]
fn search_maps_results_into_v2_oneof_variants() {
    let page = catalogue::Page {
        items: vec![
            catalogue::SearchResult::Song(song_result("So What")),
            catalogue::SearchResult::Episode(video_result(
                catalogue::SearchResultType::Episode,
                "Episode",
            )),
            catalogue::SearchResult::Podcast(playlist_result(catalogue::SearchResultType::Podcast)),
        ],
        continuation: Some(token(ContinuationKind::Search, "next-search")),
    };

    let response = music_mapping::search_page_to_proto(page);

    assert_eq!(response.items.len(), 3);
    match &response.items[0].kind {
        Some(wire::SearchResultItemKind::Song(song)) => {
            assert_eq!(song.title, "So What");
            assert_eq!(song.result_type, wire::SearchResultType::Song.number());
            assert_eq!(song.artists[0].name, "Miles Davis");
        }
        other => panic!("expected a song, got {other:?}"),
    }
    match &response.items[1].kind {
        Some(wire::SearchResultItemKind::Episode(video)) => {
            assert_eq!(video.title, "Episode");
            assert_eq!(video.result_type, wire::SearchResultType::Episode.number());
            assert_eq!(video.podcast.as_ref().map(|p| p.name.as_str()), Some("Pod"));
            assert!(video.live);
        }
        other => panic!("expected an episode, got {other:?}"),
    }
    match &response.items[2].kind {
        Some(wire::SearchResultItemKind::Podcast(playlist)) => {
            assert_eq!(playlist.author.as_deref(), Some("Columbia"));
            assert_eq!(playlist.result_type, wire::SearchResultType::Podcast.number());
        }
        other => panic!("expected a podcast, got {other:?}"),
    }
    assert_eq!(response.continuation_token.as_deref(), Some("next-search"));
}

#[test]
fn first_revision_search_keeps_variants_and_token() {
    let page = catalogue::Page {
        items: vec![
            catalogue::SearchResult::Video(video_result(catalogue::SearchResultType::Video, "V")),
            catalogue::SearchResult::Playlist(playlist_result(
                catalogue::SearchResultType::Playlist,
            )),
        ],
        continuation: None,
    };

    let response = mapping::search_page_to_proto(page);

    assert!(matches!(response.items[0].item, Some(wire::SearchResultItemKind::Video(_))));
    assert!(matches!(response.items[1].item, Some(wire::SearchResultItemKind::Playlist(_))));
    assert!(response.continuation.is_none());
}

fn watch_track(video_id: &str, counterpart: Option<catalogue::WatchTrack>) -> catalogue::WatchTrack {
    catalogue::WatchTrack {
        video_id: video_id.to_owned(),
        title: "Track".to_owned(),
        duration: Some("3:00".to_owned()),
        thumbnails: vec![],
        artists: vec![artist_ref("a", "Artist")],
        album: Some(album_ref("al", "Album")),
        like_status: Some(catalogue::LibraryLikeStatus::Dislike),
        video_type: None,
        year: Some("1959".to_owned()),
        views: None,
        is_in_library: Some(true),
        counterpart: counterpart.map(Box::new),
    }
}

#[test]
fn watch_tracks_keep_their_counterparts() {
    let page = catalogue::Page {
        items: vec![
            watch_track("audio", Some(watch_track("video", None))),
            watch_track("plain", None),
        ],
        continuation: Some(token(ContinuationKind::WatchPlaylist, "next-watch")),
    };

    let v2 = music_mapping::watch_page_to_proto(page);

    assert_eq!(v2.items.len(), 2);
    assert_eq!(v2.items[0].video_id, "audio");
    assert_eq!(v2.items[0].like_status, Some(wire::LibraryLikeStatus::Dislike.number()));
    assert_eq!(v2.items[0].counterpart.as_ref().map(|c| c.video_id.as_str()), Some("video"));
    assert!(v2.items[1].counterpart.is_none());
    assert_eq!(v2.continuation_token.as_deref(), Some("next-watch"));

    let v1 = mapping::watch_page_to_proto(catalogue::Page {
        items: vec![watch_track("x", None)],
        continuation: None,
    });
    assert_eq!(v1.items[0].year.as_deref(), Some("1959"));
    assert_eq!(v1.items[0].is_in_library, Some(true));
}

#[test]
fn enum_numbers_follow_declaration_order() {
    assert_eq!(wire::SearchResultType::Unspecified.number(), 0);
    assert_eq!(wire::SearchResultType::Podcast.number(), 8);
    assert_eq!(wire::LibraryLikeStatus::Unspecified.number(), 0);
    assert_eq!(wire::LibraryLikeStatus::Like.number(), 1);
    assert_eq!(wire::LibraryLikeStatus::Indifferent.number(), 2);
}

fn stream_format(itag: u32) -> catalogue::SongStreamFormat {
    catalogue::SongStreamFormat {
        itag,
        mime_type: "audio/webm; codecs=\"opus\"".to_owned(),
        bitrate: Some(160_000),
        average_bitrate: None,
        content_length: Some("3000000".to_owned()),
        last_modified: None,
        quality: Some("tiny".to_owned()),
        quality_label: None,
        quality_ordinal: None,
        projection_type: None,
        width: None,
        height: None,
        fps: None,
        color_info: Some(catalogue::SongColorInfo {
            primaries: Some("BT709".to_owned()),
            transfer_characteristics: None,
            matrix_coefficients: None,
        }),
        audio_quality: Some("AUDIO_QUALITY_MEDIUM".to_owned()),
        audio_sample_rate: Some("48000".to_owned()),
        audio_channels: Some(2),
        loudness_db: Some("-7.5".to_owned()),
        track_absolute_loudness_lkfs: None,
        approx_duration_ms: Some("180000".to_owned()),
        high_replication: None,
        xtags: None,
        init_range: Some(catalogue::SongByteRange { start: "0".to_owned(), end: "258".to_owned() }),
        index_range: None,
        signature_cipher: Some("s=abc&sp=sig&url=https://example.com".to_owned()),
    }
}

#[test]
fn song_response_keeps_streaming_formats() {
    let song = catalogue::GetSongResponse {
        video_details: catalogue::SongVideoDetails {
            video_id: "0rilIYWiJ7M".to_owned(),
            title: "Song".to_owned(),
            length_seconds: Some("180".to_owned()),
            channel_id: None,
            author: Some("Author".to_owned()),
            thumbnails: vec![],
            allow_ratings: Some(true),
            view_count: None,
            is_owner_viewing: None,
            is_crawlable: None,
            is_private: Some(false),
            is_unplugged_corpus: None,
            is_live_content: Some(false),
            is_tvfilm_video: None,
            music_video_type: None,
        },
        playability_status: catalogue::SongPlayabilityStatus {
            status: "OK".to_owned(),
            playable_in_embed: Some(true),
            reason: None,
            context_params: None,
            audio_only_availability: None,
            playback_mode: None,
        },
        streaming_data: Some(catalogue::SongStreamingData {
            expires_in_seconds: Some("21540".to_owned()),
            server_abr_streaming_url: None,
            formats: vec![stream_format(18)],
            adaptive_formats: vec![stream_format(251), stream_format(140)],
        }),
        microformat: None,
    };

    let proto = music_mapping::song_response_to_proto(song);

    assert_eq!(proto.video_details.as_ref().map(|d| d.video_id.as_str()), Some("0rilIYWiJ7M"));
    assert_eq!(proto.playability_status.as_ref().map(|p| p.status.as_str()), Some("OK"));
    let streaming = proto.streaming_data.as_ref().unwrap();
    assert_eq!(streaming.formats.len(), 1);
    assert_eq!(streaming.adaptive_formats.iter().map(|f| f.itag).collect::<Vec<_>>(), vec![251, 140]);
    assert_eq!(
        streaming.adaptive_formats[0].signature_cipher.as_deref(),
        Some("s=abc&sp=sig&url=https://example.com")
    );
    assert_eq!(streaming.formats[0].init_range.as_ref().map(|r| r.end.as_str()), Some("258"));
    assert_eq!(
        streaming.formats[0].color_info.as_ref().and_then(|c| c.primaries.as_deref()),
        Some("BT709")
    );
    assert!(proto.microformat.is_none());
}

#[test]
fn library_pages_keep_items_in_order() {
    let response = mapping::library_songs_page_to_proto(catalogue::Page {
        items: vec![
            catalogue::LibrarySong {
                video_id: "s1".to_owned(),
                title: "One".to_owned(),
                artists: vec![],
                album: None,
                duration: None,
                thumbnails: vec![],
                like_status: None,
            },
            catalogue::LibrarySong {
                video_id: "s2".to_owned(),
                title: "Two".to_owned(),
                artists: vec![],
                album: None,
                duration: None,
                thumbnails: vec![],
                like_status: Some(catalogue::LibraryLikeStatus::Indifferent),
            },
        ],
        continuation: None,
    });

    assert_eq!(response.items.iter().map(|s| s.video_id.as_str()).collect::<Vec<_>>(), vec!["s1", "s2"]);
    assert_eq!(response.items[0].like_status, None);
    assert_eq!(response.items[1].like_status, Some(2));
    assert!(response.continuation.is_none());

    let artists = mapping::library_artists_page_to_proto(catalogue::Page {
        items: vec![catalogue::LibraryArtist {
            browse_id: "UC1".to_owned(),
            artist: "Coltrane".to_owned(),
            subscribers: Some("1M".to_owned()),
            thumbnails: vec![],
        }],
        continuation: Some(token(ContinuationKind::LibraryArtists, "next-artists")),
    });
    assert_eq!(artists.items[0].artist, "Coltrane");
    assert_eq!(artists.continuation.as_ref().map(|t| t.value.as_str()), Some("next-artists"));
}
