//! Laws of the translation into wire messages: each field of a catalogue
//! value lands, unchanged, in the wire field of the same name, and pages
//! keep every item's fields at the item's position.

use vstd::prelude::*;

use crate::catalogue;
use crate::mapping::{album_ref_mapped, album_search_result_mapped, artist_ref_mapped, artist_search_result_mapped, library_album_item_mapped, library_artist_item_mapped, library_channel_item_mapped, library_playlist_item_mapped, library_podcast_channel_mapped, library_podcast_item_mapped, library_song_item_mapped, library_subscription_item_mapped, like_status_spec, liked_song_item_mapped, playlist_search_result_mapped, profile_search_result_mapped, result_type_spec, saved_episode_item_mapped, search_result_mapped, song_byte_range_mapped, song_color_info_mapped, song_microformat_mapped, song_playability_status_mapped, song_search_result_mapped, song_stream_format_mapped, song_streaming_data_mapped, song_video_details_mapped, thumbnail_mapped, video_search_result_mapped, watch_track_mapped};
use crate::music_mapping::search_result_v2_mapped;
use crate::seqmap::{option_mapped, seq_mapped};
use crate::wire;
use crate::wire_v2;

verus! {

/// Translating a catalogue `Thumbnail` carries each of these fields over
/// unchanged, each into the wire field of the same name.
pub proof fn lemma_thumbnail_keeps_fields(src: catalogue::Thumbnail, dst: wire::Thumbnail)
    requires
        thumbnail_mapped(src, dst),
    ensures
        dst.url == src.url,
        dst.width == src.width,
        dst.height == src.height,
{
}

/// Translating a catalogue `ArtistRef` carries each of these fields over
/// unchanged, each into the wire field of the same name.
pub proof fn lemma_artist_ref_keeps_fields(src: catalogue::ArtistRef, dst: wire::ArtistRef)
    requires
        artist_ref_mapped(src, dst),
    ensures
        dst.id == src.id,
        dst.name == src.name,
{
}

/// Translating a catalogue `AlbumRef` carries each of these fields over
/// unchanged, each into the wire field of the same name.
pub proof fn lemma_album_ref_keeps_fields(src: catalogue::AlbumRef, dst: wire::AlbumRef)
    requires
        album_ref_mapped(src, dst),
    ensures
        dst.id == src.id,
        dst.name == src.name,
{
}

/// Translating a catalogue `SongResult` carries each of these fields over
/// unchanged, each into the wire field of the same name.
pub proof fn lemma_song_search_result_keeps_fields(src: catalogue::SongResult, dst: wire::SongSearchResult)
    requires
        song_search_result_mapped(src, dst),
    ensures
        dst.category == src.category,
        dst.video_id == src.video_id,
        dst.title == src.title,
        dst.duration == src.duration,
        dst.is_explicit == src.is_explicit,
{
}

/// Translating a catalogue `VideoResult` carries each of these fields over
/// unchanged, each into the wire field of the same name.
pub proof fn lemma_video_search_result_keeps_fields(src: catalogue::VideoResult, dst: wire::VideoSearchResult)
    requires
        video_search_result_mapped(src, dst),
    ensures
        dst.category == src.category,
        dst.title == src.title,
        dst.video_id == src.video_id,
        dst.video_type == src.video_type,
        dst.duration == src.duration,
        dst.views == src.views,
        dst.date == src.date,
        dst.live == src.live,
{
}

/// Translating a catalogue `AlbumResult` carries each of these fields over
/// unchanged, each into the wire field of the same name.
pub proof fn lemma_album_search_result_keeps_fields(src: catalogue::AlbumResult, dst: wire::AlbumSearchResult)
    requires
        album_search_result_mapped(src, dst),
    ensures
        dst.category == src.category,
        dst.browse_id == src.browse_id,
        dst.playlist_id == src.playlist_id,
        dst.title == src.title,
        dst.type_label == src.type_label,
        dst.year == src.year,
        dst.duration == src.duration,
        dst.is_explicit == src.is_explicit,
{
}

/// Translating a catalogue `ArtistResult` carries each of these fields over
/// unchanged, each into the wire field of the same name.
pub proof fn lemma_artist_search_result_keeps_fields(src: catalogue::ArtistResult, dst: wire::ArtistSearchResult)
    requires
        artist_search_result_mapped(src, dst),
    ensures
        dst.category == src.category,
        dst.artist == src.artist,
        dst.subscribers == src.subscribers,
        dst.browse_id == src.browse_id,
        dst.radio_id == src.radio_id,
        dst.shuffle_id == src.shuffle_id,
{
}

/// Translating a catalogue `ProfileResult` carries each of these fields over
/// unchanged, each into the wire field of the same name.
pub proof fn lemma_profile_search_result_keeps_fields(src: catalogue::ProfileResult, dst: wire::ProfileSearchResult)
    requires
        profile_search_result_mapped(src, dst),
    ensures
        dst.category == src.category,
        dst.browse_id == src.browse_id,
        dst.name == src.name,
        dst.handle == src.handle,
{
}

/// Translating a catalogue `PlaylistResult` carries each of these fields over
/// unchanged, each into the wire field of the same name.
pub proof fn lemma_playlist_search_result_keeps_fields(src: catalogue::PlaylistResult, dst: wire::PlaylistSearchResult)
    requires
        playlist_search_result_mapped(src, dst),
    ensures
        dst.category == src.category,
        dst.browse_id == src.browse_id,
        dst.title == src.title,
        dst.author == src.author,
        dst.item_count == src.item_count,
{
}

/// Translating a catalogue `WatchTrack` carries each of these fields over
/// unchanged, each into the wire field of the same name.
pub proof fn lemma_watch_track_keeps_fields(src: catalogue::WatchTrack, dst: wire::WatchTrackItem)
    requires
        watch_track_mapped(src, dst),
    ensures
        dst.video_id == src.video_id,
        dst.title == src.title,
        dst.duration == src.duration,
        dst.video_type == src.video_type,
        dst.year == src.year,
        dst.views == src.views,
        dst.is_in_library == src.is_in_library,
{
}

/// Translating a catalogue `LibraryPlaylist` carries each of these fields over
/// unchanged, each into the wire field of the same name.
pub proof fn lemma_library_playlist_item_keeps_fields(src: catalogue::LibraryPlaylist, dst: wire::LibraryPlaylistItem)
    requires
        library_playlist_item_mapped(src, dst),
    ensures
        dst.playlist_id == src.playlist_id,
        dst.title == src.title,
        dst.item_count == src.item_count,
{
}

/// Translating a catalogue `LibraryArtist` carries each of these fields over
/// unchanged, each into the wire field of the same name.
pub proof fn lemma_library_artist_item_keeps_fields(src: catalogue::LibraryArtist, dst: wire::LibraryArtistItem)
    requires
        library_artist_item_mapped(src, dst),
    ensures
        dst.browse_id == src.browse_id,
        dst.artist == src.artist,
        dst.subscribers == src.subscribers,
{
}

/// Translating a catalogue `LibraryAlbum` carries each of these fields over
/// unchanged, each into the wire field of the same name.
pub proof fn lemma_library_album_item_keeps_fields(src: catalogue::LibraryAlbum, dst: wire::LibraryAlbumItem)
    requires
        library_album_item_mapped(src, dst),
    ensures
        dst.browse_id == src.browse_id,
        dst.playlist_id == src.playlist_id,
        dst.title == src.title,
        dst.type_label == src.type_label,
        dst.year == src.year,
{
}

/// Translating a catalogue `LibrarySubscription` carries each of these fields over
/// unchanged, each into the wire field of the same name.
pub proof fn lemma_library_subscription_item_keeps_fields(src: catalogue::LibrarySubscription, dst: wire::LibrarySubscriptionItem)
    requires
        library_subscription_item_mapped(src, dst),
    ensures
        dst.browse_id == src.browse_id,
        dst.name == src.name,
        dst.subscribers == src.subscribers,
{
}

/// Translating a catalogue `LibraryChannel` carries each of these fields over
/// unchanged, each into the wire field of the same name.
pub proof fn lemma_library_channel_item_keeps_fields(src: catalogue::LibraryChannel, dst: wire::LibraryChannelItem)
    requires
        library_channel_item_mapped(src, dst),
    ensures
        dst.browse_id == src.browse_id,
        dst.name == src.name,
        dst.subscribers == src.subscribers,
{
}

/// Translating a catalogue `LibraryPodcastChannel` carries each of these fields over
/// unchanged, each into the wire field of the same name.
pub proof fn lemma_library_podcast_channel_keeps_fields(src: catalogue::LibraryPodcastChannel, dst: wire::LibraryPodcastChannel)
    requires
        library_podcast_channel_mapped(src, dst),
    ensures
        dst.id == src.id,
        dst.name == src.name,
{
}

/// Translating a catalogue `LibraryPodcast` carries each of these fields over
/// unchanged, each into the wire field of the same name.
pub proof fn lemma_library_podcast_item_keeps_fields(src: catalogue::LibraryPodcast, dst: wire::LibraryPodcastItem)
    requires
        library_podcast_item_mapped(src, dst),
    ensures
        dst.title == src.title,
        dst.browse_id == src.browse_id,
        dst.podcast_id == src.podcast_id,
{
}

/// Translating a catalogue `LibrarySong` carries each of these fields over
/// unchanged, each into the wire field of the same name.
pub proof fn lemma_library_song_item_keeps_fields(src: catalogue::LibrarySong, dst: wire::LibrarySongItem)
    requires
        library_song_item_mapped(src, dst),
    ensures
        dst.video_id == src.video_id,
        dst.title == src.title,
        dst.duration == src.duration,
{
}

/// Translating a catalogue `LikedSongItem` carries each of these fields over
/// unchanged, each into the wire field of the same name.
pub proof fn lemma_liked_song_item_keeps_fields(src: catalogue::LikedSongItem, dst: wire::LikedSongItem)
    requires
        liked_song_item_mapped(src, dst),
    ensures
        dst.video_id == src.video_id,
        dst.title == src.title,
        dst.duration == src.duration,
{
}

/// Translating a catalogue `SavedEpisodeItem` carries each of these fields over
/// unchanged, each into the wire field of the same name.
pub proof fn lemma_saved_episode_item_keeps_fields(src: catalogue::SavedEpisodeItem, dst: wire::SavedEpisodeItem)
    requires
        saved_episode_item_mapped(src, dst),
    ensures
        dst.video_id == src.video_id,
        dst.title == src.title,
        dst.channel == src.channel,
        dst.podcast == src.podcast,
        dst.duration == src.duration,
{
}

/// Translating a catalogue `SongVideoDetails` carries each of these fields over
/// unchanged, each into the wire field of the same name.
pub proof fn lemma_song_video_details_keeps_fields(src: catalogue::SongVideoDetails, dst: wire::SongVideoDetails)
    requires
        song_video_details_mapped(src, dst),
    ensures
        dst.video_id == src.video_id,
        dst.title == src.title,
        dst.length_seconds == src.length_seconds,
        dst.channel_id == src.channel_id,
        dst.author == src.author,
        dst.allow_ratings == src.allow_ratings,
        dst.view_count == src.view_count,
        dst.is_owner_viewing == src.is_owner_viewing,
        dst.is_crawlable == src.is_crawlable,
        dst.is_private == src.is_private,
        dst.is_unplugged_corpus == src.is_unplugged_corpus,
        dst.is_live_content == src.is_live_content,
        dst.is_tvfilm_video == src.is_tvfilm_video,
        dst.music_video_type == src.music_video_type,
{
}

/// Translating a catalogue `SongPlayabilityStatus` carries each of these fields over
/// unchanged, each into the wire field of the same name.
pub proof fn lemma_song_playability_status_keeps_fields(src: catalogue::SongPlayabilityStatus, dst: wire::SongPlayabilityStatus)
    requires
        song_playability_status_mapped(src, dst),
    ensures
        dst.status == src.status,
        dst.playable_in_embed == src.playable_in_embed,
        dst.reason == src.reason,
        dst.context_params == src.context_params,
        dst.audio_only_availability == src.audio_only_availability,
        dst.playback_mode == src.playback_mode,
{
}

/// Translating a catalogue `SongByteRange` carries each of these fields over
/// unchanged, each into the wire field of the same name.
pub proof fn lemma_song_byte_range_keeps_fields(src: catalogue::SongByteRange, dst: wire::SongByteRange)
    requires
        song_byte_range_mapped(src, dst),
    ensures
        dst.start == src.start,
        dst.end == src.end,
{
}

/// Translating a catalogue `SongColorInfo` carries each of these fields over
/// unchanged, each into the wire field of the same name.
pub proof fn lemma_song_color_info_keeps_fields(src: catalogue::SongColorInfo, dst: wire::SongColorInfo)
    requires
        song_color_info_mapped(src, dst),
    ensures
        dst.primaries == src.primaries,
        dst.transfer_characteristics == src.transfer_characteristics,
        dst.matrix_coefficients == src.matrix_coefficients,
{
}

/// Translating a catalogue `SongStreamFormat` carries each of these fields over
/// unchanged, each into the wire field of the same name.
pub proof fn lemma_song_stream_format_keeps_fields(src: catalogue::SongStreamFormat, dst: wire::SongStreamFormat)
    requires
        song_stream_format_mapped(src, dst),
    ensures
        dst.itag == src.itag,
        dst.mime_type == src.mime_type,
        dst.bitrate == src.bitrate,
        dst.average_bitrate == src.average_bitrate,
        dst.content_length == src.content_length,
        dst.last_modified == src.last_modified,
        dst.quality == src.quality,
        dst.quality_label == src.quality_label,
        dst.quality_ordinal == src.quality_ordinal,
        dst.projection_type == src.projection_type,
        dst.width == src.width,
        dst.height == src.height,
        dst.fps == src.fps,
        dst.audio_quality == src.audio_quality,
        dst.audio_sample_rate == src.audio_sample_rate,
        dst.audio_channels == src.audio_channels,
        dst.loudness_db == src.loudness_db,
        dst.track_absolute_loudness_lkfs == src.track_absolute_loudness_lkfs,
        dst.approx_duration_ms == src.approx_duration_ms,
        dst.high_replication == src.high_replication,
        dst.xtags == src.xtags,
        dst.signature_cipher == src.signature_cipher,
{
}

/// Translating a catalogue `SongStreamingData` carries each of these fields over
/// unchanged, each into the wire field of the same name.
pub proof fn lemma_song_streaming_data_keeps_fields(src: catalogue::SongStreamingData, dst: wire::SongStreamingData)
    requires
        song_streaming_data_mapped(src, dst),
    ensures
        dst.expires_in_seconds == src.expires_in_seconds,
        dst.server_abr_streaming_url == src.server_abr_streaming_url,
{
}

/// Translating a catalogue `SongMicroformat` carries each of these fields over
/// unchanged, each into the wire field of the same name.
pub proof fn lemma_song_microformat_keeps_fields(src: catalogue::SongMicroformat, dst: wire::SongMicroformat)
    requires
        song_microformat_mapped(src, dst),
    ensures
        dst.url_canonical == src.url_canonical,
        dst.description == src.description,
        dst.category == src.category,
        dst.publish_date == src.publish_date,
        dst.upload_date == src.upload_date,
        dst.view_count == src.view_count,
        dst.available_countries == src.available_countries,
        dst.tags == src.tags,
        dst.noindex == src.noindex,
        dst.unlisted == src.unlisted,
        dst.family_safe == src.family_safe,
{
}

/// Every catalogue result type becomes the wire result type of the same
/// name, and every catalogue like status the wire like status of the same
/// name; distinct values stay distinct on the wire.
pub proof fn lemma_enumerations_keep_their_names(t: catalogue::SearchResultType, u: catalogue::SearchResultType)
    ensures
        result_type_spec(catalogue::SearchResultType::Song) == wire::SearchResultType::Song,
        result_type_spec(catalogue::SearchResultType::Video) == wire::SearchResultType::Video,
        result_type_spec(catalogue::SearchResultType::Album) == wire::SearchResultType::Album,
        result_type_spec(catalogue::SearchResultType::Artist) == wire::SearchResultType::Artist,
        result_type_spec(catalogue::SearchResultType::Profile) == wire::SearchResultType::Profile,
        result_type_spec(catalogue::SearchResultType::Playlist) == wire::SearchResultType::Playlist,
        result_type_spec(catalogue::SearchResultType::Episode) == wire::SearchResultType::Episode,
        result_type_spec(catalogue::SearchResultType::Podcast) == wire::SearchResultType::Podcast,
        like_status_spec(catalogue::LibraryLikeStatus::Like) == wire::LibraryLikeStatus::Like,
        like_status_spec(catalogue::LibraryLikeStatus::Indifferent) == wire::LibraryLikeStatus::Indifferent,
        like_status_spec(catalogue::LibraryLikeStatus::Dislike) == wire::LibraryLikeStatus::Dislike,
        t != u ==> wire::search_result_type_number_spec(result_type_spec(t))
            != wire::search_result_type_number_spec(result_type_spec(u)),
{
}

/// Search: on a translated page, the item at each position is the catalogue
/// result at that position, of the same kind; an artist keeps its name,
/// browse id, subscriber count, and its radio and shuffle playlists each in
/// its own field.
pub proof fn lemma_search_page_keeps_artists(
    page: catalogue::Page<catalogue::SearchResult>,
    r: wire::SearchResponse,
)
    requires
        seq_mapped(page.items@, r.items@, |a, b| search_result_mapped(a, b)),
    ensures
        r.items@.len() == page.items@.len(),
        forall|i: int|
            0 <= i < page.items@.len() ==> (#[trigger] page.items@[i] matches catalogue::SearchResult::Artist(a)
                ==> (r.items@[i].item matches Some(wire::SearchResultItemKind::Artist(b))
                && b.artist == a.artist && b.browse_id == a.browse_id && b.subscribers
                == a.subscribers && b.radio_id == a.radio_id && b.shuffle_id == a.shuffle_id)),
{
    assert forall|i: int|
        0 <= i < page.items@.len() implies (#[trigger] page.items@[i] matches catalogue::SearchResult::Artist(a)
            ==> (r.items@[i].item matches Some(wire::SearchResultItemKind::Artist(b))
            && b.artist == a.artist && b.browse_id == a.browse_id && b.subscribers
            == a.subscribers && b.radio_id == a.radio_id && b.shuffle_id == a.shuffle_id)) by {
        assert((|a, b| search_result_mapped(a, b))(page.items@[i], r.items@[i]));
    }
}

/// Search on the single-listener API: as for the first revision, an artist
/// keeps its radio and shuffle playlists each in its own field.
pub proof fn lemma_search_page_v2_keeps_artists(
    page: catalogue::Page<catalogue::SearchResult>,
    r: wire_v2::SearchResponse,
)
    requires
        seq_mapped(page.items@, r.items@, |a, b| search_result_v2_mapped(a, b)),
    ensures
        r.items@.len() == page.items@.len(),
        forall|i: int|
            0 <= i < page.items@.len() ==> (#[trigger] page.items@[i] matches catalogue::SearchResult::Artist(a)
                ==> (r.items@[i].kind matches Some(wire::SearchResultItemKind::Artist(b))
                && b.artist == a.artist && b.browse_id == a.browse_id && b.subscribers
                == a.subscribers && b.radio_id == a.radio_id && b.shuffle_id == a.shuffle_id)),
{
    assert forall|i: int|
        0 <= i < page.items@.len() implies (#[trigger] page.items@[i] matches catalogue::SearchResult::Artist(a)
            ==> (r.items@[i].kind matches Some(wire::SearchResultItemKind::Artist(b))
            && b.artist == a.artist && b.browse_id == a.browse_id && b.subscribers
            == a.subscribers && b.radio_id == a.radio_id && b.shuffle_id == a.shuffle_id)) by {
        assert((|a, b| search_result_v2_mapped(a, b))(page.items@[i], r.items@[i]));
    }
}

/// Watch playlist: the track at each position of a translated page carries
/// the catalogue track's video id, title, duration, view count, year and
/// video type, each in the field of the same name.
pub proof fn lemma_watch_tracks_keep_fields(page: Seq<catalogue::WatchTrack>, items: Seq<wire::WatchTrackItem>)
    requires
        seq_mapped(page, items, |a, b| watch_track_mapped(a, b)),
    ensures
        items.len() == page.len(),
        forall|i: int|
            0 <= i < page.len() ==> {
                &&& #[trigger] items[i].duration == page[i].duration
                &&& items[i].views == page[i].views
                &&& items[i].video_id == page[i].video_id
                &&& items[i].title == page[i].title
                &&& items[i].year == page[i].year
                &&& items[i].video_type == page[i].video_type
            },
{
    assert forall|i: int| 0 <= i < page.len() implies {
        &&& #[trigger] items[i].duration == page[i].duration
        &&& items[i].views == page[i].views
        &&& items[i].video_id == page[i].video_id
        &&& items[i].title == page[i].title
        &&& items[i].year == page[i].year
        &&& items[i].video_type == page[i].video_type
    } by {
        assert((|a, b| watch_track_mapped(a, b))(page[i], items[i]));
    }
}

/// Library albums: the album at each position of a translated page carries
/// the catalogue album's browse id, playlist id, title, type label and year,
/// each in the field of the same name.
pub proof fn lemma_library_albums_keep_fields(
    page: catalogue::Page<catalogue::LibraryAlbum>,
    r: wire::LibraryAlbumsResponse,
)
    requires
        seq_mapped(page.items@, r.items@, |a, b| library_album_item_mapped(a, b)),
    ensures
        r.items@.len() == page.items@.len(),
        forall|i: int|
            0 <= i < page.items@.len() ==> {
                &&& #[trigger] r.items@[i].type_label == page.items@[i].type_label
                &&& r.items@[i].year == page.items@[i].year
                &&& r.items@[i].browse_id == page.items@[i].browse_id
                &&& r.items@[i].playlist_id == page.items@[i].playlist_id
                &&& r.items@[i].title == page.items@[i].title
            },
{
    assert forall|i: int| 0 <= i < page.items@.len() implies {
        &&& #[trigger] r.items@[i].type_label == page.items@[i].type_label
        &&& r.items@[i].year == page.items@[i].year
        &&& r.items@[i].browse_id == page.items@[i].browse_id
        &&& r.items@[i].playlist_id == page.items@[i].playlist_id
        &&& r.items@[i].title == page.items@[i].title
    } by {
        assert((|a, b| library_album_item_mapped(a, b))(page.items@[i], r.items@[i]));
    }
}

/// The stream formats at each position carry the catalogue format's itag,
/// MIME type, dimensions, frame rate, bitrates and content length, each in
/// the field of the same name.
pub open spec fn formats_keep_fields(src: Seq<catalogue::SongStreamFormat>, dst: Seq<wire::SongStreamFormat>) -> bool {
    &&& dst.len() == src.len()
    &&& forall|i: int|
        0 <= i < src.len() ==> {
            &&& #[trigger] dst[i].width == src[i].width
            &&& dst[i].height == src[i].height
            &&& dst[i].itag == src[i].itag
            &&& dst[i].mime_type == src[i].mime_type
            &&& dst[i].fps == src[i].fps
            &&& dst[i].bitrate == src[i].bitrate
            &&& dst[i].average_bitrate == src[i].average_bitrate
            &&& dst[i].content_length == src[i].content_length
        }
}

proof fn lemma_formats_keep_fields(src: Seq<catalogue::SongStreamFormat>, dst: Seq<wire::SongStreamFormat>)
    requires
        seq_mapped(src, dst, |a, b| song_stream_format_mapped(a, b)),
    ensures
        formats_keep_fields(src, dst),
{
    assert forall|i: int| 0 <= i < src.len() implies {
        &&& #[trigger] dst[i].width == src[i].width
        &&& dst[i].height == src[i].height
        &&& dst[i].itag == src[i].itag
        &&& dst[i].mime_type == src[i].mime_type
        &&& dst[i].fps == src[i].fps
        &&& dst[i].bitrate == src[i].bitrate
        &&& dst[i].average_bitrate == src[i].average_bitrate
        &&& dst[i].content_length == src[i].content_length
    } by {
        assert((|a, b| song_stream_format_mapped(a, b))(src[i], dst[i]));
    }
}

/// Song metadata: when the catalogue had streaming data, the translation
/// has it too, with its expiry, and every format and adaptive format keeps,
/// at its position, its itag, MIME type, width, height, frame rate, bitrates
/// and content length.
pub proof fn lemma_song_streaming_formats_keep_fields(song: catalogue::GetSongResponse, r: wire::GetSongResponse)
    requires
        option_mapped(song.streaming_data, r.streaming_data, |a, b| song_streaming_data_mapped(a, b)),
    ensures
        song.streaming_data matches Some(sd) ==> (r.streaming_data matches Some(wd)
            && wd.expires_in_seconds == sd.expires_in_seconds
            && formats_keep_fields(sd.formats@, wd.formats@)
            && formats_keep_fields(sd.adaptive_formats@, wd.adaptive_formats@)),
        song.streaming_data is None ==> r.streaming_data is None,
{
    if let Some(sd) = song.streaming_data {
        if let Some(wd) = r.streaming_data {
            lemma_formats_keep_fields(sd.formats@, wd.formats@);
            lemma_formats_keep_fields(sd.adaptive_formats@, wd.adaptive_formats@);
        }
    }
}

} // verus!
