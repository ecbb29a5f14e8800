//! Translation of catalogue results into the wire messages of the public
//! API: every field is carried over, enumerations become their wire
//! numbers, and item order and continuation tokens are kept.

use vstd::prelude::*;

use crate::catalogue;
use crate::requests;
use crate::seqmap::{map_option, map_vec, option_mapped, seq_mapped};
use crate::wire;

verus! {

/// The wire result type for a catalogue result type.
pub open spec fn result_type_spec(t: catalogue::SearchResultType) -> wire::SearchResultType {
    match t {
        catalogue::SearchResultType::Song => wire::SearchResultType::Song,
        catalogue::SearchResultType::Video => wire::SearchResultType::Video,
        catalogue::SearchResultType::Album => wire::SearchResultType::Album,
        catalogue::SearchResultType::Artist => wire::SearchResultType::Artist,
        catalogue::SearchResultType::Profile => wire::SearchResultType::Profile,
        catalogue::SearchResultType::Playlist => wire::SearchResultType::Playlist,
        catalogue::SearchResultType::Episode => wire::SearchResultType::Episode,
        catalogue::SearchResultType::Podcast => wire::SearchResultType::Podcast,
    }
}

/// The wire like status for a catalogue like status.
pub open spec fn like_status_spec(s: catalogue::LibraryLikeStatus) -> wire::LibraryLikeStatus {
    match s {
        catalogue::LibraryLikeStatus::Like => wire::LibraryLikeStatus::Like,
        catalogue::LibraryLikeStatus::Indifferent => wire::LibraryLikeStatus::Indifferent,
        catalogue::LibraryLikeStatus::Dislike => wire::LibraryLikeStatus::Dislike,
    }
}

/// The wire number of an optional like status.
pub open spec fn like_status_number_option(s: Option<catalogue::LibraryLikeStatus>) -> Option<i32> {
    match s {
        Some(s) => Some(wire::like_status_number_spec(like_status_spec(s))),
        None => None,
    }
}

/// Translates a catalogue result type.
pub(crate) fn search_result_type_to_proto(t: catalogue::SearchResultType) -> (r: wire::SearchResultType)
    ensures
        r == result_type_spec(t),
{
    match t {
        catalogue::SearchResultType::Song => wire::SearchResultType::Song,
        catalogue::SearchResultType::Video => wire::SearchResultType::Video,
        catalogue::SearchResultType::Album => wire::SearchResultType::Album,
        catalogue::SearchResultType::Artist => wire::SearchResultType::Artist,
        catalogue::SearchResultType::Profile => wire::SearchResultType::Profile,
        catalogue::SearchResultType::Playlist => wire::SearchResultType::Playlist,
        catalogue::SearchResultType::Episode => wire::SearchResultType::Episode,
        catalogue::SearchResultType::Podcast => wire::SearchResultType::Podcast,
    }
}

/// Translates a catalogue like status.
pub(crate) fn like_status_to_proto(s: catalogue::LibraryLikeStatus) -> (r: wire::LibraryLikeStatus)
    ensures
        r == like_status_spec(s),
{
    match s {
        catalogue::LibraryLikeStatus::Like => wire::LibraryLikeStatus::Like,
        catalogue::LibraryLikeStatus::Indifferent => wire::LibraryLikeStatus::Indifferent,
        catalogue::LibraryLikeStatus::Dislike => wire::LibraryLikeStatus::Dislike,
    }
}

fn like_status_number(s: Option<catalogue::LibraryLikeStatus>) -> (r: Option<i32>)
    ensures
        r == like_status_number_option(s),
{
    match s {
        Some(s) => Some(like_status_to_proto(s).number()),
        None => None,
    }
}

/// The wire token carries the catalogue token's text.
pub open spec fn token_mapped(src: requests::ContinuationToken, dst: wire::ContinuationToken) -> bool {
    dst.value == src.value
}

/// Translates a continuation token.
pub(crate) fn continuation_token_to_proto(token: requests::ContinuationToken) -> (r: wire::ContinuationToken)
    ensures
        token_mapped(token, r),
{
    wire::ContinuationToken { value: token.value }
}

/// `dst` carries every field of `src`, nested values translated.
pub open spec fn thumbnail_mapped(src: catalogue::Thumbnail, dst: wire::Thumbnail) -> bool {
    &&& dst.url == src.url
    &&& dst.width == src.width
    &&& dst.height == src.height
}

/// `dst` carries every field of `src`, nested values translated.
pub open spec fn artist_ref_mapped(src: catalogue::ArtistRef, dst: wire::ArtistRef) -> bool {
    &&& dst.id == src.id
    &&& dst.name == src.name
}

/// `dst` carries every field of `src`, nested values translated.
pub open spec fn album_ref_mapped(src: catalogue::AlbumRef, dst: wire::AlbumRef) -> bool {
    &&& dst.id == src.id
    &&& dst.name == src.name
}

/// `dst` carries every field of `src`, nested values translated.
pub open spec fn song_search_result_mapped(src: catalogue::SongResult, dst: wire::SongSearchResult) -> bool {
    &&& dst.category == src.category
    &&& dst.result_type == wire::search_result_type_number_spec(result_type_spec(src.result_type))
    &&& dst.video_id == src.video_id
    &&& dst.title == src.title
    &&& seq_mapped(src.artists@, dst.artists@, |a: catalogue::ArtistRef, b: wire::ArtistRef| artist_ref_mapped(a, b))
    &&& option_mapped(src.album, dst.album, |a: catalogue::AlbumRef, b: wire::AlbumRef| album_ref_mapped(a, b))
    &&& dst.duration == src.duration
    &&& seq_mapped(src.thumbnails@, dst.thumbnails@, |a: catalogue::Thumbnail, b: wire::Thumbnail| thumbnail_mapped(a, b))
    &&& dst.is_explicit == src.is_explicit
}

/// `dst` carries every field of `src`, nested values translated.
pub open spec fn video_search_result_mapped(src: catalogue::VideoResult, dst: wire::VideoSearchResult) -> bool {
    &&& dst.category == src.category
    &&& dst.result_type == wire::search_result_type_number_spec(result_type_spec(src.result_type))
    &&& dst.title == src.title
    &&& dst.video_id == src.video_id
    &&& dst.video_type == src.video_type
    &&& seq_mapped(src.artists@, dst.artists@, |a: catalogue::ArtistRef, b: wire::ArtistRef| artist_ref_mapped(a, b))
    &&& seq_mapped(src.thumbnails@, dst.thumbnails@, |a: catalogue::Thumbnail, b: wire::Thumbnail| thumbnail_mapped(a, b))
    &&& dst.duration == src.duration
    &&& dst.views == src.views
    &&& dst.date == src.date
    &&& option_mapped(src.podcast, dst.podcast, |a: catalogue::AlbumRef, b: wire::AlbumRef| album_ref_mapped(a, b))
    &&& dst.live == src.live
}

/// `dst` carries every field of `src`, nested values translated.
pub open spec fn album_search_result_mapped(src: catalogue::AlbumResult, dst: wire::AlbumSearchResult) -> bool {
    &&& dst.category == src.category
    &&& dst.result_type == wire::search_result_type_number_spec(result_type_spec(src.result_type))
    &&& dst.browse_id == src.browse_id
    &&& dst.playlist_id == src.playlist_id
    &&& dst.title == src.title
    &&& dst.type_label == src.type_label
    &&& dst.year == src.year
    &&& dst.duration == src.duration
    &&& dst.is_explicit == src.is_explicit
    &&& seq_mapped(src.artists@, dst.artists@, |a: catalogue::ArtistRef, b: wire::ArtistRef| artist_ref_mapped(a, b))
    &&& seq_mapped(src.thumbnails@, dst.thumbnails@, |a: catalogue::Thumbnail, b: wire::Thumbnail| thumbnail_mapped(a, b))
}

/// `dst` carries every field of `src`, nested values translated.
pub open spec fn artist_search_result_mapped(src: catalogue::ArtistResult, dst: wire::ArtistSearchResult) -> bool {
    &&& dst.category == src.category
    &&& dst.result_type == wire::search_result_type_number_spec(result_type_spec(src.result_type))
    &&& dst.artist == src.artist
    &&& seq_mapped(src.artists@, dst.artists@, |a: catalogue::ArtistRef, b: wire::ArtistRef| artist_ref_mapped(a, b))
    &&& dst.subscribers == src.subscribers
    &&& dst.browse_id == src.browse_id
    &&& dst.radio_id == src.radio_id
    &&& dst.shuffle_id == src.shuffle_id
    &&& seq_mapped(src.thumbnails@, dst.thumbnails@, |a: catalogue::Thumbnail, b: wire::Thumbnail| thumbnail_mapped(a, b))
}

/// `dst` carries every field of `src`, nested values translated.
pub open spec fn profile_search_result_mapped(src: catalogue::ProfileResult, dst: wire::ProfileSearchResult) -> bool {
    &&& dst.category == src.category
    &&& dst.result_type == wire::search_result_type_number_spec(result_type_spec(src.result_type))
    &&& dst.browse_id == src.browse_id
    &&& dst.name == src.name
    &&& dst.handle == src.handle
    &&& seq_mapped(src.thumbnails@, dst.thumbnails@, |a: catalogue::Thumbnail, b: wire::Thumbnail| thumbnail_mapped(a, b))
}

/// `dst` carries every field of `src`, nested values translated.
pub open spec fn playlist_search_result_mapped(src: catalogue::PlaylistResult, dst: wire::PlaylistSearchResult) -> bool {
    &&& dst.category == src.category
    &&& dst.result_type == wire::search_result_type_number_spec(result_type_spec(src.result_type))
    &&& dst.browse_id == src.browse_id
    &&& dst.title == src.title
    &&& dst.author == src.author
    &&& dst.item_count == src.item_count
    &&& seq_mapped(src.thumbnails@, dst.thumbnails@, |a: catalogue::Thumbnail, b: wire::Thumbnail| thumbnail_mapped(a, b))
}

/// `dst` carries every field of `src`, nested values translated.
pub open spec fn watch_track_mapped(src: catalogue::WatchTrack, dst: wire::WatchTrackItem) -> bool
    decreases src,
 {
    &&& dst.video_id == src.video_id
    &&& dst.title == src.title
    &&& dst.duration == src.duration
    &&& seq_mapped(src.thumbnails@, dst.thumbnails@, |a: catalogue::Thumbnail, b: wire::Thumbnail| thumbnail_mapped(a, b))
    &&& seq_mapped(src.artists@, dst.artists@, |a: catalogue::ArtistRef, b: wire::ArtistRef| artist_ref_mapped(a, b))
    &&& option_mapped(src.album, dst.album, |a: catalogue::AlbumRef, b: wire::AlbumRef| album_ref_mapped(a, b))
    &&& dst.like_status == like_status_number_option(src.like_status)
    &&& dst.video_type == src.video_type
    &&& dst.year == src.year
    &&& dst.views == src.views
    &&& dst.is_in_library == src.is_in_library
    &&& match (src.counterpart, dst.counterpart) {
        (None, None) => true,
        (Some(a), Some(b)) => watch_track_mapped(*a, *b),
        _ => false,
    }
}

/// `dst` carries every field of `src`, nested values translated.
pub open spec fn library_playlist_item_mapped(src: catalogue::LibraryPlaylist, dst: wire::LibraryPlaylistItem) -> bool {
    &&& dst.playlist_id == src.playlist_id
    &&& dst.title == src.title
    &&& seq_mapped(src.authors@, dst.authors@, |a: catalogue::ArtistRef, b: wire::ArtistRef| artist_ref_mapped(a, b))
    &&& dst.item_count == src.item_count
    &&& seq_mapped(src.thumbnails@, dst.thumbnails@, |a: catalogue::Thumbnail, b: wire::Thumbnail| thumbnail_mapped(a, b))
}

/// `dst` carries every field of `src`, nested values translated.
pub open spec fn library_artist_item_mapped(src: catalogue::LibraryArtist, dst: wire::LibraryArtistItem) -> bool {
    &&& dst.browse_id == src.browse_id
    &&& dst.artist == src.artist
    &&& dst.subscribers == src.subscribers
    &&& seq_mapped(src.thumbnails@, dst.thumbnails@, |a: catalogue::Thumbnail, b: wire::Thumbnail| thumbnail_mapped(a, b))
}

/// `dst` carries every field of `src`, nested values translated.
pub open spec fn library_album_item_mapped(src: catalogue::LibraryAlbum, dst: wire::LibraryAlbumItem) -> bool {
    &&& dst.browse_id == src.browse_id
    &&& dst.playlist_id == src.playlist_id
    &&& dst.title == src.title
    &&& dst.type_label == src.type_label
    &&& seq_mapped(src.artists@, dst.artists@, |a: catalogue::ArtistRef, b: wire::ArtistRef| artist_ref_mapped(a, b))
    &&& dst.year == src.year
    &&& seq_mapped(src.thumbnails@, dst.thumbnails@, |a: catalogue::Thumbnail, b: wire::Thumbnail| thumbnail_mapped(a, b))
}

/// `dst` carries every field of `src`, nested values translated.
pub open spec fn library_subscription_item_mapped(src: catalogue::LibrarySubscription, dst: wire::LibrarySubscriptionItem) -> bool {
    &&& dst.browse_id == src.browse_id
    &&& dst.name == src.name
    &&& dst.subscribers == src.subscribers
    &&& seq_mapped(src.thumbnails@, dst.thumbnails@, |a: catalogue::Thumbnail, b: wire::Thumbnail| thumbnail_mapped(a, b))
}

/// `dst` carries every field of `src`, nested values translated.
pub open spec fn library_channel_item_mapped(src: catalogue::LibraryChannel, dst: wire::LibraryChannelItem) -> bool {
    &&& dst.browse_id == src.browse_id
    &&& dst.name == src.name
    &&& dst.subscribers == src.subscribers
    &&& seq_mapped(src.thumbnails@, dst.thumbnails@, |a: catalogue::Thumbnail, b: wire::Thumbnail| thumbnail_mapped(a, b))
}

/// `dst` carries every field of `src`, nested values translated.
pub open spec fn library_podcast_channel_mapped(src: catalogue::LibraryPodcastChannel, dst: wire::LibraryPodcastChannel) -> bool {
    &&& dst.id == src.id
    &&& dst.name == src.name
}

/// `dst` carries every field of `src`, nested values translated.
pub open spec fn library_podcast_item_mapped(src: catalogue::LibraryPodcast, dst: wire::LibraryPodcastItem) -> bool {
    &&& dst.title == src.title
    &&& dst.browse_id == src.browse_id
    &&& dst.podcast_id == src.podcast_id
    &&& dst.channel matches Some(c) && library_podcast_channel_mapped(src.channel, c)
    &&& seq_mapped(src.thumbnails@, dst.thumbnails@, |a: catalogue::Thumbnail, b: wire::Thumbnail| thumbnail_mapped(a, b))
}

/// `dst` carries every field of `src`, nested values translated.
pub open spec fn library_song_item_mapped(src: catalogue::LibrarySong, dst: wire::LibrarySongItem) -> bool {
    &&& dst.video_id == src.video_id
    &&& dst.title == src.title
    &&& seq_mapped(src.artists@, dst.artists@, |a: catalogue::ArtistRef, b: wire::ArtistRef| artist_ref_mapped(a, b))
    &&& option_mapped(src.album, dst.album, |a: catalogue::AlbumRef, b: wire::AlbumRef| album_ref_mapped(a, b))
    &&& dst.duration == src.duration
    &&& seq_mapped(src.thumbnails@, dst.thumbnails@, |a: catalogue::Thumbnail, b: wire::Thumbnail| thumbnail_mapped(a, b))
    &&& dst.like_status == like_status_number_option(src.like_status)
}

/// `dst` carries every field of `src`, nested values translated.
pub open spec fn liked_song_item_mapped(src: catalogue::LikedSongItem, dst: wire::LikedSongItem) -> bool {
    &&& dst.video_id == src.video_id
    &&& dst.title == src.title
    &&& seq_mapped(src.artists@, dst.artists@, |a: catalogue::ArtistRef, b: wire::ArtistRef| artist_ref_mapped(a, b))
    &&& option_mapped(src.album, dst.album, |a: catalogue::AlbumRef, b: wire::AlbumRef| album_ref_mapped(a, b))
    &&& dst.duration == src.duration
    &&& seq_mapped(src.thumbnails@, dst.thumbnails@, |a: catalogue::Thumbnail, b: wire::Thumbnail| thumbnail_mapped(a, b))
    &&& dst.like_status == like_status_number_option(src.like_status)
}

/// `dst` carries every field of `src`, nested values translated.
pub open spec fn saved_episode_item_mapped(src: catalogue::SavedEpisodeItem, dst: wire::SavedEpisodeItem) -> bool {
    &&& dst.video_id == src.video_id
    &&& dst.title == src.title
    &&& dst.channel == src.channel
    &&& dst.podcast == src.podcast
    &&& dst.duration == src.duration
    &&& seq_mapped(src.thumbnails@, dst.thumbnails@, |a: catalogue::Thumbnail, b: wire::Thumbnail| thumbnail_mapped(a, b))
}

/// `dst` carries every field of `src`, nested values translated.
pub open spec fn song_video_details_mapped(src: catalogue::SongVideoDetails, dst: wire::SongVideoDetails) -> bool {
    &&& dst.video_id == src.video_id
    &&& dst.title == src.title
    &&& dst.length_seconds == src.length_seconds
    &&& dst.channel_id == src.channel_id
    &&& dst.author == src.author
    &&& seq_mapped(src.thumbnails@, dst.thumbnails@, |a: catalogue::Thumbnail, b: wire::Thumbnail| thumbnail_mapped(a, b))
    &&& dst.allow_ratings == src.allow_ratings
    &&& dst.view_count == src.view_count
    &&& dst.is_owner_viewing == src.is_owner_viewing
    &&& dst.is_crawlable == src.is_crawlable
    &&& dst.is_private == src.is_private
    &&& dst.is_unplugged_corpus == src.is_unplugged_corpus
    &&& dst.is_live_content == src.is_live_content
    &&& dst.is_tvfilm_video == src.is_tvfilm_video
    &&& dst.music_video_type == src.music_video_type
}

/// `dst` carries every field of `src`, nested values translated.
pub open spec fn song_playability_status_mapped(src: catalogue::SongPlayabilityStatus, dst: wire::SongPlayabilityStatus) -> bool {
    &&& dst.status == src.status
    &&& dst.playable_in_embed == src.playable_in_embed
    &&& dst.reason == src.reason
    &&& dst.context_params == src.context_params
    &&& dst.audio_only_availability == src.audio_only_availability
    &&& dst.playback_mode == src.playback_mode
}

/// `dst` carries every field of `src`, nested values translated.
pub open spec fn song_byte_range_mapped(src: catalogue::SongByteRange, dst: wire::SongByteRange) -> bool {
    &&& dst.start == src.start
    &&& dst.end == src.end
}

/// `dst` carries every field of `src`, nested values translated.
pub open spec fn song_color_info_mapped(src: catalogue::SongColorInfo, dst: wire::SongColorInfo) -> bool {
    &&& dst.primaries == src.primaries
    &&& dst.transfer_characteristics == src.transfer_characteristics
    &&& dst.matrix_coefficients == src.matrix_coefficients
}

/// `dst` carries every field of `src`, nested values translated.
pub open spec fn song_stream_format_mapped(src: catalogue::SongStreamFormat, dst: wire::SongStreamFormat) -> bool {
    &&& dst.itag == src.itag
    &&& dst.mime_type == src.mime_type
    &&& dst.bitrate == src.bitrate
    &&& dst.average_bitrate == src.average_bitrate
    &&& dst.content_length == src.content_length
    &&& dst.last_modified == src.last_modified
    &&& dst.quality == src.quality
    &&& dst.quality_label == src.quality_label
    &&& dst.quality_ordinal == src.quality_ordinal
    &&& dst.projection_type == src.projection_type
    &&& dst.width == src.width
    &&& dst.height == src.height
    &&& dst.fps == src.fps
    &&& option_mapped(src.color_info, dst.color_info, |a: catalogue::SongColorInfo, b: wire::SongColorInfo| song_color_info_mapped(a, b))
    &&& dst.audio_quality == src.audio_quality
    &&& dst.audio_sample_rate == src.audio_sample_rate
    &&& dst.audio_channels == src.audio_channels
    &&& dst.loudness_db == src.loudness_db
    &&& dst.track_absolute_loudness_lkfs == src.track_absolute_loudness_lkfs
    &&& dst.approx_duration_ms == src.approx_duration_ms
    &&& dst.high_replication == src.high_replication
    &&& dst.xtags == src.xtags
    &&& option_mapped(src.init_range, dst.init_range, |a: catalogue::SongByteRange, b: wire::SongByteRange| song_byte_range_mapped(a, b))
    &&& option_mapped(src.index_range, dst.index_range, |a: catalogue::SongByteRange, b: wire::SongByteRange| song_byte_range_mapped(a, b))
    &&& dst.signature_cipher == src.signature_cipher
}

/// `dst` carries every field of `src`, nested values translated.
pub open spec fn song_streaming_data_mapped(src: catalogue::SongStreamingData, dst: wire::SongStreamingData) -> bool {
    &&& dst.expires_in_seconds == src.expires_in_seconds
    &&& dst.server_abr_streaming_url == src.server_abr_streaming_url
    &&& seq_mapped(src.formats@, dst.formats@, |a: catalogue::SongStreamFormat, b: wire::SongStreamFormat| song_stream_format_mapped(a, b))
    &&& seq_mapped(src.adaptive_formats@, dst.adaptive_formats@, |a: catalogue::SongStreamFormat, b: wire::SongStreamFormat| song_stream_format_mapped(a, b))
}

/// `dst` carries every field of `src`, nested values translated.
pub open spec fn song_microformat_mapped(src: catalogue::SongMicroformat, dst: wire::SongMicroformat) -> bool {
    &&& dst.url_canonical == src.url_canonical
    &&& dst.description == src.description
    &&& dst.category == src.category
    &&& dst.publish_date == src.publish_date
    &&& dst.upload_date == src.upload_date
    &&& dst.view_count == src.view_count
    &&& dst.available_countries == src.available_countries
    &&& dst.tags == src.tags
    &&& dst.noindex == src.noindex
    &&& dst.unlisted == src.unlisted
    &&& dst.family_safe == src.family_safe
}

/// Translates a catalogue `Thumbnail` into its wire message.
pub(crate) fn thumbnail_to_proto(src: catalogue::Thumbnail) -> (dst: wire::Thumbnail)
    ensures
        thumbnail_mapped(src, dst),
{
    wire::Thumbnail {
        url: src.url,
        width: src.width,
        height: src.height,
    }
}

/// Translates a catalogue `ArtistRef` into its wire message.
pub(crate) fn artist_ref_to_proto(src: catalogue::ArtistRef) -> (dst: wire::ArtistRef)
    ensures
        artist_ref_mapped(src, dst),
{
    wire::ArtistRef {
        id: src.id,
        name: src.name,
    }
}

/// Translates a catalogue `AlbumRef` into its wire message.
pub(crate) fn album_ref_to_proto(src: catalogue::AlbumRef) -> (dst: wire::AlbumRef)
    ensures
        album_ref_mapped(src, dst),
{
    wire::AlbumRef {
        id: src.id,
        name: src.name,
    }
}

/// Translates a catalogue `SongResult` into its wire message.
pub(crate) fn song_search_result_to_proto(src: catalogue::SongResult) -> (dst: wire::SongSearchResult)
    ensures
        song_search_result_mapped(src, dst),
{
    wire::SongSearchResult {
        category: src.category,
        result_type: search_result_type_to_proto(src.result_type).number(),
        video_id: src.video_id,
        title: src.title,
        artists: map_vec(src.artists, artist_ref_to_proto, Ghost(|a, b| artist_ref_mapped(a, b))),
        album: map_option(src.album, album_ref_to_proto, Ghost(|a, b| album_ref_mapped(a, b))),
        duration: src.duration,
        thumbnails: map_vec(src.thumbnails, thumbnail_to_proto, Ghost(|a, b| thumbnail_mapped(a, b))),
        is_explicit: src.is_explicit,
    }
}

/// Translates a catalogue `VideoResult` into its wire message.
pub(crate) fn video_search_result_to_proto(src: catalogue::VideoResult) -> (dst: wire::VideoSearchResult)
    ensures
        video_search_result_mapped(src, dst),
{
    wire::VideoSearchResult {
        category: src.category,
        result_type: search_result_type_to_proto(src.result_type).number(),
        title: src.title,
        video_id: src.video_id,
        video_type: src.video_type,
        artists: map_vec(src.artists, artist_ref_to_proto, Ghost(|a, b| artist_ref_mapped(a, b))),
        thumbnails: map_vec(src.thumbnails, thumbnail_to_proto, Ghost(|a, b| thumbnail_mapped(a, b))),
        duration: src.duration,
        views: src.views,
        date: src.date,
        podcast: map_option(src.podcast, album_ref_to_proto, Ghost(|a, b| album_ref_mapped(a, b))),
        live: src.live,
    }
}

/// Translates a catalogue `AlbumResult` into its wire message.
pub(crate) fn album_search_result_to_proto(src: catalogue::AlbumResult) -> (dst: wire::AlbumSearchResult)
    ensures
        album_search_result_mapped(src, dst),
{
    wire::AlbumSearchResult {
        category: src.category,
        result_type: search_result_type_to_proto(src.result_type).number(),
        browse_id: src.browse_id,
        playlist_id: src.playlist_id,
        title: src.title,
        type_label: src.type_label,
        year: src.year,
        duration: src.duration,
        is_explicit: src.is_explicit,
        artists: map_vec(src.artists, artist_ref_to_proto, Ghost(|a, b| artist_ref_mapped(a, b))),
        thumbnails: map_vec(src.thumbnails, thumbnail_to_proto, Ghost(|a, b| thumbnail_mapped(a, b))),
    }
}

/// Translates a catalogue `ArtistResult` into its wire message.
pub(crate) fn artist_search_result_to_proto(src: catalogue::ArtistResult) -> (dst: wire::ArtistSearchResult)
    ensures
        artist_search_result_mapped(src, dst),
{
    wire::ArtistSearchResult {
        category: src.category,
        result_type: search_result_type_to_proto(src.result_type).number(),
        artist: src.artist,
        artists: map_vec(src.artists, artist_ref_to_proto, Ghost(|a, b| artist_ref_mapped(a, b))),
        subscribers: src.subscribers,
        browse_id: src.browse_id,
        radio_id: src.radio_id,
        shuffle_id: src.shuffle_id,
        thumbnails: map_vec(src.thumbnails, thumbnail_to_proto, Ghost(|a, b| thumbnail_mapped(a, b))),
    }
}

/// Translates a catalogue `ProfileResult` into its wire message.
pub(crate) fn profile_search_result_to_proto(src: catalogue::ProfileResult) -> (dst: wire::ProfileSearchResult)
    ensures
        profile_search_result_mapped(src, dst),
{
    wire::ProfileSearchResult {
        category: src.category,
        result_type: search_result_type_to_proto(src.result_type).number(),
        browse_id: src.browse_id,
        name: src.name,
        handle: src.handle,
        thumbnails: map_vec(src.thumbnails, thumbnail_to_proto, Ghost(|a, b| thumbnail_mapped(a, b))),
    }
}

/// Translates a catalogue `PlaylistResult` into its wire message.
pub(crate) fn playlist_search_result_to_proto(src: catalogue::PlaylistResult) -> (dst: wire::PlaylistSearchResult)
    ensures
        playlist_search_result_mapped(src, dst),
{
    wire::PlaylistSearchResult {
        category: src.category,
        result_type: search_result_type_to_proto(src.result_type).number(),
        browse_id: src.browse_id,
        title: src.title,
        author: src.author,
        item_count: src.item_count,
        thumbnails: map_vec(src.thumbnails, thumbnail_to_proto, Ghost(|a, b| thumbnail_mapped(a, b))),
    }
}

/// Translates a catalogue `WatchTrack` into its wire message.
pub(crate) fn watch_track_to_proto(src: catalogue::WatchTrack) -> (dst: wire::WatchTrackItem)
    ensures
        watch_track_mapped(src, dst),
    decreases src,
{
    let counterpart = match src.counterpart {
        Some(c) => Some(Box::new(watch_track_to_proto(*c))),
        None => None,
    };
    wire::WatchTrackItem {
        video_id: src.video_id,
        title: src.title,
        duration: src.duration,
        thumbnails: map_vec(src.thumbnails, thumbnail_to_proto, Ghost(|a, b| thumbnail_mapped(a, b))),
        artists: map_vec(src.artists, artist_ref_to_proto, Ghost(|a, b| artist_ref_mapped(a, b))),
        album: map_option(src.album, album_ref_to_proto, Ghost(|a, b| album_ref_mapped(a, b))),
        like_status: like_status_number(src.like_status),
        video_type: src.video_type,
        year: src.year,
        views: src.views,
        is_in_library: src.is_in_library,
        counterpart: counterpart,
    }
}

/// Translates a catalogue `LibraryPlaylist` into its wire message.
pub(crate) fn library_playlist_item_to_proto(src: catalogue::LibraryPlaylist) -> (dst: wire::LibraryPlaylistItem)
    ensures
        library_playlist_item_mapped(src, dst),
{
    wire::LibraryPlaylistItem {
        playlist_id: src.playlist_id,
        title: src.title,
        authors: map_vec(src.authors, artist_ref_to_proto, Ghost(|a, b| artist_ref_mapped(a, b))),
        item_count: src.item_count,
        thumbnails: map_vec(src.thumbnails, thumbnail_to_proto, Ghost(|a, b| thumbnail_mapped(a, b))),
    }
}

/// Translates a catalogue `LibraryArtist` into its wire message.
pub(crate) fn library_artist_item_to_proto(src: catalogue::LibraryArtist) -> (dst: wire::LibraryArtistItem)
    ensures
        library_artist_item_mapped(src, dst),
{
    wire::LibraryArtistItem {
        browse_id: src.browse_id,
        artist: src.artist,
        subscribers: src.subscribers,
        thumbnails: map_vec(src.thumbnails, thumbnail_to_proto, Ghost(|a, b| thumbnail_mapped(a, b))),
    }
}

/// Translates a catalogue `LibraryAlbum` into its wire message.
pub(crate) fn library_album_item_to_proto(src: catalogue::LibraryAlbum) -> (dst: wire::LibraryAlbumItem)
    ensures
        library_album_item_mapped(src, dst),
{
    wire::LibraryAlbumItem {
        browse_id: src.browse_id,
        playlist_id: src.playlist_id,
        title: src.title,
        type_label: src.type_label,
        artists: map_vec(src.artists, artist_ref_to_proto, Ghost(|a, b| artist_ref_mapped(a, b))),
        year: src.year,
        thumbnails: map_vec(src.thumbnails, thumbnail_to_proto, Ghost(|a, b| thumbnail_mapped(a, b))),
    }
}

/// Translates a catalogue `LibrarySubscription` into its wire message.
pub(crate) fn library_subscription_item_to_proto(src: catalogue::LibrarySubscription) -> (dst: wire::LibrarySubscriptionItem)
    ensures
        library_subscription_item_mapped(src, dst),
{
    wire::LibrarySubscriptionItem {
        browse_id: src.browse_id,
        name: src.name,
        subscribers: src.subscribers,
        thumbnails: map_vec(src.thumbnails, thumbnail_to_proto, Ghost(|a, b| thumbnail_mapped(a, b))),
    }
}

/// Translates a catalogue `LibraryChannel` into its wire message.
pub(crate) fn library_channel_item_to_proto(src: catalogue::LibraryChannel) -> (dst: wire::LibraryChannelItem)
    ensures
        library_channel_item_mapped(src, dst),
{
    wire::LibraryChannelItem {
        browse_id: src.browse_id,
        name: src.name,
        subscribers: src.subscribers,
        thumbnails: map_vec(src.thumbnails, thumbnail_to_proto, Ghost(|a, b| thumbnail_mapped(a, b))),
    }
}

/// Translates a catalogue `LibraryPodcastChannel` into its wire message.
pub(crate) fn library_podcast_channel_to_proto(src: catalogue::LibraryPodcastChannel) -> (dst: wire::LibraryPodcastChannel)
    ensures
        library_podcast_channel_mapped(src, dst),
{
    wire::LibraryPodcastChannel {
        id: src.id,
        name: src.name,
    }
}

/// Translates a catalogue `LibraryPodcast` into its wire message.
pub(crate) fn library_podcast_item_to_proto(src: catalogue::LibraryPodcast) -> (dst: wire::LibraryPodcastItem)
    ensures
        library_podcast_item_mapped(src, dst),
{
    wire::LibraryPodcastItem {
        title: src.title,
        browse_id: src.browse_id,
        podcast_id: src.podcast_id,
        channel: Some(library_podcast_channel_to_proto(src.channel)),
        thumbnails: map_vec(src.thumbnails, thumbnail_to_proto, Ghost(|a, b| thumbnail_mapped(a, b))),
    }
}

/// Translates a catalogue `LibrarySong` into its wire message.
pub(crate) fn library_song_item_to_proto(src: catalogue::LibrarySong) -> (dst: wire::LibrarySongItem)
    ensures
        library_song_item_mapped(src, dst),
{
    wire::LibrarySongItem {
        video_id: src.video_id,
        title: src.title,
        artists: map_vec(src.artists, artist_ref_to_proto, Ghost(|a, b| artist_ref_mapped(a, b))),
        album: map_option(src.album, album_ref_to_proto, Ghost(|a, b| album_ref_mapped(a, b))),
        duration: src.duration,
        thumbnails: map_vec(src.thumbnails, thumbnail_to_proto, Ghost(|a, b| thumbnail_mapped(a, b))),
        like_status: like_status_number(src.like_status),
    }
}

/// Translates a catalogue `LikedSongItem` into its wire message.
pub(crate) fn liked_song_item_to_proto(src: catalogue::LikedSongItem) -> (dst: wire::LikedSongItem)
    ensures
        liked_song_item_mapped(src, dst),
{
    wire::LikedSongItem {
        video_id: src.video_id,
        title: src.title,
        artists: map_vec(src.artists, artist_ref_to_proto, Ghost(|a, b| artist_ref_mapped(a, b))),
        album: map_option(src.album, album_ref_to_proto, Ghost(|a, b| album_ref_mapped(a, b))),
        duration: src.duration,
        thumbnails: map_vec(src.thumbnails, thumbnail_to_proto, Ghost(|a, b| thumbnail_mapped(a, b))),
        like_status: like_status_number(src.like_status),
    }
}

/// Translates a catalogue `SavedEpisodeItem` into its wire message.
pub(crate) fn saved_episode_item_to_proto(src: catalogue::SavedEpisodeItem) -> (dst: wire::SavedEpisodeItem)
    ensures
        saved_episode_item_mapped(src, dst),
{
    wire::SavedEpisodeItem {
        video_id: src.video_id,
        title: src.title,
        channel: src.channel,
        podcast: src.podcast,
        duration: src.duration,
        thumbnails: map_vec(src.thumbnails, thumbnail_to_proto, Ghost(|a, b| thumbnail_mapped(a, b))),
    }
}

/// Translates a catalogue `SongVideoDetails` into its wire message.
pub(crate) fn song_video_details_to_proto(src: catalogue::SongVideoDetails) -> (dst: wire::SongVideoDetails)
    ensures
        song_video_details_mapped(src, dst),
{
    wire::SongVideoDetails {
        video_id: src.video_id,
        title: src.title,
        length_seconds: src.length_seconds,
        channel_id: src.channel_id,
        author: src.author,
        thumbnails: map_vec(src.thumbnails, thumbnail_to_proto, Ghost(|a, b| thumbnail_mapped(a, b))),
        allow_ratings: src.allow_ratings,
        view_count: src.view_count,
        is_owner_viewing: src.is_owner_viewing,
        is_crawlable: src.is_crawlable,
        is_private: src.is_private,
        is_unplugged_corpus: src.is_unplugged_corpus,
        is_live_content: src.is_live_content,
        is_tvfilm_video: src.is_tvfilm_video,
        music_video_type: src.music_video_type,
    }
}

/// Translates a catalogue `SongPlayabilityStatus` into its wire message.
pub(crate) fn song_playability_status_to_proto(src: catalogue::SongPlayabilityStatus) -> (dst: wire::SongPlayabilityStatus)
    ensures
        song_playability_status_mapped(src, dst),
{
    wire::SongPlayabilityStatus {
        status: src.status,
        playable_in_embed: src.playable_in_embed,
        reason: src.reason,
        context_params: src.context_params,
        audio_only_availability: src.audio_only_availability,
        playback_mode: src.playback_mode,
    }
}

/// Translates a catalogue `SongByteRange` into its wire message.
pub(crate) fn song_byte_range_to_proto(src: catalogue::SongByteRange) -> (dst: wire::SongByteRange)
    ensures
        song_byte_range_mapped(src, dst),
{
    wire::SongByteRange {
        start: src.start,
        end: src.end,
    }
}

/// Translates a catalogue `SongColorInfo` into its wire message.
pub(crate) fn song_color_info_to_proto(src: catalogue::SongColorInfo) -> (dst: wire::SongColorInfo)
    ensures
        song_color_info_mapped(src, dst),
{
    wire::SongColorInfo {
        primaries: src.primaries,
        transfer_characteristics: src.transfer_characteristics,
        matrix_coefficients: src.matrix_coefficients,
    }
}

/// Translates a catalogue `SongStreamFormat` into its wire message.
pub(crate) fn song_stream_format_to_proto(src: catalogue::SongStreamFormat) -> (dst: wire::SongStreamFormat)
    ensures
        song_stream_format_mapped(src, dst),
{
    wire::SongStreamFormat {
        itag: src.itag,
        mime_type: src.mime_type,
        bitrate: src.bitrate,
        average_bitrate: src.average_bitrate,
        content_length: src.content_length,
        last_modified: src.last_modified,
        quality: src.quality,
        quality_label: src.quality_label,
        quality_ordinal: src.quality_ordinal,
        projection_type: src.projection_type,
        width: src.width,
        height: src.height,
        fps: src.fps,
        color_info: map_option(src.color_info, song_color_info_to_proto, Ghost(|a, b| song_color_info_mapped(a, b))),
        audio_quality: src.audio_quality,
        audio_sample_rate: src.audio_sample_rate,
        audio_channels: src.audio_channels,
        loudness_db: src.loudness_db,
        track_absolute_loudness_lkfs: src.track_absolute_loudness_lkfs,
        approx_duration_ms: src.approx_duration_ms,
        high_replication: src.high_replication,
        xtags: src.xtags,
        init_range: map_option(src.init_range, song_byte_range_to_proto, Ghost(|a, b| song_byte_range_mapped(a, b))),
        index_range: map_option(src.index_range, song_byte_range_to_proto, Ghost(|a, b| song_byte_range_mapped(a, b))),
        signature_cipher: src.signature_cipher,
    }
}

/// Translates a catalogue `SongStreamingData` into its wire message.
pub(crate) fn song_streaming_data_to_proto(src: catalogue::SongStreamingData) -> (dst: wire::SongStreamingData)
    ensures
        song_streaming_data_mapped(src, dst),
{
    wire::SongStreamingData {
        expires_in_seconds: src.expires_in_seconds,
        server_abr_streaming_url: src.server_abr_streaming_url,
        formats: map_vec(src.formats, song_stream_format_to_proto, Ghost(|a, b| song_stream_format_mapped(a, b))),
        adaptive_formats: map_vec(src.adaptive_formats, song_stream_format_to_proto, Ghost(|a, b| song_stream_format_mapped(a, b))),
    }
}

/// Translates a catalogue `SongMicroformat` into its wire message.
pub(crate) fn song_microformat_to_proto(src: catalogue::SongMicroformat) -> (dst: wire::SongMicroformat)
    ensures
        song_microformat_mapped(src, dst),
{
    wire::SongMicroformat {
        url_canonical: src.url_canonical,
        description: src.description,
        category: src.category,
        publish_date: src.publish_date,
        upload_date: src.upload_date,
        view_count: src.view_count,
        available_countries: src.available_countries,
        tags: src.tags,
        noindex: src.noindex,
        unlisted: src.unlisted,
        family_safe: src.family_safe,
    }
}


/// The wire search result for a catalogue search result: each kind goes to
/// the variant of the same name, episodes through the video translation and
/// podcasts through the playlist translation.
pub open spec fn search_result_mapped(src: catalogue::SearchResult, dst: wire::SearchResultItem) -> bool {
    match (src, dst.item) {
        (catalogue::SearchResult::Song(a), Some(wire::SearchResultItemKind::Song(b))) => song_search_result_mapped(a, b),
        (catalogue::SearchResult::Video(a), Some(wire::SearchResultItemKind::Video(b))) => video_search_result_mapped(a, b),
        (catalogue::SearchResult::Episode(a), Some(wire::SearchResultItemKind::Episode(b))) => video_search_result_mapped(a, b),
        (catalogue::SearchResult::Album(a), Some(wire::SearchResultItemKind::Album(b))) => album_search_result_mapped(a, b),
        (catalogue::SearchResult::Artist(a), Some(wire::SearchResultItemKind::Artist(b))) => artist_search_result_mapped(a, b),
        (catalogue::SearchResult::Profile(a), Some(wire::SearchResultItemKind::Profile(b))) => profile_search_result_mapped(a, b),
        (catalogue::SearchResult::Playlist(a), Some(wire::SearchResultItemKind::Playlist(b))) => playlist_search_result_mapped(a, b),
        (catalogue::SearchResult::Podcast(a), Some(wire::SearchResultItemKind::Podcast(b))) => playlist_search_result_mapped(a, b),
        _ => false,
    }
}

/// Translates one search result.
pub(crate) fn search_result_to_proto(result: catalogue::SearchResult) -> (r: wire::SearchResultItem)
    ensures
        search_result_mapped(result, r),
{
    let item = match result {
        catalogue::SearchResult::Song(song) => Some(
            wire::SearchResultItemKind::Song(song_search_result_to_proto(song)),
        ),
        catalogue::SearchResult::Video(video) => Some(
            wire::SearchResultItemKind::Video(video_search_result_to_proto(video)),
        ),
        catalogue::SearchResult::Episode(episode) => Some(
            wire::SearchResultItemKind::Episode(video_search_result_to_proto(episode)),
        ),
        catalogue::SearchResult::Album(album) => Some(
            wire::SearchResultItemKind::Album(album_search_result_to_proto(album)),
        ),
        catalogue::SearchResult::Artist(artist) => Some(
            wire::SearchResultItemKind::Artist(artist_search_result_to_proto(artist)),
        ),
        catalogue::SearchResult::Profile(profile) => Some(
            wire::SearchResultItemKind::Profile(profile_search_result_to_proto(profile)),
        ),
        catalogue::SearchResult::Playlist(playlist) => Some(
            wire::SearchResultItemKind::Playlist(playlist_search_result_to_proto(playlist)),
        ),
        catalogue::SearchResult::Podcast(podcast) => Some(
            wire::SearchResultItemKind::Podcast(playlist_search_result_to_proto(podcast)),
        ),
    };
    wire::SearchResultItem { item }
}

/// Translates a page of search results: the items in order, each translated,
/// and the continuation token's text.
pub fn search_page_to_proto(page: catalogue::Page<catalogue::SearchResult>) -> (r: wire::SearchResponse)
    ensures
        seq_mapped(page.items@, r.items@, |a, b| search_result_mapped(a, b)),
        option_mapped(page.continuation, r.continuation, |a, b| token_mapped(a, b)),
{
    wire::SearchResponse {
        items: map_vec(page.items, search_result_to_proto, Ghost(|a, b| search_result_mapped(a, b))),
        continuation: map_option(
            page.continuation,
            continuation_token_to_proto,
            Ghost(|a, b| token_mapped(a, b)),
        ),
    }
}

/// Translates a page of watch-playlist tracks: the items in order, each translated,
/// and the continuation token's text.
pub fn watch_page_to_proto(page: catalogue::Page<catalogue::WatchTrack>) -> (r: wire::WatchPlaylistResponse)
    ensures
        seq_mapped(page.items@, r.items@, |a, b| watch_track_mapped(a, b)),
        option_mapped(page.continuation, r.continuation, |a, b| token_mapped(a, b)),
{
    wire::WatchPlaylistResponse {
        items: map_vec(page.items, watch_track_to_proto, Ghost(|a, b| watch_track_mapped(a, b))),
        continuation: map_option(
            page.continuation,
            continuation_token_to_proto,
            Ghost(|a, b| token_mapped(a, b)),
        ),
    }
}

/// Translates a page of library playlists: the items in order, each translated,
/// and the continuation token's text.
pub fn library_playlists_page_to_proto(page: catalogue::Page<catalogue::LibraryPlaylist>) -> (r: wire::LibraryPlaylistsResponse)
    ensures
        seq_mapped(page.items@, r.items@, |a, b| library_playlist_item_mapped(a, b)),
        option_mapped(page.continuation, r.continuation, |a, b| token_mapped(a, b)),
{
    wire::LibraryPlaylistsResponse {
        items: map_vec(page.items, library_playlist_item_to_proto, Ghost(|a, b| library_playlist_item_mapped(a, b))),
        continuation: map_option(
            page.continuation,
            continuation_token_to_proto,
            Ghost(|a, b| token_mapped(a, b)),
        ),
    }
}

/// Translates a page of library artists: the items in order, each translated,
/// and the continuation token's text.
pub fn library_artists_page_to_proto(page: catalogue::Page<catalogue::LibraryArtist>) -> (r: wire::LibraryArtistsResponse)
    ensures
        seq_mapped(page.items@, r.items@, |a, b| library_artist_item_mapped(a, b)),
        option_mapped(page.continuation, r.continuation, |a, b| token_mapped(a, b)),
{
    wire::LibraryArtistsResponse {
        items: map_vec(page.items, library_artist_item_to_proto, Ghost(|a, b| library_artist_item_mapped(a, b))),
        continuation: map_option(
            page.continuation,
            continuation_token_to_proto,
            Ghost(|a, b| token_mapped(a, b)),
        ),
    }
}

/// Translates a page of library albums: the items in order, each translated,
/// and the continuation token's text.
pub fn library_albums_page_to_proto(page: catalogue::Page<catalogue::LibraryAlbum>) -> (r: wire::LibraryAlbumsResponse)
    ensures
        seq_mapped(page.items@, r.items@, |a, b| library_album_item_mapped(a, b)),
        option_mapped(page.continuation, r.continuation, |a, b| token_mapped(a, b)),
{
    wire::LibraryAlbumsResponse {
        items: map_vec(page.items, library_album_item_to_proto, Ghost(|a, b| library_album_item_mapped(a, b))),
        continuation: map_option(
            page.continuation,
            continuation_token_to_proto,
            Ghost(|a, b| token_mapped(a, b)),
        ),
    }
}

/// Translates a page of library subscriptions: the items in order, each translated,
/// and the continuation token's text.
pub fn library_subscriptions_page_to_proto(page: catalogue::Page<catalogue::LibrarySubscription>) -> (r: wire::LibrarySubscriptionsResponse)
    ensures
        seq_mapped(page.items@, r.items@, |a, b| library_subscription_item_mapped(a, b)),
        option_mapped(page.continuation, r.continuation, |a, b| token_mapped(a, b)),
{
    wire::LibrarySubscriptionsResponse {
        items: map_vec(page.items, library_subscription_item_to_proto, Ghost(|a, b| library_subscription_item_mapped(a, b))),
        continuation: map_option(
            page.continuation,
            continuation_token_to_proto,
            Ghost(|a, b| token_mapped(a, b)),
        ),
    }
}

/// Translates a page of library channels: the items in order, each translated,
/// and the continuation token's text.
pub fn library_channels_page_to_proto(page: catalogue::Page<catalogue::LibraryChannel>) -> (r: wire::LibraryChannelsResponse)
    ensures
        seq_mapped(page.items@, r.items@, |a, b| library_channel_item_mapped(a, b)),
        option_mapped(page.continuation, r.continuation, |a, b| token_mapped(a, b)),
{
    wire::LibraryChannelsResponse {
        items: map_vec(page.items, library_channel_item_to_proto, Ghost(|a, b| library_channel_item_mapped(a, b))),
        continuation: map_option(
            page.continuation,
            continuation_token_to_proto,
            Ghost(|a, b| token_mapped(a, b)),
        ),
    }
}

/// Translates a page of library podcasts: the items in order, each translated,
/// and the continuation token's text.
pub fn library_podcasts_page_to_proto(page: catalogue::Page<catalogue::LibraryPodcast>) -> (r: wire::LibraryPodcastsResponse)
    ensures
        seq_mapped(page.items@, r.items@, |a, b| library_podcast_item_mapped(a, b)),
        option_mapped(page.continuation, r.continuation, |a, b| token_mapped(a, b)),
{
    wire::LibraryPodcastsResponse {
        items: map_vec(page.items, library_podcast_item_to_proto, Ghost(|a, b| library_podcast_item_mapped(a, b))),
        continuation: map_option(
            page.continuation,
            continuation_token_to_proto,
            Ghost(|a, b| token_mapped(a, b)),
        ),
    }
}

/// Translates a page of library songs: the items in order, each translated,
/// and the continuation token's text.
pub fn library_songs_page_to_proto(page: catalogue::Page<catalogue::LibrarySong>) -> (r: wire::LibrarySongsResponse)
    ensures
        seq_mapped(page.items@, r.items@, |a, b| library_song_item_mapped(a, b)),
        option_mapped(page.continuation, r.continuation, |a, b| token_mapped(a, b)),
{
    wire::LibrarySongsResponse {
        items: map_vec(page.items, library_song_item_to_proto, Ghost(|a, b| library_song_item_mapped(a, b))),
        continuation: map_option(
            page.continuation,
            continuation_token_to_proto,
            Ghost(|a, b| token_mapped(a, b)),
        ),
    }
}

/// Translates a page of the liked-songs playlist: its identifier and title, the items
/// and thumbnails in order, each translated, and the continuation token's
/// text.
pub fn liked_songs_page_to_proto(page: catalogue::LikedSongsPage) -> (r: wire::LikedSongsResponse)
    ensures
        r.playlist_id == page.playlist_id,
        r.title == page.title,
        seq_mapped(page.items@, r.items@, |a, b| liked_song_item_mapped(a, b)),
        seq_mapped(page.thumbnails@, r.thumbnails@, |a, b| thumbnail_mapped(a, b)),
        option_mapped(page.continuation, r.continuation, |a, b| token_mapped(a, b)),
{
    wire::LikedSongsResponse {
        playlist_id: page.playlist_id,
        title: page.title,
        items: map_vec(page.items, liked_song_item_to_proto, Ghost(|a, b| liked_song_item_mapped(a, b))),
        thumbnails: map_vec(page.thumbnails, thumbnail_to_proto, Ghost(|a, b| thumbnail_mapped(a, b))),
        continuation: map_option(
            page.continuation,
            continuation_token_to_proto,
            Ghost(|a, b| token_mapped(a, b)),
        ),
    }
}

/// Translates a page of the saved-episodes playlist: its identifier and title, the items
/// and thumbnails in order, each translated, and the continuation token's
/// text.
pub fn saved_episodes_page_to_proto(page: catalogue::SavedEpisodesPage) -> (r: wire::SavedEpisodesResponse)
    ensures
        r.playlist_id == page.playlist_id,
        r.title == page.title,
        seq_mapped(page.items@, r.items@, |a, b| saved_episode_item_mapped(a, b)),
        seq_mapped(page.thumbnails@, r.thumbnails@, |a, b| thumbnail_mapped(a, b)),
        option_mapped(page.continuation, r.continuation, |a, b| token_mapped(a, b)),
{
    wire::SavedEpisodesResponse {
        playlist_id: page.playlist_id,
        title: page.title,
        items: map_vec(page.items, saved_episode_item_to_proto, Ghost(|a, b| saved_episode_item_mapped(a, b))),
        thumbnails: map_vec(page.thumbnails, thumbnail_to_proto, Ghost(|a, b| thumbnail_mapped(a, b))),
        continuation: map_option(
            page.continuation,
            continuation_token_to_proto,
            Ghost(|a, b| token_mapped(a, b)),
        ),
    }
}

/// Translates the account information, field by field.
pub fn account_info_to_proto(account_info: catalogue::AccountInfo) -> (r: wire::AccountInfoResponse)
    ensures
        r.account_name == account_info.account_name,
        r.channel_handle == account_info.channel_handle,
        r.account_photo_url == account_info.account_photo_url,
{
    wire::AccountInfoResponse {
        account_name: account_info.account_name,
        channel_handle: account_info.channel_handle,
        account_photo_url: account_info.account_photo_url,
    }
}

/// Translates song metadata: details and playability always present,
/// streaming data and page metadata when the catalogue had them.
pub fn song_response_to_proto(song: catalogue::GetSongResponse) -> (r: wire::GetSongResponse)
    ensures
        r.video_details matches Some(d) && song_video_details_mapped(song.video_details, d),
        r.playability_status matches Some(p) && song_playability_status_mapped(
            song.playability_status,
            p,
        ),
        option_mapped(song.streaming_data, r.streaming_data, |a, b| song_streaming_data_mapped(a, b)),
        option_mapped(song.microformat, r.microformat, |a, b| song_microformat_mapped(a, b)),
{
    wire::GetSongResponse {
        video_details: Some(song_video_details_to_proto(song.video_details)),
        playability_status: Some(song_playability_status_to_proto(song.playability_status)),
        streaming_data: map_option(
            song.streaming_data,
            song_streaming_data_to_proto,
            Ghost(|a, b| song_streaming_data_mapped(a, b)),
        ),
        microformat: map_option(
            song.microformat,
            song_microformat_to_proto,
            Ghost(|a, b| song_microformat_mapped(a, b)),
        ),
    }
}

} // verus!
