//! What the music catalogue client returns: search results, watch
//! playlists, library listings, account information and song metadata.

use vstd::prelude::*;

use crate::requests::ContinuationToken;

verus! {

/// An image of some size.
#[derive(Debug)]
pub struct Thumbnail {
    pub url: String,
    pub width: u32,
    pub height: u32,
}

/// A reference to an artist.
#[derive(Debug)]
pub struct ArtistRef {
    pub id: String,
    pub name: String,
}

/// A reference to an album (or, for episodes, to a podcast).
#[derive(Debug)]
pub struct AlbumRef {
    pub id: String,
    pub name: String,
}

/// The category that a search result belongs to.
#[derive(Clone, Copy, Debug, PartialEq, Eq, Structural)]
pub enum SearchResultType {
    Song,
    Video,
    Album,
    Artist,
    Profile,
    Playlist,
    Episode,
    Podcast,
}

/// A rating that the account gave a track.
#[derive(Clone, Copy, Debug, PartialEq, Eq, Structural)]
pub enum LibraryLikeStatus {
    Like,
    Indifferent,
    Dislike,
}

/// A song found by a search.
#[derive(Debug)]
pub struct SongResult {
    pub category: Option<String>,
    pub result_type: SearchResultType,
    pub video_id: String,
    pub title: String,
    pub artists: Vec<ArtistRef>,
    pub album: Option<AlbumRef>,
    pub duration: Option<String>,
    pub thumbnails: Vec<Thumbnail>,
    pub is_explicit: bool,
}

/// A video or podcast episode found by a search.
#[derive(Debug)]
pub struct VideoResult {
    pub category: Option<String>,
    pub result_type: SearchResultType,
    pub title: String,
    pub video_id: String,
    pub video_type: Option<String>,
    pub artists: Vec<ArtistRef>,
    pub thumbnails: Vec<Thumbnail>,
    pub duration: Option<String>,
    pub views: Option<String>,
    pub date: Option<String>,
    pub podcast: Option<AlbumRef>,
    pub live: bool,
}

/// An album found by a search.
#[derive(Debug)]
pub struct AlbumResult {
    pub category: Option<String>,
    pub result_type: SearchResultType,
    pub browse_id: String,
    pub playlist_id: Option<String>,
    pub title: String,
    pub type_label: Option<String>,
    pub year: Option<String>,
    pub duration: Option<String>,
    pub is_explicit: bool,
    pub artists: Vec<ArtistRef>,
    pub thumbnails: Vec<Thumbnail>,
}

/// An artist found by a search.
#[derive(Debug)]
pub struct ArtistResult {
    pub category: Option<String>,
    pub result_type: SearchResultType,
    pub artist: String,
    pub artists: Vec<ArtistRef>,
    pub subscribers: Option<String>,
    pub browse_id: String,
    pub radio_id: Option<String>,
    pub shuffle_id: Option<String>,
    pub thumbnails: Vec<Thumbnail>,
}

/// A user profile found by a search.
#[derive(Debug)]
pub struct ProfileResult {
    pub category: Option<String>,
    pub result_type: SearchResultType,
    pub browse_id: String,
    pub name: String,
    pub handle: Option<String>,
    pub thumbnails: Vec<Thumbnail>,
}

/// A playlist or podcast found by a search.
#[derive(Debug)]
pub struct PlaylistResult {
    pub category: Option<String>,
    pub result_type: SearchResultType,
    pub browse_id: String,
    pub title: String,
    pub author: Option<String>,
    pub item_count: Option<String>,
    pub thumbnails: Vec<Thumbnail>,
}

/// One search result.
#[derive(Debug)]
pub enum SearchResult {
    Song(SongResult),
    Video(VideoResult),
    Episode(VideoResult),
    Album(AlbumResult),
    Artist(ArtistResult),
    Profile(ProfileResult),
    Playlist(PlaylistResult),
    Podcast(PlaylistResult),
}

/// A track of a watch playlist, possibly with its audio or video counterpart.
#[derive(Debug)]
pub struct WatchTrack {
    pub video_id: String,
    pub title: String,
    pub duration: Option<String>,
    pub thumbnails: Vec<Thumbnail>,
    pub artists: Vec<ArtistRef>,
    pub album: Option<AlbumRef>,
    pub like_status: Option<LibraryLikeStatus>,
    pub video_type: Option<String>,
    pub year: Option<String>,
    pub views: Option<String>,
    pub is_in_library: Option<bool>,
    pub counterpart: Option<Box<WatchTrack>>,
}

/// One page of a listing, with the token for the next page if there is one.
#[derive(Debug)]
pub struct Page<T> {
    pub items: Vec<T>,
    pub continuation: Option<ContinuationToken>,
}

/// A playlist in the account's library.
#[derive(Debug)]
pub struct LibraryPlaylist {
    pub playlist_id: String,
    pub title: String,
    pub authors: Vec<ArtistRef>,
    pub item_count: Option<String>,
    pub thumbnails: Vec<Thumbnail>,
}

/// An artist in the account's library.
#[derive(Debug)]
pub struct LibraryArtist {
    pub browse_id: String,
    pub artist: String,
    pub subscribers: Option<String>,
    pub thumbnails: Vec<Thumbnail>,
}

/// An album in the account's library.
#[derive(Debug)]
pub struct LibraryAlbum {
    pub browse_id: String,
    pub playlist_id: Option<String>,
    pub title: String,
    pub type_label: Option<String>,
    pub artists: Vec<ArtistRef>,
    pub year: Option<String>,
    pub thumbnails: Vec<Thumbnail>,
}

/// An artist the account subscribes to.
#[derive(Debug)]
pub struct LibrarySubscription {
    pub browse_id: String,
    pub name: String,
    pub subscribers: Option<String>,
    pub thumbnails: Vec<Thumbnail>,
}

/// A channel in the account's library.
#[derive(Debug)]
pub struct LibraryChannel {
    pub browse_id: String,
    pub name: String,
    pub subscribers: Option<String>,
    pub thumbnails: Vec<Thumbnail>,
}

/// The channel that publishes a podcast.
#[derive(Debug)]
pub struct LibraryPodcastChannel {
    pub id: Option<String>,
    pub name: String,
}

/// A podcast in the account's library.
#[derive(Debug)]
pub struct LibraryPodcast {
    pub title: String,
    pub browse_id: String,
    pub podcast_id: String,
    pub channel: LibraryPodcastChannel,
    pub thumbnails: Vec<Thumbnail>,
}

/// A song in the account's library.
#[derive(Debug)]
pub struct LibrarySong {
    pub video_id: String,
    pub title: String,
    pub artists: Vec<ArtistRef>,
    pub album: Option<AlbumRef>,
    pub duration: Option<String>,
    pub thumbnails: Vec<Thumbnail>,
    pub like_status: Option<LibraryLikeStatus>,
}

/// A song of the liked-songs playlist.
#[derive(Debug)]
pub struct LikedSongItem {
    pub video_id: String,
    pub title: String,
    pub artists: Vec<ArtistRef>,
    pub album: Option<AlbumRef>,
    pub duration: Option<String>,
    pub thumbnails: Vec<Thumbnail>,
    pub like_status: Option<LibraryLikeStatus>,
}

/// A page of the liked-songs playlist.
#[derive(Debug)]
pub struct LikedSongsPage {
    pub playlist_id: String,
    pub title: String,
    pub items: Vec<LikedSongItem>,
    pub thumbnails: Vec<Thumbnail>,
    pub continuation: Option<ContinuationToken>,
}

/// An episode of the saved-episodes playlist.
#[derive(Debug)]
pub struct SavedEpisodeItem {
    pub video_id: String,
    pub title: String,
    pub channel: String,
    pub podcast: String,
    pub duration: Option<String>,
    pub thumbnails: Vec<Thumbnail>,
}

/// A page of the saved-episodes playlist.
#[derive(Debug)]
pub struct SavedEpisodesPage {
    pub playlist_id: String,
    pub title: String,
    pub items: Vec<SavedEpisodeItem>,
    pub thumbnails: Vec<Thumbnail>,
    pub continuation: Option<ContinuationToken>,
}

/// The signed-in account.
#[derive(Debug)]
pub struct AccountInfo {
    pub account_name: String,
    pub channel_handle: Option<String>,
    pub account_photo_url: String,
}

/// Metadata of a song's video.
#[derive(Debug)]
pub struct SongVideoDetails {
    pub video_id: String,
    pub title: String,
    pub length_seconds: Option<String>,
    pub channel_id: Option<String>,
    pub author: Option<String>,
    pub thumbnails: Vec<Thumbnail>,
    pub allow_ratings: Option<bool>,
    pub view_count: Option<String>,
    pub is_owner_viewing: Option<bool>,
    pub is_crawlable: Option<bool>,
    pub is_private: Option<bool>,
    pub is_unplugged_corpus: Option<bool>,
    pub is_live_content: Option<bool>,
    pub is_tvfilm_video: Option<bool>,
    pub music_video_type: Option<String>,
}

/// Whether and how a song can be played.
#[derive(Debug)]
pub struct SongPlayabilityStatus {
    pub status: String,
    pub playable_in_embed: Option<bool>,
    pub reason: Option<String>,
    pub context_params: Option<String>,
    pub audio_only_availability: Option<u32>,
    pub playback_mode: Option<String>,
}

/// A byte range of a stream.
#[derive(Debug)]
pub struct SongByteRange {
    pub start: String,
    pub end: String,
}

/// Colour description of a video stream.
#[derive(Debug)]
pub struct SongColorInfo {
    pub primaries: Option<String>,
    pub transfer_characteristics: Option<String>,
    pub matrix_coefficients: Option<String>,
}

/// One stream format of a song. Loudness values are kept as the decimal
/// text that the catalogue sends.
#[derive(Debug)]
pub struct SongStreamFormat {
    pub itag: u32,
    pub mime_type: String,
    pub bitrate: Option<u64>,
    pub average_bitrate: Option<u64>,
    pub content_length: Option<String>,
    pub last_modified: Option<String>,
    pub quality: Option<String>,
    pub quality_label: Option<String>,
    pub quality_ordinal: Option<String>,
    pub projection_type: Option<String>,
    pub width: Option<u32>,
    pub height: Option<u32>,
    pub fps: Option<u32>,
    pub color_info: Option<SongColorInfo>,
    pub audio_quality: Option<String>,
    pub audio_sample_rate: Option<String>,
    pub audio_channels: Option<u32>,
    pub loudness_db: Option<String>,
    pub track_absolute_loudness_lkfs: Option<String>,
    pub approx_duration_ms: Option<String>,
    pub high_replication: Option<bool>,
    pub xtags: Option<String>,
    pub init_range: Option<SongByteRange>,
    pub index_range: Option<SongByteRange>,
    pub signature_cipher: Option<String>,
}

/// The streams of a song.
#[derive(Debug)]
pub struct SongStreamingData {
    pub expires_in_seconds: Option<String>,
    pub server_abr_streaming_url: Option<String>,
    pub formats: Vec<SongStreamFormat>,
    pub adaptive_formats: Vec<SongStreamFormat>,
}

/// Page metadata of a song.
#[derive(Debug)]
pub struct SongMicroformat {
    pub url_canonical: Option<String>,
    pub description: Option<String>,
    pub category: Option<String>,
    pub publish_date: Option<String>,
    pub upload_date: Option<String>,
    pub view_count: Option<String>,
    pub available_countries: Vec<String>,
    pub tags: Vec<String>,
    pub noindex: Option<bool>,
    pub unlisted: Option<bool>,
    pub family_safe: Option<bool>,
}

/// Everything the catalogue reports about one song.
#[derive(Debug)]
pub struct GetSongResponse {
    pub video_details: SongVideoDetails,
    pub playability_status: SongPlayabilityStatus,
    pub streaming_data: Option<SongStreamingData>,
    pub microformat: Option<SongMicroformat>,
}

} // verus!
