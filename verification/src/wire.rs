//! The wire messages of the public API, as the protobuf schema lays them
//! out: enumerations travel as their numbers, nested messages as options.

use vstd::prelude::*;

verus! {

/// An image of some size.
#[derive(Debug)]
pub struct Thumbnail {
    pub url: String,
    pub width: u32,
    pub height: u32,
}

/// A reference to an artist.
#[derive(Debug)]
pub struct ArtistRef {
    pub id: String,
    pub name: String,
}

/// A reference to an album (or, for episodes, to a podcast).
#[derive(Debug)]
pub struct AlbumRef {
    pub id: String,
    pub name: String,
}

/// A song found by a search.
#[derive(Debug)]
pub struct SongSearchResult {
    pub category: Option<String>,
    pub result_type: i32,
    pub video_id: String,
    pub title: String,
    pub artists: Vec<ArtistRef>,
    pub album: Option<AlbumRef>,
    pub duration: Option<String>,
    pub thumbnails: Vec<Thumbnail>,
    pub is_explicit: bool,
}

/// A video or podcast episode found by a search.
#[derive(Debug)]
pub struct VideoSearchResult {
    pub category: Option<String>,
    pub result_type: i32,
    pub title: String,
    pub video_id: String,
    pub video_type: Option<String>,
    pub artists: Vec<ArtistRef>,
    pub thumbnails: Vec<Thumbnail>,
    pub duration: Option<String>,
    pub views: Option<String>,
    pub date: Option<String>,
    pub podcast: Option<AlbumRef>,
    pub live: bool,
}

/// An album found by a search.
#[derive(Debug)]
pub struct AlbumSearchResult {
    pub category: Option<String>,
    pub result_type: i32,
    pub browse_id: String,
    pub playlist_id: Option<String>,
    pub title: String,
    pub type_label: Option<String>,
    pub year: Option<String>,
    pub duration: Option<String>,
    pub is_explicit: bool,
    pub artists: Vec<ArtistRef>,
    pub thumbnails: Vec<Thumbnail>,
}

/// An artist found by a search.
#[derive(Debug)]
pub struct ArtistSearchResult {
    pub category: Option<String>,
    pub result_type: i32,
    pub artist: String,
    pub artists: Vec<ArtistRef>,
    pub subscribers: Option<String>,
    pub browse_id: String,
    pub radio_id: Option<String>,
    pub shuffle_id: Option<String>,
    pub thumbnails: Vec<Thumbnail>,
}

/// A user profile found by a search.
#[derive(Debug)]
pub struct ProfileSearchResult {
    pub category: Option<String>,
    pub result_type: i32,
    pub browse_id: String,
    pub name: String,
    pub handle: Option<String>,
    pub thumbnails: Vec<Thumbnail>,
}

/// A playlist or podcast found by a search.
#[derive(Debug)]
pub struct PlaylistSearchResult {
    pub category: Option<String>,
    pub result_type: i32,
    pub browse_id: String,
    pub title: String,
    pub author: Option<String>,
    pub item_count: Option<String>,
    pub thumbnails: Vec<Thumbnail>,
}

/// A track of a watch playlist, possibly with its audio or video counterpart.
#[derive(Debug)]
pub struct WatchTrackItem {
    pub video_id: String,
    pub title: String,
    pub duration: Option<String>,
    pub thumbnails: Vec<Thumbnail>,
    pub artists: Vec<ArtistRef>,
    pub album: Option<AlbumRef>,
    pub like_status: Option<i32>,
    pub video_type: Option<String>,
    pub year: Option<String>,
    pub views: Option<String>,
    pub is_in_library: Option<bool>,
    pub counterpart: Option<Box<WatchTrackItem>>,
}

/// A playlist in the account's library.
#[derive(Debug)]
pub struct LibraryPlaylistItem {
    pub playlist_id: String,
    pub title: String,
    pub authors: Vec<ArtistRef>,
    pub item_count: Option<String>,
    pub thumbnails: Vec<Thumbnail>,
}

/// An artist in the account's library.
#[derive(Debug)]
pub struct LibraryArtistItem {
    pub browse_id: String,
    pub artist: String,
    pub subscribers: Option<String>,
    pub thumbnails: Vec<Thumbnail>,
}

/// An album in the account's library.
#[derive(Debug)]
pub struct LibraryAlbumItem {
    pub browse_id: String,
    pub playlist_id: Option<String>,
    pub title: String,
    pub type_label: Option<String>,
    pub artists: Vec<ArtistRef>,
    pub year: Option<String>,
    pub thumbnails: Vec<Thumbnail>,
}

/// An artist the account subscribes to.
#[derive(Debug)]
pub struct LibrarySubscriptionItem {
    pub browse_id: String,
    pub name: String,
    pub subscribers: Option<String>,
    pub thumbnails: Vec<Thumbnail>,
}

/// A channel in the account's library.
#[derive(Debug)]
pub struct LibraryChannelItem {
    pub browse_id: String,
    pub name: String,
    pub subscribers: Option<String>,
    pub thumbnails: Vec<Thumbnail>,
}

/// The channel that publishes a podcast.
#[derive(Debug)]
pub struct LibraryPodcastChannel {
    pub id: Option<String>,
    pub name: String,
}

/// A podcast in the account's library.
#[derive(Debug)]
pub struct LibraryPodcastItem {
    pub title: String,
    pub browse_id: String,
    pub podcast_id: String,
    pub channel: Option<LibraryPodcastChannel>,
    pub thumbnails: Vec<Thumbnail>,
}

/// A song in the account's library.
#[derive(Debug)]
pub struct LibrarySongItem {
    pub video_id: String,
    pub title: String,
    pub artists: Vec<ArtistRef>,
    pub album: Option<AlbumRef>,
    pub duration: Option<String>,
    pub thumbnails: Vec<Thumbnail>,
    pub like_status: Option<i32>,
}

/// A song of the liked-songs playlist.
#[derive(Debug)]
pub struct LikedSongItem {
    pub video_id: String,
    pub title: String,
    pub artists: Vec<ArtistRef>,
    pub album: Option<AlbumRef>,
    pub duration: Option<String>,
    pub thumbnails: Vec<Thumbnail>,
    pub like_status: Option<i32>,
}

/// An episode of the saved-episodes playlist.
#[derive(Debug)]
pub struct SavedEpisodeItem {
    pub video_id: String,
    pub title: String,
    pub channel: String,
    pub podcast: String,
    pub duration: Option<String>,
    pub thumbnails: Vec<Thumbnail>,
}

/// Metadata of a song's video.
#[derive(Debug)]
pub struct SongVideoDetails {
    pub video_id: String,
    pub title: String,
    pub length_seconds: Option<String>,
    pub channel_id: Option<String>,
    pub author: Option<String>,
    pub thumbnails: Vec<Thumbnail>,
    pub allow_ratings: Option<bool>,
    pub view_count: Option<String>,
    pub is_owner_viewing: Option<bool>,
    pub is_crawlable: Option<bool>,
    pub is_private: Option<bool>,
    pub is_unplugged_corpus: Option<bool>,
    pub is_live_content: Option<bool>,
    pub is_tvfilm_video: Option<bool>,
    pub music_video_type: Option<String>,
}

/// Whether and how a song can be played.
#[derive(Debug)]
pub struct SongPlayabilityStatus {
    pub status: String,
    pub playable_in_embed: Option<bool>,
    pub reason: Option<String>,
    pub context_params: Option<String>,
    pub audio_only_availability: Option<u32>,
    pub playback_mode: Option<String>,
}

/// A byte range of a stream.
#[derive(Debug)]
pub struct SongByteRange {
    pub start: String,
    pub end: String,
}

/// Colour description of a video stream.
#[derive(Debug)]
pub struct SongColorInfo {
    pub primaries: Option<String>,
    pub transfer_characteristics: Option<String>,
    pub matrix_coefficients: Option<String>,
}

/// One stream format of a song. Loudness values travel as decimal text.
#[derive(Debug)]
pub struct SongStreamFormat {
    pub itag: u32,
    pub mime_type: String,
    pub bitrate: Option<u64>,
    pub average_bitrate: Option<u64>,
    pub content_length: Option<String>,
    pub last_modified: Option<String>,
    pub quality: Option<String>,
    pub quality_label: Option<String>,
    pub quality_ordinal: Option<String>,
    pub projection_type: Option<String>,
    pub width: Option<u32>,
    pub height: Option<u32>,
    pub fps: Option<u32>,
    pub color_info: Option<SongColorInfo>,
    pub audio_quality: Option<String>,
    pub audio_sample_rate: Option<String>,
    pub audio_channels: Option<u32>,
    pub loudness_db: Option<String>,
    pub track_absolute_loudness_lkfs: Option<String>,
    pub approx_duration_ms: Option<String>,
    pub high_replication: Option<bool>,
    pub xtags: Option<String>,
    pub init_range: Option<SongByteRange>,
    pub index_range: Option<SongByteRange>,
    pub signature_cipher: Option<String>,
}

/// The streams of a song.
#[derive(Debug)]
pub struct SongStreamingData {
    pub expires_in_seconds: Option<String>,
    pub server_abr_streaming_url: Option<String>,
    pub formats: Vec<SongStreamFormat>,
    pub adaptive_formats: Vec<SongStreamFormat>,
}

/// Page metadata of a song.
#[derive(Debug)]
pub struct SongMicroformat {
    pub url_canonical: Option<String>,
    pub description: Option<String>,
    pub category: Option<String>,
    pub publish_date: Option<String>,
    pub upload_date: Option<String>,
    pub view_count: Option<String>,
    pub available_countries: Vec<String>,
    pub tags: Vec<String>,
    pub noindex: Option<bool>,
    pub unlisted: Option<bool>,
    pub family_safe: Option<bool>,
}

/// The wire search-result-type enumeration.
#[derive(Clone, Copy, Debug, PartialEq, Eq, Structural)]
pub enum SearchResultType {
    Unspecified,
    Song,
    Video,
    Album,
    Artist,
    Profile,
    Playlist,
    Episode,
    Podcast,
}

/// The number of a wire result type, in declaration order.
pub open spec fn search_result_type_number_spec(t: SearchResultType) -> i32 {
    match t {
        SearchResultType::Unspecified => 0,
        SearchResultType::Song => 1,
        SearchResultType::Video => 2,
        SearchResultType::Album => 3,
        SearchResultType::Artist => 4,
        SearchResultType::Profile => 5,
        SearchResultType::Playlist => 6,
        SearchResultType::Episode => 7,
        SearchResultType::Podcast => 8,
    }
}

impl SearchResultType {
    /// The number that carries this value on the wire.
    pub fn number(self) -> (n: i32)
        ensures
            n == search_result_type_number_spec(self),
    {
        match self {
            SearchResultType::Unspecified => 0,
            SearchResultType::Song => 1,
            SearchResultType::Video => 2,
            SearchResultType::Album => 3,
            SearchResultType::Artist => 4,
            SearchResultType::Profile => 5,
            SearchResultType::Playlist => 6,
            SearchResultType::Episode => 7,
            SearchResultType::Podcast => 8,
        }
    }
}

/// The wire like-status enumeration.
#[derive(Clone, Copy, Debug, PartialEq, Eq, Structural)]
pub enum LibraryLikeStatus {
    Unspecified,
    Like,
    Indifferent,
    Dislike,
}

/// The number of a wire like status, in declaration order.
pub open spec fn like_status_number_spec(s: LibraryLikeStatus) -> i32 {
    match s {
        LibraryLikeStatus::Unspecified => 0,
        LibraryLikeStatus::Like => 1,
        LibraryLikeStatus::Indifferent => 2,
        LibraryLikeStatus::Dislike => 3,
    }
}

impl LibraryLikeStatus {
    /// The number that carries this value on the wire.
    pub fn number(self) -> (n: i32)
        ensures
            n == like_status_number_spec(self),
    {
        match self {
            LibraryLikeStatus::Unspecified => 0,
            LibraryLikeStatus::Like => 1,
            LibraryLikeStatus::Indifferent => 2,
            LibraryLikeStatus::Dislike => 3,
        }
    }
}

/// A continuation token message.
#[derive(Debug)]
pub struct ContinuationToken {
    pub value: String,
}

/// The variants of a search result message.
#[derive(Debug)]
pub enum SearchResultItemKind {
    Song(SongSearchResult),
    Video(VideoSearchResult),
    Episode(VideoSearchResult),
    Album(AlbumSearchResult),
    Artist(ArtistSearchResult),
    Profile(ProfileSearchResult),
    Playlist(PlaylistSearchResult),
    Podcast(PlaylistSearchResult),
}

/// One search result message.
#[derive(Debug)]
pub struct SearchResultItem {
    pub item: Option<SearchResultItemKind>,
}

/// A page of search results.
#[derive(Debug)]
pub struct SearchResponse {
    pub items: Vec<SearchResultItem>,
    pub continuation: Option<ContinuationToken>,
}

/// A page of a watch playlist.
#[derive(Debug)]
pub struct WatchPlaylistResponse {
    pub items: Vec<WatchTrackItem>,
    pub continuation: Option<ContinuationToken>,
}

/// A page of library playlists.
#[derive(Debug)]
pub struct LibraryPlaylistsResponse {
    pub items: Vec<LibraryPlaylistItem>,
    pub continuation: Option<ContinuationToken>,
}

/// A page of library artists.
#[derive(Debug)]
pub struct LibraryArtistsResponse {
    pub items: Vec<LibraryArtistItem>,
    pub continuation: Option<ContinuationToken>,
}

/// A page of library albums.
#[derive(Debug)]
pub struct LibraryAlbumsResponse {
    pub items: Vec<LibraryAlbumItem>,
    pub continuation: Option<ContinuationToken>,
}

/// A page of library subscriptions.
#[derive(Debug)]
pub struct LibrarySubscriptionsResponse {
    pub items: Vec<LibrarySubscriptionItem>,
    pub continuation: Option<ContinuationToken>,
}

/// A page of library channels.
#[derive(Debug)]
pub struct LibraryChannelsResponse {
    pub items: Vec<LibraryChannelItem>,
    pub continuation: Option<ContinuationToken>,
}

/// A page of library podcasts.
#[derive(Debug)]
pub struct LibraryPodcastsResponse {
    pub items: Vec<LibraryPodcastItem>,
    pub continuation: Option<ContinuationToken>,
}

/// A page of library songs.
#[derive(Debug)]
pub struct LibrarySongsResponse {
    pub items: Vec<LibrarySongItem>,
    pub continuation: Option<ContinuationToken>,
}

/// A page of the liked-songs playlist.
#[derive(Debug)]
pub struct LikedSongsResponse {
    pub playlist_id: String,
    pub title: String,
    pub items: Vec<LikedSongItem>,
    pub thumbnails: Vec<Thumbnail>,
    pub continuation: Option<ContinuationToken>,
}

/// A page of the saved-episodes playlist.
#[derive(Debug)]
pub struct SavedEpisodesResponse {
    pub playlist_id: String,
    pub title: String,
    pub items: Vec<SavedEpisodeItem>,
    pub thumbnails: Vec<Thumbnail>,
    pub continuation: Option<ContinuationToken>,
}

/// The signed-in account.
#[derive(Debug)]
pub struct AccountInfoResponse {
    pub account_name: String,
    pub channel_handle: Option<String>,
    pub account_photo_url: String,
}

/// Everything reported about one song.
#[derive(Debug)]
pub struct GetSongResponse {
    pub video_details: Option<SongVideoDetails>,
    pub playability_status: Option<SongPlayabilityStatus>,
    pub streaming_data: Option<SongStreamingData>,
    pub microformat: Option<SongMicroformat>,
}

} // verus!
