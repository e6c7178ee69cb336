//! Domain values of the media library: status enums with their textual
//! names, track descriptions and the settings groups.
use vstd::prelude::*;

use crate::text::{chars_are, chars_of, owned};

verus! {

// ---------------------------------------------------------------------------
// Library source status
// ---------------------------------------------------------------------------

/// State of a library source (a folder on some drive).
#[derive(Debug, Clone, Copy, PartialEq, Eq)]
pub enum SourceStatus {
    Available,
    Unavailable,
    Scanning,
    Indexing,
    Inaccessible,
    Disconnected,
}

/// The stored name of a source status.
pub open spec fn source_status_name(s: SourceStatus) -> Seq<char> {
    match s {
        SourceStatus::Available => "available"@,
        SourceStatus::Unavailable => "unavailable"@,
        SourceStatus::Scanning => "scanning"@,
        SourceStatus::Indexing => "indexing"@,
        SourceStatus::Inaccessible => "inaccessible"@,
        SourceStatus::Disconnected => "disconnected"@,
    }
}

/// The status a stored name stands for; unknown names read as `Available`.
pub open spec fn source_status_from(s: Seq<char>) -> SourceStatus {
    if s == "available"@ {
        SourceStatus::Available
    } else if s == "unavailable"@ {
        SourceStatus::Unavailable
    } else if s == "scanning"@ {
        SourceStatus::Scanning
    } else if s == "indexing"@ {
        SourceStatus::Indexing
    } else if s == "inaccessible"@ {
        SourceStatus::Inaccessible
    } else if s == "disconnected"@ {
        SourceStatus::Disconnected
    } else {
        SourceStatus::Available
    }
}

impl SourceStatus {
    /// The name under which the value is stored and shown.
    pub fn to_string(&self) -> (r: String)
        ensures
            r@ == source_status_name(*self),
    {
        match self {
            SourceStatus::Available => owned("available"),
            SourceStatus::Unavailable => owned("unavailable"),
            SourceStatus::Scanning => owned("scanning"),
            SourceStatus::Indexing => owned("indexing"),
            SourceStatus::Inaccessible => owned("inaccessible"),
            SourceStatus::Disconnected => owned("disconnected"),
        }
    }

    /// Reads a stored name; unknown names give `Available`.
    pub fn from_name(s: &str) -> (r: SourceStatus)
        ensures
            r == source_status_from(s@),
    {
        proof {
            lemma_source_status_names();
        }
        let v = chars_of(s);
        if chars_are(v.as_slice(), "available") {
            SourceStatus::Available
        } else if chars_are(v.as_slice(), "unavailable") {
            SourceStatus::Unavailable
        } else if chars_are(v.as_slice(), "scanning") {
            SourceStatus::Scanning
        } else if chars_are(v.as_slice(), "indexing") {
            SourceStatus::Indexing
        } else if chars_are(v.as_slice(), "inaccessible") {
            SourceStatus::Inaccessible
        } else if chars_are(v.as_slice(), "disconnected") {
            SourceStatus::Disconnected
        } else {
            SourceStatus::Available
        }
    }
}

impl Default for SourceStatus {
    fn default() -> (r: SourceStatus)
        ensures
            r == SourceStatus::Available,
    {
        SourceStatus::Available
    }
}

impl std::str::FromStr for SourceStatus {
    type Err = String;

    fn from_str(s: &str) -> (r: Result<SourceStatus, String>)
        ensures
            r == Ok::<SourceStatus, String>(source_status_from(s@)),
    {
        Ok(SourceStatus::from_name(s))
    }
}

proof fn lemma_source_status_names()
    ensures
        "available"@.len() == 9,
        "unavailable"@.len() == 11,
        "scanning"@.len() == 8,
        "indexing"@.len() == 8,
        "inaccessible"@.len() == 12,
        "disconnected"@.len() == 12,
        "scanning"@[0] != "indexing"@[0],
        "inaccessible"@[0] != "disconnected"@[0],
{
    reveal_strlit("available");
    reveal_strlit("unavailable");
    reveal_strlit("scanning");
    reveal_strlit("indexing");
    reveal_strlit("inaccessible");
    reveal_strlit("disconnected");
}

/// Reading back the name of a source status gives the same status.
pub proof fn source_status_round_trip(s: SourceStatus)
    ensures
        source_status_from(source_status_name(s)) == s,
{
    lemma_source_status_names();
}

// ---------------------------------------------------------------------------
// Media availability
// ---------------------------------------------------------------------------

/// Whether the file of a media entry can currently be reached.
#[derive(Debug, Clone, Copy, PartialEq, Eq)]
pub enum MediaAvailability {
    Available,
    Unavailable,
}

/// The stored name of an availability.
pub open spec fn availability_name(a: MediaAvailability) -> Seq<char> {
    match a {
        MediaAvailability::Available => "available"@,
        MediaAvailability::Unavailable => "unavailable"@,
    }
}

/// The availability a stored name stands for; unknown names read as
/// `Available`.
pub open spec fn availability_from(s: Seq<char>) -> MediaAvailability {
    if s == "unavailable"@ {
        MediaAvailability::Unavailable
    } else {
        MediaAvailability::Available
    }
}

impl MediaAvailability {
    /// The name under which the value is stored and shown.
    pub fn to_string(&self) -> (r: String)
        ensures
            r@ == availability_name(*self),
    {
        match self {
            MediaAvailability::Available => owned("available"),
            MediaAvailability::Unavailable => owned("unavailable"),
        }
    }

    /// Reads a stored name; unknown names give `Available`.
    pub fn from_name(s: &str) -> (r: MediaAvailability)
        ensures
            r == availability_from(s@),
    {
        proof {
            lemma_availability_names();
        }
        let v = chars_of(s);
        if chars_are(v.as_slice(), "available") {
            MediaAvailability::Available
        } else if chars_are(v.as_slice(), "unavailable") {
            MediaAvailability::Unavailable
        } else {
            MediaAvailability::Available
        }
    }
}

impl Default for MediaAvailability {
    fn default() -> (r: MediaAvailability)
        ensures
            r == MediaAvailability::Available,
    {
        MediaAvailability::Available
    }
}

impl std::str::FromStr for MediaAvailability {
    type Err = String;

    fn from_str(s: &str) -> (r: Result<MediaAvailability, String>)
        ensures
            r == Ok::<MediaAvailability, String>(availability_from(s@)),
    {
        Ok(MediaAvailability::from_name(s))
    }
}

/// Reading back the name of an availability gives the same availability.
pub proof fn availability_round_trip(a: MediaAvailability)
    ensures
        availability_from(availability_name(a)) == a,
{
    lemma_availability_names();
}

proof fn lemma_availability_names()
    ensures
        "available"@.len() == 9,
        "unavailable"@.len() == 11,
{
    reveal_strlit("available");
    reveal_strlit("unavailable");
}

// ---------------------------------------------------------------------------
// Metadata match status
// ---------------------------------------------------------------------------

/// How a movie was matched to a metadata record.
#[derive(Debug, Clone, Copy, PartialEq, Eq)]
pub enum MetadataStatus {
    Unmatched,
    AutoMatched,
    ManuallyMatched,
    Failed,
}

/// The stored name of a metadata status.
pub open spec fn metadata_status_name(m: MetadataStatus) -> Seq<char> {
    match m {
        MetadataStatus::Unmatched => "unmatched"@,
        MetadataStatus::AutoMatched => "auto_matched"@,
        MetadataStatus::ManuallyMatched => "manually_matched"@,
        MetadataStatus::Failed => "failed"@,
    }
}

/// The status a stored name stands for; unknown names read as `Unmatched`.
pub open spec fn metadata_status_from(s: Seq<char>) -> MetadataStatus {
    if s == "auto_matched"@ {
        MetadataStatus::AutoMatched
    } else if s == "manually_matched"@ {
        MetadataStatus::ManuallyMatched
    } else if s == "failed"@ {
        MetadataStatus::Failed
    } else {
        MetadataStatus::Unmatched
    }
}

/// The status of a stored series: only the two matched states are read
/// back, any other name (`failed` among them) reads as `Unmatched`.
pub open spec fn series_status_from(s: Seq<char>) -> MetadataStatus {
    if s == "auto_matched"@ {
        MetadataStatus::AutoMatched
    } else if s == "manually_matched"@ {
        MetadataStatus::ManuallyMatched
    } else {
        MetadataStatus::Unmatched
    }
}

impl MetadataStatus {
    /// The name under which the value is stored and shown.
    pub fn to_string(&self) -> (r: String)
        ensures
            r@ == metadata_status_name(*self),
    {
        match self {
            MetadataStatus::Unmatched => owned("unmatched"),
            MetadataStatus::AutoMatched => owned("auto_matched"),
            MetadataStatus::ManuallyMatched => owned("manually_matched"),
            MetadataStatus::Failed => owned("failed"),
        }
    }

    /// Reads a stored name; unknown names give `Unmatched`.
    pub fn from_name(s: &str) -> (r: MetadataStatus)
        ensures
            r == metadata_status_from(s@),
    {
        proof {
            lemma_metadata_status_names();
        }
        let v = chars_of(s);
        if chars_are(v.as_slice(), "unmatched") {
            MetadataStatus::Unmatched
        } else if chars_are(v.as_slice(), "auto_matched") {
            MetadataStatus::AutoMatched
        } else if chars_are(v.as_slice(), "manually_matched") {
            MetadataStatus::ManuallyMatched
        } else if chars_are(v.as_slice(), "failed") {
            MetadataStatus::Failed
        } else {
            MetadataStatus::Unmatched
        }
    }

    /// Reads the stored status of a series.
    pub fn from_series_name(s: &str) -> (r: MetadataStatus)
        ensures
            r == series_status_from(s@),
    {
        let v = chars_of(s);
        if chars_are(v.as_slice(), "auto_matched") {
            MetadataStatus::AutoMatched
        } else if chars_are(v.as_slice(), "manually_matched") {
            MetadataStatus::ManuallyMatched
        } else {
            MetadataStatus::Unmatched
        }
    }
}

impl Default for MetadataStatus {
    fn default() -> (r: MetadataStatus)
        ensures
            r == MetadataStatus::Unmatched,
    {
        MetadataStatus::Unmatched
    }
}

impl std::str::FromStr for MetadataStatus {
    type Err = String;

    fn from_str(s: &str) -> (r: Result<MetadataStatus, String>)
        ensures
            r == Ok::<MetadataStatus, String>(metadata_status_from(s@)),
    {
        Ok(MetadataStatus::from_name(s))
    }
}

/// Reading back the name of a metadata status gives the same status.
pub proof fn metadata_status_round_trip(m: MetadataStatus)
    ensures
        metadata_status_from(metadata_status_name(m)) == m,
{
    lemma_metadata_status_names();
}

proof fn lemma_metadata_status_names()
    ensures
        "unmatched"@.len() == 9,
        "auto_matched"@.len() == 12,
        "manually_matched"@.len() == 16,
        "failed"@.len() == 6,
{
    reveal_strlit("unmatched");
    reveal_strlit("auto_matched");
    reveal_strlit("manually_matched");
    reveal_strlit("failed");
}

// ---------------------------------------------------------------------------
// Sorting, media types, sources, player events
// ---------------------------------------------------------------------------

/// Orders in which the movie grid can be listed.
#[derive(Debug, Clone, Copy, PartialEq, Eq)]
pub enum MovieSort {
    TitleAsc,
    TitleDesc,
    YearAsc,
    YearDesc,
    DateAddedAsc,
    DateAddedDesc,
    RecentlyWatched,
    RatingDesc,
}

impl Default for MovieSort {
    fn default() -> (r: MovieSort)
        ensures
            r == MovieSort::TitleAsc,
    {
        MovieSort::TitleAsc
    }
}

/// Whether a progress record belongs to a movie or to an episode.
#[derive(Debug, Clone, PartialEq, Eq)]
pub enum MediaType {
    Movie,
    Episode,
}

/// The stored name of a media type.
pub open spec fn media_type_name(m: MediaType) -> Seq<char> {
    match m {
        MediaType::Movie => "movie"@,
        MediaType::Episode => "episode"@,
    }
}

/// The media type a stored name stands for: `episode` is an episode, any
/// other name a movie.
pub open spec fn media_type_from(s: Seq<char>) -> MediaType {
    if s == "episode"@ {
        MediaType::Episode
    } else {
        MediaType::Movie
    }
}

impl MediaType {
    /// The name under which the value is stored and shown.
    pub fn to_string(&self) -> (r: String)
        ensures
            r@ == media_type_name(*self),
    {
        match self {
            MediaType::Movie => owned("movie"),
            MediaType::Episode => owned("episode"),
        }
    }

    /// Reads a stored name; any name but `episode` gives `Movie`.
    pub fn from_name(s: &str) -> (r: MediaType)
        ensures
            r == media_type_from(s@),
    {
        let v = chars_of(s);
        if chars_are(v.as_slice(), "episode") {
            MediaType::Episode
        } else {
            MediaType::Movie
        }
    }
}

/// Reading back the name of a media type gives the same type.
pub proof fn media_type_round_trip(m: MediaType)
    ensures
        media_type_from(media_type_name(m)) == m,
{
    reveal_strlit("movie");
    reveal_strlit("episode");
    assert("movie"@.len() != "episode"@.len());
}

/// Kind of place a library source lives in.
#[derive(Debug, Clone, Copy, PartialEq, Eq)]
pub enum MediaSourceKind {
    Local,
    Network,
}

/// Events a media player reports.
#[derive(Debug, Clone)]
pub enum PlayerEvent {
    PositionChanged(u32),
    StateChanged(String),
    Error(String),
    Finished,
}

/// Payload of a playback state change event.
#[derive(Debug, Clone)]
pub struct PlaybackStatePayload {
    pub state: String,
}

// ---------------------------------------------------------------------------
// Tracks
// ---------------------------------------------------------------------------

/// One audio track of a media file.
#[derive(Debug, Clone, PartialEq, Eq)]
pub struct AudioTrackInfo {
    pub id: String,
    pub name: String,
    pub language: Option<String>,
    pub codec: Option<String>,
    pub channels: Option<u32>,
}

/// One subtitle track, embedded in the file or read from a side file.
#[derive(Debug, Clone, PartialEq, Eq)]
pub struct SubtitleTrackInfo {
    pub id: String,
    pub name: String,
    pub language: Option<String>,
    pub is_external: bool,
    pub path: Option<String>,
}

/// The mathematical content of an `AudioTrackInfo`.
pub struct AudioTrackView {
    pub id: Seq<char>,
    pub name: Seq<char>,
    pub language: Option<Seq<char>>,
    pub codec: Option<Seq<char>>,
    pub channels: Option<u32>,
}

impl View for AudioTrackInfo {
    type V = AudioTrackView;

    open spec fn view(&self) -> AudioTrackView {
        AudioTrackView {
            id: self.id@,
            name: self.name@,
            language: opt_str_view(self.language),
            codec: opt_str_view(self.codec),
            channels: self.channels,
        }
    }
}

/// The mathematical content of a `SubtitleTrackInfo`.
pub struct SubtitleTrackView {
    pub id: Seq<char>,
    pub name: Seq<char>,
    pub language: Option<Seq<char>>,
    pub is_external: bool,
    pub path: Option<Seq<char>>,
}

impl View for SubtitleTrackInfo {
    type V = SubtitleTrackView;

    open spec fn view(&self) -> SubtitleTrackView {
        SubtitleTrackView {
            id: self.id@,
            name: self.name@,
            language: opt_str_view(self.language),
            is_external: self.is_external,
            path: opt_str_view(self.path),
        }
    }
}

/// The view of an optional string.
pub open spec fn opt_str_view(s: Option<String>) -> Option<Seq<char>> {
    match s {
        Some(t) => Some(t@),
        None => None,
    }
}

/// The views of a sequence of audio tracks.
pub open spec fn audio_views(s: Seq<AudioTrackInfo>) -> Seq<AudioTrackView> {
    s.map_values(|t: AudioTrackInfo| t@)
}

/// The views of a sequence of subtitle tracks.
pub open spec fn subtitle_views(s: Seq<SubtitleTrackInfo>) -> Seq<SubtitleTrackView> {
    s.map_values(|t: SubtitleTrackInfo| t@)
}

// ---------------------------------------------------------------------------
// Settings groups
// ---------------------------------------------------------------------------

/// Library settings.
#[derive(Debug, Clone, PartialEq)]
pub struct LibrarySettings {
    pub scan_on_startup: bool,
    pub default_locations: Vec<String>,
}

impl Default for LibrarySettings {
    fn default() -> (r: LibrarySettings)
        ensures
            r.scan_on_startup,
            r.default_locations@.len() == 0,
    {
        LibrarySettings { scan_on_startup: true, default_locations: Vec::new() }
    }
}

/// Appearance settings.
#[derive(Debug, Clone, PartialEq)]
pub struct AppearanceSettings {
    pub theme: String,
    pub animations_enabled: bool,
}

impl Default for AppearanceSettings {
    fn default() -> (r: AppearanceSettings)
        ensures
            r.theme@ == "cinematic"@,
            r.animations_enabled,
    {
        AppearanceSettings { theme: owned("cinematic"), animations_enabled: true }
    }
}

/// Application-wide settings.
#[derive(Debug, Clone, PartialEq)]
pub struct ApplicationSettings {
    pub launch_on_startup: bool,
    pub notifications_enabled: bool,
    pub log_level: String,
}

impl Default for ApplicationSettings {
    fn default() -> (r: ApplicationSettings)
        ensures
            !r.launch_on_startup,
            r.notifications_enabled,
            r.log_level@ == "info"@,
    {
        ApplicationSettings {
            launch_on_startup: false,
            notifications_enabled: true,
            log_level: owned("info"),
        }
    }
}

} // verus!
