//! Playback sessions: whether to offer resuming, the state a session goes
//! through as the user controls the player, and the progress that is saved.
use vstd::prelude::*;

use crate::domain::{
    opt_str_view, subtitle_views, AudioTrackInfo, MediaType, SubtitleTrackInfo, SubtitleTrackView,
};
use crate::stream_server::{local_url, MediaStreamServer};
use crate::text::{decimal_pad2, owned, push_decimal_pad2, push_str_chars, string_of};

verus! {

// ---------------------------------------------------------------------------
// Resuming
// ---------------------------------------------------------------------------

/// A saved playback position.
#[derive(Debug, Clone, Copy, PartialEq, Eq)]
pub struct SavedPosition {
    pub position_seconds: u32,
    pub completed: bool,
}

/// A saved position is offered for resuming when it lies past the first ten
/// seconds and the title was not finished.
pub open spec fn resumable(p: SavedPosition) -> bool {
    p.position_seconds > 10 && !p.completed
}

/// Whether a session starts with the resume prompt, and at which position.
#[derive(Debug, Clone, Copy, PartialEq, Eq)]
pub struct ResumeOffer {
    pub requires_resume_prompt: bool,
    pub resume_position_seconds: u32,
}

/// The offer made for a saved position, if it is resumable.
pub open spec fn offer_for(p: Option<SavedPosition>) -> Option<ResumeOffer> {
    match p {
        Some(s) => if resumable(s) {
            Some(ResumeOffer { requires_resume_prompt: true, resume_position_seconds: s.position_seconds })
        } else {
            None
        },
        None => None,
    }
}

/// No prompt; playback starts from the beginning.
pub open spec fn no_offer() -> ResumeOffer {
    ResumeOffer { requires_resume_prompt: false, resume_position_seconds: 0 }
}

/// Whether a saved position would be offered for resuming.
pub fn is_resumable(p: Option<SavedPosition>) -> (r: bool)
    ensures
        r == (offer_for(p) is Some),
{
    match p {
        Some(s) => s.position_seconds > 10 && !s.completed,
        None => false,
    }
}

/// The resume offer for a movie: from its saved progress when that is
/// resumable, else from its older playback state record.
pub fn movie_resume_offer(progress: Option<SavedPosition>, legacy: Option<SavedPosition>) -> (r:
    ResumeOffer)
    ensures
        r == match offer_for(progress) {
            Some(o) => o,
            None => match offer_for(legacy) {
                Some(o) => o,
                None => no_offer(),
            },
        },
{
    if is_resumable(progress) {
        let p = progress.unwrap();
        ResumeOffer { requires_resume_prompt: true, resume_position_seconds: p.position_seconds }
    } else if is_resumable(legacy) {
        let p = legacy.unwrap();
        ResumeOffer { requires_resume_prompt: true, resume_position_seconds: p.position_seconds }
    } else {
        ResumeOffer { requires_resume_prompt: false, resume_position_seconds: 0 }
    }
}

/// The resume offer for an episode, from its saved progress.
pub fn episode_resume_offer(progress: Option<SavedPosition>) -> (r: ResumeOffer)
    ensures
        r == match offer_for(progress) {
            Some(o) => o,
            None => no_offer(),
        },
{
    movie_resume_offer(progress, None)
}

// ---------------------------------------------------------------------------
// Sessions
// ---------------------------------------------------------------------------

/// The label of an episode under the series title: `SxxEyy • title`.
pub open spec fn episode_label(season: u32, episode: u32, title: Seq<char>) -> Seq<char> {
    seq!['S'] + decimal_pad2(season as nat) + seq!['E'] + decimal_pad2(episode as nat) + " • "@
        + title
}

/// `SxxEyy • title`.
pub fn episode_label_for(season: u32, episode: u32, title: &str) -> (r: String)
    ensures
        r@ == episode_label(season, episode, title@),
{
    let mut text: Vec<char> = Vec::new();
    text.push('S');
    push_decimal_pad2(&mut text, season as u64);
    text.push('E');
    push_decimal_pad2(&mut text, episode as u64);
    push_str_chars(&mut text, " • ");
    push_str_chars(&mut text, title);
    let r = string_of(text.as_slice());
    assert(r@ =~= episode_label(season, episode, title@));
    r
}

/// Where the player reads a media file from: the stream server's URL for it
/// when the server runs, the file itself otherwise.
pub open spec fn stream_location(server: Option<(u16, bool)>, path: Seq<char>) -> Seq<char> {
    match server {
        Some((port, _)) => local_url(port, "/stream?path="@, path),
        None => path,
    }
}

/// The server's port, if it runs.
pub open spec fn server_port(server: Option<&MediaStreamServer>) -> Option<(u16, bool)> {
    match server {
        Some(s) => Some((s.spec_port(), true)),
        None => None,
    }
}

/// The location the player reads a media file from.
pub fn stream_location_for(server: Option<&MediaStreamServer>, media_path: &str) -> (r: String)
    ensures
        r@ == stream_location(server_port(server), media_path@),
{
    match server {
        Some(s) => s.get_stream_url(media_path),
        None => owned(media_path),
    }
}

/// A subtitle track as the player loads it: a side file is served by the
/// stream server when it runs.
pub open spec fn streamed_subtitle(server: Option<(u16, bool)>, t: SubtitleTrackView) -> SubtitleTrackView {
    match (t.path, server) {
        (Some(p), Some((port, _))) => SubtitleTrackView {
            path: Some(local_url(port, "/subtitles?path="@, p)),
            ..t
        },
        _ => t,
    }
}

fn clone_text(o: &Option<String>) -> (r: Option<String>)
    ensures
        opt_str_view(r) == opt_str_view(*o),
{
    match o {
        Some(s) => Some(s.clone()),
        None => None,
    }
}

/// The subtitle tracks as the player loads them.
pub fn streamed_subtitles(server: Option<&MediaStreamServer>, tracks: &[SubtitleTrackInfo]) -> (r:
    Vec<SubtitleTrackInfo>)
    ensures
        r@.len() == tracks@.len(),
        forall|i: int|
            0 <= i < tracks@.len() ==> #[trigger] r@[i]@ == streamed_subtitle(
                server_port(server),
                tracks@[i]@,
            ),
{
    let mut out: Vec<SubtitleTrackInfo> = Vec::new();
    let mut i: usize = 0;
    while i < tracks.len()
        invariant
            i <= tracks.len(),
            out@.len() == i,
            forall|k: int|
                0 <= k < i ==> #[trigger] out@[k]@ == streamed_subtitle(
                    server_port(server),
                    tracks@[k]@,
                ),
        decreases tracks.len() - i,
    {
        let t = &tracks[i];
        let path = match (&t.path, server) {
            (Some(p), Some(s)) => Some(s.get_subtitle_url(p.as_str())),
            _ => clone_text(&t.path),
        };
        let track = SubtitleTrackInfo {
            id: t.id.clone(),
            name: t.name.clone(),
            language: clone_text(&t.language),
            is_external: t.is_external,
            path,
        };
        assert(track@ == streamed_subtitle(server_port(server), tracks@[i as int]@));
        out.push(track);
        i = i + 1;
    }
    out
}

/// What a playback session knows besides its ids and playback speed.
pub struct SessionState {
    /// `movie` or `episode`.
    pub media_type: String,
    pub title: String,
    pub subtitle_info: Option<String>,
    pub media_path: String,
    pub stream_url: String,
    pub position_seconds: u32,
    pub duration_seconds: u32,
    pub is_playing: bool,
    pub is_fullscreen: bool,
    pub volume: u8,
    pub is_muted: bool,
    pub current_audio_track: Option<String>,
    pub current_subtitle_track: Option<String>,
    pub audio_tracks: Vec<AudioTrackInfo>,
    pub subtitle_tracks: Vec<SubtitleTrackInfo>,
    pub requires_resume_prompt: bool,
    pub resume_position_seconds: u32,
}

/// The progress saved for a session.
#[derive(Debug, Clone, PartialEq, Eq)]
pub struct SavedProgress {
    pub media_type: MediaType,
    pub position_seconds: u32,
    pub duration_seconds: u32,
    pub completed: bool,
}

/// A session of known length counts as finished when the player passed the
/// completion threshold or stands within the last ninety seconds.
pub open spec fn session_completed(duration: u32, position: u32, reached_threshold: bool) -> bool {
    duration > 0 && (reached_threshold || (if duration >= position {
        duration - position
    } else {
        0
    }) <= 90)
}

impl SessionState {
    /// A new session, paused at the start with the volume at 80, the first
    /// audio track selected and no subtitles shown.
    fn opening(
        media_type: &str,
        title: &str,
        subtitle_info: Option<String>,
        media_path: &str,
        server: Option<&MediaStreamServer>,
        duration_seconds: u32,
        audio_tracks: Vec<AudioTrackInfo>,
        subtitle_tracks: &[SubtitleTrackInfo],
        offer: ResumeOffer,
    ) -> (r: SessionState)
        ensures
            r.media_type@ == media_type@,
            r.title@ == title@,
            opt_str_view(r.subtitle_info) == opt_str_view(subtitle_info),
            r.media_path@ == media_path@,
            r.stream_url@ == stream_location(server_port(server), media_path@),
            r.position_seconds == 0,
            r.duration_seconds == duration_seconds,
            !r.is_playing,
            !r.is_fullscreen,
            r.volume == 80,
            !r.is_muted,
            opt_str_view(r.current_audio_track) == if audio_tracks@.len() > 0 {
                Some(audio_tracks@[0].id@)
            } else {
                None::<Seq<char>>
            },
            r.current_subtitle_track is None,
            r.audio_tracks@ == audio_tracks@,
            subtitle_views(r.subtitle_tracks@) == subtitle_views(subtitle_tracks@).map_values(
                |t: SubtitleTrackView| streamed_subtitle(server_port(server), t),
            ),
            r.requires_resume_prompt == offer.requires_resume_prompt,
            r.resume_position_seconds == offer.resume_position_seconds,
    {
        let current_audio_track = if audio_tracks.len() > 0 {
            Some(audio_tracks[0].id.clone())
        } else {
            None
        };
        let subs = streamed_subtitles(server, subtitle_tracks);
        assert(subtitle_views(subs@) =~= subtitle_views(subtitle_tracks@).map_values(
            |t: SubtitleTrackView| streamed_subtitle(server_port(server), t),
        ));
        SessionState {
            media_type: owned(media_type),
            title: owned(title),
            subtitle_info,
            media_path: owned(media_path),
            stream_url: stream_location_for(server, media_path),
            position_seconds: 0,
            duration_seconds,
            is_playing: false,
            is_fullscreen: false,
            volume: 80,
            is_muted: false,
            current_audio_track,
            current_subtitle_track: None,
            audio_tracks,
            subtitle_tracks: subs,
            requires_resume_prompt: offer.requires_resume_prompt,
            resume_position_seconds: offer.resume_position_seconds,
        }
    }

    /// A session for a movie.
    pub fn for_movie(
        title: &str,
        media_path: &str,
        server: Option<&MediaStreamServer>,
        duration_seconds: u32,
        audio_tracks: Vec<AudioTrackInfo>,
        subtitle_tracks: &[SubtitleTrackInfo],
        offer: ResumeOffer,
    ) -> (r: SessionState)
        ensures
            r.media_type@ == "movie"@,
            r.title@ == title@,
            r.subtitle_info is None,
            r.media_path@ == media_path@,
            r.stream_url@ == stream_location(server_port(server), media_path@),
            r.position_seconds == 0,
            r.duration_seconds == duration_seconds,
            !r.is_playing && !r.is_fullscreen && !r.is_muted,
            r.volume == 80,
            opt_str_view(r.current_audio_track) == if audio_tracks@.len() > 0 {
                Some(audio_tracks@[0].id@)
            } else {
                None::<Seq<char>>
            },
            r.current_subtitle_track is None,
            r.audio_tracks@ == audio_tracks@,
            subtitle_views(r.subtitle_tracks@) == subtitle_views(subtitle_tracks@).map_values(
                |t: SubtitleTrackView| streamed_subtitle(server_port(server), t),
            ),
            r.requires_resume_prompt == offer.requires_resume_prompt,
            r.resume_position_seconds == offer.resume_position_seconds,
    {
        Self::opening(
            "movie",
            title,
            None,
            media_path,
            server,
            duration_seconds,
            audio_tracks,
            subtitle_tracks,
            offer,
        )
    }

    /// A session for an episode: titled by its series, labelled `SxxEyy •
    /// episode title`.
    pub fn for_episode(
        series_title: &str,
        season_number: u32,
        episode_number: u32,
        episode_title: &str,
        media_path: &str,
        server: Option<&MediaStreamServer>,
        duration_seconds: u32,
        audio_tracks: Vec<AudioTrackInfo>,
        subtitle_tracks: &[SubtitleTrackInfo],
        offer: ResumeOffer,
    ) -> (r: SessionState)
        ensures
            r.media_type@ == "episode"@,
            r.title@ == series_title@,
            opt_str_view(r.subtitle_info) == Some(
                episode_label(season_number, episode_number, episode_title@),
            ),
            r.media_path@ == media_path@,
            r.stream_url@ == stream_location(server_port(server), media_path@),
            r.position_seconds == 0,
            r.duration_seconds == duration_seconds,
            !r.is_playing && !r.is_fullscreen && !r.is_muted,
            r.volume == 80,
            opt_str_view(r.current_audio_track) == if audio_tracks@.len() > 0 {
                Some(audio_tracks@[0].id@)
            } else {
                None::<Seq<char>>
            },
            r.current_subtitle_track is None,
            r.audio_tracks@ == audio_tracks@,
            subtitle_views(r.subtitle_tracks@) == subtitle_views(subtitle_tracks@).map_values(
                |t: SubtitleTrackView| streamed_subtitle(server_port(server), t),
            ),
            r.requires_resume_prompt == offer.requires_resume_prompt,
            r.resume_position_seconds == offer.resume_position_seconds,
    {
        let label = episode_label_for(season_number, episode_number, episode_title);
        Self::opening(
            "episode",
            series_title,
            Some(label),
            media_path,
            server,
            duration_seconds,
            audio_tracks,
            subtitle_tracks,
            offer,
        )
    }

    /// The player started playing.
    pub fn mark_playing(&mut self)
        ensures
            final(self).is_playing,
            final(self).position_seconds == old(self).position_seconds,
    {
        self.is_playing = true;
    }

    /// The player paused or stopped.
    pub fn mark_paused(&mut self)
        ensures
            !final(self).is_playing,
            final(self).position_seconds == old(self).position_seconds,
    {
        self.is_playing = false;
    }

    /// The player moved to a position (seek, or a position report).
    pub fn move_to(&mut self, position_seconds: u32)
        ensures
            final(self).position_seconds == position_seconds,
            final(self).is_playing == old(self).is_playing,
            final(self).duration_seconds == old(self).duration_seconds,
    {
        self.position_seconds = position_seconds;
    }

    /// The volume was set, which also unmutes.
    pub fn set_volume(&mut self, level: u8)
        ensures
            final(self).volume == level,
            !final(self).is_muted,
    {
        self.volume = level;
        self.is_muted = false;
    }

    /// Muting was switched on or off.
    pub fn set_muted(&mut self, muted: bool)
        ensures
            final(self).is_muted == muted,
            final(self).volume == old(self).volume,
    {
        self.is_muted = muted;
    }

    /// Fullscreen was switched on or off.
    pub fn set_fullscreen(&mut self, enabled: bool)
        ensures
            final(self).is_fullscreen == enabled,
    {
        self.is_fullscreen = enabled;
    }

    /// An audio track was selected.
    pub fn select_audio(&mut self, track_id: &str)
        ensures
            opt_str_view(final(self).current_audio_track) == Some(track_id@),
    {
        self.current_audio_track = Some(owned(track_id));
    }

    /// A subtitle track was selected, or subtitles were switched off.
    pub fn select_subtitles(&mut self, track_id: Option<&str>)
        ensures
            opt_str_view(final(self).current_subtitle_track) == match track_id {
                Some(t) => Some(t@),
                None => None,
            },
    {
        self.current_subtitle_track = match track_id {
            Some(t) => Some(owned(t)),
            None => None,
        };
    }

    /// The kind of title being played, for the saved progress.
    pub open spec fn kind(&self) -> MediaType {
        if self.media_type@ == "episode"@ {
            MediaType::Episode
        } else {
            MediaType::Movie
        }
    }

    /// The progress saved for this session, given whether the position has
    /// reached the completion threshold (a fraction of the duration): a
    /// finished session is saved at position zero and marked completed.
    pub fn progress_to_save(&self, reached_threshold: bool) -> (r: SavedProgress)
        ensures
            r.media_type == self.kind(),
            r.completed == session_completed(
                self.duration_seconds,
                self.position_seconds,
                reached_threshold,
            ),
            r.position_seconds == if r.completed {
                0
            } else {
                self.position_seconds
            },
            r.duration_seconds == self.duration_seconds,
    {
        let completed = if self.duration_seconds > 0 {
            let left = if self.duration_seconds >= self.position_seconds {
                self.duration_seconds - self.position_seconds
            } else {
                0
            };
            reached_threshold || left <= 90
        } else {
            false
        };
        let kind = self.media_type.as_str();
        let k = crate::text::chars_of(kind);
        let media_type = if crate::text::chars_are(k.as_slice(), "episode") {
            MediaType::Episode
        } else {
            MediaType::Movie
        };
        SavedProgress {
            media_type,
            position_seconds: if completed {
                0
            } else {
                self.position_seconds
            },
            duration_seconds: self.duration_seconds,
            completed,
        }
    }
}

/// A session that is saved as finished is resumed from the start: its saved
/// position is never offered for resuming.
pub proof fn finished_sessions_are_not_offered(p: SavedProgress)
    requires
        p.completed,
        p.position_seconds == 0,
    ensures
        offer_for(Some(SavedPosition { position_seconds: p.position_seconds, completed: p.completed }))
            is None,
{
}

} // verus!
