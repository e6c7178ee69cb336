//! The embedded player's own state: what is loaded, where playback stands,
//! volume, and the tracks that can be selected.  The media engine is driven
//! alongside; this is what the player reports back.
use vstd::prelude::*;

use crate::domain::{
    audio_views, opt_str_view, subtitle_views, AudioTrackInfo, AudioTrackView, SubtitleTrackInfo,
    SubtitleTrackView,
};
use crate::media_analyzer::{with_external_subtitles, MediaAnalyzer, ProbedMediaDetails, SiblingFile};
use crate::paths::{file_name_of, file_stem_of, path_file_name, path_file_stem};
use crate::text::{decimal_seq, owned, push_decimal, push_str_chars, string_of};

verus! {

/// Why the player refused a request.
#[derive(Debug, Clone, PartialEq, Eq)]
pub enum PlayerError {
    /// Playing was asked for with nothing loaded.
    NoMediaLoaded,
    /// No audio track has this id.
    AudioTrackNotFound(String),
    /// No subtitle track has this id.
    SubtitleTrackNotFound(String),
}

/// The state the player keeps.
pub struct PlayerModel {
    pub media_path: Option<String>,
    pub current_pos: u32,
    pub total_duration: u32,
    pub volume: u8,
    pub is_muted: bool,
    pub is_fullscreen: bool,
    pub playing: bool,
    pub selected_audio_track: Option<String>,
    pub selected_subtitle_track: Option<String>,
    pub audio_tracks: Vec<AudioTrackInfo>,
    pub subtitle_tracks: Vec<SubtitleTrackInfo>,
}

/// The audio track assumed when the engine listed none.
pub open spec fn default_player_audio() -> AudioTrackView {
    AudioTrackView {
        id: "1"@,
        name: "Default Audio Track"@,
        language: Some("und"@),
        codec: None,
        channels: Some(2),
    }
}

/// Whether a track with this id is listed.
pub open spec fn has_audio_id(ts: Seq<AudioTrackView>, id: Seq<char>) -> bool {
    exists|i: int| 0 <= i < ts.len() && ts[i].id == id
}

/// Whether a subtitle track with this id is listed.
pub open spec fn has_subtitle_id(ts: Seq<SubtitleTrackView>, id: Seq<char>) -> bool {
    exists|i: int| 0 <= i < ts.len() && ts[i].id == id
}

/// `ext-N`.
pub open spec fn external_id(n: nat) -> Seq<char> {
    "ext-"@ + decimal_seq(n)
}

/// Seconds reported for a time in milliseconds read from the engine: the
/// whole seconds when the engine reports a positive time (wrapping to a
/// `u32` as a cast does), the player's own count otherwise.
pub open spec fn engine_seconds(ms: i64, own: u32) -> u32 {
    if ms > 0 {
        ((ms / 1000) % 0x1_0000_0000) as u32
    } else {
        own
    }
}

impl PlayerModel {
    /// A player with nothing loaded, volume 80.
    pub fn new() -> (r: PlayerModel)
        ensures
            r.media_path is None,
            r.current_pos == 0,
            r.total_duration == 0,
            r.volume == 80,
            !r.is_muted && !r.is_fullscreen && !r.playing,
            r.selected_audio_track is None && r.selected_subtitle_track is None,
            r.audio_tracks@.len() == 0 && r.subtitle_tracks@.len() == 0,
    {
        PlayerModel {
            media_path: None,
            current_pos: 0,
            total_duration: 0,
            volume: 80,
            is_muted: false,
            is_fullscreen: false,
            playing: false,
            selected_audio_track: None,
            selected_subtitle_track: None,
            audio_tracks: Vec::new(),
            subtitle_tracks: Vec::new(),
        }
    }

    /// A file is being loaded: it becomes the current media, at the start,
    /// not playing.
    pub fn begin_load(&mut self, media_path: &str)
        ensures
            opt_str_view(final(self).media_path) == Some(media_path@),
            final(self).current_pos == 0,
            !final(self).playing,
            final(self).total_duration == old(self).total_duration,
            final(self).audio_tracks@ == old(self).audio_tracks@,
            final(self).subtitle_tracks@ == old(self).subtitle_tracks@,
            final(self).volume == old(self).volume,
            final(self).is_muted == old(self).is_muted,
    {
        self.media_path = Some(owned(media_path));
        self.current_pos = 0;
        self.playing = false;
    }

    /// Loading finished: the engine's description (when it could probe the
    /// file) replaces the duration and tracks; subtitle files next to the
    /// media are added; with no audio track a default one is assumed, with
    /// no duration two hours; the first audio track is selected and no
    /// subtitles.
    pub fn finish_load(
        &mut self,
        media_path: &str,
        probed: Option<ProbedMediaDetails>,
        siblings: &[SiblingFile],
    )
        requires
            match probed {
                Some(p) => p.subtitle_tracks@.len(),
                None => old(self).subtitle_tracks@.len(),
            } + siblings@.len() < usize::MAX,
        ensures
            ({
                let base_duration = match probed {
                    Some(p) => match p.duration_seconds {
                        Some(d) => d,
                        None => 0,
                    },
                    None => old(self).total_duration,
                };
                let base_audio = match probed {
                    Some(p) => audio_views(p.audio_tracks@),
                    None => audio_views(old(self).audio_tracks@),
                };
                let base_subs = match probed {
                    Some(p) => subtitle_views(p.subtitle_tracks@),
                    None => subtitle_views(old(self).subtitle_tracks@),
                };
                &&& final(self).total_duration == if base_duration == 0 {
                    7200
                } else {
                    base_duration
                }
                &&& audio_views(final(self).audio_tracks@) == if base_audio.len() == 0 {
                    seq![default_player_audio()]
                } else {
                    base_audio
                }
                &&& subtitle_views(final(self).subtitle_tracks@) == match file_stem_of(
                    media_path@,
                ) {
                    Some(st) => with_external_subtitles(
                        st,
                        base_subs,
                        siblings@.map_values(|f: SiblingFile| f@),
                    ),
                    None => base_subs,
                }
                &&& opt_str_view(final(self).selected_audio_track) == Some(
                    audio_views(final(self).audio_tracks@)[0].id,
                )
                &&& final(self).selected_subtitle_track is None
                &&& final(self).media_path == old(self).media_path
                &&& final(self).current_pos == old(self).current_pos
                &&& final(self).playing == old(self).playing
            }),
    {
        match probed {
            Some(p) => {
                self.total_duration = match p.duration_seconds {
                    Some(d) => d,
                    None => 0,
                };
                self.audio_tracks = p.audio_tracks;
                self.subtitle_tracks = p.subtitle_tracks;
            },
            None => {},
        }
        match path_file_stem(media_path) {
            Some(st) => MediaAnalyzer::collect_external_subtitles(
                st.as_str(),
                siblings,
                &mut self.subtitle_tracks,
            ),
            None => {},
        }
        if self.audio_tracks.len() == 0 {
            let mut tracks: Vec<AudioTrackInfo> = Vec::new();
            tracks.push(
                AudioTrackInfo {
                    id: owned("1"),
                    name: owned("Default Audio Track"),
                    language: Some(owned("und")),
                    codec: None,
                    channels: Some(2),
                },
            );
            self.audio_tracks = tracks;
            assert(audio_views(self.audio_tracks@) =~= seq![default_player_audio()]);
        }
        if self.total_duration == 0 {
            self.total_duration = 7200;
        }
        self.selected_audio_track = Some(self.audio_tracks[0].id.clone());
        self.selected_subtitle_track = None;
    }

    /// Playing starts; it needs loaded media.
    pub fn play(&mut self) -> (r: Result<(), PlayerError>)
        ensures
            old(self).media_path is None ==> r == Err::<(), PlayerError>(PlayerError::NoMediaLoaded)
                && final(self).playing == old(self).playing,
            old(self).media_path is Some ==> r is Ok && final(self).playing,
            final(self).current_pos == old(self).current_pos,
    {
        if self.media_path.is_none() {
            return Err(PlayerError::NoMediaLoaded);
        }
        self.playing = true;
        Ok(())
    }

    /// Playback pauses.
    pub fn pause(&mut self)
        ensures
            !final(self).playing,
            final(self).current_pos == old(self).current_pos,
    {
        self.playing = false;
    }

    /// Playback stops and returns to the start.
    pub fn stop(&mut self)
        ensures
            !final(self).playing,
            final(self).current_pos == 0,
    {
        self.playing = false;
        self.current_pos = 0;
    }

    /// Playback moves to a position.
    pub fn seek(&mut self, position_seconds: u32)
        ensures
            final(self).current_pos == position_seconds,
            final(self).playing == old(self).playing,
    {
        let ceiling = if self.total_duration > position_seconds {
            self.total_duration
        } else {
            position_seconds
        };
        self.current_pos = if position_seconds < ceiling {
            position_seconds
        } else {
            ceiling
        };
    }

    /// The volume is set (at most 100), which unmutes.
    pub fn set_volume(&mut self, level: u8)
        ensures
            final(self).volume == if level < 100 {
                level
            } else {
                100
            },
            !final(self).is_muted,
    {
        self.volume = if level < 100 {
            level
        } else {
            100
        };
        self.is_muted = false;
    }

    /// Muting is switched on or off.
    pub fn set_mute(&mut self, muted: bool)
        ensures
            final(self).is_muted == muted,
            final(self).volume == old(self).volume,
    {
        self.is_muted = muted;
    }

    /// Fullscreen is switched on or off.
    pub fn set_fullscreen(&mut self, enabled: bool)
        ensures
            final(self).is_fullscreen == enabled,
    {
        self.is_fullscreen = enabled;
    }

    /// An audio track is selected; its id must be listed.
    pub fn select_audio_track(&mut self, track_id: &str) -> (r: Result<(), PlayerError>)
        ensures
            has_audio_id(audio_views(old(self).audio_tracks@), track_id@) ==> (r is Ok
                && opt_str_view(final(self).selected_audio_track) == Some(track_id@)),
            !has_audio_id(audio_views(old(self).audio_tracks@), track_id@) ==> (r matches Err(
                PlayerError::AudioTrackNotFound(id),
            ) && id@ == track_id@ && final(self).selected_audio_track
                == old(self).selected_audio_track),
            final(self).audio_tracks@ == old(self).audio_tracks@,
    {
        let wanted = owned(track_id);
        let mut i: usize = 0;
        let mut found = false;
        while i < self.audio_tracks.len() && !found
            invariant
                i <= self.audio_tracks.len(),
                wanted@ == track_id@,
                found ==> has_audio_id(audio_views(self.audio_tracks@), track_id@),
                !found ==> forall|j: int|
                    0 <= j < i ==> audio_views(self.audio_tracks@)[j].id != track_id@,
            decreases self.audio_tracks.len() - i,
        {
            if self.audio_tracks[i].id == wanted {
                assert(audio_views(self.audio_tracks@)[i as int].id == track_id@);
                found = true;
            }
            i = i + 1;
        }
        if !found {
            return Err(PlayerError::AudioTrackNotFound(owned(track_id)));
        }
        self.selected_audio_track = Some(owned(track_id));
        Ok(())
    }

    /// A subtitle track is selected (its id must be listed), or subtitles are
    /// switched off.
    pub fn select_subtitle_track(&mut self, track_id: Option<&str>) -> (r: Result<(), PlayerError>)
        ensures
            track_id is None ==> r is Ok && final(self).selected_subtitle_track is None,
            track_id matches Some(t) ==> (has_subtitle_id(
                subtitle_views(old(self).subtitle_tracks@),
                t@,
            ) ==> r is Ok && opt_str_view(final(self).selected_subtitle_track) == Some(t@)),
            track_id matches Some(t) ==> (!has_subtitle_id(
                subtitle_views(old(self).subtitle_tracks@),
                t@,
            ) ==> (r matches Err(PlayerError::SubtitleTrackNotFound(id)) && id@ == t@
                && final(self).selected_subtitle_track == old(self).selected_subtitle_track)),
    {
        match track_id {
            None => {
                self.selected_subtitle_track = None;
                Ok(())
            },
            Some(t) => {
                let wanted = owned(t);
                let mut i: usize = 0;
                let mut found = false;
                while i < self.subtitle_tracks.len() && !found
                    invariant
                        i <= self.subtitle_tracks.len(),
                        wanted@ == t@,
                        found ==> has_subtitle_id(subtitle_views(self.subtitle_tracks@), t@),
                        !found ==> forall|j: int|
                            0 <= j < i ==> subtitle_views(self.subtitle_tracks@)[j].id != t@,
                    decreases self.subtitle_tracks.len() - i,
                {
                    if self.subtitle_tracks[i].id == wanted {
                        assert(subtitle_views(self.subtitle_tracks@)[i as int].id == t@);
                        found = true;
                    }
                    i = i + 1;
                }
                if !found {
                    return Err(PlayerError::SubtitleTrackNotFound(owned(t)));
                }
                self.selected_subtitle_track = Some(owned(t));
                Ok(())
            },
        }
    }

    /// A subtitle file loaded by the user becomes track `ext-N` (N one more
    /// than the tracks listed), named after the file, and is selected.
    pub fn add_external_subtitle(&mut self, path: &str)
        requires
            old(self).subtitle_tracks@.len() + 1 < usize::MAX,
        ensures
            subtitle_views(final(self).subtitle_tracks@) == subtitle_views(
                old(self).subtitle_tracks@,
            ).push(
                SubtitleTrackView {
                    id: external_id((old(self).subtitle_tracks@.len() + 1) as nat),
                    name: match file_name_of(path@) {
                        Some(n) => n,
                        None => Seq::empty(),
                    },
                    language: None,
                    is_external: true,
                    path: Some(path@),
                },
            ),
            opt_str_view(final(self).selected_subtitle_track) == Some(
                external_id((old(self).subtitle_tracks@.len() + 1) as nat),
            ),
    {
        let mut text: Vec<char> = Vec::new();
        push_str_chars(&mut text, "ext-");
        push_decimal(&mut text, (self.subtitle_tracks.len() + 1) as u64);
        let id = string_of(text.as_slice());
        let name = match path_file_name(path) {
            Some(n) => n,
            None => String::new(),
        };
        let ghost before = self.subtitle_tracks@;
        self.subtitle_tracks.push(
            SubtitleTrackInfo {
                id: id.clone(),
                name,
                language: None,
                is_external: true,
                path: Some(owned(path)),
            },
        );
        assert(subtitle_views(self.subtitle_tracks@) =~= subtitle_views(before).push(
            self.subtitle_tracks@.last()@,
        ));
        self.selected_subtitle_track = Some(id);
    }

    /// The current position: the engine's time when it reports one, the
    /// player's own count otherwise.
    pub fn position_from_engine(&self, time_ms: i64) -> (r: u32)
        ensures
            r == engine_seconds(time_ms, self.current_pos),
    {
        seconds_from_engine(time_ms, self.current_pos)
    }

    /// The duration: the engine's length when it reports one, the player's
    /// own value otherwise.
    pub fn duration_from_engine(&self, length_ms: i64) -> (r: u32)
        ensures
            r == engine_seconds(length_ms, self.total_duration),
    {
        seconds_from_engine(length_ms, self.total_duration)
    }
}

fn seconds_from_engine(ms: i64, own: u32) -> (r: u32)
    ensures
        r == engine_seconds(ms, own),
{
    if ms > 0 {
        let secs: u64 = (ms / 1000) as u64;
        (secs % 0x1_0000_0000) as u32
    } else {
        own
    }
}

} // verus!
