//! Reading the media engine's description of a file: its duration and the
//! audio, video and subtitle tracks it lists.
use vstd::prelude::*;

use crate::codec_names::{codec_name_for, fourcc_text, fourcc_to_codec_name};
use crate::domain::{
    audio_views, opt_str_view, subtitle_views, AudioTrackInfo, AudioTrackView, SubtitleTrackInfo,
    SubtitleTrackView,
};
use crate::media_analyzer::ProbedMediaDetails;
use crate::paths::{extension_of, path_extension};
use crate::text::{
    lowercase_of, push_signed_decimal, push_str_chars, signed_decimal_seq, string_of,
    to_lowercase,
};

verus! {

/// One track as the media engine lists it.
pub struct EngineTrack {
    /// 1 for audio, 2 for video, 3 for subtitles (other kinds are ignored).
    pub kind: i32,
    pub id: i32,
    /// FourCC code of the codec.
    pub codec: u32,
    pub language: Option<String>,
    pub description: Option<String>,
    /// Audio channels, when the engine gave audio details.
    pub channels: Option<u32>,
    /// Picture size, when the engine gave video details.
    pub width: Option<u32>,
    pub height: Option<u32>,
}

/// What the listing reads of a track.
pub struct EngineTrackView {
    pub kind: i32,
    pub id: i32,
    pub codec: u32,
    pub language: Option<Seq<char>>,
    pub description: Option<Seq<char>>,
    pub channels: Option<u32>,
    pub width: Option<u32>,
    pub height: Option<u32>,
}

impl View for EngineTrack {
    type V = EngineTrackView;

    open spec fn view(&self) -> EngineTrackView {
        EngineTrackView {
            kind: self.kind,
            id: self.id,
            codec: self.codec,
            language: opt_str_view(self.language),
            description: opt_str_view(self.description),
            channels: self.channels,
            width: self.width,
            height: self.height,
        }
    }
}

/// The views of a sequence of tracks.
pub open spec fn track_views(ts: Seq<EngineTrack>) -> Seq<EngineTrackView> {
    ts.map_values(|t: EngineTrack| t@)
}

/// The readable name of a track's codec.
pub open spec fn codec_of(t: EngineTrackView) -> Seq<char> {
    codec_name_for(fourcc_text(t.codec))
}

/// An audio track: its description, else `LANGUAGE (CODEC)` with `Audio`
/// for a missing language.
pub open spec fn audio_track_of(t: EngineTrackView) -> AudioTrackView {
    AudioTrackView {
        id: signed_decimal_seq(t.id as int),
        name: match t.description {
            Some(d) => d,
            None => (match t.language {
                Some(l) => l,
                None => "Audio"@,
            }) + " ("@ + codec_of(t) + seq![')'],
        },
        language: t.language,
        codec: Some(codec_of(t)),
        channels: t.channels,
    }
}

/// A subtitle track: its description, else `LANGUAGE (Embedded)` with
/// `Subtitle` for a missing language.
pub open spec fn subtitle_track_of(t: EngineTrackView) -> SubtitleTrackView {
    SubtitleTrackView {
        id: signed_decimal_seq(t.id as int),
        name: match t.description {
            Some(d) => d,
            None => (match t.language {
                Some(l) => l,
                None => "Subtitle"@,
            }) + " (Embedded)"@,
        },
        language: t.language,
        is_external: false,
        path: None,
    }
}

/// The audio tracks of a listing, in order.
pub open spec fn audio_tracks_of(ts: Seq<EngineTrackView>) -> Seq<AudioTrackView>
    decreases ts.len(),
{
    if ts.len() == 0 {
        seq![]
    } else if ts.last().kind == 1 {
        audio_tracks_of(ts.drop_last()).push(audio_track_of(ts.last()))
    } else {
        audio_tracks_of(ts.drop_last())
    }
}

/// The subtitle tracks of a listing, in order.
pub open spec fn subtitle_tracks_of(ts: Seq<EngineTrackView>) -> Seq<SubtitleTrackView>
    decreases ts.len(),
{
    if ts.len() == 0 {
        seq![]
    } else if ts.last().kind == 3 {
        subtitle_tracks_of(ts.drop_last()).push(subtitle_track_of(ts.last()))
    } else {
        subtitle_tracks_of(ts.drop_last())
    }
}

/// The codec of the first video track.
pub open spec fn first_video_codec(ts: Seq<EngineTrackView>) -> Option<Seq<char>>
    decreases ts.len(),
{
    if ts.len() == 0 {
        None
    } else {
        match first_video_codec(ts.drop_last()) {
            Some(c) => Some(c),
            None => if ts.last().kind == 2 {
                Some(codec_of(ts.last()))
            } else {
                None
            },
        }
    }
}

/// The first positive width among the video tracks.
pub open spec fn first_width(ts: Seq<EngineTrackView>) -> Option<u32>
    decreases ts.len(),
{
    if ts.len() == 0 {
        None
    } else {
        match first_width(ts.drop_last()) {
            Some(w) => Some(w),
            None => if ts.last().kind == 2 && (ts.last().width matches Some(w) && w > 0) {
                ts.last().width
            } else {
                None
            },
        }
    }
}

/// The first positive height among the video tracks.
pub open spec fn first_height(ts: Seq<EngineTrackView>) -> Option<u32>
    decreases ts.len(),
{
    if ts.len() == 0 {
        None
    } else {
        match first_height(ts.drop_last()) {
            Some(h) => Some(h),
            None => if ts.last().kind == 2 && (ts.last().height matches Some(h) && h > 0) {
                ts.last().height
            } else {
                None
            },
        }
    }
}

/// The duration in whole seconds for a duration in milliseconds, when the
/// engine knew it (a positive value), as a `u32` (wrapping as a cast does).
pub open spec fn duration_of(ms: i64) -> Option<u32> {
    if ms > 0 {
        Some(((ms / 1000) % 0x1_0000_0000) as u32)
    } else {
        None
    }
}

fn id_text(id: i32) -> (r: String)
    ensures
        r@ == signed_decimal_seq(id as int),
{
    let mut text: Vec<char> = Vec::new();
    push_signed_decimal(&mut text, id as i64);
    string_of(text.as_slice())
}

fn clone_text(o: &Option<String>) -> (r: Option<String>)
    ensures
        opt_str_view(r) == opt_str_view(*o),
{
    match o {
        Some(s) => Some(s.clone()),
        None => None,
    }
}

fn audio_track(t: &EngineTrack) -> (r: AudioTrackInfo)
    ensures
        r@ == audio_track_of(t@),
{
    let codec_name = fourcc_to_codec_name(t.codec);
    let name = match &t.description {
        Some(d) => d.clone(),
        None => {
            let mut text: Vec<char> = Vec::new();
            match &t.language {
                Some(l) => push_str_chars(&mut text, l.as_str()),
                None => push_str_chars(&mut text, "Audio"),
            }
            push_str_chars(&mut text, " (");
            push_str_chars(&mut text, codec_name.as_str());
            text.push(')');
            string_of(text.as_slice())
        },
    };
    let r = AudioTrackInfo {
        id: id_text(t.id),
        name,
        language: clone_text(&t.language),
        codec: Some(codec_name),
        channels: t.channels,
    };
    assert(r@.name =~= audio_track_of(t@).name);
    r
}

fn subtitle_track(t: &EngineTrack) -> (r: SubtitleTrackInfo)
    ensures
        r@ == subtitle_track_of(t@),
{
    let name = match &t.description {
        Some(d) => d.clone(),
        None => {
            let mut text: Vec<char> = Vec::new();
            match &t.language {
                Some(l) => push_str_chars(&mut text, l.as_str()),
                None => push_str_chars(&mut text, "Subtitle"),
            }
            push_str_chars(&mut text, " (Embedded)");
            string_of(text.as_slice())
        },
    };
    let r = SubtitleTrackInfo {
        id: id_text(t.id),
        name,
        language: clone_text(&t.language),
        is_external: false,
        path: None,
    };
    assert(r@.name =~= subtitle_track_of(t@).name);
    r
}

impl ProbedMediaDetails {
    /// The details of the file at `path` as the media engine described it:
    /// its duration in milliseconds and its track listing.  The container
    /// is the file's lowercased extension.
    pub fn from_engine(path: &str, duration_ms: i64, tracks: &[EngineTrack]) -> (r:
        ProbedMediaDetails)
        ensures
            r.duration_seconds == duration_of(duration_ms),
            opt_str_view(r.container_format) == match extension_of(path@) {
                Some(e) => Some(lowercase_of(e)),
                None => None,
            },
            opt_str_view(r.video_codec) == first_video_codec(track_views(tracks@)),
            r.resolution_width == first_width(track_views(tracks@)),
            r.resolution_height == first_height(track_views(tracks@)),
            audio_views(r.audio_tracks@) == audio_tracks_of(track_views(tracks@)),
            subtitle_views(r.subtitle_tracks@) == subtitle_tracks_of(track_views(tracks@)),
    {
        let ghost tv = track_views(tracks@);
        let duration_seconds = if duration_ms > 0 {
            let secs: u64 = (duration_ms / 1000) as u64;
            Some((secs % 0x1_0000_0000) as u32)
        } else {
            None
        };
        let mut video_codec: Option<String> = None;
        let mut resolution_width: Option<u32> = None;
        let mut resolution_height: Option<u32> = None;
        let mut audio_tracks: Vec<AudioTrackInfo> = Vec::new();
        let mut subtitle_tracks: Vec<SubtitleTrackInfo> = Vec::new();
        let mut i: usize = 0;
        while i < tracks.len()
            invariant
                i <= tracks.len(),
                tv == track_views(tracks@),
                opt_str_view(video_codec) == first_video_codec(tv.take(i as int)),
                resolution_width == first_width(tv.take(i as int)),
                resolution_height == first_height(tv.take(i as int)),
                audio_views(audio_tracks@) == audio_tracks_of(tv.take(i as int)),
                subtitle_views(subtitle_tracks@) == subtitle_tracks_of(tv.take(i as int)),
            decreases tracks.len() - i,
        {
            let t = &tracks[i];
            let ghost before = tv.take(i as int);
            let ghost after = tv.take(i + 1);
            assert(after.drop_last() =~= before);
            assert(after.last() == t@);
            if t.kind == 1 {
                let a = audio_track(t);
                let ghost prev = audio_tracks@;
                audio_tracks.push(a);
                assert(audio_views(audio_tracks@) =~= audio_views(prev).push(a@));
            } else if t.kind == 2 {
                if video_codec.is_none() {
                    video_codec = Some(fourcc_to_codec_name(t.codec));
                }
                if resolution_width.is_none() {
                    match t.width {
                        Some(w) => if w > 0 {
                            resolution_width = Some(w);
                        },
                        None => {},
                    }
                }
                if resolution_height.is_none() {
                    match t.height {
                        Some(h) => if h > 0 {
                            resolution_height = Some(h);
                        },
                        None => {},
                    }
                }
            } else if t.kind == 3 {
                let s = subtitle_track(t);
                let ghost prev = subtitle_tracks@;
                subtitle_tracks.push(s);
                assert(subtitle_views(subtitle_tracks@) =~= subtitle_views(prev).push(s@));
            }
            i = i + 1;
        }
        assert(tv.take(tracks.len() as int) =~= tv);
        let container_format = match path_extension(path) {
            Some(e) => Some(to_lowercase(e.as_str())),
            None => None,
        };
        ProbedMediaDetails {
            duration_seconds,
            container_format,
            video_codec,
            resolution_width,
            resolution_height,
            audio_tracks,
            subtitle_tracks,
        }
    }
}

} // verus!
