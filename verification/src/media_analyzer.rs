//! Technical details of a media file: what a probe of the file reported,
//! completed by guesses from the file name and by subtitle files lying next
//! to it.
use vstd::prelude::*;

use crate::domain::{
    audio_views, opt_str_view, subtitle_views, AudioTrackInfo, AudioTrackView, SubtitleTrackInfo,
    SubtitleTrackView,
};
use crate::paths::{
    extension_of, file_name_of, file_stem_of, path_extension, path_file_name, path_file_stem,
};
use crate::text::{
    all_ascii, ascii_lower, chars_are, chars_of, contains_lit, contains_seq, decimal_seq,
    eq_ignore_ascii_case, eq_ignore_ascii_case_chars, has_prefix, lowercase_of, owned,
    push_decimal, push_str_chars, starts_with_chars, string_of, to_lowercase,
};

verus! {

/// What probing a file with the media engine reported.
#[derive(Debug, Clone)]
pub struct ProbedMediaDetails {
    pub duration_seconds: Option<u32>,
    pub container_format: Option<String>,
    pub video_codec: Option<String>,
    pub resolution_width: Option<u32>,
    pub resolution_height: Option<u32>,
    pub audio_tracks: Vec<AudioTrackInfo>,
    pub subtitle_tracks: Vec<SubtitleTrackInfo>,
}

/// The technical details the library keeps for a media file.
#[derive(Debug, Clone)]
pub struct AnalyzedMediaInfo {
    pub duration_seconds: Option<u32>,
    pub container_format: Option<String>,
    pub video_codec: Option<String>,
    pub resolution_width: Option<u32>,
    pub resolution_height: Option<u32>,
    pub audio_tracks: Vec<AudioTrackInfo>,
    pub subtitle_tracks: Vec<SubtitleTrackInfo>,
}

/// A file in the same directory as a video, as read from the directory.
#[derive(Debug, Clone)]
pub struct SiblingFile {
    /// The file name without its extension, when it is valid UTF-8.
    pub file_stem: Option<String>,
    /// The extension, when there is one and it is valid UTF-8.
    pub extension: Option<String>,
    /// The file name (lossily decoded).
    pub file_name: String,
    /// The full path (lossily decoded).
    pub path: String,
}

/// The mathematical content of a `SiblingFile`.
pub struct SiblingView {
    pub file_stem: Option<Seq<char>>,
    pub extension: Option<Seq<char>>,
    pub file_name: Seq<char>,
    pub path: Seq<char>,
}

impl SiblingFile {
    /// The file at `path`, with the parts of its name.
    pub fn at(path: &str) -> (r: SiblingFile)
        ensures
            r@.file_stem == file_stem_of(path@),
            r@.extension == extension_of(path@),
            r@.file_name == match file_name_of(path@) {
                Some(n) => n,
                None => Seq::empty(),
            },
            r@.path == path@,
    {
        let file_name = match path_file_name(path) {
            Some(n) => n,
            None => String::new(),
        };
        SiblingFile {
            file_stem: path_file_stem(path),
            extension: path_extension(path),
            file_name,
            path: owned(path),
        }
    }
}

impl View for SiblingFile {
    type V = SiblingView;

    open spec fn view(&self) -> SiblingView {
        SiblingView {
            file_stem: opt_str_view(self.file_stem),
            extension: opt_str_view(self.extension),
            file_name: self.file_name@,
            path: self.path@,
        }
    }
}

// ---------------------------------------------------------------------------
// Specification
// ---------------------------------------------------------------------------

/// Width and height assumed from a resolution tag.
pub open spec fn resolution_for_hint(hint: Option<Seq<char>>) -> (Option<u32>, Option<u32>) {
    match hint {
        Some(h) => if h == "2160P"@ || h == "4K"@ || h == "UHD"@ {
            (Some(3840), Some(2160))
        } else if h == "1080P"@ || h == "1080I"@ {
            (Some(1920), Some(1080))
        } else if h == "720P"@ {
            (Some(1280), Some(720))
        } else if h == "576P"@ {
            (Some(1024), Some(576))
        } else if h == "480P"@ {
            (Some(854), Some(480))
        } else {
            (Some(1920), Some(1080))
        },
        None => (Some(1920), Some(1080)),
    }
}

/// The codec guessed from a lowercased file name.
pub open spec fn codec_for_lower_name(lower: Seq<char>) -> Seq<char> {
    if contains_seq(lower, "x265"@) || contains_seq(lower, "hevc"@) || contains_seq(lower, "h265"@) {
        "HEVC / H.265"@
    } else if contains_seq(lower, "av1"@) {
        "AV1"@
    } else if contains_seq(lower, "vp9"@) {
        "VP9"@
    } else {
        "AVC / H.264"@
    }
}

/// What a file name's codec tags mean (in the lowercased name): `x265`,
/// `hevc` or `h265` anywhere means HEVC, whatever else the name holds;
/// otherwise `av1` means AV1 and then `vp9` means VP9; a name with none of
/// these tags is taken for H.264.  HEVC is guessed only for names with one
/// of its tags.
pub proof fn codec_tags_in_names(lower: Seq<char>)
    ensures
        ({
            let hevc = contains_seq(lower, "x265"@) || contains_seq(lower, "hevc"@)
                || contains_seq(lower, "h265"@);
            let codec = codec_for_lower_name(lower);
            &&& hevc ==> codec == "HEVC / H.265"@
            &&& codec == "HEVC / H.265"@ ==> hevc
            &&& !hevc && contains_seq(lower, "av1"@) ==> codec == "AV1"@
            &&& !hevc && !contains_seq(lower, "av1"@) && contains_seq(lower, "vp9"@) ==> codec
                == "VP9"@
            &&& !hevc && !contains_seq(lower, "av1"@) && !contains_seq(lower, "vp9"@) ==> codec
                == "AVC / H.264"@
        }),
{
    reveal_strlit("HEVC / H.265");
    reveal_strlit("AV1");
    reveal_strlit("VP9");
    reveal_strlit("AVC / H.264");
    assert("AV1"@.len() != "HEVC / H.265"@.len());
    assert("VP9"@.len() != "HEVC / H.265"@.len());
    assert("AVC / H.264"@.len() != "HEVC / H.265"@.len());
}

/// The default stereo track assumed for every file.
pub open spec fn default_audio_track() -> AudioTrackView {
    AudioTrackView {
        id: "1"@,
        name: "Default Audio Track"@,
        language: Some("und"@),
        codec: Some("aac"@),
        channels: Some(2),
    }
}

/// The surround track assumed when the name mentions one.
pub open spec fn surround_audio_track() -> AudioTrackView {
    AudioTrackView {
        id: "2"@,
        name: "Surround 5.1 Track"@,
        language: Some("und"@),
        codec: Some("ac3"@),
        channels: Some(6),
    }
}

/// Whether a lowercased name hints at surround sound.
pub open spec fn hints_surround(lower: Seq<char>) -> bool {
    contains_seq(lower, "5.1"@) || contains_seq(lower, "dts"@) || contains_seq(lower, "ac3"@)
}

/// The audio tracks assumed from a lowercased file name.
pub open spec fn fallback_audio_for_lower_name(lower: Seq<char>) -> Seq<AudioTrackView> {
    if hints_surround(lower) {
        seq![default_audio_track(), surround_audio_track()]
    } else {
        seq![default_audio_track()]
    }
}

/// Whether a sibling file is a subtitle file for a video with the given stem:
/// its stem starts with the video's stem and its extension is `srt` or `vtt`
/// in any ASCII case.
pub open spec fn is_subtitle_sibling(video_stem: Seq<char>, f: SiblingView) -> bool {
    &&& f.file_stem matches Some(st) && has_prefix(st, video_stem)
    &&& f.extension matches Some(ext) && (eq_ignore_ascii_case(ext, "srt"@)
        || eq_ignore_ascii_case(ext, "vtt"@))
}

/// Whether some track in `tracks` has the name `name`.
pub open spec fn has_track_named(tracks: Seq<SubtitleTrackView>, name: Seq<char>) -> bool {
    exists|i: int| 0 <= i < tracks.len() && tracks[i].name == name
}

/// The external track made for a subtitle file, numbered after the tracks
/// already known.
pub open spec fn external_track(count: nat, f: SiblingView) -> SubtitleTrackView {
    SubtitleTrackView {
        id: "ext-"@ + decimal_seq(count + 1),
        name: f.file_name,
        language: None,
        is_external: true,
        path: Some(f.path),
    }
}

/// The tracks once every subtitle sibling not yet known by name is added, in
/// directory order.
pub open spec fn with_external_subtitles(
    video_stem: Seq<char>,
    tracks: Seq<SubtitleTrackView>,
    files: Seq<SiblingView>,
) -> Seq<SubtitleTrackView>
    decreases files.len(),
{
    if files.len() == 0 {
        tracks
    } else {
        let prev = with_external_subtitles(video_stem, tracks, files.drop_last());
        let f = files.last();
        if is_subtitle_sibling(video_stem, f) && !has_track_named(prev, f.file_name) {
            prev.push(external_track(prev.len(), f))
        } else {
            prev
        }
    }
}

// ---------------------------------------------------------------------------
// Implementation
// ---------------------------------------------------------------------------

/// Technical analysis of media files.
pub struct MediaAnalyzer;

impl MediaAnalyzer {
    /// Width and height assumed from a resolution tag such as `1080P`.
    pub fn resolution_from_hint(hint: Option<&str>) -> (r: (Option<u32>, Option<u32>))
        ensures
            r == resolution_for_hint(
                match hint {
                    Some(h) => Some(h@),
                    None => None,
                },
            ),
    {
        match hint {
            Some(h) => {
                let v = chars_of(h);
                if chars_are(v.as_slice(), "2160P") || chars_are(v.as_slice(), "4K") || chars_are(
                    v.as_slice(),
                    "UHD",
                ) {
                    (Some(3840), Some(2160))
                } else if chars_are(v.as_slice(), "1080P") || chars_are(v.as_slice(), "1080I") {
                    (Some(1920), Some(1080))
                } else if chars_are(v.as_slice(), "720P") {
                    (Some(1280), Some(720))
                } else if chars_are(v.as_slice(), "576P") {
                    (Some(1024), Some(576))
                } else if chars_are(v.as_slice(), "480P") {
                    (Some(854), Some(480))
                } else {
                    (Some(1920), Some(1080))
                }
            },
            None => (Some(1920), Some(1080)),
        }
    }

    /// The video codec guessed from tags in a file name; never `None`.
    pub fn guess_codec_from_name(name: &str) -> (r: Option<String>)
        ensures
            r matches Some(c) && c@ == codec_for_lower_name(lowercase_of(name@)),
            all_ascii(name@) ==> (r matches Some(c) && c@ == codec_for_lower_name(
                ascii_lower(name@),
            )),
    {
        let lower = to_lowercase(name);
        let v = chars_of(lower.as_str());
        if contains_lit(v.as_slice(), "x265") || contains_lit(v.as_slice(), "hevc")
            || contains_lit(v.as_slice(), "h265") {
            Some(owned("HEVC / H.265"))
        } else if contains_lit(v.as_slice(), "av1") {
            Some(owned("AV1"))
        } else if contains_lit(v.as_slice(), "vp9") {
            Some(owned("VP9"))
        } else {
            Some(owned("AVC / H.264"))
        }
    }

    /// The audio tracks assumed when probing found none: a default stereo
    /// track, and a 5.1 track when the name mentions `5.1`, `dts` or `ac3`.
    pub fn fallback_audio_tracks(name: &str) -> (r: Vec<AudioTrackInfo>)
        ensures
            audio_views(r@) == fallback_audio_for_lower_name(lowercase_of(name@)),
            all_ascii(name@) ==> audio_views(r@) == fallback_audio_for_lower_name(
                ascii_lower(name@),
            ),
    {
        let mut tracks: Vec<AudioTrackInfo> = Vec::new();
        tracks.push(
            AudioTrackInfo {
                id: owned("1"),
                name: owned("Default Audio Track"),
                language: Some(owned("und")),
                codec: Some(owned("aac")),
                channels: Some(2),
            },
        );
        let lower = to_lowercase(name);
        let v = chars_of(lower.as_str());
        if contains_lit(v.as_slice(), "5.1") || contains_lit(v.as_slice(), "dts") || contains_lit(
            v.as_slice(),
            "ac3",
        ) {
            tracks.push(
                AudioTrackInfo {
                    id: owned("2"),
                    name: owned("Surround 5.1 Track"),
                    language: Some(owned("und")),
                    codec: Some(owned("ac3")),
                    channels: Some(6),
                },
            );
        }
        assert(audio_views(tracks@) =~= fallback_audio_for_lower_name(lowercase_of(name@)));
        tracks
    }

    /// Adds the subtitle files found next to a video (`files`, in directory
    /// order) whose stem starts with the video's stem and whose extension is
    /// `srt` or `vtt`, skipping names already present.
    pub fn collect_external_subtitles(
        video_stem: &str,
        files: &[SiblingFile],
        tracks: &mut Vec<SubtitleTrackInfo>,
    )
        requires
            old(tracks)@.len() + files@.len() < usize::MAX,
        ensures
            subtitle_views(final(tracks)@) == with_external_subtitles(
                video_stem@,
                subtitle_views(old(tracks)@),
                files@.map_values(|f: SiblingFile| f@),
            ),
    {
        let stem_chars = chars_of(video_stem);
        let srt = chars_of("srt");
        let vtt = chars_of("vtt");
        let ghost start = subtitle_views(tracks@);
        let ghost fviews = files@.map_values(|f: SiblingFile| f@);
        let mut i: usize = 0;
        while i < files.len()
            invariant
                0 <= i <= files.len(),
                stem_chars@ == video_stem@,
                srt@ == "srt"@,
                vtt@ == "vtt"@,
                fviews == files@.map_values(|f: SiblingFile| f@),
                tracks@.len() <= start.len() + i,
                start.len() + files@.len() < usize::MAX,
                subtitle_views(tracks@) == with_external_subtitles(
                    video_stem@,
                    start,
                    fviews.subrange(0, i as int),
                ),
            decreases files.len() - i,
        {
            let f = &files[i];
            assert(fviews.subrange(0, i + 1).drop_last() =~= fviews.subrange(0, i as int));
            assert(fviews.subrange(0, i + 1).last() == f@);
            let is_candidate = match (&f.file_stem, &f.extension) {
                (Some(st), Some(ext)) => {
                    let stv = chars_of(st.as_str());
                    let extv = chars_of(ext.as_str());
                    starts_with_chars(stv.as_slice(), stem_chars.as_slice()) && (
                    eq_ignore_ascii_case_chars(extv.as_slice(), srt.as_slice())
                        || eq_ignore_ascii_case_chars(extv.as_slice(), vtt.as_slice()))
                },
                _ => false,
            };
            if is_candidate {
                let name = chars_of(f.file_name.as_str());
                let mut known = false;
                let mut k: usize = 0;
                while k < tracks.len()
                    invariant
                        0 <= k <= tracks.len(),
                        name@ == f.file_name@,
                        known == (exists|j: int|
                            0 <= j < k && subtitle_views(tracks@)[j].name == name@),
                    decreases tracks.len() - k,
                {
                    let tn = chars_of(tracks[k].name.as_str());
                    assert(subtitle_views(tracks@)[k as int].name == tracks@[k as int].name@);
                    let same = crate::text::chars_eq(tn.as_slice(), name.as_slice());
                    if same {
                        known = true;
                    }
                    assert(known == (exists|j: int|
                        0 <= j < k + 1 && subtitle_views(tracks@)[j].name == name@)) by {
                        if !same && !(exists|j: int|
                            0 <= j < k && subtitle_views(tracks@)[j].name == name@) {
                            assert forall|j: int| 0 <= j < k + 1 implies subtitle_views(
                                tracks@,
                            )[j].name != name@ by {
                                if j == k {
                                }
                            }
                        }
                    }
                    k = k + 1;
                }
                assert(known == has_track_named(subtitle_views(tracks@), f@.file_name));
                if !known {
                    let mut id: Vec<char> = Vec::new();
                    push_str_chars(&mut id, "ext-");
                    push_decimal(&mut id, (tracks.len() + 1) as u64);
                    let track = SubtitleTrackInfo {
                        id: string_of(id.as_slice()),
                        name: f.file_name.clone(),
                        language: None,
                        is_external: true,
                        path: Some(f.path.clone()),
                    };
                    let ghost before = tracks@;
                    tracks.push(track);
                    assert(subtitle_views(tracks@) =~= subtitle_views(before).push(
                        external_track(before.len() as nat, f@),
                    ));
                }
            }
            i = i + 1;
        }
        assert(fviews.subrange(0, files.len() as int) =~= fviews);
    }

    /// The details of a file that the media engine could probe: what the
    /// probe found, with the codec guessed from the name, the size taken from
    /// the resolution tag and the tracks assumed from the name where the
    /// probe found nothing, and the subtitle files next to it added.
    pub fn from_probe(
        probed: ProbedMediaDetails,
        media_path: &str,
        resolution_hint: Option<&str>,
        siblings: &[SiblingFile],
    ) -> (r: AnalyzedMediaInfo)
        requires
            probed.subtitle_tracks@.len() + siblings@.len() < usize::MAX,
        ensures
            ({
                let hint = resolution_for_hint(
                    match resolution_hint {
                        Some(h) => Some(h@),
                        None => None,
                    },
                );
                let lower = lowercase_of(media_path@);
                &&& r.duration_seconds == probed.duration_seconds
                &&& r.container_format == probed.container_format
                &&& probed.video_codec is Some ==> r.video_codec == probed.video_codec
                &&& probed.video_codec is None ==> (r.video_codec matches Some(c) && c@
                    == codec_for_lower_name(lower))
                &&& r.resolution_width == (match probed.resolution_width {
                    Some(w) => Some(w),
                    None => hint.0,
                })
                &&& r.resolution_height == (match probed.resolution_height {
                    Some(h) => Some(h),
                    None => hint.1,
                })
                &&& probed.audio_tracks@.len() > 0 ==> r.audio_tracks == probed.audio_tracks
                &&& probed.audio_tracks@.len() == 0 ==> audio_views(r.audio_tracks@)
                    == fallback_audio_for_lower_name(lower)
                &&& subtitle_views(r.subtitle_tracks@) == match file_stem_of(media_path@) {
                    Some(st) => with_external_subtitles(
                        st,
                        subtitle_views(probed.subtitle_tracks@),
                        siblings@.map_values(|f: SiblingFile| f@),
                    ),
                    None => subtitle_views(probed.subtitle_tracks@),
                }
            }),
    {
        let mut subtitle_tracks = probed.subtitle_tracks;
        match path_file_stem(media_path) {
            Some(st) => MediaAnalyzer::collect_external_subtitles(
                st.as_str(),
                siblings,
                &mut subtitle_tracks,
            ),
            None => {},
        }
        let (hint_w, hint_h) = MediaAnalyzer::resolution_from_hint(resolution_hint);
        let video_codec = match probed.video_codec {
            Some(c) => Some(c),
            None => MediaAnalyzer::guess_codec_from_name(media_path),
        };
        let resolution_width = match probed.resolution_width {
            Some(w) => Some(w),
            None => hint_w,
        };
        let resolution_height = match probed.resolution_height {
            Some(h) => Some(h),
            None => hint_h,
        };
        let audio_tracks = if probed.audio_tracks.len() > 0 {
            probed.audio_tracks
        } else {
            MediaAnalyzer::fallback_audio_tracks(media_path)
        };
        AnalyzedMediaInfo {
            duration_seconds: probed.duration_seconds,
            container_format: probed.container_format,
            video_codec,
            resolution_width,
            resolution_height,
            audio_tracks,
            subtitle_tracks,
        }
    }

    /// The details of a file the media engine could not probe: the
    /// extension (lowercased) as container, size from the resolution tag,
    /// codec and audio tracks guessed from the name, and the subtitle files
    /// next to it.
    pub fn without_probe(
        media_path: &str,
        resolution_hint: Option<&str>,
        siblings: &[SiblingFile],
    ) -> (r: AnalyzedMediaInfo)
        requires
            siblings@.len() < usize::MAX,
        ensures
            ({
                let hint = resolution_for_hint(
                    match resolution_hint {
                        Some(h) => Some(h@),
                        None => None,
                    },
                );
                let lower = lowercase_of(media_path@);
                &&& r.duration_seconds is None
                &&& opt_str_view(r.container_format) == match extension_of(media_path@) {
                    Some(e) => Some(lowercase_of(e)),
                    None => None,
                }
                &&& r.video_codec matches Some(c) && c@ == codec_for_lower_name(lower)
                &&& r.resolution_width == hint.0
                &&& r.resolution_height == hint.1
                &&& audio_views(r.audio_tracks@) == fallback_audio_for_lower_name(lower)
                &&& subtitle_views(r.subtitle_tracks@) == match file_stem_of(media_path@) {
                    Some(st) => with_external_subtitles(
                        st,
                        Seq::empty(),
                        siblings@.map_values(|f: SiblingFile| f@),
                    ),
                    None => Seq::empty(),
                }
            }),
    {
        let container_format = match path_extension(media_path) {
            Some(e) => Some(to_lowercase(e.as_str())),
            None => None,
        };
        let (resolution_width, resolution_height) = MediaAnalyzer::resolution_from_hint(
            resolution_hint,
        );
        let video_codec = MediaAnalyzer::guess_codec_from_name(media_path);
        let audio_tracks = MediaAnalyzer::fallback_audio_tracks(media_path);
        let mut subtitle_tracks: Vec<SubtitleTrackInfo> = Vec::new();
        assert(subtitle_views(subtitle_tracks@) =~= Seq::<SubtitleTrackView>::empty());
        match path_file_stem(media_path) {
            Some(st) => MediaAnalyzer::collect_external_subtitles(
                st.as_str(),
                siblings,
                &mut subtitle_tracks,
            ),
            None => {},
        }
        AnalyzedMediaInfo {
            duration_seconds: None,
            container_format,
            video_codec,
            resolution_width,
            resolution_height,
            audio_tracks,
            subtitle_tracks,
        }
    }
}

} // verus!
