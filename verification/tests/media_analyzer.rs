use moviestream::domain::SubtitleTrackInfo;
use moviestream::media_analyzer::{MediaAnalyzer, ProbedMediaDetails, SiblingFile};

#[test]
fn test_media_analyzer_resolution_hint() {
    assert_eq!(MediaAnalyzer::resolution_from_hint(Some("4K")), (Some(3840), Some(2160)));
    assert_eq!(MediaAnalyzer::resolution_from_hint(Some("1080P")), (Some(1920), Some(1080)));
    assert_eq!(MediaAnalyzer::resolution_from_hint(Some("720P")), (Some(1280), Some(720)));
    assert_eq!(MediaAnalyzer::resolution_from_hint(None), (Some(1920), Some(1080)));
}

#[test]
fn test_media_analyzer_codec_guessing() {
    assert_eq!(MediaAnalyzer::guess_codec_from_name("Movie.2024.x265.mkv"), Some("HEVC / H.265".to_string()));
    assert_eq!(MediaAnalyzer::guess_codec_from_name("Movie.2024.av1.mkv"), Some("AV1".to_string()));
    assert_eq!(MediaAnalyzer::guess_codec_from_name("Movie.2024.h264.mkv"), Some("AVC / H.264".to_string()));
}

#[test]
fn test_media_analyzer_external_subtitles_detection() {
    let video = "/library/Sample.Movie.2024.mp4";
    let srt = "/library/Sample.Movie.2024.en.srt";
    let siblings = vec![SiblingFile::at(video), SiblingFile::at(srt)];

    let info = MediaAnalyzer::without_probe(video, Some("1080P"), &siblings);

    assert_eq!(info.resolution_width, Some(1920));
    assert_eq!(info.resolution_height, Some(1080));
    assert_eq!(info.container_format, Some("mp4".to_string()));
    assert!(info.subtitle_tracks.iter().any(|s| s.name == "Sample.Movie.2024.en.srt"));
}

#[test]
fn resolution_hint_other_tags() {
    assert_eq!(MediaAnalyzer::resolution_from_hint(Some("UHD")), (Some(3840), Some(2160)));
    assert_eq!(MediaAnalyzer::resolution_from_hint(Some("2160P")), (Some(3840), Some(2160)));
    assert_eq!(MediaAnalyzer::resolution_from_hint(Some("1080I")), (Some(1920), Some(1080)));
    assert_eq!(MediaAnalyzer::resolution_from_hint(Some("576P")), (Some(1024), Some(576)));
    assert_eq!(MediaAnalyzer::resolution_from_hint(Some("480P")), (Some(854), Some(480)));
    assert_eq!(MediaAnalyzer::resolution_from_hint(Some("360P")), (Some(1920), Some(1080)));
}

#[test]
fn codec_guess_other_names() {
    assert_eq!(MediaAnalyzer::guess_codec_from_name("Show.HEVC.mkv"), Some("HEVC / H.265".to_string()));
    assert_eq!(MediaAnalyzer::guess_codec_from_name("clip.VP9.webm"), Some("VP9".to_string()));
}

#[test]
fn fallback_audio_tracks_follow_the_name() {
    let plain = MediaAnalyzer::fallback_audio_tracks("Movie.mkv");
    assert_eq!(plain.len(), 1);
    assert_eq!(plain[0].id, "1");
    assert_eq!(plain[0].name, "Default Audio Track");
    assert_eq!(plain[0].language, Some("und".to_string()));
    assert_eq!(plain[0].codec, Some("aac".to_string()));
    assert_eq!(plain[0].channels, Some(2));
    let surround = MediaAnalyzer::fallback_audio_tracks("Movie.DTS.mkv");
    assert_eq!(surround.len(), 2);
    assert_eq!(surround[1].id, "2");
    assert_eq!(surround[1].name, "Surround 5.1 Track");
    assert_eq!(surround[1].codec, Some("ac3".to_string()));
    assert_eq!(surround[1].channels, Some(6));
    assert_eq!(MediaAnalyzer::fallback_audio_tracks("Movie.5.1.mkv").len(), 2);
}

#[test]
fn external_subtitles_are_numbered_and_not_repeated() {
    let mut tracks = vec![SubtitleTrackInfo {
        id: "embedded".to_string(),
        name: "Movie.fr.srt".to_string(),
        language: None,
        is_external: false,
        path: None,
    }];
    let files = vec![
        SiblingFile::at("/d/Movie.fr.srt"),
        SiblingFile::at("/d/Movie.en.VTT"),
        SiblingFile::at("/d/Other.en.srt"),
        SiblingFile::at("/d/Movie.nfo"),
    ];
    MediaAnalyzer::collect_external_subtitles("Movie", &files, &mut tracks);
    assert_eq!(tracks.len(), 2);
    assert_eq!(tracks[1].id, "ext-2");
    assert_eq!(tracks[1].name, "Movie.en.VTT");
    assert!(tracks[1].is_external);
    assert_eq!(tracks[1].path, Some("/d/Movie.en.VTT".to_string()));
}

#[test]
fn probed_details_are_completed_from_the_name() {
    let probed = ProbedMediaDetails {
        duration_seconds: Some(5400),
        container_format: Some("matroska".to_string()),
        video_codec: None,
        resolution_width: None,
        resolution_height: Some(800),
        audio_tracks: Vec::new(),
        subtitle_tracks: Vec::new(),
    };
    let info = MediaAnalyzer::from_probe(probed, "/d/Film.x265.mkv", Some("720P"), &[]);
    assert_eq!(info.duration_seconds, Some(5400));
    assert_eq!(info.container_format, Some("matroska".to_string()));
    assert_eq!(info.video_codec, Some("HEVC / H.265".to_string()));
    assert_eq!(info.resolution_width, Some(1280));
    assert_eq!(info.resolution_height, Some(800));
    assert_eq!(info.audio_tracks.len(), 1);
    assert!(info.subtitle_tracks.is_empty());
}
