use moviestream::domain::SubtitleTrackInfo;
use moviestream::media_analyzer::{ProbedMediaDetails, SiblingFile};
use moviestream::player::{PlayerError, PlayerModel};
use moviestream::probe::EngineTrack;
use moviestream::stream_server::is_allowed_origin;

fn track(kind: i32, id: i32, codec: &[u8; 4]) -> EngineTrack {
    EngineTrack {
        kind,
        id,
        codec: u32::from_le_bytes(*codec),
        language: None,
        description: None,
        channels: None,
        width: None,
        height: None,
    }
}

#[test]
fn engine_tracks_become_details() {
    let mut audio = track(1, 3, b"mp4a");
    audio.language = Some("eng".to_string());
    audio.channels = Some(6);
    let mut sub = track(3, 5, b"subt");
    sub.description = Some("Forced".to_string());
    let mut video_small = track(2, 0, b"avc1");
    video_small.width = Some(0);
    video_small.height = Some(720);
    let mut video_big = track(2, 1, b"hevc");
    video_big.width = Some(1920);
    video_big.height = Some(1080);
    let plain_sub = track(3, 6, b"subt");
    let tracks = vec![video_small, audio, sub, video_big, plain_sub, track(4, 9, b"data")];
    let d = ProbedMediaDetails::from_engine("/m/Film.MKV", 7_265_999, &tracks);
    assert_eq!(d.duration_seconds, Some(7265));
    assert_eq!(d.container_format, Some("mkv".to_string()));
    assert_eq!(d.video_codec, Some("H.264 / AVC".to_string()));
    assert_eq!(d.resolution_width, Some(1920));
    assert_eq!(d.resolution_height, Some(720));
    assert_eq!(d.audio_tracks.len(), 1);
    assert_eq!(d.audio_tracks[0].id, "3");
    assert_eq!(d.audio_tracks[0].name, "eng (AAC)");
    assert_eq!(d.audio_tracks[0].codec, Some("AAC".to_string()));
    assert_eq!(d.audio_tracks[0].channels, Some(6));
    assert_eq!(d.subtitle_tracks.len(), 2);
    assert_eq!(d.subtitle_tracks[0].name, "Forced");
    assert_eq!(d.subtitle_tracks[1].name, "Subtitle (Embedded)");
    assert!(!d.subtitle_tracks[1].is_external);
    let none = ProbedMediaDetails::from_engine("/m/noext", 0, &[]);
    assert_eq!(none.duration_seconds, None);
    assert_eq!(none.container_format, None);
    assert_eq!(none.video_codec, None);
}

#[test]
fn player_loads_and_falls_back() {
    let mut p = PlayerModel::new();
    assert_eq!(p.play(), Err(PlayerError::NoMediaLoaded));
    p.begin_load("/m/Film.mkv");
    let siblings = vec![SiblingFile::at("/m/Film.en.srt"), SiblingFile::at("/m/Film.mkv")];
    p.finish_load("/m/Film.mkv", None, &siblings);
    assert_eq!(p.total_duration, 7200);
    assert_eq!(p.audio_tracks.len(), 1);
    assert_eq!(p.audio_tracks[0].name, "Default Audio Track");
    assert_eq!(p.selected_audio_track, Some("1".to_string()));
    assert_eq!(p.subtitle_tracks.len(), 1);
    assert_eq!(p.subtitle_tracks[0].id, "ext-1");
    assert_eq!(p.play(), Ok(()));
    assert!(p.playing);
    p.seek(120);
    assert_eq!(p.current_pos, 120);
    p.stop();
    assert_eq!(p.current_pos, 0);
    assert!(!p.playing);
}

#[test]
fn player_controls() {
    let mut p = PlayerModel::new();
    p.begin_load("/m/a.mkv");
    let probed = ProbedMediaDetails {
        duration_seconds: Some(3000),
        container_format: None,
        video_codec: None,
        resolution_width: None,
        resolution_height: None,
        audio_tracks: Vec::new(),
        subtitle_tracks: vec![SubtitleTrackInfo { id: "2".to_string(), name: "en".to_string(), language: None, is_external: false, path: None }],
    };
    p.finish_load("/m/a.mkv", Some(probed), &[]);
    assert_eq!(p.total_duration, 3000);
    p.set_mute(true);
    p.set_volume(250);
    assert_eq!(p.volume, 100);
    assert!(!p.is_muted);
    assert_eq!(p.select_audio_track("9"), Err(PlayerError::AudioTrackNotFound("9".to_string())));
    assert_eq!(p.select_audio_track("1"), Ok(()));
    assert_eq!(p.select_subtitle_track(Some("2")), Ok(()));
    assert_eq!(p.selected_subtitle_track, Some("2".to_string()));
    assert_eq!(p.select_subtitle_track(Some("x")), Err(PlayerError::SubtitleTrackNotFound("x".to_string())));
    assert_eq!(p.select_subtitle_track(None), Ok(()));
    assert_eq!(p.selected_subtitle_track, None);
    p.add_external_subtitle("/subs/extra.vtt");
    assert_eq!(p.subtitle_tracks[1].id, "ext-2");
    assert_eq!(p.subtitle_tracks[1].name, "extra.vtt");
    assert_eq!(p.selected_subtitle_track, Some("ext-2".to_string()));
    assert_eq!(p.position_from_engine(61_500), 61);
    assert_eq!(p.position_from_engine(-1), p.current_pos);
    assert_eq!(p.duration_from_engine(0), 3000);
}

#[test]
fn allowed_origins() {
    assert!(is_allowed_origin("tauri://localhost"));
    assert!(is_allowed_origin("https://tauri.localhost"));
    assert!(is_allowed_origin("http://localhost:1420"));
    assert!(is_allowed_origin("http://127.0.0.1:5173"));
    assert!(is_allowed_origin("http://localhost"));
    assert!(!is_allowed_origin("http://localhost.evil.com"));
    assert!(!is_allowed_origin("https://example.com"));
    assert!(!is_allowed_origin(""));
}
