use moviestream::domain::{AudioTrackInfo, MediaType, SubtitleTrackInfo};
use moviestream::playback::{
    episode_label_for, episode_resume_offer, is_resumable, movie_resume_offer, stream_location_for,
    streamed_subtitles, ResumeOffer, SavedPosition, SessionState,
};
use moviestream::stream_server::MediaStreamServer;

fn saved(position_seconds: u32, completed: bool) -> Option<SavedPosition> {
    Some(SavedPosition { position_seconds, completed })
}

#[test]
fn resume_offers() {
    assert_eq!(
        movie_resume_offer(saved(120, false), None),
        ResumeOffer { requires_resume_prompt: true, resume_position_seconds: 120 }
    );
    assert_eq!(
        movie_resume_offer(saved(5, false), saved(300, false)),
        ResumeOffer { requires_resume_prompt: true, resume_position_seconds: 300 }
    );
    assert_eq!(
        movie_resume_offer(saved(400, true), saved(10, false)),
        ResumeOffer { requires_resume_prompt: false, resume_position_seconds: 0 }
    );
    assert_eq!(
        episode_resume_offer(saved(11, false)),
        ResumeOffer { requires_resume_prompt: true, resume_position_seconds: 11 }
    );
    assert!(!is_resumable(saved(10, false)));
    assert!(!is_resumable(None));
}

#[test]
fn episode_labels() {
    assert_eq!(episode_label_for(1, 2, "Pilot"), "S01E02 • Pilot");
    assert_eq!(episode_label_for(12, 105, "Long"), "S12E105 • Long");
}

fn audio(id: &str) -> AudioTrackInfo {
    AudioTrackInfo { id: id.to_string(), name: id.to_string(), language: None, codec: None, channels: None }
}

#[test]
fn sessions_start_paused_at_the_beginning() {
    let server = MediaStreamServer::new(9000, None, "/cache".to_string());
    let subs = vec![
        SubtitleTrackInfo { id: "s1".to_string(), name: "en".to_string(), language: None, is_external: true, path: Some("/d/a b.srt".to_string()) },
        SubtitleTrackInfo { id: "s2".to_string(), name: "fr".to_string(), language: None, is_external: false, path: None },
    ];
    let offer = ResumeOffer { requires_resume_prompt: true, resume_position_seconds: 60 };
    let s = SessionState::for_episode("Show", 1, 3, "Title", "/d/a.mkv", Some(&server), 1800, vec![audio("a1"), audio("a2")], &subs, offer);
    assert_eq!(s.media_type, "episode");
    assert_eq!(s.title, "Show");
    assert_eq!(s.subtitle_info, Some("S01E03 • Title".to_string()));
    assert_eq!(s.stream_url, "http://127.0.0.1:9000/stream?path=%2Fd%2Fa.mkv");
    assert_eq!(s.volume, 80);
    assert!(!s.is_playing);
    assert_eq!(s.current_audio_track, Some("a1".to_string()));
    assert_eq!(s.subtitle_tracks[0].path, Some("http://127.0.0.1:9000/subtitles?path=%2Fd%2Fa%20b.srt".to_string()));
    assert_eq!(s.subtitle_tracks[1].path, None);
    assert!(s.requires_resume_prompt);
    assert_eq!(s.resume_position_seconds, 60);

    let m = SessionState::for_movie("Film", "/d/f.mkv", None, 0, Vec::new(), &[], offer);
    assert_eq!(m.media_type, "movie");
    assert_eq!(m.stream_url, "/d/f.mkv");
    assert_eq!(m.current_audio_track, None);
    assert_eq!(stream_location_for(None, "/x"), "/x");
    assert_eq!(streamed_subtitles(None, &subs)[0].path, Some("/d/a b.srt".to_string()));
}

#[test]
fn controls_update_the_session() {
    let offer = ResumeOffer { requires_resume_prompt: false, resume_position_seconds: 0 };
    let mut s = SessionState::for_movie("Film", "/d/f.mkv", None, 1000, Vec::new(), &[], offer);
    s.mark_playing();
    assert!(s.is_playing);
    s.set_muted(true);
    assert!(s.is_muted);
    s.set_volume(30);
    assert_eq!(s.volume, 30);
    assert!(!s.is_muted);
    s.move_to(400);
    assert_eq!(s.position_seconds, 400);
    s.mark_paused();
    assert!(!s.is_playing);
    s.set_fullscreen(true);
    assert!(s.is_fullscreen);
    s.select_audio("a2");
    assert_eq!(s.current_audio_track, Some("a2".to_string()));
    s.select_subtitles(Some("s1"));
    assert_eq!(s.current_subtitle_track, Some("s1".to_string()));
    s.select_subtitles(None);
    assert_eq!(s.current_subtitle_track, None);
}

#[test]
fn saved_progress_marks_finished_sessions() {
    let offer = ResumeOffer { requires_resume_prompt: false, resume_position_seconds: 0 };
    let mut s = SessionState::for_movie("Film", "/d/f.mkv", None, 1000, Vec::new(), &[], offer);
    s.move_to(500);
    let p = s.progress_to_save(false);
    assert!(!p.completed);
    assert_eq!(p.position_seconds, 500);
    assert_eq!(p.media_type, MediaType::Movie);
    s.move_to(910);
    let p = s.progress_to_save(false);
    assert!(p.completed);
    assert_eq!(p.position_seconds, 0);
    s.move_to(600);
    assert!(s.progress_to_save(true).completed);
    let mut unknown = SessionState::for_episode("S", 1, 1, "E", "/e.mkv", None, 0, Vec::new(), &[], offer);
    unknown.move_to(50);
    let q = unknown.progress_to_save(true);
    assert!(!q.completed);
    assert_eq!(q.position_seconds, 50);
    assert_eq!(q.media_type, MediaType::Episode);
}
