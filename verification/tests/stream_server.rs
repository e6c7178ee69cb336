use moviestream::stream_content::{
    convert_srt_to_vtt, detect_mime_type, is_subtitle_path, mime_type_for_extension, parse_range,
    plan_stream_reply, subtitle_body, subtitle_size_error, StreamReply, MAX_SUBTITLE_SIZE,
};
use moviestream::stream_server::{MediaStreamServer, PathCheck, StreamRateLimiter};

#[test]
fn test_stream_rate_limiter() {
    let mut limiter = StreamRateLimiter::new(3);
    assert!(limiter.check());
    assert!(limiter.check());
    assert!(limiter.check());
    // 4th request exceeds rate limit of 3 req/sec
    assert!(!limiter.check());
}

#[test]
fn rate_limiter_window_rolls_over_after_a_second() {
    let mut limiter = StreamRateLimiter::new(1);
    let now = std::time::Instant::now();
    assert!(limiter.record_request(0, now));
    assert!(!limiter.record_request(0, now));
    assert!(limiter.record_request(1, now));
    assert!(!limiter.record_request(0, now));
}

#[test]
fn parse_range_full_prefix_and_suffix() {
    assert_eq!(parse_range("bytes=0-99", 1000), Some((0, 99)));
    assert_eq!(parse_range("bytes=500-", 1000), Some((500, 999)));
    assert_eq!(parse_range("bytes=-200", 1000), Some((800, 999)));
    assert_eq!(parse_range("bytes=900-5000", 1000), Some((900, 999)));
}

#[test]
fn parse_range_rejections() {
    assert_eq!(parse_range("items=0-10", 1000), None);
    assert_eq!(parse_range("bytes=10", 1000), None);
    assert_eq!(parse_range("bytes=1-2-3", 1000), None);
    assert_eq!(parse_range("bytes=1000-", 1000), None);
    assert_eq!(parse_range("bytes=50-10", 1000), None);
    assert_eq!(parse_range("bytes=a-10", 1000), None);
    assert_eq!(parse_range("bytes=-", 1000), None);
}

#[test]
fn parse_range_edge_cases() {
    // A suffix longer than the file selects the whole file.
    assert_eq!(parse_range("bytes=-5000", 1000), Some((0, 999)));
    // A zero-length suffix selects the empty range past the end.
    assert_eq!(parse_range("bytes=-0", 10), Some((10, 9)));
    // Leading plus signs are accepted as by `str::parse`.
    assert_eq!(parse_range("bytes=+5-+9", 100), Some((5, 9)));
    assert_eq!(parse_range("bytes=-10", 0), Some((0, 0)));
}

#[test]
fn stream_reply_partial_and_whole() {
    match plan_stream_reply(Some("bytes=100-199"), 1000) {
        StreamReply::Partial { start, end, content_length, content_range } => {
            assert_eq!(start, 100);
            assert_eq!(end, 199);
            assert_eq!(content_length, 100);
            assert_eq!(content_range, "bytes 100-199/1000");
        }
        StreamReply::Whole { .. } => panic!("expected a partial reply"),
    }
    match plan_stream_reply(Some("bytes=abc"), 1000) {
        StreamReply::Whole { content_length } => assert_eq!(content_length, 1000),
        StreamReply::Partial { .. } => panic!("expected the whole file"),
    }
    match plan_stream_reply(None, 42) {
        StreamReply::Whole { content_length } => assert_eq!(content_length, 42),
        StreamReply::Partial { .. } => panic!("expected the whole file"),
    }
    match plan_stream_reply(Some("bytes=-0"), 10) {
        StreamReply::Partial { content_length, .. } => assert_eq!(content_length, 0),
        StreamReply::Whole { .. } => panic!("expected a partial reply"),
    }
}

#[test]
fn mime_types_by_extension() {
    assert_eq!(detect_mime_type("/movies/a.MKV"), "video/mp4");
    assert_eq!(detect_mime_type("/movies/a.webm"), "video/webm");
    assert_eq!(detect_mime_type("/movies/a.mov"), "video/quicktime");
    assert_eq!(detect_mime_type("/movies/a.avi"), "video/x-msvideo");
    assert_eq!(detect_mime_type("/movies/a.m2ts"), "video/mp2t");
    assert_eq!(detect_mime_type("/movies/a.flv"), "video/x-flv");
    assert_eq!(detect_mime_type("/music/a.mp3"), "audio/mpeg");
    assert_eq!(detect_mime_type("/music/a.FLAC"), "audio/flac");
    assert_eq!(detect_mime_type("/music/a.aac"), "audio/aac");
    assert_eq!(detect_mime_type("/music/a.wav"), "audio/wav");
    assert_eq!(detect_mime_type("/movies/a.ogv"), "video/ogg");
    assert_eq!(detect_mime_type("/movies/noext"), "video/mp4");
    assert_eq!(detect_mime_type("/movies/a.xyz"), "video/mp4");
    assert_eq!(mime_type_for_extension(Some("ts")), "video/mp2t");
    assert_eq!(mime_type_for_extension(None), "video/mp4");
}

#[test]
fn srt_converts_to_webvtt() {
    let srt = "1\r\n00:00:01,000 --> 00:00:02,500\r\nHello, world\r\n\r\n2\n00:00:03,000 --> 00:00:04,000\nBye\n";
    let vtt = convert_srt_to_vtt(srt);
    assert_eq!(
        vtt,
        "WEBVTT\n\n1\n00:00:01.000 --> 00:00:02.500\nHello, world\n\n2\n00:00:03.000 --> 00:00:04.000\nBye\n"
    );
    assert_eq!(convert_srt_to_vtt(""), "WEBVTT\n\n");
    assert_eq!(convert_srt_to_vtt("a\r"), "WEBVTT\n\na\r\n");
}

#[test]
fn subtitle_requests() {
    assert!(is_subtitle_path("/subs/movie.SRT"));
    assert!(is_subtitle_path("/subs/movie.ass"));
    assert!(!is_subtitle_path("/subs/movie.txt"));
    assert!(!is_subtitle_path("/subs/movie"));
    assert_eq!(subtitle_size_error(MAX_SUBTITLE_SIZE), None);
    assert_eq!(
        subtitle_size_error(MAX_SUBTITLE_SIZE + 1),
        Some("Subtitle file exceeds maximum allowed size of 10MB (10485761 bytes)".to_string())
    );
    assert_eq!(
        subtitle_body("/subs/a.Srt", "1\n00:00:01,000 --> 00:00:02,000\nHi\n".to_string()),
        "WEBVTT\n\n1\n00:00:01.000 --> 00:00:02.000\nHi\n"
    );
    assert_eq!(subtitle_body("/subs/a.vtt", "WEBVTT\n".to_string()), "WEBVTT\n");
}

#[test]
fn server_urls_are_percent_encoded() {
    let server = MediaStreamServer::new(8080, None, "/cache/artwork".to_string());
    assert_eq!(server.port(), 8080);
    assert_eq!(
        server.get_stream_url("/movies/My Movie (2020).mkv"),
        "http://127.0.0.1:8080/stream?path=%2Fmovies%2FMy%20Movie%20%282020%29.mkv"
    );
    assert_eq!(
        server.get_subtitle_url("/subs/é.srt"),
        "http://127.0.0.1:8080/subtitles?path=%2Fsubs%2F%C3%A9.srt"
    );
}

#[test]
fn allowed_paths_register_and_unregister() {
    let mut server = MediaStreamServer::new(1, Some("/cache".to_string()), "cache".to_string());
    assert_eq!(server.check_path(None), PathCheck::NotFound);
    assert_eq!(server.check_path(Some("/movies/a.mkv")), PathCheck::Forbidden);
    server.register_allowed_path(None, "/movies".to_string());
    assert_eq!(
        server.check_path(Some("/movies/a.mkv")),
        PathCheck::Allowed("/movies/a.mkv".to_string())
    );
    assert_eq!(
        server.check_path(Some("/cache/poster.jpg")),
        PathCheck::Allowed("/cache/poster.jpg".to_string())
    );
    // Component-wise prefix: a sibling directory with a longer name is not inside.
    assert_eq!(server.check_path(Some("/movies2/a.mkv")), PathCheck::Forbidden);
    server.unregister_allowed_path(None, "/movies".to_string());
    assert_eq!(server.check_path(Some("/movies/a.mkv")), PathCheck::Forbidden);
    server.register_allowed_path(Some("/real/movies".to_string()), "/movies".to_string());
    assert_eq!(server.check_path(Some("/movies/a.mkv")), PathCheck::Forbidden);
    assert_eq!(
        server.check_path(Some("/real/movies/a.mkv")),
        PathCheck::Allowed("/real/movies/a.mkv".to_string())
    );
    server.unregister_allowed_path(Some("/real/movies".to_string()), "/movies".to_string());
    assert_eq!(server.check_path(Some("/real/movies/a.mkv")), PathCheck::Forbidden);
}

#[test]
fn window_refuses_after_first_refusal_and_reset_allows_max_minus_one_more() {
    let now = std::time::Instant::now();
    let mut limiter = StreamRateLimiter::new(2);
    let answers: Vec<bool> = (0..5).map(|_| limiter.record_request(0, now)).collect();
    assert_eq!(answers, vec![true, true, false, false, false]);
    assert!(limiter.record_request(1, now));
    let after: Vec<bool> = (0..4).map(|_| limiter.record_request(0, now)).collect();
    assert_eq!(after, vec![true, false, false, false]);
}

#[test]
fn stream_url_path_decodes_back() {
    let server = MediaStreamServer::new(8080, None, "/cache".to_string());
    let path = "/movies/Amélie (2001)/a+b & c%.mkv";
    let url = server.get_stream_url(path);
    let prefix = "http://127.0.0.1:8080/stream?path=";
    assert!(url.starts_with(prefix));
    let decoded = urlencoding::decode(&url[prefix.len()..]).unwrap();
    assert_eq!(decoded, path);
}
