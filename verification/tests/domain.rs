use moviestream::codec_names::fourcc_to_codec_name;
use moviestream::domain::{
    AppearanceSettings, ApplicationSettings, LibrarySettings, MediaAvailability, MediaType,
    MetadataStatus, SourceStatus,
};

#[test]
fn source_status_names_round_trip() {
    for s in [
        SourceStatus::Available,
        SourceStatus::Unavailable,
        SourceStatus::Scanning,
        SourceStatus::Indexing,
        SourceStatus::Inaccessible,
        SourceStatus::Disconnected,
    ] {
        assert_eq!(SourceStatus::from_name(&s.to_string()), s);
    }
    assert_eq!(SourceStatus::from_name("bogus"), SourceStatus::Available);
    assert_eq!(SourceStatus::Inaccessible.to_string(), "inaccessible");
}

#[test]
fn availability_and_metadata_status_names() {
    assert_eq!(MediaAvailability::Unavailable.to_string(), "unavailable");
    assert_eq!(MediaAvailability::from_name("unavailable"), MediaAvailability::Unavailable);
    assert_eq!(MediaAvailability::from_name("?"), MediaAvailability::Available);
    assert_eq!(MetadataStatus::AutoMatched.to_string(), "auto_matched");
    assert_eq!(MetadataStatus::from_name("manually_matched"), MetadataStatus::ManuallyMatched);
    assert_eq!(MetadataStatus::from_name("failed"), MetadataStatus::Failed);
    assert_eq!(MetadataStatus::from_name("nope"), MetadataStatus::Unmatched);
    assert_eq!("auto_matched".parse::<MetadataStatus>(), Ok(MetadataStatus::AutoMatched));
    assert_eq!(MediaType::Episode.to_string(), "episode");
    assert_eq!(MetadataStatus::default(), MetadataStatus::Unmatched);
}

#[test]
fn settings_defaults() {
    let l = LibrarySettings::default();
    assert!(l.scan_on_startup);
    assert!(l.default_locations.is_empty());
    let a = AppearanceSettings::default();
    assert_eq!(a.theme, "cinematic");
    assert!(a.animations_enabled);
    let app = ApplicationSettings::default();
    assert!(!app.launch_on_startup);
    assert!(app.notifications_enabled);
    assert_eq!(app.log_level, "info");
}

fn fourcc(s: &[u8; 4]) -> u32 {
    u32::from_le_bytes(*s)
}

#[test]
fn fourcc_codec_names() {
    assert_eq!(fourcc_to_codec_name(fourcc(b"avc1")), "H.264 / AVC");
    assert_eq!(fourcc_to_codec_name(fourcc(b"HEVC")), "H.265 / HEVC");
    assert_eq!(fourcc_to_codec_name(fourcc(b"mp4a")), "AAC");
    assert_eq!(fourcc_to_codec_name(fourcc(b"zzzz")), "ZZZZ");
    assert_eq!(fourcc_to_codec_name(0xffff_ffff), "0XFFFFFFFF");
}

#[test]
fn media_type_names_round_trip() {
    assert_eq!(MediaType::from_name(&MediaType::Movie.to_string()), MediaType::Movie);
    assert_eq!(MediaType::from_name(&MediaType::Episode.to_string()), MediaType::Episode);
    assert_eq!(MediaType::from_name("series"), MediaType::Movie);
    assert_eq!(MediaType::from_name("Episode"), MediaType::Movie);
}

#[test]
fn series_status_names_keep_only_the_matched_states() {
    assert_eq!(MetadataStatus::from_series_name("auto_matched"), MetadataStatus::AutoMatched);
    assert_eq!(MetadataStatus::from_series_name("manually_matched"), MetadataStatus::ManuallyMatched);
    assert_eq!(MetadataStatus::from_series_name("failed"), MetadataStatus::Unmatched);
    assert_eq!(MetadataStatus::from_name("failed"), MetadataStatus::Failed);
    assert_eq!(MetadataStatus::from_series_name(""), MetadataStatus::Unmatched);
}
