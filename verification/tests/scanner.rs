use moviestream::scanner::next_episode_lookups;
use moviestream::domain::MediaAvailability;
use moviestream::local_fs::LocalFileSystemSource;
use moviestream::scanner::{
    episode_placeholder_for, find_number, mtimes_differ, season_name_for, supported_extensions,
    tmdb_provider_id_for, DiskFile, EpisodeDraft, EpisodeHit, FileAction, FileTime, KnownFile,
    ScanPlan, SeriesDraft, SeriesHit,
};

fn t(secs: i64, nanos: u32) -> FileTime {
    FileTime { secs, nanos }
}

fn known(path: &str, size: u64, mtime: FileTime, availability: MediaAvailability) -> KnownFile {
    KnownFile { path: path.to_string(), size_bytes: size, mtime, availability }
}

fn disk(path: &str, size: u64, mtime: FileTime) -> DiskFile {
    DiskFile { path: path.to_string(), size_bytes: size, mtime }
}

#[test]
fn modification_times_three_seconds_apart_differ() {
    assert!(!mtimes_differ(t(100, 0), t(102, 999_999_999)));
    assert!(mtimes_differ(t(100, 0), t(103, 0)));
    assert!(mtimes_differ(t(103, 0), t(100, 0)));
    assert!(!mtimes_differ(t(100, 500_000_000), t(103, 0)));
    assert!(mtimes_differ(t(-5, 0), t(-1, 0)));
}

#[test]
fn reconcile_classifies_every_file() {
    let known_files = vec![
        known("/m/a.mkv", 10, t(1000, 0), MediaAvailability::Available),
        known("/m/b.mkv", 20, t(1000, 0), MediaAvailability::Unavailable),
        known("/m/c.mkv", 30, t(1000, 0), MediaAvailability::Available),
        known("/m/gone.mkv", 40, t(1000, 0), MediaAvailability::Available),
    ];
    let disk_files = vec![
        disk("/m/a.mkv", 10, t(1001, 0)),
        disk("/m/b.mkv", 20, t(1000, 0)),
        disk("/m/c.mkv", 31, t(1000, 0)),
        disk("/m/new.mkv", 5, t(1000, 0)),
    ];
    let plan = ScanPlan::reconcile(&known_files, &disk_files);
    assert_eq!(
        plan.actions,
        vec![
            FileAction::Unchanged { existing: 0 },
            FileAction::MarkAvailable { existing: 1 },
            FileAction::Reanalyze { existing: 2 },
            FileAction::Add,
        ]
    );
    assert_eq!(plan.missing, vec![3]);
}

#[test]
fn reconcile_duplicate_paths() {
    let known_files = vec![
        known("/m/a.mkv", 1, t(0, 0), MediaAvailability::Available),
        known("/m/a.mkv", 2, t(0, 0), MediaAvailability::Available),
        known("/m/x.mkv", 3, t(0, 0), MediaAvailability::Available),
        known("/m/x.mkv", 4, t(0, 0), MediaAvailability::Available),
    ];
    let disk_files = vec![disk("/m/a.mkv", 2, t(0, 0)), disk("/m/a.mkv", 2, t(0, 0))];
    let plan = ScanPlan::reconcile(&known_files, &disk_files);
    // The later record for a path is the one kept; a second file with the same path is new.
    assert_eq!(plan.actions, vec![FileAction::Unchanged { existing: 1 }, FileAction::Add]);
    assert_eq!(plan.missing, vec![3]);
}

#[test]
fn reconcile_empty_disk_marks_everything_missing() {
    let known_files = vec![
        known("/m/a.mkv", 1, t(0, 0), MediaAvailability::Available),
        known("/m/b.mkv", 1, t(0, 0), MediaAvailability::Unavailable),
    ];
    let plan = ScanPlan::reconcile(&known_files, &[]);
    assert!(plan.actions.is_empty());
    assert_eq!(plan.missing, vec![0, 1]);
}

#[test]
fn names_for_new_records() {
    assert_eq!(season_name_for(2), "Season 2");
    assert_eq!(episode_placeholder_for(14), "Episode 14");
    assert_eq!(tmdb_provider_id_for(1399), "tmdb-1399");
    assert_eq!(tmdb_provider_id_for(-7), "tmdb--7");
    assert_eq!(find_number(&[3, 1, 2, 1], 1), Some(1));
    assert_eq!(find_number(&[3, 1], 9), None);
    assert_eq!(
        supported_extensions(),
        vec!["mkv", "mp4", "avi", "mov", "m4v", "webm", "flv", "ts", "wmv"]
    );
}

#[test]
fn series_and_episode_drafts() {
    let hit = SeriesHit {
        id: 1396,
        name: "Breaking Bad".to_string(),
        overview: Some("A teacher".to_string()),
        poster_path: Some("p".to_string()),
        backdrop_path: None,
    };
    let s = SeriesDraft::new("breaking bad", Some(2008), Some(hit));
    assert_eq!(s.tmdb_id, Some(1396));
    assert_eq!(s.title, "Breaking Bad");
    assert_eq!(s.genres, vec!["Drama".to_string()]);
    assert_eq!(s.metadata_provider_id, Some("tmdb-1396".to_string()));
    let u = SeriesDraft::new("Unknown Show", None, None);
    assert_eq!(u.tmdb_id, None);
    assert_eq!(u.title, "Unknown Show");
    assert!(u.genres.is_empty());
    assert_eq!(u.metadata_provider_id, None);
    let e = EpisodeDraft::new(4, None);
    assert_eq!(e.title, "Episode 4");
    let f = EpisodeDraft::new(
        4,
        Some(EpisodeHit { name: "Cancer Man".to_string(), overview: None, still_path: None, air_date: Some("2008-02-17".to_string()) }),
    );
    assert_eq!(f.title, "Cancer Man");
    assert_eq!(f.air_date, Some("2008-02-17".to_string()));
}

#[test]
fn local_files_that_are_scanned() {
    let source = LocalFileSystemSource::new();
    let exts = LocalFileSystemSource::normalize_extensions(&[".MKV", "mp4", "..avi"]);
    assert_eq!(exts, vec!["mkv".to_string(), "mp4".to_string(), "avi".to_string()]);
    assert_eq!(source.candidate_extension(false, "Film.MkV", "/m/Film.MkV", &exts), Some("mkv".to_string()));
    assert_eq!(source.candidate_extension(true, "dir.mkv", "/m/dir.mkv", &exts), None);
    assert_eq!(source.candidate_extension(false, ".hidden.mkv", "/m/.hidden.mkv", &exts), None);
    assert_eq!(source.candidate_extension(false, "notes.txt", "/m/notes.txt", &exts), None);
    assert_eq!(source.candidate_extension(false, "README", "/m/README", &exts), None);
}

#[test]
fn next_episode_is_looked_for_in_order() {
    assert_eq!(next_episode_lookups(2, 9), [(2, 10), (3, 1)]);
}
