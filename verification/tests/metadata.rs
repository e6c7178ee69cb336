use moviestream::metadata_provider::{mock_candidate_id, mock_candidate_matches, mock_details_title, mock_synopsis};
use moviestream::domain::MetadataStatus;
use moviestream::metadata_provider::{next_search_action, SearchAction, SearchStage, ServiceReply};
use moviestream::metadata_provider::{
    details_source, director_of, first_names, itunes_candidate_id_for, itunes_lookup_url,
    itunes_search_url_for, local_candidate_id, offline_overview, provider_api_key,
    tmdb_backdrop_url_for, tmdb_candidate_id_for, tmdb_movie_details_url, tmdb_movie_id_of,
    tmdb_poster_url_for, tmdb_search_url_for, upgrade_artwork_url, year_from_release_date,
    CrewMember, DetailsSource,
};
use moviestream::metadata_resolver::{
    artwork_candidates, artwork_step, cached_artwork_name, first_existing, match_or_create,
    ArtworkStep, MovieDetails, MovieMatch, ResolvedMovie,
};

#[test]
fn release_years() {
    assert_eq!(year_from_release_date("1999-03-31"), Some(1999));
    assert_eq!(year_from_release_date("2010"), Some(2010));
    assert_eq!(year_from_release_date("soon-ish"), None);
    assert_eq!(year_from_release_date(""), None);
    assert_eq!(year_from_release_date("70000-01-01"), None);
}

#[test]
fn api_key_choice() {
    assert_eq!(provider_api_key(Some("k".to_string()), Some("e".to_string())), Some("k".to_string()));
    assert_eq!(provider_api_key(None, Some("e".to_string())), Some("e".to_string()));
    assert_eq!(provider_api_key(Some(String::new()), Some("e".to_string())), None);
    assert_eq!(provider_api_key(None, None), None);
}

#[test]
fn candidate_ids() {
    assert_eq!(tmdb_candidate_id_for(603), "tmdb-603");
    assert_eq!(itunes_candidate_id_for(Some(42)), "itunes-42");
    assert_eq!(itunes_candidate_id_for(None), "itunes-0");
    assert_eq!(local_candidate_id("The Big Lebowski"), "local-the-big-lebowski");
    assert_eq!(offline_overview("Heat"), "Movie entry for Heat");
}

#[test]
fn request_urls() {
    assert_eq!(
        tmdb_search_url_for("KEY", "Blade Runner", Some(1982)),
        "https://api.themoviedb.org/3/search/movie?api_key=KEY&query=Blade%20Runner&primary_release_year=1982"
    );
    assert_eq!(
        tmdb_search_url_for("KEY", "Heat", None),
        "https://api.themoviedb.org/3/search/movie?api_key=KEY&query=Heat"
    );
    assert_eq!(
        itunes_search_url_for("Up & Away", 5),
        "https://itunes.apple.com/search?media=movie&term=Up%20%26%20Away&limit=5"
    );
    assert_eq!(itunes_lookup_url("123"), "https://itunes.apple.com/lookup?id=123");
    assert_eq!(
        tmdb_movie_details_url("603", "K"),
        "https://api.themoviedb.org/3/movie/603?api_key=K&append_to_response=credits"
    );
}

#[test]
fn answers_become_records() {
    assert_eq!(tmdb_poster_url_for("/p.jpg"), "https://image.tmdb.org/t/p/w500/p.jpg");
    assert_eq!(tmdb_backdrop_url_for("/b.jpg"), "https://image.tmdb.org/t/p/original/b.jpg");
    assert_eq!(
        upgrade_artwork_url("https://x/100x100bb.jpg?a=100x100bb.png"),
        "https://x/1000x1000bb.jpg?a=1000x1000bb.png"
    );
    let names: Vec<String> = (1..=7).map(|i| format!("n{}", i)).collect();
    assert_eq!(first_names(&names, 5).len(), 5);
    assert_eq!(first_names(&names[..2], 5), vec!["n1".to_string(), "n2".to_string()]);
    let crew = vec![
        CrewMember { name: "A".to_string(), job: "director".to_string() },
        CrewMember { name: "B".to_string(), job: "Director".to_string() },
        CrewMember { name: "C".to_string(), job: "Director".to_string() },
    ];
    assert_eq!(director_of(&crew), Some("B".to_string()));
    assert_eq!(director_of(&crew[..1]), None);
}

#[test]
fn details_sources() {
    assert_eq!(
        details_source("local-the-big-lebowski"),
        DetailsSource::Offline { title: "the big lebowski".to_string() }
    );
    assert_eq!(details_source("local-local-x"), DetailsSource::Offline { title: "x".to_string() });
    assert_eq!(details_source("itunes-123"), DetailsSource::Itunes { track_id: "123".to_string() });
    assert_eq!(details_source("tmdb-603"), DetailsSource::Tmdb { movie_id: "603".to_string() });
    assert_eq!(details_source("603"), DetailsSource::Tmdb { movie_id: "603".to_string() });
    assert_eq!(tmdb_movie_id_of("itunes-9"), "itunes-9");
}

#[test]
fn local_artwork_candidates() {
    let c = artwork_candidates("/movies/Heat.1995.mkv").unwrap();
    assert_eq!(c.posters[0], "/movies/Heat.1995.jpg");
    assert_eq!(c.posters[2], "/movies/Heat.1995-poster.jpg");
    assert_eq!(c.posters[8], "/movies/folder.png");
    assert_eq!(c.backdrops[0], "/movies/Heat.1995-fanart.jpg");
    assert_eq!(c.backdrops[5], "/movies/fanart.png");
    assert!(artwork_candidates("/").is_none());
    let found = first_existing(&c.posters, &[false, false, true, true, false, false, false, false, false]);
    assert_eq!(found, Some("/movies/Heat.1995-poster.jpg".to_string()));
    assert_eq!(first_existing(&c.posters[..1], &[false]), None);
}

#[test]
fn resolved_movie_records() {
    assert_eq!(artwork_step(Some("/l.jpg".to_string()), Some("u".to_string())), ArtworkStep::UseLocal("/l.jpg".to_string()));
    assert_eq!(artwork_step(None, Some("u".to_string())), ArtworkStep::Download("u".to_string()));
    assert_eq!(artwork_step(None, None), ArtworkStep::Nothing);
    assert_eq!(cached_artwork_name("abc", "poster"), "abc_poster.jpg");

    let details = MovieDetails {
        id: "tmdb-1".to_string(),
        title: "Heat".to_string(),
        original_title: None,
        year: None,
        description: Some("d".to_string()),
        genres: vec!["Crime".to_string()],
        cast: vec![],
        director: Some("Mann".to_string()),
    };
    let m = ResolvedMovie::matched(details, Some(1995), Some("/p.jpg".to_string()), None);
    assert_eq!(m.year, Some(1995));
    assert_eq!(m.metadata_provider_id, Some("tmdb-1".to_string()));
    assert_eq!(m.metadata_status, MetadataStatus::AutoMatched);

    let mut u = ResolvedMovie::unmatched("heat", Some(1995), None, Some("/b.jpg".to_string()));
    assert_eq!(u.title, "heat");
    assert_eq!(u.metadata_status, MetadataStatus::Unmatched);
    let manual = MovieDetails {
        id: "itunes-2".to_string(),
        title: "Heat".to_string(),
        original_title: None,
        year: Some(1996),
        description: None,
        genres: vec![],
        cast: vec![],
        director: None,
    };
    u.apply_manual_match(manual, Some("/c.jpg".to_string()), None);
    assert_eq!(u.title, "Heat");
    assert_eq!(u.year, Some(1996));
    assert_eq!(u.poster_path, Some("/c.jpg".to_string()));
    assert_eq!(u.backdrop_path, Some("/b.jpg".to_string()));
    assert_eq!(u.metadata_status, MetadataStatus::ManuallyMatched);

    assert_eq!(match_or_create(Some(1), Some(2), 3), MovieMatch::Existing(1));
    assert_eq!(match_or_create(None, Some(2), 3), MovieMatch::Existing(2));
    assert_eq!(match_or_create(None, None, 3), MovieMatch::Create(3));
}

#[test]
fn offline_test_provider() {
    assert!(mock_candidate_matches("The Matrix", Some(1999), "matrix", Some(2000)));
    assert!(mock_candidate_matches("The Matrix", Some(1999), "MATRIX", None));
    assert!(!mock_candidate_matches("The Matrix", Some(1999), "matrix", Some(2001)));
    assert!(!mock_candidate_matches("Heat", None, "matrix", None));
    assert_eq!(mock_candidate_id("Blade Runner"), "mock-blade-runner");
    assert_eq!(mock_synopsis("Heat"), "Synopsis for Heat");
    assert_eq!(mock_details_title("mock-blade-runner"), "mock blade runner");
}

#[test]
fn search_order_tmdb_then_itunes_then_offline() {
    assert_eq!(next_search_action(SearchStage::Start, true, ServiceReply::NotAsked), SearchAction::AskTmdb);
    assert_eq!(next_search_action(SearchStage::Start, false, ServiceReply::NotAsked), SearchAction::AskItunes);
    assert_eq!(next_search_action(SearchStage::AfterTmdb, true, ServiceReply::Candidates(3)), SearchAction::ReturnCandidates);
    assert_eq!(next_search_action(SearchStage::AfterTmdb, true, ServiceReply::Candidates(0)), SearchAction::AskItunes);
    assert_eq!(next_search_action(SearchStage::AfterTmdb, true, ServiceReply::Unusable), SearchAction::AskItunes);
    assert_eq!(next_search_action(SearchStage::AfterTmdb, true, ServiceReply::Unreachable), SearchAction::Fail);
    assert_eq!(next_search_action(SearchStage::AfterItunes, true, ServiceReply::Candidates(1)), SearchAction::ReturnCandidates);
    assert_eq!(next_search_action(SearchStage::AfterItunes, false, ServiceReply::Candidates(0)), SearchAction::ReturnOffline);
    assert_eq!(next_search_action(SearchStage::AfterItunes, false, ServiceReply::Unreachable), SearchAction::ReturnOffline);
}
