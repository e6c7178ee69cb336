use moviestream::tmdb::itunes_poster_for;
use moviestream::domain::MovieSort;
use moviestream::library::{
    genre_pattern, is_blank_query, movie_list_sql, search_patterns, source_display_name,
    FilterShape,
};
use moviestream::tmdb::{
    director_ignoring_case, episode_title, movie_details_url, movie_search_url, service_api_key,
    text_or, trending_title, trending_url_for, tv_details_url, tv_search_url, tv_season_url_for,
    TmdbSeasonSummary,
};

#[test]
fn sources_and_searches() {
    assert_eq!(source_display_name("/media/Movies"), "Movies");
    assert_eq!(source_display_name("/"), "/");
    assert!(is_blank_query("  \t "));
    assert!(!is_blank_query(" a "));
    let p = search_patterns("  heat ");
    assert_eq!(p.contains, "%heat%");
    assert_eq!(p.exact, "heat");
    assert_eq!(p.prefix, "heat%");
    assert_eq!(genre_pattern("Drama"), "%\"Drama\"%");
}

#[test]
fn movie_listing_query() {
    let none = FilterShape { genre: false, year: false, in_watchlist: None, watched: None, source: false, min_rating: false, is_available: None };
    let q = movie_list_sql(none, MovieSort::TitleAsc);
    assert!(q.starts_with("SELECT DISTINCT m.id"));
    assert!(q.ends_with("WHERE 1=1 ORDER BY m.title ASC"));
    let all = FilterShape { genre: true, year: true, in_watchlist: Some(false), watched: Some(true), source: true, min_rating: true, is_available: Some(false) };
    let q = movie_list_sql(all, MovieSort::RatingDesc);
    assert!(q.ends_with(
        "WHERE 1=1 AND m.genres LIKE ? AND m.year = ? AND w.movie_id IS NULL AND (ps.completed = 1 OR wh.completed_at IS NOT NULL) AND med.source_id = ? AND m.rating >= ? AND (med.availability = 'unavailable' OR med.id IS NULL) ORDER BY m.rating DESC NULLS LAST, m.title ASC"
    ));
}

#[test]
fn tmdb_requests() {
    assert_eq!(service_api_key(None, None, Some("tok".to_string())), Some("tok".to_string()));
    assert_eq!(service_api_key(Some("  ".to_string()), Some("k".to_string()), None), None);
    assert_eq!(service_api_key(None, Some("k".to_string()), Some("t".to_string())), Some("k".to_string()));
    assert_eq!(
        movie_search_url("K", "Heat", Some(1995)),
        "https://api.themoviedb.org/3/search/movie?api_key=K&query=Heat&include_adult=false&primary_release_year=1995"
    );
    assert_eq!(
        tv_search_url("K", "The Wire", None),
        "https://api.themoviedb.org/3/search/tv?api_key=K&query=The%20Wire&include_adult=false"
    );
    assert_eq!(movie_details_url(603, "K"), "https://api.themoviedb.org/3/movie/603?api_key=K&append_to_response=credits");
    assert_eq!(tv_details_url(1396, "K"), "https://api.themoviedb.org/3/tv/1396?api_key=K&append_to_response=credits");
    assert_eq!(tv_season_url_for(1396, 2, "K"), "https://api.themoviedb.org/3/tv/1396/season/2?api_key=K");
    assert_eq!(trending_url_for("tv", "K"), "https://api.themoviedb.org/3/trending/tv/week?api_key=K");
    assert_eq!(trending_url_for("anything", "K"), "https://api.themoviedb.org/3/trending/movie/week?api_key=K");
}

#[test]
fn tmdb_defaults() {
    assert_eq!(text_or(None, "Unknown"), "Unknown");
    assert_eq!(text_or(Some("X".to_string()), "Unknown"), "X");
    assert_eq!(trending_title(None, Some("Show".to_string())), "Show");
    assert_eq!(trending_title(None, None), "");
    assert_eq!(episode_title(None, 3), "Episode 3");
    let names = vec!["A".to_string(), "B".to_string()];
    let jobs = vec!["Writer".to_string(), "DIRECTOR".to_string()];
    assert_eq!(director_ignoring_case(&names, &jobs), Some("B".to_string()));
    let s = TmdbSeasonSummary::from_listing(7, 2, None, None, Some("/s.jpg".to_string()), None, None);
    assert_eq!(s.name, "Season 2");
    assert_eq!(s.poster_path, Some("https://image.tmdb.org/t/p/w500/s.jpg".to_string()));
    assert_eq!(s.episode_count, 0);
}

#[test]
fn itunes_thumbnails() {
    assert_eq!(itunes_poster_for("https://a/100x100bb.jpg"), "https://a/1000x1000bb.jpg");
    assert_eq!(itunes_poster_for("https://a/100x100bb.png"), "https://a/100x100bb.png");
}
