use moviestream::filename_parser::{FilenameParser, ParsedMediaType};

#[test]
fn parses_a_movie_file_name() {
    let p = FilenameParser::parse("The.Matrix.1999.1080p.BluRay.x264.mkv");
    assert_eq!(p.title_guess, "The Matrix");
    assert_eq!(p.year_guess, Some(1999));
    assert_eq!(p.resolution_guess, Some("1080P".to_string()));
    assert_eq!(p.edition_guess, None);
    assert_eq!(p.media_type, ParsedMediaType::Movie);
}

#[test]
fn parses_an_episode_file_name() {
    let p = FilenameParser::parse("Breaking.Bad.S01E02.720p.mkv");
    assert_eq!(p.title_guess, "Breaking Bad");
    assert_eq!(p.year_guess, None);
    assert_eq!(p.resolution_guess, Some("720P".to_string()));
    assert_eq!(p.media_type, ParsedMediaType::Episode { season_number: 1, episode_number: 2 });
}

#[test]
fn parses_other_episode_forms() {
    let p = FilenameParser::parse("Friends 3x07.avi");
    assert_eq!(p.media_type, ParsedMediaType::Episode { season_number: 3, episode_number: 7 });
    assert_eq!(p.title_guess, "Friends");
    let q = FilenameParser::parse("Lost Season 2 Episode 11.mp4");
    assert_eq!(q.media_type, ParsedMediaType::Episode { season_number: 2, episode_number: 11 });
    assert_eq!(q.title_guess, "Lost");
}

#[test]
fn parses_an_edition() {
    let p = FilenameParser::parse("Blade.Runner.1982.Directors.Cut.mkv");
    assert_eq!(p.edition_guess, Some("DIRECTORS CUT".to_string()));
    assert_eq!(p.year_guess, Some(1982));
    assert_eq!(p.title_guess, "Blade Runner");
}

#[test]
fn keeps_a_name_without_clues() {
    let p = FilenameParser::parse("holiday");
    assert_eq!(p.title_guess, "holiday");
    assert_eq!(p.year_guess, None);
    assert_eq!(p.resolution_guess, None);
    assert_eq!(p.media_type, ParsedMediaType::Movie);
}

#[test]
fn prefers_the_last_plausible_year() {
    let p = FilenameParser::parse("2001.A.Space.Odyssey.1968.mkv");
    assert_eq!(p.year_guess, Some(1968));
    assert_eq!(p.title_guess, "2001 A Space Odyssey");
}
