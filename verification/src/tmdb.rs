//! The TMDB catalogue service: its API key, the requests it sends and the
//! defaults it fills in where an answer leaves a field out.
use vstd::prelude::*;
use vstd::utf8::*;

use crate::metadata_provider::{opt_text, tmdb_poster_url, tmdb_poster_url_for};
use crate::scanner::{episode_placeholder_for, episode_placeholder_title, season_name, season_name_for};
use crate::text::{
    chars_are, chars_of, decimal_seq, replace_all, replace_all_exec, eq_ignore_ascii_case, eq_ignore_ascii_case_chars, owned,
    push_decimal, push_signed_decimal, push_str_chars, signed_decimal_seq, string_of, trim_chars,
    trim_seq,
};
use crate::url_encoding::{percent_encoded, url_encode};

verus! {

/// The key TMDB requests use: the configured one, else `TMDB_API_KEY`, else
/// `TMDB_API_TOKEN` from the environment, provided the one chosen is not
/// blank.
pub open spec fn service_key_choice(
    configured: Option<Seq<char>>,
    env_key: Option<Seq<char>>,
    env_token: Option<Seq<char>>,
) -> Option<Seq<char>> {
    let chosen = if configured is Some {
        configured
    } else if env_key is Some {
        env_key
    } else {
        env_token
    };
    match chosen {
        Some(k) => if trim_seq(k).len() > 0 {
            Some(k)
        } else {
            None
        },
        None => None,
    }
}

/// Chooses the key for TMDB requests.
pub fn service_api_key(
    configured: Option<String>,
    env_key: Option<String>,
    env_token: Option<String>,
) -> (r: Option<String>)
    ensures
        opt_text(r) == service_key_choice(
            opt_text(configured),
            opt_text(env_key),
            opt_text(env_token),
        ),
{
    let chosen = match configured {
        Some(k) => Some(k),
        None => match env_key {
            Some(k) => Some(k),
            None => env_token,
        },
    };
    match chosen {
        Some(k) => {
            let v = chars_of(k.as_str());
            let t = trim_chars(v.as_slice());
            if t.len() > 0 {
                Some(k)
            } else {
                None
            }
        },
        None => None,
    }
}

/// A TMDB search URL (`kind` is `movie` or `tv`), with the year filter named
/// `year_param` when a year is given.
pub open spec fn search_url(
    kind: Seq<char>,
    key: Seq<char>,
    query: Seq<char>,
    year_param: Seq<char>,
    year: Option<u16>,
) -> Seq<char> {
    "https://api.themoviedb.org/3/search/"@ + kind + "?api_key="@ + key + "&query="@
        + percent_encoded(encode_utf8(query)) + "&include_adult=false"@ + match year {
        Some(y) => "&"@ + year_param + "="@ + decimal_seq(y as nat),
        None => Seq::empty(),
    }
}

fn search_url_for(kind: &str, key: &str, query: &str, year_param: &str, year: Option<u16>) -> (r:
    String)
    ensures
        r@ == search_url(kind@, key@, query@, year_param@, year),
{
    let mut text: Vec<char> = Vec::new();
    push_str_chars(&mut text, "https://api.themoviedb.org/3/search/");
    push_str_chars(&mut text, kind);
    push_str_chars(&mut text, "?api_key=");
    push_str_chars(&mut text, key);
    push_str_chars(&mut text, "&query=");
    let encoded = url_encode(query);
    push_str_chars(&mut text, encoded.as_str());
    push_str_chars(&mut text, "&include_adult=false");
    match year {
        Some(y) => {
            push_str_chars(&mut text, "&");
            push_str_chars(&mut text, year_param);
            push_str_chars(&mut text, "=");
            push_decimal(&mut text, y as u64);
        },
        None => {},
    }
    let r = string_of(text.as_slice());
    assert(r@ =~= search_url(kind@, key@, query@, year_param@, year));
    r
}

/// The URL of a TMDB movie search.
pub fn movie_search_url(key: &str, query: &str, year: Option<u16>) -> (r: String)
    ensures
        r@ == search_url("movie"@, key@, query@, "primary_release_year"@, year),
{
    search_url_for("movie", key, query, "primary_release_year", year)
}

/// The URL of a TMDB series search.
pub fn tv_search_url(key: &str, query: &str, year: Option<u16>) -> (r: String)
    ensures
        r@ == search_url("tv"@, key@, query@, "first_air_date_year"@, year),
{
    search_url_for("tv", key, query, "first_air_date_year", year)
}

/// The URL of the TMDB details (with credits) of a movie (`kind` `movie`) or
/// a series (`kind` `tv`).
pub open spec fn details_url(kind: Seq<char>, id: i64, key: Seq<char>) -> Seq<char> {
    "https://api.themoviedb.org/3/"@ + kind + "/"@ + signed_decimal_seq(id as int) + "?api_key="@
        + key + "&append_to_response=credits"@
}

fn details_url_for(kind: &str, id: i64, key: &str) -> (r: String)
    ensures
        r@ == details_url(kind@, id, key@),
{
    let mut text: Vec<char> = Vec::new();
    push_str_chars(&mut text, "https://api.themoviedb.org/3/");
    push_str_chars(&mut text, kind);
    push_str_chars(&mut text, "/");
    push_signed_decimal(&mut text, id);
    push_str_chars(&mut text, "?api_key=");
    push_str_chars(&mut text, key);
    push_str_chars(&mut text, "&append_to_response=credits");
    let r = string_of(text.as_slice());
    assert(r@ =~= details_url(kind@, id, key@));
    r
}

/// The URL of the TMDB details of a movie.
pub fn movie_details_url(movie_id: i64, key: &str) -> (r: String)
    ensures
        r@ == details_url("movie"@, movie_id, key@),
{
    details_url_for("movie", movie_id, key)
}

/// The URL of the TMDB details of a series.
pub fn tv_details_url(series_id: i64, key: &str) -> (r: String)
    ensures
        r@ == details_url("tv"@, series_id, key@),
{
    details_url_for("tv", series_id, key)
}

/// The URL of the episodes of one season of a series.
pub open spec fn tv_season_url(series_id: i64, season_number: u32, key: Seq<char>) -> Seq<char> {
    "https://api.themoviedb.org/3/tv/"@ + signed_decimal_seq(series_id as int) + "/season/"@
        + decimal_seq(season_number as nat) + "?api_key="@ + key
}

/// The URL of the episodes of one season of a series.
pub fn tv_season_url_for(series_id: i64, season_number: u32, key: &str) -> (r: String)
    ensures
        r@ == tv_season_url(series_id, season_number, key@),
{
    let mut text: Vec<char> = Vec::new();
    push_str_chars(&mut text, "https://api.themoviedb.org/3/tv/");
    push_signed_decimal(&mut text, series_id);
    push_str_chars(&mut text, "/season/");
    push_decimal(&mut text, season_number as u64);
    push_str_chars(&mut text, "?api_key=");
    push_str_chars(&mut text, key);
    let r = string_of(text.as_slice());
    assert(r@ =~= tv_season_url(series_id, season_number, key@));
    r
}

/// The URL of the week's trending titles: series when `media_type` is `tv`,
/// movies otherwise.
pub open spec fn trending_url(media_type: Seq<char>, key: Seq<char>) -> Seq<char> {
    "https://api.themoviedb.org/3/trending/"@ + (if media_type == "tv"@ {
        "tv"@
    } else {
        "movie"@
    }) + "/week?api_key="@ + key
}

/// The URL of the week's trending titles.
pub fn trending_url_for(media_type: &str, key: &str) -> (r: String)
    ensures
        r@ == trending_url(media_type@, key@),
{
    let m = chars_of(media_type);
    let mut text: Vec<char> = Vec::new();
    push_str_chars(&mut text, "https://api.themoviedb.org/3/trending/");
    if chars_are(m.as_slice(), "tv") {
        push_str_chars(&mut text, "tv");
    } else {
        push_str_chars(&mut text, "movie");
    }
    push_str_chars(&mut text, "/week?api_key=");
    push_str_chars(&mut text, key);
    let r = string_of(text.as_slice());
    assert(r@ =~= trending_url(media_type@, key@));
    r
}

/// The text of an optional field, or `default` when it is missing.
pub fn text_or(field: Option<String>, default: &str) -> (r: String)
    ensures
        r@ == match field {
            Some(s) => s@,
            None => default@,
        },
{
    match field {
        Some(s) => s,
        None => owned(default),
    }
}

/// The title of a trending item: its movie title, else its series name, else
/// empty.
pub fn trending_title(title: Option<String>, name: Option<String>) -> (r: String)
    ensures
        r@ == match title {
            Some(t) => t@,
            None => match name {
                Some(n) => n@,
                None => Seq::empty(),
            },
        },
{
    match title {
        Some(t) => t,
        None => match name {
            Some(n) => n,
            None => String::new(),
        },
    }
}

/// The name of the first crew member whose job is `Director`, in any case.
pub fn director_ignoring_case(names: &[String], jobs: &[String]) -> (r: Option<String>)
    requires
        names.len() == jobs.len(),
    ensures
        match r {
            Some(n) => exists|i: int|
                0 <= i < jobs.len() && eq_ignore_ascii_case(jobs@[i]@, "Director"@) && n@
                    == names@[i]@ && forall|j: int|
                    0 <= j < i ==> !eq_ignore_ascii_case(jobs@[j]@, "Director"@),
            None => forall|j: int|
                0 <= j < jobs.len() ==> !eq_ignore_ascii_case(jobs@[j]@, "Director"@),
        },
{
    let director = chars_of("Director");
    let mut i: usize = 0;
    while i < jobs.len()
        invariant
            i <= jobs.len(),
            names.len() == jobs.len(),
            director@ == "Director"@,
            forall|j: int| 0 <= j < i ==> !eq_ignore_ascii_case(jobs@[j]@, "Director"@),
        decreases jobs.len() - i,
    {
        let job = chars_of(jobs[i].as_str());
        if eq_ignore_ascii_case_chars(job.as_slice(), director.as_slice()) {
            let n = names[i].clone();
            assert(eq_ignore_ascii_case(jobs@[i as int]@, "Director"@) && n@ == names@[i as int]@);
            return Some(n);
        }
        i = i + 1;
    }
    None
}

/// One season of a series, as listed in the series details.
#[derive(Debug, Clone, PartialEq, Eq)]
pub struct TmdbSeasonSummary {
    pub id: i64,
    pub season_number: u32,
    pub name: String,
    pub overview: Option<String>,
    pub poster_path: Option<String>,
    pub episode_count: u32,
    pub air_date: Option<String>,
}

impl TmdbSeasonSummary {
    /// A season as listed by TMDB: a missing name becomes `Season N`, the
    /// poster path becomes a full image URL and a missing episode count 0.
    pub fn from_listing(
        id: i64,
        season_number: u32,
        name: Option<String>,
        overview: Option<String>,
        poster_path: Option<String>,
        episode_count: Option<u32>,
        air_date: Option<String>,
    ) -> (r: TmdbSeasonSummary)
        ensures
            r.id == id,
            r.season_number == season_number,
            r.name@ == match name {
                Some(n) => n@,
                None => season_name(season_number),
            },
            r.overview == overview,
            opt_text(r.poster_path) == match poster_path {
                Some(p) => Some(tmdb_poster_url(p@)),
                None => None,
            },
            r.episode_count == match episode_count {
                Some(c) => c,
                None => 0,
            },
            r.air_date == air_date,
    {
        let name = match name {
            Some(n) => n,
            None => season_name_for(season_number),
        };
        let poster_path = match poster_path {
            Some(p) => Some(tmdb_poster_url_for(p.as_str())),
            None => None,
        };
        TmdbSeasonSummary {
            id,
            season_number,
            name,
            overview,
            poster_path,
            episode_count: match episode_count {
                Some(c) => c,
                None => 0,
            },
            air_date,
        }
    }
}

/// The title of an episode as listed by TMDB: its name, else `Episode N`.
pub fn episode_title(name: Option<String>, episode_number: u32) -> (r: String)
    ensures
        r@ == match name {
            Some(n) => n@,
            None => episode_placeholder_title(episode_number),
        },
{
    match name {
        Some(n) => n,
        None => episode_placeholder_for(episode_number),
    }
}

/// An iTunes thumbnail URL upgraded to the 1000x1000 JPEG image.
pub open spec fn itunes_poster(url: Seq<char>) -> Seq<char> {
    replace_all(url, "100x100bb.jpg"@, "1000x1000bb.jpg"@)
}

/// The poster used for an iTunes search result.
pub fn itunes_poster_for(url: &str) -> (r: String)
    ensures
        r@ == itunes_poster(url@),
{
    proof {
        reveal_strlit("100x100bb.jpg");
    }
    replace_all_exec(url, "100x100bb.jpg", "1000x1000bb.jpg")
}

} // verus!
