//! The online movie metadata provider: the ids it gives its candidates, the
//! requests it sends, and what it makes of the answers (TMDB when an API key
//! is configured, the iTunes search otherwise, and an offline entry last).
use vstd::prelude::*;
use vstd::utf8::*;

use crate::text::{
    chars_of, contains_lit, contains_seq, has_prefix, lowercase_of, parse_unsigned, parse_unsigned_exec, push_decimal,
    push_signed_decimal, push_str_chars, replace_all, replace_all_exec, replace_chars,
    replace_chars_exec, signed_decimal_seq, decimal_seq, starts_with_chars, string_of,
    to_lowercase,
};
use crate::url_encoding::{percent_encoded, url_encode};

verus! {

// ---------------------------------------------------------------------------
// Small text helpers
// ---------------------------------------------------------------------------

/// Position of the first `c` in `s` (its length when there is none).
pub open spec fn index_or_len(s: Seq<char>, c: char) -> nat
    decreases s.len(),
{
    if s.len() == 0 || s[0] == c {
        0
    } else {
        1 + index_or_len(s.drop_first(), c)
    }
}

proof fn lemma_index_or_len(t: Seq<char>, c: char, m: int)
    requires
        0 <= m <= t.len(),
        forall|k: int| 0 <= k < m ==> t[k] != c,
        m == t.len() || t[m] == c,
    ensures
        index_or_len(t, c) == m,
    decreases m,
{
    if m > 0 {
        lemma_index_or_len(t.drop_first(), c, m - 1);
    }
}

/// `s` without leading repetitions of `pat` (`str::trim_start_matches` with a
/// non-empty string pattern).
pub open spec fn trim_prefix_repeated(s: Seq<char>, pat: Seq<char>) -> Seq<char>
    decreases s.len(),
{
    if pat.len() > 0 && has_prefix(s, pat) {
        trim_prefix_repeated(s.skip(pat.len() as int), pat)
    } else {
        s
    }
}

/// `str::trim_start_matches` with a non-empty literal pattern.
pub fn trim_prefix_repeated_exec(s: &str, pat: &str) -> (r: String)
    requires
        pat@.len() > 0,
    ensures
        r@ == trim_prefix_repeated(s@, pat@),
{
    let v = chars_of(s);
    let p = chars_of(pat);
    let mut i: usize = 0;
    assert(v@.skip(0) =~= v@);
    while crate::text::occurs_at_exec(v.as_slice(), p.as_slice(), i)
        invariant
            i <= v.len(),
            v@ == s@,
            p@ == pat@,
            p@.len() > 0,
            trim_prefix_repeated(v@.skip(i as int), p@) == trim_prefix_repeated(s@, pat@),
        decreases v.len() - i,
    {
        let ghost t = v@.skip(i as int);
        assert(t.subrange(0, p@.len() as int) =~= v@.subrange(i as int, i + p@.len()));
        assert(t.skip(p@.len() as int) =~= v@.skip(i + p@.len()));
        i = i + p.len();
    }
    let ghost t = v@.skip(i as int);
    assert(!has_prefix(t, p@)) by {
        if has_prefix(t, p@) {
            assert(t.subrange(0, p@.len() as int) =~= v@.subrange(i as int, i + p@.len()));
        }
    }
    let rest = vstd::slice::slice_subrange(v.as_slice(), i, v.len());
    assert(rest@ =~= t);
    string_of(rest)
}

/// The year at the start of a release date (`YYYY-MM-DD`): the text before
/// the first `-`, read as a `u16`.
pub open spec fn year_of_release_date(d: Seq<char>) -> Option<nat> {
    parse_unsigned(d.take(index_or_len(d, '-') as int), u16::MAX as nat)
}

/// The year at the start of a release date, when it reads as a `u16`.
pub fn year_from_release_date(d: &str) -> (r: Option<u16>)
    ensures
        match year_of_release_date(d@) {
            Some(y) => r == Some(y as u16),
            None => r is None,
        },
{
    let v = chars_of(d);
    let mut i: usize = 0;
    while i < v.len() && v[i] != '-'
        invariant
            i <= v.len(),
            forall|k: int| 0 <= k < i ==> v@[k] != '-',
        decreases v.len() - i,
    {
        i = i + 1;
    }
    proof {
        lemma_index_or_len(v@, '-', i as int);
    }
    let head = vstd::slice::slice_subrange(v.as_slice(), 0, i);
    assert(head@ =~= d@.take(i as int));
    match parse_unsigned_exec(head, u16::MAX as u64) {
        Some(y) => Some(y as u16),
        None => None,
    }
}

// ---------------------------------------------------------------------------
// API keys
// ---------------------------------------------------------------------------

/// The key the provider uses: the configured one, else the one from the
/// environment, provided the one chosen is not empty.
pub open spec fn provider_key_choice(
    configured: Option<Seq<char>>,
    env_key: Option<Seq<char>>,
) -> Option<Seq<char>> {
    let chosen = if configured is Some {
        configured
    } else {
        env_key
    };
    match chosen {
        Some(k) => if k.len() > 0 {
            Some(k)
        } else {
            None
        },
        None => None,
    }
}

/// The optional text behind an optional `String`.
pub open spec fn opt_text(o: Option<String>) -> Option<Seq<char>> {
    match o {
        Some(s) => Some(s@),
        None => None,
    }
}

/// Chooses the provider's API key from the configured key and the value of
/// `TMDB_API_KEY` in the environment.
pub fn provider_api_key(configured: Option<String>, env_key: Option<String>) -> (r: Option<String>)
    ensures
        opt_text(r) == provider_key_choice(opt_text(configured), opt_text(env_key)),
{
    let chosen = match configured {
        Some(k) => Some(k),
        None => env_key,
    };
    match chosen {
        Some(k) => if k.as_str().as_bytes().len() > 0 {
            proof {
                assert(k@.len() > 0) by {
                    if k@.len() == 0 {
                        assert(k@ =~= Seq::<char>::empty());
                    }
                }
            }
            Some(k)
        } else {
            proof {
                if k@.len() > 0 {
                    assert(encode_utf8(k@).len() > 0) by {
                        assert(k@ =~= seq![k@[0]] + k@.drop_first());
                        lemma_encode_nonempty(k@);
                    }
                }
            }
            None
        },
        None => None,
    }
}

proof fn lemma_encode_nonempty(s: Seq<char>)
    requires
        s.len() > 0,
    ensures
        encode_utf8(s).len() > 0,
{
    reveal_with_fuel(encode_utf8, 2);
}

// ---------------------------------------------------------------------------
// The order in which a search asks the services
// ---------------------------------------------------------------------------

/// How far a search has gone.
#[derive(Debug, Clone, Copy, PartialEq, Eq)]
pub enum SearchStage {
    /// Nothing asked yet.
    Start,
    /// TMDB answered (or failed to).
    AfterTmdb,
    /// The iTunes search answered (or failed to).
    AfterItunes,
}

/// What the service asked last gave back.
#[derive(Debug, Clone, Copy, PartialEq, Eq)]
pub enum ServiceReply {
    /// Nothing yet (before the first request).
    NotAsked,
    /// The request could not be sent or got no response.
    Unreachable,
    /// A response that was not a success, or whose body could not be read.
    Unusable,
    /// A readable answer with this many candidates.
    Candidates(usize),
}

/// What a search does next.
#[derive(Debug, Clone, Copy, PartialEq, Eq)]
pub enum SearchAction {
    /// Send the TMDB search request.
    AskTmdb,
    /// Send the iTunes search request.
    AskItunes,
    /// Return the candidates of the last answer.
    ReturnCandidates,
    /// Return the single offline candidate made from the title.
    ReturnOffline,
    /// Fail with the network error of the last request.
    Fail,
}

/// The next step of a search: TMDB first when a key is configured, the
/// iTunes search otherwise or when TMDB gives nothing usable, and the offline
/// candidate when iTunes gives nothing either.  Only a TMDB request that
/// cannot be sent fails the search.
pub open spec fn search_action(stage: SearchStage, has_key: bool, reply: ServiceReply) -> SearchAction {
    match stage {
        SearchStage::Start => if has_key {
            SearchAction::AskTmdb
        } else {
            SearchAction::AskItunes
        },
        SearchStage::AfterTmdb => match reply {
            ServiceReply::Unreachable => SearchAction::Fail,
            ServiceReply::Candidates(n) => if n > 0 {
                SearchAction::ReturnCandidates
            } else {
                SearchAction::AskItunes
            },
            _ => SearchAction::AskItunes,
        },
        SearchStage::AfterItunes => match reply {
            ServiceReply::Candidates(n) => if n > 0 {
                SearchAction::ReturnCandidates
            } else {
                SearchAction::ReturnOffline
            },
            _ => SearchAction::ReturnOffline,
        },
    }
}

/// Decides the next step of a search from where it stands, whether an API
/// key is configured, and what the last service gave back.
pub fn next_search_action(stage: SearchStage, has_key: bool, reply: ServiceReply) -> (r: SearchAction)
    ensures
        r == search_action(stage, has_key, reply),
{
    match stage {
        SearchStage::Start => if has_key {
            SearchAction::AskTmdb
        } else {
            SearchAction::AskItunes
        },
        SearchStage::AfterTmdb => match reply {
            ServiceReply::Unreachable => SearchAction::Fail,
            ServiceReply::Candidates(n) => if n > 0 {
                SearchAction::ReturnCandidates
            } else {
                SearchAction::AskItunes
            },
            _ => SearchAction::AskItunes,
        },
        SearchStage::AfterItunes => match reply {
            ServiceReply::Candidates(n) => if n > 0 {
                SearchAction::ReturnCandidates
            } else {
                SearchAction::ReturnOffline
            },
            _ => SearchAction::ReturnOffline,
        },
    }
}

/// Without an API key a search needs no configuration and always answers:
/// it asks only the iTunes search, and then returns candidates, whatever
/// iTunes replied.
pub proof fn search_without_key_always_answers(first: ServiceReply, itunes: ServiceReply)
    ensures
        search_action(SearchStage::Start, false, first) == SearchAction::AskItunes,
        search_action(SearchStage::AfterItunes, false, itunes) == SearchAction::ReturnCandidates
            || search_action(SearchStage::AfterItunes, false, itunes)
            == SearchAction::ReturnOffline,
{
}

/// A search never asks a service twice and ends after at most two requests:
/// after the iTunes search it always returns.
pub proof fn search_ends_after_itunes(has_key: bool, reply: ServiceReply)
    ensures
        search_action(SearchStage::AfterItunes, has_key, reply) != SearchAction::AskTmdb,
        search_action(SearchStage::AfterItunes, has_key, reply) != SearchAction::AskItunes,
        search_action(SearchStage::AfterItunes, has_key, reply) != SearchAction::Fail,
        search_action(SearchStage::AfterTmdb, has_key, reply) != SearchAction::AskTmdb,
{
}

// ---------------------------------------------------------------------------
// Candidate ids
// ---------------------------------------------------------------------------

/// `tmdb-ID`.
pub open spec fn tmdb_candidate_id(id: i64) -> Seq<char> {
    "tmdb-"@ + signed_decimal_seq(id as int)
}

/// `itunes-ID`, with 0 for a missing track id.
pub open spec fn itunes_candidate_id(track_id: Option<i64>) -> Seq<char> {
    "itunes-"@ + signed_decimal_seq(
        match track_id {
            Some(t) => t as int,
            None => 0,
        },
    )
}

/// `PREFIX` followed by the lowercased title with spaces turned into dashes.
pub open spec fn slug_id(prefix: Seq<char>, title: Seq<char>) -> Seq<char> {
    prefix + replace_chars(lowercase_of(title), seq![' '], '-')
}

fn prefixed_signed(prefix: &str, n: i64) -> (r: String)
    ensures
        r@ == prefix@ + signed_decimal_seq(n as int),
{
    let mut text: Vec<char> = Vec::new();
    push_str_chars(&mut text, prefix);
    push_signed_decimal(&mut text, n);
    string_of(text.as_slice())
}

/// The id of a TMDB search result.
pub fn tmdb_candidate_id_for(id: i64) -> (r: String)
    ensures
        r@ == tmdb_candidate_id(id),
{
    prefixed_signed("tmdb-", id)
}

/// The id of an iTunes search result.
pub fn itunes_candidate_id_for(track_id: Option<i64>) -> (r: String)
    ensures
        r@ == itunes_candidate_id(track_id),
{
    let id = match track_id {
        Some(t) => t,
        None => 0,
    };
    prefixed_signed("itunes-", id)
}

/// `prefix` followed by the slug of `title`.
pub fn slug_id_for(prefix: &str, title: &str) -> (r: String)
    ensures
        r@ == slug_id(prefix@, title@),
{
    let lower = to_lowercase(title);
    let l = chars_of(lower.as_str());
    let space = vec![' '];
    assert(space@ =~= seq![' ']);
    let dashed = replace_chars_exec(l.as_slice(), space.as_slice(), '-');
    let mut text: Vec<char> = Vec::new();
    push_str_chars(&mut text, prefix);
    let mut rest = dashed;
    text.append(&mut rest);
    string_of(text.as_slice())
}

/// The id of the offline entry made for a title no service knew.
pub fn local_candidate_id(title: &str) -> (r: String)
    ensures
        r@ == slug_id("local-"@, title@),
{
    slug_id_for("local-", title)
}

/// The overview of the offline entry made for a title.
pub fn offline_overview(title: &str) -> (r: String)
    ensures
        r@ == "Movie entry for "@ + title@,
{
    let mut text: Vec<char> = Vec::new();
    push_str_chars(&mut text, "Movie entry for ");
    push_str_chars(&mut text, title);
    string_of(text.as_slice())
}

// ---------------------------------------------------------------------------
// Requests
// ---------------------------------------------------------------------------

/// The TMDB movie search URL.
pub open spec fn tmdb_search_url(key: Seq<char>, query: Seq<char>, year: Option<u16>) -> Seq<char> {
    "https://api.themoviedb.org/3/search/movie?api_key="@ + key + "&query="@ + percent_encoded(
        encode_utf8(query),
    ) + match year {
        Some(y) => "&primary_release_year="@ + decimal_seq(y as nat),
        None => Seq::empty(),
    }
}

/// The URL of the provider's TMDB movie search.
pub fn tmdb_search_url_for(key: &str, query: &str, year: Option<u16>) -> (r: String)
    ensures
        r@ == tmdb_search_url(key@, query@, year),
{
    let mut text: Vec<char> = Vec::new();
    push_str_chars(&mut text, "https://api.themoviedb.org/3/search/movie?api_key=");
    push_str_chars(&mut text, key);
    push_str_chars(&mut text, "&query=");
    let encoded = url_encode(query);
    push_str_chars(&mut text, encoded.as_str());
    match year {
        Some(y) => {
            push_str_chars(&mut text, "&primary_release_year=");
            push_decimal(&mut text, y as u64);
        },
        None => {},
    }
    let r = string_of(text.as_slice());
    assert(r@ =~= tmdb_search_url(key@, query@, year));
    r
}

/// The iTunes movie search URL, for at most `limit` results.
pub open spec fn itunes_search_url(query: Seq<char>, limit: u32) -> Seq<char> {
    "https://itunes.apple.com/search?media=movie&term="@ + percent_encoded(encode_utf8(query))
        + "&limit="@ + decimal_seq(limit as nat)
}

/// The URL of an iTunes movie search.
pub fn itunes_search_url_for(query: &str, limit: u32) -> (r: String)
    ensures
        r@ == itunes_search_url(query@, limit),
{
    let mut text: Vec<char> = Vec::new();
    push_str_chars(&mut text, "https://itunes.apple.com/search?media=movie&term=");
    let encoded = url_encode(query);
    push_str_chars(&mut text, encoded.as_str());
    push_str_chars(&mut text, "&limit=");
    push_decimal(&mut text, limit as u64);
    let r = string_of(text.as_slice());
    assert(r@ =~= itunes_search_url(query@, limit));
    r
}

/// The URL of an iTunes lookup by id.
pub fn itunes_lookup_url(id: &str) -> (r: String)
    ensures
        r@ == "https://itunes.apple.com/lookup?id="@ + id@,
{
    let mut text: Vec<char> = Vec::new();
    push_str_chars(&mut text, "https://itunes.apple.com/lookup?id=");
    push_str_chars(&mut text, id);
    string_of(text.as_slice())
}

/// The URL of the TMDB details of a movie, with its credits.
pub fn tmdb_movie_details_url(movie_id: &str, key: &str) -> (r: String)
    ensures
        r@ == "https://api.themoviedb.org/3/movie/"@ + movie_id@ + "?api_key="@ + key@
            + "&append_to_response=credits"@,
{
    let mut text: Vec<char> = Vec::new();
    push_str_chars(&mut text, "https://api.themoviedb.org/3/movie/");
    push_str_chars(&mut text, movie_id);
    push_str_chars(&mut text, "?api_key=");
    push_str_chars(&mut text, key);
    push_str_chars(&mut text, "&append_to_response=credits");
    let r = string_of(text.as_slice());
    assert(r@ =~= "https://api.themoviedb.org/3/movie/"@ + movie_id@ + "?api_key="@ + key@
        + "&append_to_response=credits"@);
    r
}

// ---------------------------------------------------------------------------
// Answers
// ---------------------------------------------------------------------------

/// A TMDB poster path as a full image URL.
pub open spec fn tmdb_poster_url(path: Seq<char>) -> Seq<char> {
    "https://image.tmdb.org/t/p/w500"@ + path
}

/// A TMDB backdrop path as a full image URL.
pub open spec fn tmdb_backdrop_url(path: Seq<char>) -> Seq<char> {
    "https://image.tmdb.org/t/p/original"@ + path
}

/// The full poster URL for a TMDB poster path.
pub fn tmdb_poster_url_for(path: &str) -> (r: String)
    ensures
        r@ == tmdb_poster_url(path@),
{
    let mut text: Vec<char> = Vec::new();
    push_str_chars(&mut text, "https://image.tmdb.org/t/p/w500");
    push_str_chars(&mut text, path);
    string_of(text.as_slice())
}

/// The full backdrop URL for a TMDB backdrop path.
pub fn tmdb_backdrop_url_for(path: &str) -> (r: String)
    ensures
        r@ == tmdb_backdrop_url(path@),
{
    let mut text: Vec<char> = Vec::new();
    push_str_chars(&mut text, "https://image.tmdb.org/t/p/original");
    push_str_chars(&mut text, path);
    string_of(text.as_slice())
}

/// An iTunes artwork URL upgraded from the 100x100 thumbnail to the
/// 1000x1000 image (JPEG and PNG).
pub open spec fn upgraded_artwork(url: Seq<char>) -> Seq<char> {
    replace_all(
        replace_all(url, "100x100bb.jpg"@, "1000x1000bb.jpg"@),
        "100x100bb.png"@,
        "1000x1000bb.png"@,
    )
}

proof fn lemma_artwork_literals()
    ensures
        "100x100bb.jpg"@.len() > 0,
        "100x100bb.png"@.len() > 0,
{
    reveal_strlit("100x100bb.jpg");
    reveal_strlit("100x100bb.png");
}

/// The high-resolution version of an iTunes artwork URL.
pub fn upgrade_artwork_url(url: &str) -> (r: String)
    ensures
        r@ == upgraded_artwork(url@),
{
    proof {
        lemma_artwork_literals();
    }
    let jpg = replace_all_exec(url, "100x100bb.jpg", "1000x1000bb.jpg");
    replace_all_exec(jpg.as_str(), "100x100bb.png", "1000x1000bb.png")
}

/// The first `n` names.
pub fn first_names(names: &[String], n: usize) -> (r: Vec<String>)
    ensures
        r@.len() == if names.len() < n {
            names.len()
        } else {
            n
        },
        forall|i: int| 0 <= i < r@.len() ==> r@[i]@ == names@[i]@,
{
    let mut out: Vec<String> = Vec::new();
    let mut i: usize = 0;
    while i < names.len() && i < n
        invariant
            i <= names.len(),
            i <= n,
            out@.len() == i,
            forall|k: int| 0 <= k < i ==> out@[k]@ == names@[k]@,
        decreases names.len() - i,
    {
        out.push(names[i].clone());
        i = i + 1;
    }
    out
}

/// A member of a film crew.
pub struct CrewMember {
    pub name: String,
    pub job: String,
}

/// Index of the first crew member whose job is exactly `Director`.
pub open spec fn first_director(crew: Seq<(Seq<char>, Seq<char>)>) -> Option<int> {
    if exists|i: int| 0 <= i < crew.len() && crew[i].1 == "Director"@ {
        Some(choose|i: int| 0 <= i < crew.len() && crew[i].1 == "Director"@ && forall|j: int|
            0 <= j < i ==> crew[j].1 != "Director"@)
    } else {
        None
    }
}

/// Name and job of each crew member.
pub open spec fn crew_view(crew: Seq<CrewMember>) -> Seq<(Seq<char>, Seq<char>)> {
    crew.map_values(|m: CrewMember| (m.name@, m.job@))
}

/// The name of the first crew member whose job is `Director`.
pub fn director_of(crew: &[CrewMember]) -> (r: Option<String>)
    ensures
        match first_director(crew_view(crew@)) {
            Some(i) => r matches Some(n) && n@ == crew_view(crew@)[i].0,
            None => r is None,
        },
{
    let ghost cv = crew_view(crew@);
    let mut i: usize = 0;
    while i < crew.len()
        invariant
            i <= crew.len(),
            cv == crew_view(crew@),
            forall|j: int| 0 <= j < i ==> cv[j].1 != "Director"@,
        decreases crew.len() - i,
    {
        let job = chars_of(crew[i].job.as_str());
        if crate::text::chars_are(job.as_slice(), "Director") {
            assert(cv[i as int].1 == "Director"@);
            let ghost w = i as int;
            assert(0 <= w < cv.len() && cv[w].1 == "Director"@ && forall|j: int|
                0 <= j < w ==> cv[j].1 != "Director"@);
            let ghost c = choose|k: int| 0 <= k < cv.len() && cv[k].1 == "Director"@ && forall|j: int|
                0 <= j < k ==> cv[j].1 != "Director"@;
            assert(c == w) by {
                if c < w {
                } else if c > w {
                    assert(cv[w].1 != "Director"@);
                }
            }
            return Some(crew[i].name.clone());
        }
        i = i + 1;
    }
    None
}

// ---------------------------------------------------------------------------
// Details by provider id
// ---------------------------------------------------------------------------

/// Where the details of a candidate come from, by the form of its id.
#[derive(Debug, Clone, PartialEq, Eq)]
pub enum DetailsSource {
    /// An offline entry: its title is recovered from the id.
    Offline { title: String },
    /// An iTunes track, looked up by its id.
    Itunes { track_id: String },
    /// A TMDB movie, by its numeric id.
    Tmdb { movie_id: String },
}

/// The title of an offline entry: the id without its leading `local-`
/// prefixes, dashes turned back into spaces.
pub open spec fn offline_title(id: Seq<char>) -> Seq<char> {
    replace_chars(trim_prefix_repeated(id, "local-"@), seq!['-'], ' ')
}

/// The TMDB movie id in a provider id: the id without its leading `tmdb-`
/// prefixes.
pub open spec fn tmdb_movie_id(id: Seq<char>) -> Seq<char> {
    trim_prefix_repeated(id, "tmdb-"@)
}

proof fn lemma_prefix_literals()
    ensures
        "local-"@ == seq!['l', 'o', 'c', 'a', 'l', '-'],
        "itunes-"@ == seq!['i', 't', 'u', 'n', 'e', 's', '-'],
        "tmdb-"@ == seq!['t', 'm', 'd', 'b', '-'],
{
    reveal_strlit("local-");
    reveal_strlit("itunes-");
    reveal_strlit("tmdb-");
}

/// The TMDB movie id named by a provider id (used when the id is neither an
/// offline nor an iTunes one, and when an iTunes lookup finds nothing).
pub fn tmdb_movie_id_of(provider_id: &str) -> (r: String)
    ensures
        r@ == tmdb_movie_id(provider_id@),
{
    proof {
        lemma_prefix_literals();
    }
    trim_prefix_repeated_exec(provider_id, "tmdb-")
}

/// Decides where the details of a candidate are looked up, from its id.
pub fn details_source(provider_id: &str) -> (r: DetailsSource)
    ensures
        has_prefix(provider_id@, "local-"@) ==> (r matches DetailsSource::Offline { title }
            && title@ == offline_title(provider_id@)),
        !has_prefix(provider_id@, "local-"@) && has_prefix(provider_id@, "itunes-"@) ==> (
        r matches DetailsSource::Itunes { track_id } && track_id@ == provider_id@.skip(7)),
        !has_prefix(provider_id@, "local-"@) && !has_prefix(provider_id@, "itunes-"@) ==> (
        r matches DetailsSource::Tmdb { movie_id } && movie_id@ == tmdb_movie_id(provider_id@)),
{
    proof {
        lemma_prefix_literals();
    }
    let id = chars_of(provider_id);
    let local = chars_of("local-");
    let itunes = chars_of("itunes-");
    if starts_with_chars(id.as_slice(), local.as_slice()) {
        let trimmed = trim_prefix_repeated_exec(provider_id, "local-");
        let t = chars_of(trimmed.as_str());
        let dash = vec!['-'];
        assert(dash@ =~= seq!['-']);
        let title = replace_chars_exec(t.as_slice(), dash.as_slice(), ' ');
        DetailsSource::Offline { title: string_of(title.as_slice()) }
    } else if starts_with_chars(id.as_slice(), itunes.as_slice()) {
        let rest = vstd::slice::slice_subrange(id.as_slice(), 7, id.len());
        assert(rest@ =~= provider_id@.skip(7));
        DetailsSource::Itunes { track_id: string_of(rest) }
    } else {
        DetailsSource::Tmdb { movie_id: tmdb_movie_id_of(provider_id) }
    }
}

// ---------------------------------------------------------------------------
// The offline test provider
// ---------------------------------------------------------------------------

/// Whether a known candidate answers a search: its title, lowercased,
/// contains the lowercased query, and the years, when both are known, are at
/// most one apart.
pub open spec fn mock_matches(
    candidate_title: Seq<char>,
    candidate_year: Option<u16>,
    title_guess: Seq<char>,
    year_guess: Option<u16>,
) -> bool {
    &&& contains_seq(lowercase_of(candidate_title), lowercase_of(title_guess))
    &&& match (year_guess, candidate_year) {
        (Some(y1), Some(y2)) => -1 <= y1 - y2 <= 1,
        _ => true,
    }
}

/// Whether a candidate of the offline test provider answers a search.
pub fn mock_candidate_matches(
    candidate_title: &str,
    candidate_year: Option<u16>,
    title_guess: &str,
    year_guess: Option<u16>,
) -> (r: bool)
    ensures
        r == mock_matches(candidate_title@, candidate_year, title_guess@, year_guess),
{
    let title = to_lowercase(candidate_title);
    let query = to_lowercase(title_guess);
    let t = chars_of(title.as_str());
    let matches_title = contains_lit(t.as_slice(), query.as_str());
    let matches_year = match (year_guess, candidate_year) {
        (Some(y1), Some(y2)) => {
            let d: i32 = y1 as i32 - y2 as i32;
            -1 <= d && d <= 1
        },
        _ => true,
    };
    matches_title && matches_year
}

/// The id of the entry the test provider makes up for an unknown title.
pub fn mock_candidate_id(title: &str) -> (r: String)
    ensures
        r@ == slug_id("mock-"@, title@),
{
    slug_id_for("mock-", title)
}

/// The synopsis the test provider makes up for an unknown title.
pub fn mock_synopsis(title: &str) -> (r: String)
    ensures
        r@ == "Synopsis for "@ + title@,
{
    let mut text: Vec<char> = Vec::new();
    push_str_chars(&mut text, "Synopsis for ");
    push_str_chars(&mut text, title);
    string_of(text.as_slice())
}

/// The title the test provider gives details it does not know: the id with
/// its dashes turned into spaces.
pub fn mock_details_title(provider_id: &str) -> (r: String)
    ensures
        r@ == replace_chars(provider_id@, seq!['-'], ' '),
{
    let id = chars_of(provider_id);
    let dash = vec!['-'];
    assert(dash@ =~= seq!['-']);
    let t = replace_chars_exec(id.as_slice(), dash.as_slice(), ' ');
    string_of(t.as_slice())
}

} // verus!
