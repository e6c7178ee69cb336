//! Turning a parsed file name into a movie record: local artwork next to the
//! file, the metadata found online, and the record kept when nothing matched.
use vstd::prelude::*;

use crate::domain::MetadataStatus;
use crate::paths::{file_stem_of, joined, parent_of, path_file_stem, path_join, path_parent};
use crate::text::{owned, push_str_chars, string_of};

verus! {

// ---------------------------------------------------------------------------
// Local artwork
// ---------------------------------------------------------------------------

/// Names tried, in order, for a poster next to a media file with the given
/// stem.
pub open spec fn poster_names(stem: Seq<char>) -> Seq<Seq<char>> {
    seq![
        stem + ".jpg"@,
        stem + ".png"@,
        stem + "-poster.jpg"@,
        "poster.jpg"@,
        "poster.png"@,
        "cover.jpg"@,
        "cover.png"@,
        "folder.jpg"@,
        "folder.png"@,
    ]
}

/// Names tried, in order, for a backdrop next to a media file with the given
/// stem.
pub open spec fn backdrop_names(stem: Seq<char>) -> Seq<Seq<char>> {
    seq![
        stem + "-fanart.jpg"@,
        stem + "-backdrop.jpg"@,
        "backdrop.jpg"@,
        "backdrop.png"@,
        "fanart.jpg"@,
        "fanart.png"@,
    ]
}

/// The local artwork names, in the order tried: for a poster the file's own
/// name with `.jpg`, `.png` and `-poster.jpg`, then `poster`, `cover` and
/// `folder`, each as `.jpg` then `.png`; for a backdrop the file's name with
/// `-fanart.jpg` and `-backdrop.jpg`, then `backdrop` and `fanart`, each as
/// `.jpg` then `.png`.
pub proof fn local_artwork_names(stem: Seq<char>)
    ensures
        poster_names(stem).len() == 9,
        poster_names(stem)[0] == stem + ".jpg"@,
        poster_names(stem)[1] == stem + ".png"@,
        poster_names(stem)[2] == stem + "-poster.jpg"@,
        poster_names(stem)[3] == "poster.jpg"@,
        poster_names(stem)[4] == "poster.png"@,
        poster_names(stem)[5] == "cover.jpg"@,
        poster_names(stem)[6] == "cover.png"@,
        poster_names(stem)[7] == "folder.jpg"@,
        poster_names(stem)[8] == "folder.png"@,
        backdrop_names(stem).len() == 6,
        backdrop_names(stem)[0] == stem + "-fanart.jpg"@,
        backdrop_names(stem)[1] == stem + "-backdrop.jpg"@,
        backdrop_names(stem)[2] == "backdrop.jpg"@,
        backdrop_names(stem)[3] == "backdrop.png"@,
        backdrop_names(stem)[4] == "fanart.jpg"@,
        backdrop_names(stem)[5] == "fanart.png"@,
{
}

/// The files, in the order tried, that may hold local artwork for a media
/// file: each name joined to the file's directory.
pub struct ArtworkCandidates {
    pub posters: Vec<String>,
    pub backdrops: Vec<String>,
}

/// The stem used to name artwork: the file stem, or empty when there is none.
pub open spec fn artwork_stem(path: Seq<char>) -> Seq<char> {
    match file_stem_of(path) {
        Some(s) => s,
        None => Seq::empty(),
    }
}

fn stem_plus(stem: &str, suffix: &str) -> (r: String)
    ensures
        r@ == stem@ + suffix@,
{
    let mut text: Vec<char> = Vec::new();
    push_str_chars(&mut text, stem);
    push_str_chars(&mut text, suffix);
    string_of(text.as_slice())
}

fn join_all(dir: &str, names: Vec<String>) -> (r: Vec<String>)
    ensures
        r@.len() == names@.len(),
        forall|i: int| 0 <= i < r@.len() ==> #[trigger] r@[i]@ == joined(dir@, names@[i]@),
{
    let mut out: Vec<String> = Vec::new();
    let mut i: usize = 0;
    while i < names.len()
        invariant
            i <= names.len(),
            out@.len() == i,
            forall|k: int| 0 <= k < i ==> #[trigger] out@[k]@ == joined(dir@, names@[k]@),
        decreases names.len() - i,
    {
        out.push(path_join(dir, names[i].as_str()));
        i = i + 1;
    }
    out
}

/// The files that may hold local artwork for the media file at `media_path`,
/// when it has a parent directory.
pub fn artwork_candidates(media_path: &str) -> (r: Option<ArtworkCandidates>)
    ensures
        match parent_of(media_path@) {
            Some(dir) => r matches Some(c) && c.posters@.len() == 9 && c.backdrops@.len() == 6
                && (forall|i: int|
                0 <= i < 9 ==> #[trigger] c.posters@[i]@ == joined(
                    dir,
                    poster_names(artwork_stem(media_path@))[i],
                )) && (forall|i: int|
                0 <= i < 6 ==> #[trigger] c.backdrops@[i]@ == joined(
                    dir,
                    backdrop_names(artwork_stem(media_path@))[i],
                )),
            None => r is None,
        },
        parent_of(media_path@) matches Some(dir) ==> (r matches Some(c) && ({
            let s = artwork_stem(media_path@);
            &&& c.posters@[0]@ == joined(dir, s + ".jpg"@)
            &&& c.posters@[1]@ == joined(dir, s + ".png"@)
            &&& c.posters@[2]@ == joined(dir, s + "-poster.jpg"@)
            &&& c.posters@[3]@ == joined(dir, "poster.jpg"@)
            &&& c.posters@[4]@ == joined(dir, "poster.png"@)
            &&& c.posters@[5]@ == joined(dir, "cover.jpg"@)
            &&& c.posters@[6]@ == joined(dir, "cover.png"@)
            &&& c.posters@[7]@ == joined(dir, "folder.jpg"@)
            &&& c.posters@[8]@ == joined(dir, "folder.png"@)
            &&& c.backdrops@[0]@ == joined(dir, s + "-fanart.jpg"@)
            &&& c.backdrops@[1]@ == joined(dir, s + "-backdrop.jpg"@)
            &&& c.backdrops@[2]@ == joined(dir, "backdrop.jpg"@)
            &&& c.backdrops@[3]@ == joined(dir, "backdrop.png"@)
            &&& c.backdrops@[4]@ == joined(dir, "fanart.jpg"@)
            &&& c.backdrops@[5]@ == joined(dir, "fanart.png"@)
        })),
{
    let dir = match path_parent(media_path) {
        Some(d) => d,
        None => {
            return None;
        },
    };
    let stem = match path_file_stem(media_path) {
        Some(s) => s,
        None => String::new(),
    };
    let s = stem.as_str();
    let posters = vec![
        stem_plus(s, ".jpg"),
        stem_plus(s, ".png"),
        stem_plus(s, "-poster.jpg"),
        owned("poster.jpg"),
        owned("poster.png"),
        owned("cover.jpg"),
        owned("cover.png"),
        owned("folder.jpg"),
        owned("folder.png"),
    ];
    let backdrops = vec![
        stem_plus(s, "-fanart.jpg"),
        stem_plus(s, "-backdrop.jpg"),
        owned("backdrop.jpg"),
        owned("backdrop.png"),
        owned("fanart.jpg"),
        owned("fanart.png"),
    ];
    assert(stem@ == artwork_stem(media_path@));
    let ghost pn = poster_names(stem@);
    let ghost bn = backdrop_names(stem@);
    assert(forall|i: int| 0 <= i < 9 ==> posters@[i]@ == pn[i]);
    assert(forall|i: int| 0 <= i < 6 ==> backdrops@[i]@ == bn[i]);
    let posters = join_all(dir.as_str(), posters);
    let backdrops = join_all(dir.as_str(), backdrops);
    proof {
        local_artwork_names(stem@);
        assert(posters@[0]@ == joined(dir@, pn[0]));
        assert(posters@[1]@ == joined(dir@, pn[1]));
        assert(posters@[2]@ == joined(dir@, pn[2]));
        assert(posters@[3]@ == joined(dir@, pn[3]));
        assert(posters@[4]@ == joined(dir@, pn[4]));
        assert(posters@[5]@ == joined(dir@, pn[5]));
        assert(posters@[6]@ == joined(dir@, pn[6]));
        assert(posters@[7]@ == joined(dir@, pn[7]));
        assert(posters@[8]@ == joined(dir@, pn[8]));
        assert(backdrops@[0]@ == joined(dir@, bn[0]));
        assert(backdrops@[1]@ == joined(dir@, bn[1]));
        assert(backdrops@[2]@ == joined(dir@, bn[2]));
        assert(backdrops@[3]@ == joined(dir@, bn[3]));
        assert(backdrops@[4]@ == joined(dir@, bn[4]));
        assert(backdrops@[5]@ == joined(dir@, bn[5]));
    }
    Some(ArtworkCandidates { posters, backdrops })
}

/// The first of the candidate files that exists, given whether each exists.
pub fn first_existing(candidates: &[String], exists: &[bool]) -> (r: Option<String>)
    requires
        candidates.len() == exists.len(),
    ensures
        match r {
            Some(p) => exists|i: int|
                0 <= i < exists.len() && exists@[i] && p@ == candidates@[i]@ && forall|j: int|
                    0 <= j < i ==> !exists@[j],
            None => forall|j: int| 0 <= j < exists.len() ==> !exists@[j],
        },
{
    let mut i: usize = 0;
    while i < exists.len()
        invariant
            i <= exists.len(),
            candidates.len() == exists.len(),
            forall|j: int| 0 <= j < i ==> !exists@[j],
        decreases exists.len() - i,
    {
        if exists[i] {
            let p = candidates[i].clone();
            assert(exists@[i as int] && p@ == candidates@[i as int]@);
            return Some(p);
        }
        i = i + 1;
    }
    None
}

// ---------------------------------------------------------------------------
// Artwork from the metadata service
// ---------------------------------------------------------------------------

/// What to do for one kind of artwork of a movie being resolved.
#[derive(Debug, Clone, PartialEq, Eq)]
pub enum ArtworkStep {
    /// Local artwork was found: use it.
    UseLocal(String),
    /// No local artwork: download this image into the cache.
    Download(String),
    /// Neither local artwork nor an image to download.
    Nothing,
}

/// Local artwork wins; otherwise the service's image is downloaded.
pub fn artwork_step(local: Option<String>, remote_url: Option<String>) -> (r: ArtworkStep)
    ensures
        match local {
            Some(l) => r == ArtworkStep::UseLocal(l),
            None => match remote_url {
                Some(u) => r == ArtworkStep::Download(u),
                None => r == ArtworkStep::Nothing,
            },
        },
{
    match local {
        Some(l) => ArtworkStep::UseLocal(l),
        None => match remote_url {
            Some(u) => ArtworkStep::Download(u),
            None => ArtworkStep::Nothing,
        },
    }
}

/// The file name under which downloaded artwork is cached: `ID_KIND.jpg`.
pub fn cached_artwork_name(movie_id: &str, kind: &str) -> (r: String)
    ensures
        r@ == movie_id@ + seq!['_'] + kind@ + ".jpg"@,
{
    let mut text: Vec<char> = Vec::new();
    push_str_chars(&mut text, movie_id);
    text.push('_');
    push_str_chars(&mut text, kind);
    push_str_chars(&mut text, ".jpg");
    let r = string_of(text.as_slice());
    assert(r@ =~= movie_id@ + seq!['_'] + kind@ + ".jpg"@);
    r
}

// ---------------------------------------------------------------------------
// The movie record
// ---------------------------------------------------------------------------

/// The details a metadata service gave for a movie (its rating aside).
pub struct MovieDetails {
    pub id: String,
    pub title: String,
    pub original_title: Option<String>,
    pub year: Option<u16>,
    pub description: Option<String>,
    pub genres: Vec<String>,
    pub cast: Vec<String>,
    pub director: Option<String>,
}

/// A movie record as resolved from a file (its id, rating and timestamps
/// aside).
pub struct ResolvedMovie {
    pub title: String,
    pub original_title: Option<String>,
    pub year: Option<u16>,
    pub description: Option<String>,
    pub poster_path: Option<String>,
    pub backdrop_path: Option<String>,
    pub genres: Vec<String>,
    pub cast: Vec<String>,
    pub director: Option<String>,
    pub metadata_provider_id: Option<String>,
    pub metadata_status: MetadataStatus,
}

impl ResolvedMovie {
    /// The record kept when no service matched the file: the guessed title
    /// and year, local artwork if any, nothing else.
    pub fn unmatched(
        title_guess: &str,
        year_guess: Option<u16>,
        local_poster: Option<String>,
        local_backdrop: Option<String>,
    ) -> (r: ResolvedMovie)
        ensures
            r.title@ == title_guess@,
            r.original_title is None,
            r.year == year_guess,
            r.description is None,
            r.poster_path == local_poster,
            r.backdrop_path == local_backdrop,
            r.genres@.len() == 0,
            r.cast@.len() == 0,
            r.director is None,
            r.metadata_provider_id is None,
            r.metadata_status == MetadataStatus::Unmatched,
    {
        ResolvedMovie {
            title: owned(title_guess),
            original_title: None,
            year: year_guess,
            description: None,
            poster_path: local_poster,
            backdrop_path: local_backdrop,
            genres: Vec::new(),
            cast: Vec::new(),
            director: None,
            metadata_provider_id: None,
            metadata_status: MetadataStatus::Unmatched,
        }
    }

    /// The record made from the details of the first match: the service's
    /// fields, its year or else the guessed one, the chosen artwork, and the
    /// service's id, automatically matched.
    pub fn matched(
        details: MovieDetails,
        year_guess: Option<u16>,
        poster_path: Option<String>,
        backdrop_path: Option<String>,
    ) -> (r: ResolvedMovie)
        ensures
            r.title == details.title,
            r.original_title == details.original_title,
            r.year == match details.year {
                Some(y) => Some(y),
                None => year_guess,
            },
            r.description == details.description,
            r.poster_path == poster_path,
            r.backdrop_path == backdrop_path,
            r.genres == details.genres,
            r.cast == details.cast,
            r.director == details.director,
            r.metadata_provider_id == Some(details.id),
            r.metadata_status == MetadataStatus::AutoMatched,
    {
        let year = match details.year {
            Some(y) => Some(y),
            None => year_guess,
        };
        ResolvedMovie {
            title: details.title,
            original_title: details.original_title,
            year,
            description: details.description,
            poster_path,
            backdrop_path,
            genres: details.genres,
            cast: details.cast,
            director: details.director,
            metadata_provider_id: Some(details.id),
            metadata_status: MetadataStatus::AutoMatched,
        }
    }

    /// A user's choice of match applied to an existing record: the service's
    /// fields replace the record's, its year unless it has none, downloaded
    /// artwork only where there is some; the record is then manually matched.
    pub fn apply_manual_match(
        &mut self,
        details: MovieDetails,
        poster_path: Option<String>,
        backdrop_path: Option<String>,
    )
        ensures
            final(self).title == details.title,
            final(self).original_title == details.original_title,
            final(self).year == match details.year {
                Some(y) => Some(y),
                None => old(self).year,
            },
            final(self).description == details.description,
            final(self).poster_path == match poster_path {
                Some(p) => Some(p),
                None => old(self).poster_path,
            },
            final(self).backdrop_path == match backdrop_path {
                Some(p) => Some(p),
                None => old(self).backdrop_path,
            },
            final(self).genres == details.genres,
            final(self).cast == details.cast,
            final(self).director == details.director,
            final(self).metadata_provider_id == Some(details.id),
            final(self).metadata_status == MetadataStatus::ManuallyMatched,
    {
        self.title = details.title;
        self.original_title = details.original_title;
        match details.year {
            Some(y) => {
                self.year = Some(y);
            },
            None => {},
        }
        self.description = details.description;
        match poster_path {
            Some(p) => {
                self.poster_path = Some(p);
            },
            None => {},
        }
        match backdrop_path {
            Some(p) => {
                self.backdrop_path = Some(p);
            },
            None => {},
        }
        self.genres = details.genres;
        self.cast = details.cast;
        self.director = details.director;
        self.metadata_provider_id = Some(details.id);
        self.metadata_status = MetadataStatus::ManuallyMatched;
    }
}

// ---------------------------------------------------------------------------
// Duplicates
// ---------------------------------------------------------------------------

/// Which movie a resolved record stands for: the one already known under
/// its provider id, else the one known under the same title and year, else
/// the new record itself (which is then stored).
#[derive(Debug, Clone, Copy, PartialEq, Eq)]
pub enum MovieMatch {
    /// An existing movie, by its id.
    Existing(u128),
    /// The new record, to be stored under its id.
    Create(u128),
}

/// Chooses the movie a resolved record stands for.
pub fn match_or_create(by_provider_id: Option<u128>, by_title_year: Option<u128>, new_id: u128) -> (r:
    MovieMatch)
    ensures
        r == match by_provider_id {
            Some(id) => MovieMatch::Existing(id),
            None => match by_title_year {
                Some(id) => MovieMatch::Existing(id),
                None => MovieMatch::Create(new_id),
            },
        },
{
    match by_provider_id {
        Some(id) => MovieMatch::Existing(id),
        None => match by_title_year {
            Some(id) => MovieMatch::Existing(id),
            None => MovieMatch::Create(new_id),
        },
    }
}

} // verus!
