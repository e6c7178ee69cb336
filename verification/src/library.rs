//! Library queries: the name shown for a new source, searching movies, and
//! the database query that lists movies with a filter and an order.
use vstd::prelude::*;

use crate::domain::MovieSort;
use crate::paths::{file_name_of, path_file_name};
use crate::text::{chars_of, has_prefix, owned, push_str_chars, string_of, trim_chars, trim_seq};

verus! {

/// The name shown for a library source: the last component of its path, or
/// the whole path when it has none.
pub fn source_display_name(path: &str) -> (r: String)
    ensures
        r@ == match file_name_of(path@) {
            Some(n) => n,
            None => path@,
        },
{
    match path_file_name(path) {
        Some(n) => n,
        None => owned(path),
    }
}

/// Whether a search query is blank (only white space), in which case a
/// search finds nothing without asking the database.
pub fn is_blank_query(query: &str) -> (r: bool)
    ensures
        r == (trim_seq(query@).len() == 0),
{
    let q = chars_of(query);
    let t = trim_chars(q.as_slice());
    t.len() == 0
}

/// The three patterns of a movie search, from the trimmed query `q`: `%q%`
/// (anywhere in a field), `q` (the exact title) and `q%` (a title prefix).
pub struct SearchPatterns {
    pub contains: String,
    pub exact: String,
    pub prefix: String,
}

/// The patterns of a movie search.
pub fn search_patterns(query: &str) -> (r: SearchPatterns)
    ensures
        r.contains@ == seq!['%'] + trim_seq(query@) + seq!['%'],
        r.exact@ == trim_seq(query@),
        r.prefix@ == trim_seq(query@) + seq!['%'],
{
    let q = chars_of(query);
    let t = trim_chars(q.as_slice());
    let mut contains: Vec<char> = Vec::new();
    contains.push('%');
    let mut i: usize = 0;
    while i < t.len()
        invariant
            i <= t.len(),
            contains@ == seq!['%'] + t@.subrange(0, i as int),
        decreases t.len() - i,
    {
        contains.push(t[i]);
        i = i + 1;
        assert(contains@ =~= seq!['%'] + t@.subrange(0, i as int));
    }
    let mut prefix: Vec<char> = t.clone();
    prefix.push('%');
    contains.push('%');
    assert(t@.subrange(0, t@.len() as int) =~= t@);
    SearchPatterns {
        contains: string_of(contains.as_slice()),
        exact: string_of(t.as_slice()),
        prefix: string_of(prefix.as_slice()),
    }
}

/// The `LIKE` pattern that finds a genre in a movie's stored genre list (a
/// JSON array of strings): `%"genre"%`.
pub fn genre_pattern(genre: &str) -> (r: String)
    ensures
        r@ == seq!['%', '"'] + genre@ + seq!['"', '%'],
{
    let mut text: Vec<char> = Vec::new();
    text.push('%');
    text.push('"');
    push_str_chars(&mut text, genre);
    text.push('"');
    text.push('%');
    let r = string_of(text.as_slice());
    assert(r@ =~= seq!['%', '"'] + genre@ + seq!['"', '%']);
    r
}

/// Which parts of a movie filter are set (the values go in as parameters).
#[derive(Debug, Clone, Copy, PartialEq, Eq)]
pub struct FilterShape {
    pub genre: bool,
    pub year: bool,
    pub in_watchlist: Option<bool>,
    pub watched: Option<bool>,
    pub source: bool,
    pub min_rating: bool,
    pub is_available: Option<bool>,
}

/// The start of the movie listing query.
pub open spec fn list_base_sql() -> Seq<char> {
    "SELECT DISTINCT m.id, m.title, m.original_title, m.year, m.description, m.poster_path, m.backdrop_path, m.genres, m.[cast], m.director, m.rating, m.metadata_provider_id, m.metadata_status, m.created_at, m.updated_at FROM movie m LEFT JOIN media med ON med.movie_id = m.id LEFT JOIN watchlist w ON w.movie_id = m.id LEFT JOIN playback_state ps ON ps.movie_id = m.id LEFT JOIN watch_history wh ON wh.movie_id = m.id WHERE 1=1"@
}

/// The genre condition.
pub open spec fn genre_sql(set: bool) -> Seq<char> {
    if set {
        " AND m.genres LIKE ?"@
    } else {
        Seq::empty()
    }
}

/// The year condition.
pub open spec fn year_sql(set: bool) -> Seq<char> {
    if set {
        " AND m.year = ?"@
    } else {
        Seq::empty()
    }
}

/// The watchlist condition.
pub open spec fn watchlist_sql(w: Option<bool>) -> Seq<char> {
    match w {
        Some(true) => " AND w.movie_id IS NOT NULL"@,
        Some(false) => " AND w.movie_id IS NULL"@,
        None => Seq::empty(),
    }
}

/// The watched condition: finished in the playback state or in the history.
pub open spec fn watched_sql(w: Option<bool>) -> Seq<char> {
    match w {
        Some(true) => " AND (ps.completed = 1 OR wh.completed_at IS NOT NULL)"@,
        Some(false) => " AND (ps.completed IS NULL OR ps.completed = 0) AND wh.completed_at IS NULL"@,
        None => Seq::empty(),
    }
}

/// The source condition.
pub open spec fn source_sql(set: bool) -> Seq<char> {
    if set {
        " AND med.source_id = ?"@
    } else {
        Seq::empty()
    }
}

/// The minimum rating condition.
pub open spec fn rating_sql(set: bool) -> Seq<char> {
    if set {
        " AND m.rating >= ?"@
    } else {
        Seq::empty()
    }
}

/// The availability condition: a movie without media counts as unavailable.
pub open spec fn availability_sql(a: Option<bool>) -> Seq<char> {
    match a {
        Some(true) => " AND med.availability = 'available'"@,
        Some(false) => " AND (med.availability = 'unavailable' OR med.id IS NULL)"@,
        None => Seq::empty(),
    }
}

/// `q` followed by the conditions of a filter, in order: genre, year,
/// watchlist, watched, source, minimum rating, availability.
pub open spec fn with_filter_sql(q: Seq<char>, f: FilterShape) -> Seq<char> {
    q + genre_sql(f.genre) + year_sql(f.year) + watchlist_sql(f.in_watchlist) + watched_sql(
        f.watched,
    ) + source_sql(f.source) + rating_sql(f.min_rating) + availability_sql(f.is_available)
}

/// The order clause for a sort.
pub open spec fn order_sql(sort: MovieSort) -> Seq<char> {
    match sort {
        MovieSort::TitleAsc => " ORDER BY m.title ASC"@,
        MovieSort::TitleDesc => " ORDER BY m.title DESC"@,
        MovieSort::YearAsc => " ORDER BY m.year ASC NULLS LAST, m.title ASC"@,
        MovieSort::YearDesc => " ORDER BY m.year DESC NULLS LAST, m.title ASC"@,
        MovieSort::DateAddedAsc => " ORDER BY m.created_at ASC"@,
        MovieSort::DateAddedDesc => " ORDER BY m.created_at DESC"@,
        MovieSort::RecentlyWatched => " ORDER BY ps.updated_at DESC NULLS LAST, m.updated_at DESC"@,
        MovieSort::RatingDesc => " ORDER BY m.rating DESC NULLS LAST, m.title ASC"@,
    }
}

/// The column a sort orders by first.
pub open spec fn sort_column(sort: MovieSort) -> Seq<char> {
    match sort {
        MovieSort::TitleAsc | MovieSort::TitleDesc => "m.title"@,
        MovieSort::YearAsc | MovieSort::YearDesc => "m.year"@,
        MovieSort::DateAddedAsc | MovieSort::DateAddedDesc => "m.created_at"@,
        MovieSort::RecentlyWatched => "ps.updated_at"@,
        MovieSort::RatingDesc => "m.rating"@,
    }
}

/// Whether a sort lists the largest values first: the `...Desc` sorts, and
/// the most recently watched first.
pub open spec fn sort_is_descending(sort: MovieSort) -> bool {
    match sort {
        MovieSort::TitleDesc | MovieSort::YearDesc | MovieSort::DateAddedDesc
        | MovieSort::RecentlyWatched | MovieSort::RatingDesc => true,
        MovieSort::TitleAsc | MovieSort::YearAsc | MovieSort::DateAddedAsc => false,
    }
}

/// The SQL direction keyword, with its leading space.
pub open spec fn direction_keyword(descending: bool) -> Seq<char> {
    if descending {
        " DESC"@
    } else {
        " ASC"@
    }
}

/// The movie listing ends with its order clause, which orders first by the
/// sort's column in the sort's direction (`DESC` for the descending sorts,
/// `ASC` for the ascending ones); the year and rating sorts then break ties
/// by title A-Z.
pub proof fn listing_orders_by_the_sort(filter: FilterShape, sort: MovieSort)
    ensures
        ({
            let listing = with_filter_sql(list_base_sql(), filter) + order_sql(sort);
            let first_key = " ORDER BY "@ + sort_column(sort) + direction_keyword(
                sort_is_descending(sort),
            );
            &&& listing.subrange(listing.len() - order_sql(sort).len(), listing.len() as int)
                == order_sql(sort)
            &&& has_prefix(order_sql(sort), first_key)
            &&& (sort == MovieSort::YearAsc || sort == MovieSort::YearDesc || sort
                == MovieSort::RatingDesc) ==> order_sql(sort) == first_key
                + " NULLS LAST, m.title ASC"@
        }),
{
    let listing = with_filter_sql(list_base_sql(), filter) + order_sql(sort);
    assert(listing.subrange(listing.len() - order_sql(sort).len(), listing.len() as int)
        =~= order_sql(sort));
    reveal_strlit(" ORDER BY ");
    reveal_strlit(" DESC");
    reveal_strlit(" ASC");
    reveal_strlit(" NULLS LAST, m.title ASC");
    let key = " ORDER BY "@ + sort_column(sort) + direction_keyword(sort_is_descending(sort));
    match sort {
        MovieSort::TitleAsc => {
            reveal_strlit("m.title");
            reveal_strlit(" ORDER BY m.title ASC");
            assert(order_sql(sort) =~= key);
        },
        MovieSort::TitleDesc => {
            reveal_strlit("m.title");
            reveal_strlit(" ORDER BY m.title DESC");
            assert(order_sql(sort) =~= key);
        },
        MovieSort::YearAsc => {
            reveal_strlit("m.year");
            reveal_strlit(" ORDER BY m.year ASC NULLS LAST, m.title ASC");
            assert(order_sql(sort) =~= key + " NULLS LAST, m.title ASC"@);
            assert(order_sql(sort).subrange(0, key.len() as int) =~= key);
        },
        MovieSort::YearDesc => {
            reveal_strlit("m.year");
            reveal_strlit(" ORDER BY m.year DESC NULLS LAST, m.title ASC");
            assert(order_sql(sort) =~= key + " NULLS LAST, m.title ASC"@);
            assert(order_sql(sort).subrange(0, key.len() as int) =~= key);
        },
        MovieSort::DateAddedAsc => {
            reveal_strlit("m.created_at");
            reveal_strlit(" ORDER BY m.created_at ASC");
            assert(order_sql(sort) =~= key);
        },
        MovieSort::DateAddedDesc => {
            reveal_strlit("m.created_at");
            reveal_strlit(" ORDER BY m.created_at DESC");
            assert(order_sql(sort) =~= key);
        },
        MovieSort::RecentlyWatched => {
            reveal_strlit("ps.updated_at");
            reveal_strlit(" ORDER BY ps.updated_at DESC NULLS LAST, m.updated_at DESC");
            assert(order_sql(sort).subrange(0, key.len() as int) =~= key);
        },
        MovieSort::RatingDesc => {
            reveal_strlit("m.rating");
            reveal_strlit(" ORDER BY m.rating DESC NULLS LAST, m.title ASC");
            assert(order_sql(sort) =~= key + " NULLS LAST, m.title ASC"@);
            assert(order_sql(sort).subrange(0, key.len() as int) =~= key);
        },
    }
    if sort == MovieSort::TitleAsc || sort == MovieSort::TitleDesc || sort == MovieSort::DateAddedAsc
        || sort == MovieSort::DateAddedDesc {
        assert(order_sql(sort).subrange(0, key.len() as int) =~= key);
    }
}

fn push_when(q: &mut Vec<char>, set: bool, text: &str)
    ensures
        final(q)@ == old(q)@ + if set {
            text@
        } else {
            Seq::empty()
        },
{
    if set {
        push_str_chars(q, text);
    } else {
        assert(q@ =~= q@ + Seq::<char>::empty());
    }
}

fn push_choice(q: &mut Vec<char>, choice: Option<bool>, yes: &str, no: &str)
    ensures
        final(q)@ == old(q)@ + match choice {
            Some(true) => yes@,
            Some(false) => no@,
            None => Seq::empty(),
        },
{
    match choice {
        Some(true) => push_str_chars(q, yes),
        Some(false) => push_str_chars(q, no),
        None => {
            assert(q@ =~= q@ + Seq::<char>::empty());
        },
    }
}

fn push_filter_sql(q: &mut Vec<char>, f: FilterShape)
    ensures
        final(q)@ == with_filter_sql(old(q)@, f),
{
    push_when(q, f.genre, " AND m.genres LIKE ?");
    push_when(q, f.year, " AND m.year = ?");
    push_choice(q, f.in_watchlist, " AND w.movie_id IS NOT NULL", " AND w.movie_id IS NULL");
    push_choice(
        q,
        f.watched,
        " AND (ps.completed = 1 OR wh.completed_at IS NOT NULL)",
        " AND (ps.completed IS NULL OR ps.completed = 0) AND wh.completed_at IS NULL",
    );
    push_when(q, f.source, " AND med.source_id = ?");
    push_when(q, f.min_rating, " AND m.rating >= ?");
    push_choice(
        q,
        f.is_available,
        " AND med.availability = 'available'",
        " AND (med.availability = 'unavailable' OR med.id IS NULL)",
    );
}

fn push_order_sql(q: &mut Vec<char>, sort: MovieSort)
    ensures
        final(q)@ == old(q)@ + order_sql(sort),
{
    match sort {
        MovieSort::TitleAsc => push_str_chars(q, " ORDER BY m.title ASC"),
        MovieSort::TitleDesc => push_str_chars(q, " ORDER BY m.title DESC"),
        MovieSort::YearAsc => push_str_chars(q, " ORDER BY m.year ASC NULLS LAST, m.title ASC"),
        MovieSort::YearDesc => push_str_chars(q, " ORDER BY m.year DESC NULLS LAST, m.title ASC"),
        MovieSort::DateAddedAsc => push_str_chars(q, " ORDER BY m.created_at ASC"),
        MovieSort::DateAddedDesc => push_str_chars(q, " ORDER BY m.created_at DESC"),
        MovieSort::RecentlyWatched => push_str_chars(
            q,
            " ORDER BY ps.updated_at DESC NULLS LAST, m.updated_at DESC",
        ),
        MovieSort::RatingDesc => push_str_chars(q, " ORDER BY m.rating DESC NULLS LAST, m.title ASC"),
    }
}

/// The query listing the movies that pass a filter, in the chosen order.
/// Its parameters follow the conditions' order: genre pattern, year, source
/// id, minimum rating (each when set).
pub fn movie_list_sql(filter: FilterShape, sort: MovieSort) -> (r: String)
    ensures
        r@ == with_filter_sql(list_base_sql(), filter) + order_sql(sort),
{
    let mut q: Vec<char> = Vec::new();
    push_str_chars(
        &mut q,
        "SELECT DISTINCT m.id, m.title, m.original_title, m.year, m.description, m.poster_path, m.backdrop_path, m.genres, m.[cast], m.director, m.rating, m.metadata_provider_id, m.metadata_status, m.created_at, m.updated_at FROM movie m LEFT JOIN media med ON med.movie_id = m.id LEFT JOIN watchlist w ON w.movie_id = m.id LEFT JOIN playback_state ps ON ps.movie_id = m.id LEFT JOIN watch_history wh ON wh.movie_id = m.id WHERE 1=1",
    );
    push_filter_sql(&mut q, filter);
    push_order_sql(&mut q, sort);
    string_of(q.as_slice())
}

} // verus!
