//! The regular-expression operations this crate uses, as calls into the
//! `regex` crate.  Match positions are byte offsets into the haystack, as the
//! `regex` crate reports them.
use vstd::prelude::*;
use crate::text::can_slice;

verus! {

/// Every character of `out` is a character of `a` or of `b`.
pub open spec fn chars_drawn_from(out: Seq<char>, a: Seq<char>, b: Seq<char>) -> bool {
    forall|i: int| 0 <= i < out.len() ==> a.contains(#[trigger] out[i]) || b.contains(out[i])
}

/// A match (or a capture group) as the byte range `start..end`.
pub type Span = (usize, usize);

/// The span can be used to slice `hay`: `regex::Match` documents that
/// `start <= end` and that both fall on UTF-8 boundaries of the haystack.
pub open spec fn span_fits(hay: Seq<char>, g: Option<Span>) -> bool {
    g matches Some((a, b)) ==> can_slice(hay, a as int, b as int)
}

/// The leftmost-first match of `pattern` in `hay`, as `Regex::find` reports it
/// (`None` also when `pattern` does not compile).
pub uninterp spec fn regex_find_result(pattern: Seq<char>, hay: Seq<char>) -> Option<Span>;

/// Groups 0, 1 and 2 of the first match of `pattern` in `hay`, as
/// `Regex::captures` reports them.
pub uninterp spec fn regex_captures_result(pattern: Seq<char>, hay: Seq<char>) -> Option<
    (Option<Span>, Option<Span>, Option<Span>),
>;

/// Groups 0 and 1 of every successive non-overlapping match of `pattern` in
/// `hay`, as `Regex::captures_iter` yields them.
pub uninterp spec fn regex_captures_all_result(pattern: Seq<char>, hay: Seq<char>) -> Seq<
    (Option<Span>, Option<Span>),
>;

/// `hay` with every non-overlapping match of `pattern` replaced by `rep`, as
/// `Regex::replace_all` returns it.
pub uninterp spec fn regex_replace_all_result(
    pattern: Seq<char>,
    hay: Seq<char>,
    rep: Seq<char>,
) -> Seq<char>;

/// `regex::Regex::new(pattern)` then `Regex::find(hay)`.
///
/// Trusted: the result is named `regex_find_result`; a match's byte range
/// can slice the haystack (documented on `regex::Match`).  Which match is
/// found is not stated beyond that name.
#[verifier::external_body]
pub(crate) fn regex_find(pattern: &str, hay: &str) -> (r: Option<Span>)
    ensures
        r == regex_find_result(pattern@, hay@),
        span_fits(hay@, r),
{
    match regex::Regex::new(pattern) {
        Ok(re) => re.find(hay).map(|m| (m.start(), m.end())),
        Err(_) => None,
    }
}

/// `regex::Regex::new(pattern)` then `Regex::captures(hay)`, keeping groups
/// 0, 1 and 2 as byte ranges.
///
/// Trusted: the result is named `regex_captures_result`; every group that
/// took part in the match can slice the haystack.
#[verifier::external_body]
pub(crate) fn regex_captures(pattern: &str, hay: &str) -> (r: Option<
    (Option<Span>, Option<Span>, Option<Span>),
>)
    ensures
        r == regex_captures_result(pattern@, hay@),
        r matches Some((g0, g1, g2)) ==> span_fits(hay@, g0) && span_fits(hay@, g1) && span_fits(
            hay@,
            g2,
        ),
{
    match regex::Regex::new(pattern) {
        Ok(re) => re.captures(hay).map(
            |c|
                (
                    c.get(0).map(|m| (m.start(), m.end())),
                    c.get(1).map(|m| (m.start(), m.end())),
                    c.get(2).map(|m| (m.start(), m.end())),
                ),
        ),
        Err(_) => None,
    }
}

/// `regex::Regex::new(pattern)` then `Regex::captures_iter(hay)`, keeping
/// groups 0 and 1 of each match as byte ranges.
///
/// Trusted: the result is named `regex_captures_all_result`; every group
/// that took part in a match can slice the haystack.
#[verifier::external_body]
pub(crate) fn regex_captures_all(pattern: &str, hay: &str) -> (r: Vec<(Option<Span>, Option<Span>)>)
    ensures
        r@ == regex_captures_all_result(pattern@, hay@),
        forall|i: int|
            0 <= i < r@.len() ==> span_fits(hay@, (#[trigger] r@[i]).0) && span_fits(
                hay@,
                r@[i].1,
            ),
{
    match regex::Regex::new(pattern) {
        Ok(re) => re.captures_iter(hay).map(
            |c| (c.get(0).map(|m| (m.start(), m.end())), c.get(1).map(|m| (m.start(), m.end()))),
        ).collect(),
        Err(_) => Vec::new(),
    }
}

/// `regex::Regex::new(pattern)` then `Regex::replace_all(hay, rep)`.
///
/// Trusted: the result is named `regex_replace_all_result`.  A replacement
/// without `$` is inserted as it is (`Replacer::no_expansion`), and the
/// result is made of slices of `hay` between matches and copies of `rep`, so
/// each of its characters comes from `hay` or from `rep`.  A pattern that
/// does not compile leaves `hay` as it is.
#[verifier::external_body]
pub(crate) fn regex_replace_all(pattern: &str, hay: &str, rep: &str) -> (r: String)
    ensures
        r@ == regex_replace_all_result(pattern@, hay@, rep@),
        !rep@.contains('$') ==> chars_drawn_from(r@, hay@, rep@),
{
    match regex::Regex::new(pattern) {
        Ok(re) => re.replace_all(hay, rep).into_owned(),
        Err(_) => hay.to_owned(),
    }
}

} // verus!
