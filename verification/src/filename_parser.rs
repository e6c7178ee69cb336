//! Guessing title, year, edition, resolution and episode numbers from a media
//! file name.
use vstd::prelude::*;
use vstd::utf8::*;
use vstd::string::StringSliceAdditionalSpecFns;

use crate::regex_ops::{
    regex_captures, regex_captures_all, regex_captures_all_result, regex_captures_result,
    regex_find, regex_find_result, regex_replace_all, regex_replace_all_result, span_fits, Span,
    chars_drawn_from,
};
use crate::text::{
    byte_slice, can_slice, chars_of, parse_unsigned, parse_unsigned_exec, replace_chars,
    replace_chars_exec, slice_str, string_of, to_uppercase, trim_chars, trim_seq, uppercase_of,
    trim_keeps_chars,
};

verus! {

broadcast use vstd::utf8::encode_utf8_valid_utf8, vstd::utf8::encode_utf8_decode_utf8;

/// `S01E02`, `S01.02`, `S01_02`, `S01x02` style episode markers.
pub const TV_EPISODE_PATTERN_1: &'static str = r"(?i)\bS(\d{1,2})[\.E_x](\d{1,3})\b";

/// `1x02` style episode markers.
pub const TV_EPISODE_PATTERN_2: &'static str = r"(?i)\b(\d{1,2})x(\d{1,3})\b";

/// `Season 1 Episode 2` style episode markers.
pub const TV_EPISODE_PATTERN_3: &'static str = r"(?i)\bseason\s*(\d{1,2})\s*episode\s*(\d{1,3})\b";

/// Four-digit years starting with 19 or 20.
pub const YEAR_PATTERN: &'static str = r"\b((?:19|20)\d{2})\b";

/// Resolution tags.
pub const RESOLUTION_PATTERN: &'static str = r"(?i)\b(2160p|4k|uhd|1080p|1080i|720p|576p|480p)\b";

/// Edition tags.
pub const EDITION_PATTERN: &'static str =
    r"(?i)\b(extended|directors\.cut|remastered|unrated|theatrical|criterion|special\.edition|imax)\b";

/// Release-group noise: sources, codecs, audio formats and scene tags.
pub const NOISE_TAGS_PATTERN: &'static str =
    r"(?i)\b(bluray|blu-ray|web-dl|webrip|web|hdrip|dvdrip|hdtv|x264|x265|hevc|h264|h265|10bit|hdr10\+|hdr10|hdr|sdr|dts-hd\.ma|dts-hd|dts|truehd|atmos|ac3|dd5\.1|aac2\.0|aac5\.1|aac|flac|mp3|proper|repack|rerip|internal|remux)\b";

/// Runs of separator characters.
pub const CLEANUP_SEPARATORS_PATTERN: &'static str = r"[\._\+]+";

/// Runs of white space.
pub const MULTI_SPACE_PATTERN: &'static str = r"\s+";

/// Whether a file looks like a movie or like an episode of a series.
#[derive(Debug, Clone, PartialEq, Eq)]
pub enum ParsedMediaType {
    Movie,
    Episode { season_number: u32, episode_number: u32 },
}

/// What the parser guesses from a file name.
#[derive(Debug, Clone, PartialEq, Eq)]
pub struct ParsedFilename {
    pub title_guess: String,
    pub year_guess: Option<u16>,
    pub edition_guess: Option<String>,
    pub resolution_guess: Option<String>,
    pub media_type: ParsedMediaType,
}

/// The mathematical content of a `ParsedFilename`.
pub struct ParsedFilenameView {
    pub title_guess: Seq<char>,
    pub year_guess: Option<u16>,
    pub edition_guess: Option<Seq<char>>,
    pub resolution_guess: Option<Seq<char>>,
    pub media_type: ParsedMediaType,
}

/// The view of an optional string.
pub open spec fn opt_view(s: Option<String>) -> Option<Seq<char>> {
    match s {
        Some(t) => Some(t@),
        None => None,
    }
}

impl View for ParsedFilename {
    type V = ParsedFilenameView;

    open spec fn view(&self) -> ParsedFilenameView {
        ParsedFilenameView {
            title_guess: self.title_guess@,
            year_guess: self.year_guess,
            edition_guess: opt_view(self.edition_guess),
            resolution_guess: opt_view(self.resolution_guess),
            media_type: self.media_type,
        }
    }
}

// ---------------------------------------------------------------------------
// Specification
// ---------------------------------------------------------------------------

/// Index of the last occurrence of byte `x` in `b`.
pub open spec fn last_byte_index(b: Seq<u8>, x: u8) -> Option<int>
    decreases b.len(),
{
    if b.len() == 0 {
        None
    } else if b.last() == x {
        Some(b.len() - 1)
    } else {
        last_byte_index(b.drop_last(), x)
    }
}

/// The name without its extension: everything before the last `.`, provided
/// that dot is not the first byte and at most five bytes (dot included) follow
/// from it to the end.
pub open spec fn stem_of(name: Seq<char>) -> Seq<char> {
    let bytes = encode_utf8(name);
    match last_byte_index(bytes, 46) {
        Some(i) => if i > 0 && bytes.len() - i <= 5 {
            byte_slice(name, 0, i)
        } else {
            name
        },
        None => name,
    }
}

/// The text of an optional capture group (empty when the group is absent).
pub open spec fn group_text(hay: Seq<char>, g: Option<Span>) -> Seq<char> {
    match g {
        Some((a, b)) => byte_slice(hay, a as int, b as int),
        None => Seq::empty(),
    }
}

/// Start offset of an optional group (0 when it is absent).
pub open spec fn group_start(g: Option<Span>) -> usize {
    match g {
        Some((a, _b)) => a,
        None => 0,
    }
}

/// `text.parse::<u32>().unwrap_or(1)`.
pub open spec fn number_or_one(text: Seq<char>) -> u32 {
    match parse_unsigned(text, u32::MAX as nat) {
        Some(v) => v as u32,
        None => 1,
    }
}

/// Season, episode and start of an episode-marker match.
pub open spec fn episode_from_captures(
    hay: Seq<char>,
    caps: Option<(Option<Span>, Option<Span>, Option<Span>)>,
) -> Option<(u32, u32, usize)> {
    match caps {
        Some((g0, g1, g2)) => Some(
            (number_or_one(group_text(hay, g1)), number_or_one(group_text(hay, g2)), group_start(g0)),
        ),
        None => None,
    }
}

/// The first of the three episode patterns that matches the stem decides.
pub open spec fn episode_marker(stem: Seq<char>) -> Option<(u32, u32, usize)> {
    let c1 = regex_captures_result(TV_EPISODE_PATTERN_1@, stem);
    let c2 = regex_captures_result(TV_EPISODE_PATTERN_2@, stem);
    let c3 = regex_captures_result(TV_EPISODE_PATTERN_3@, stem);
    if c1 is Some {
        episode_from_captures(stem, c1)
    } else if c2 is Some {
        episode_from_captures(stem, c2)
    } else {
        episode_from_captures(stem, c3)
    }
}

/// The year (1900 to 2099) a year-pattern match stands for, and the start of
/// the match.
pub open spec fn year_candidate(hay: Seq<char>, c: (Option<Span>, Option<Span>)) -> Option<
    (u16, usize),
> {
    match c.1 {
        Some(g1) => match parse_unsigned(group_text(hay, Some(g1)), u16::MAX as nat) {
            Some(y) => if 1900 <= y <= 2099 {
                Some((y as u16, group_start(c.0)))
            } else {
                None
            },
            None => None,
        },
        None => None,
    }
}

/// All year candidates, in the order of the matches.
pub open spec fn year_candidates(hay: Seq<char>, caps: Seq<(Option<Span>, Option<Span>)>) -> Seq<
    (u16, usize),
>
    decreases caps.len(),
{
    if caps.len() == 0 {
        Seq::empty()
    } else {
        let prev = year_candidates(hay, caps.drop_last());
        match year_candidate(hay, caps.last()) {
            Some(c) => prev.push(c),
            None => prev,
        }
    }
}

/// The last candidate that is no later than 2030.
pub open spec fn last_plausible_year(l: Seq<(u16, usize)>) -> Option<(u16, usize)>
    decreases l.len(),
{
    if l.len() == 0 {
        None
    } else if l.last().0 <= 2030 {
        Some(l.last())
    } else {
        last_plausible_year(l.drop_last())
    }
}

/// The chosen year: the last plausible one, else the last one found.
pub open spec fn chosen_year(l: Seq<(u16, usize)>) -> Option<(u16, usize)> {
    if l.len() == 0 {
        None
    } else {
        match last_plausible_year(l) {
            Some(c) => Some(c),
            None => Some(l.last()),
        }
    }
}

/// The title part once tags and separators are gone and brackets and dashes
/// are turned into spaces.
pub open spec fn spaced_title(title_part: Seq<char>) -> Seq<char> {
    let sp = " "@;
    let c1 = regex_replace_all_result(RESOLUTION_PATTERN@, title_part, sp);
    let c2 = regex_replace_all_result(EDITION_PATTERN@, c1, sp);
    let c3 = regex_replace_all_result(NOISE_TAGS_PATTERN@, c2, sp);
    let c4 = regex_replace_all_result(CLEANUP_SEPARATORS_PATTERN@, c3, sp);
    let c5 = regex_replace_all_result(NOISE_TAGS_PATTERN@, c4, sp);
    let c6 = regex_replace_all_result(RESOLUTION_PATTERN@, c5, sp);
    let c7 = replace_chars(c6, seq!['(', ')', '[', ']', '{', '}', '-'], ' ');
    c7
}

/// The title words once tags, separators and brackets are gone.
pub open spec fn cleaned_title(title_part: Seq<char>) -> Seq<char> {
    let c8 = regex_replace_all_result(MULTI_SPACE_PATTERN@, spaced_title(title_part), " "@);
    trim_seq(c8)
}

/// The characters that never stay in a cleaned title: brackets of every
/// kind and the dash.
pub open spec fn is_title_bracket(c: char) -> bool {
    c == '(' || c == ')' || c == '[' || c == ']' || c == '{' || c == '}' || c == '-'
}

/// No bracket of any kind and no dash in `t`.
pub open spec fn bracket_free(t: Seq<char>) -> bool {
    forall|i: int| 0 <= i < t.len() ==> !is_title_bracket(#[trigger] t[i])
}

/// A cleaned title holds no bracket of any kind and no dash, given that
/// collapsing runs of white space (a `regex` replacement by a space) only
/// keeps characters of its input or writes spaces.
pub proof fn cleaned_title_has_no_brackets(title_part: Seq<char>)
    requires
        chars_drawn_from(
            regex_replace_all_result(MULTI_SPACE_PATTERN@, spaced_title(title_part), " "@),
            spaced_title(title_part),
            " "@,
        ),
    ensures
        bracket_free(cleaned_title(title_part)),
{
    reveal_strlit(" ");
    let c7 = spaced_title(title_part);
    let c8 = regex_replace_all_result(MULTI_SPACE_PATTERN@, c7, " "@);
    assert(bracket_free(c7));
    assert forall|i: int| 0 <= i < c8.len() implies !is_title_bracket(#[trigger] c8[i]) by {
        if c7.contains(c8[i]) {
            let k = choose|k: int| 0 <= k < c7.len() && c7[k] == c8[i];
        } else {
            assert(" "@.contains(c8[i]));
            let k = choose|k: int| 0 <= k < " "@.len() && " "@[k] == c8[i];
        }
    }
    trim_keeps_chars(c8);
    let t = trim_seq(c8);
    assert forall|i: int| 0 <= i < t.len() implies !is_title_bracket(#[trigger] t[i]) by {
        let k = choose|k: int| 0 <= k < c8.len() && c8[k] == t[i];
    }
}

/// The resolution tag, uppercased.
pub open spec fn resolution_of(stem: Seq<char>) -> Option<Seq<char>> {
    match regex_find_result(RESOLUTION_PATTERN@, stem) {
        Some((a, b)) => Some(uppercase_of(byte_slice(stem, a as int, b as int))),
        None => None,
    }
}

/// The edition tag, dots turned into spaces, uppercased.
pub open spec fn edition_of(stem: Seq<char>) -> Option<Seq<char>> {
    match regex_find_result(EDITION_PATTERN@, stem) {
        Some((a, b)) => Some(
            uppercase_of(replace_chars(byte_slice(stem, a as int, b as int), seq!['.'], ' ')),
        ),
        None => None,
    }
}

/// The media type and the part of the stem before an episode marker.
pub open spec fn type_and_title_part(stem: Seq<char>) -> (ParsedMediaType, Seq<char>) {
    match episode_marker(stem) {
        Some((s, e, start)) => (
            ParsedMediaType::Episode { season_number: s, episode_number: e },
            if start > 0 {
                byte_slice(stem, 0, start as int)
            } else {
                stem
            },
        ),
        None => (ParsedMediaType::Movie, stem),
    }
}

/// The year guess and the title part once a movie's year is cut off.
pub open spec fn year_and_title_part(is_movie: bool, title_part: Seq<char>) -> (
    Option<u16>,
    Seq<char>,
) {
    let cands = year_candidates(title_part, regex_captures_all_result(YEAR_PATTERN@, title_part));
    match chosen_year(cands) {
        Some((y, start)) => (
            Some(y),
            if start > 0 && is_movie {
                byte_slice(title_part, 0, start as int)
            } else {
                title_part
            },
        ),
        None => (None, title_part),
    }
}

/// What `FilenameParser::parse` returns for a name with the given characters.
pub open spec fn parse_spec(name: Seq<char>) -> ParsedFilenameView {
    let stem = stem_of(name);
    let (media_type, part1) = type_and_title_part(stem);
    let (year, part2) = year_and_title_part(media_type is Movie, part1);
    let title = cleaned_title(part2);
    ParsedFilenameView {
        title_guess: if title.len() == 0 {
            stem
        } else {
            title
        },
        year_guess: year,
        edition_guess: edition_of(stem),
        resolution_guess: resolution_of(stem),
        media_type,
    }
}

// ---------------------------------------------------------------------------
// Implementation
// ---------------------------------------------------------------------------

proof fn lemma_prefix_nonempty(s: Seq<char>, i: int)
    requires
        can_slice(s, 0, i),
        i > 0,
    ensures
        byte_slice(s, 0, i).len() > 0,
{
    let b = encode_utf8(s);
    valid_utf8_split(b, i);
    let p = b.subrange(0, i);
    assert(p.len() > 0);
    reveal_with_fuel(decode_utf8, 2);
}

proof fn lemma_slice_prefix_of_span(s: Seq<char>, a: int, b: int)
    requires
        can_slice(s, a, b),
    ensures
        can_slice(s, 0, a),
{
    is_char_boundary_start_end_of_seq(encode_utf8(s));
}

/// Index of the last `.` byte.
fn last_dot(bytes: &[u8]) -> (r: Option<usize>)
    ensures
        match last_byte_index(bytes@, 46) {
            Some(i) => r == Some(i as usize),
            None => r is None,
        },
        r matches Some(k) ==> last_byte_index(bytes@, 46) == Some(k as int),
{
    assert(bytes@.subrange(0, bytes.len() as int) =~= bytes@);
    let mut j: usize = bytes.len();
    while j > 0
        invariant
            j <= bytes.len(),
            last_byte_index(bytes@, 46) == last_byte_index(bytes@.subrange(0, j as int), 46),
        decreases j,
    {
        assert(bytes@.subrange(0, j as int).last() == bytes@[j - 1]);
        if bytes[j - 1] == 46 {
            return Some(j - 1);
        }
        assert(bytes@.subrange(0, j as int).drop_last() =~= bytes@.subrange(0, j - 1));
        j = j - 1;
    }
    None
}

/// The name without its extension.
fn stem(name: &str) -> (r: &str)
    ensures
        r@ == stem_of(name@),
        name@.len() > 0 ==> r@.len() > 0,
{
    let bytes = name.as_bytes();
    assert(bytes@ =~= encode_utf8(name@));
    proof {
        lemma_last_index_is(bytes@, 46);
    }
    assert(bytes@.subrange(0, bytes@.len() as int) =~= bytes@);
    match last_dot(bytes) {
        Some(i) => {
            assert(last_byte_index(encode_utf8(name@), 46) == Some(i as int));
            if i > 0 && bytes.len() - i <= 5 {
                proof {
                    let b = encode_utf8(name@);
                    lemma_last_index_is(b, 46);
                    is_char_boundary_iff_not_is_continuation_byte(b, i as int);
                    is_char_boundary_start_end_of_seq(b);
                    assert(b[i as int] == 46);
                    assert(is_char_boundary(b, i as int));
                    assert(can_slice(name@, 0, i as int));
                }
                match slice_str(name, 0, i) {
                    Some(t) => {
                        proof {
                            lemma_prefix_nonempty(name@, i as int);
                        }
                        assert(t@ == stem_of(name@));
                        t
                    },
                    None => name,
                }
            } else {
                assert(name@ == stem_of(name@));
                name
            }
        },
        None => {
            assert(name@ == stem_of(name@));
            name
        },
    }
}

proof fn lemma_last_index_is(b: Seq<u8>, x: u8)
    ensures
        last_byte_index(b, x) matches Some(i) ==> 0 <= i < b.len() && b[i] == x,
    decreases b.len(),
{
    if b.len() > 0 && b.last() != x {
        lemma_last_index_is(b.drop_last(), x);
    }
}

/// The text of an optional group.
fn group_str<'a>(hay: &'a str, g: Option<Span>) -> (r: &'a str)
    requires
        span_fits(hay@, g),
    ensures
        r@ == group_text(hay@, g),
{
    match g {
        Some((a, b)) => match slice_str(hay, a, b) {
            Some(t) => t,
            None => "",
        },
        None => {
            proof {
                reveal_strlit("");
            }
            ""
        },
    }
}

/// `text.parse::<u32>().unwrap_or(1)`.
fn number_or_one_exec(text: &str) -> (r: u32)
    ensures
        r == number_or_one(text@),
{
    let v = chars_of(text);
    match parse_unsigned_exec(v.as_slice(), 0xFFFF_FFFF) {
        Some(n) => n as u32,
        None => 1,
    }
}

fn episode_exec(hay: &str, pattern: &str) -> (r: (bool, Option<(u32, u32, usize)>))
    ensures
        r.0 == (regex_captures_result(pattern@, hay@) is Some),
        r.1 == episode_from_captures(hay@, regex_captures_result(pattern@, hay@)),
        r.1 matches Some((_s, _e, st)) ==> can_slice(hay@, 0, st as int),
{
    match regex_captures(pattern, hay) {
        Some((g0, g1, g2)) => {
            let s = number_or_one_exec(group_str(hay, g1));
            let e = number_or_one_exec(group_str(hay, g2));
            let start = match g0 {
                Some((a, b)) => {
                    proof {
                        lemma_slice_prefix_of_span(hay@, a as int, b as int);
                    }
                    a
                },
                None => {
                    proof {
                        is_char_boundary_start_end_of_seq(encode_utf8(hay@));
                    }
                    0
                },
            };
            (true, Some((s, e, start)))
        },
        None => (false, None),
    }
}

fn episode_marker_exec(stem: &str) -> (r: Option<(u32, u32, usize)>)
    ensures
        r == episode_marker(stem@),
        r matches Some((_s, _e, st)) ==> can_slice(stem@, 0, st as int),
{
    let (hit1, r1) = episode_exec(stem, TV_EPISODE_PATTERN_1);
    if hit1 {
        return r1;
    }
    let (hit2, r2) = episode_exec(stem, TV_EPISODE_PATTERN_2);
    if hit2 {
        return r2;
    }
    let (_hit3, r3) = episode_exec(stem, TV_EPISODE_PATTERN_3);
    r3
}

fn year_candidate_exec(hay: &str, c: (Option<Span>, Option<Span>)) -> (r: Option<(u16, usize)>)
    requires
        span_fits(hay@, c.0),
        span_fits(hay@, c.1),
    ensures
        r == year_candidate(hay@, c),
{
    match c.1 {
        Some(g1) => {
            let t = group_str(hay, Some(g1));
            let v = chars_of(t);
            match parse_unsigned_exec(v.as_slice(), 0xFFFF) {
                Some(y) => {
                    if 1900 <= y && y <= 2099 {
                        let start = match c.0 {
                            Some((a, _b)) => a,
                            None => 0,
                        };
                        Some((y as u16, start))
                    } else {
                        None
                    }
                },
                None => None,
            }
        },
        None => None,
    }
}

/// Start offsets of the candidates lie on character boundaries of `hay`.
pub open spec fn starts_fit(hay: Seq<char>, l: Seq<(u16, usize)>) -> bool {
    forall|i: int| 0 <= i < l.len() ==> can_slice(hay, 0, (#[trigger] l[i]).1 as int)
}

proof fn lemma_candidates_fit(hay: Seq<char>, caps: Seq<(Option<Span>, Option<Span>)>)
    requires
        forall|i: int|
            0 <= i < caps.len() ==> span_fits(hay, (#[trigger] caps[i]).0) && span_fits(
                hay,
                caps[i].1,
            ),
    ensures
        starts_fit(hay, year_candidates(hay, caps)),
    decreases caps.len(),
{
    if caps.len() > 0 {
        let prev = caps.drop_last();
        assert forall|i: int|
            0 <= i < prev.len() implies span_fits(hay, (#[trigger] prev[i]).0) && span_fits(
                hay,
                prev[i].1,
            ) by {
            assert(prev[i] == caps[i]);
        }
        lemma_candidates_fit(hay, prev);
        let last = caps.last();
        assert(span_fits(hay, caps[caps.len() - 1].0));
        match last.0 {
            Some((a, b)) => {
                lemma_slice_prefix_of_span(hay, a as int, b as int);
            },
            None => {
                is_char_boundary_start_end_of_seq(encode_utf8(hay));
            },
        }
    }
}

proof fn lemma_candidates_in_range(hay: Seq<char>, caps: Seq<(Option<Span>, Option<Span>)>)
    ensures
        forall|i: int|
            0 <= i < year_candidates(hay, caps).len() ==> 1900 <= (#[trigger] year_candidates(
                hay,
                caps,
            )[i]).0 <= 2099,
    decreases caps.len(),
{
    if caps.len() > 0 {
        let prev = year_candidates(hay, caps.drop_last());
        lemma_candidates_in_range(hay, caps.drop_last());
        let all = year_candidates(hay, caps);
        match year_candidate(hay, caps.last()) {
            Some(c) => {
                assert(all == prev.push(c));
                assert forall|i: int| 0 <= i < all.len() implies 1900 <= (#[trigger] all[i]).0
                    <= 2099 by {
                    if i < prev.len() {
                        assert(all[i] == prev[i]);
                    }
                }
            },
            None => {
                assert(all == prev);
            },
        }
    }
}

proof fn lemma_chosen_in(l: Seq<(u16, usize)>)
    ensures
        chosen_year(l) matches Some(c) ==> exists|i: int| 0 <= i < l.len() && l[i] == c,
        last_plausible_year(l) matches Some(c) ==> exists|i: int| 0 <= i < l.len() && l[i] == c,
    decreases l.len(),
{
    if l.len() > 0 {
        lemma_chosen_in(l.drop_last());
        if l.last().0 > 2030 {
            if let Some(c) = last_plausible_year(l.drop_last()) {
                let i = choose|i: int| 0 <= i < l.drop_last().len() && l.drop_last()[i] == c;
                assert(l[i] == c);
            }
        }
        assert(l[l.len() - 1] == l.last());
    }
}

fn choose_year(l: &Vec<(u16, usize)>) -> (r: Option<(u16, usize)>)
    ensures
        r == chosen_year(l@),
{
    if l.len() == 0 {
        return None;
    }
    assert(l@.subrange(0, l.len() as int) =~= l@);
    let mut j: usize = l.len();
    while j > 0
        invariant
            j <= l.len(),
            last_plausible_year(l@) == last_plausible_year(l@.subrange(0, j as int)),
        decreases j,
    {
        assert(l@.subrange(0, j as int).last() == l@[j - 1]);
        if l[j - 1].0 <= 2030 {
            return Some(l[j - 1]);
        }
        assert(l@.subrange(0, j as int).drop_last() =~= l@.subrange(0, j - 1));
        j = j - 1;
    }
    assert(l@.subrange(0, 0) =~= Seq::<(u16, usize)>::empty());
    Some(l[l.len() - 1])
}

/// The year guess and the remaining title part.
fn year_exec(media_is_movie: bool, title_part: &str) -> (r: (Option<u16>, String))
    ensures
        (r.0, r.1@) == year_and_title_part(media_is_movie, title_part@),
        r.0 matches Some(y) ==> 1900 <= y <= 2099,
{
    let caps = regex_captures_all(YEAR_PATTERN, title_part);
    let mut cands: Vec<(u16, usize)> = Vec::new();
    let mut i: usize = 0;
    while i < caps.len()
        invariant
            0 <= i <= caps.len(),
            caps@ == regex_captures_all_result(YEAR_PATTERN@, title_part@),
            forall|k: int|
                0 <= k < caps@.len() ==> span_fits(title_part@, (#[trigger] caps@[k]).0)
                    && span_fits(title_part@, caps@[k].1),
            cands@ == year_candidates(title_part@, caps@.subrange(0, i as int)),
        decreases caps.len() - i,
    {
        let c = caps[i];
        assert(span_fits(title_part@, caps@[i as int].0));
        let cand = year_candidate_exec(title_part, c);
        assert(caps@.subrange(0, i + 1).drop_last() =~= caps@.subrange(0, i as int));
        assert(caps@.subrange(0, i + 1).last() == c);
        match cand {
            Some(x) => cands.push(x),
            None => {},
        }
        i = i + 1;
    }
    assert(caps@.subrange(0, caps.len() as int) =~= caps@);
    proof {
        lemma_candidates_fit(title_part@, caps@);
        lemma_candidates_in_range(title_part@, caps@);
        lemma_chosen_in(cands@);
    }
    match choose_year(&cands) {
        Some((y, start)) => {
            proof {
                let k = choose|k: int| 0 <= k < cands@.len() && cands@[k] == (y, start);
                assert(can_slice(title_part@, 0, cands@[k].1 as int));
            }
            if start > 0 && media_is_movie {
                match slice_str(title_part, 0, start) {
                    Some(t) => (Some(y), t.to_owned()),
                    None => (Some(y), title_part.to_owned()),
                }
            } else {
                (Some(y), title_part.to_owned())
            }
        },
        None => (None, title_part.to_owned()),
    }
}

/// Removes tags, separators and brackets, and collapses white space.
fn clean_title(title_part: &str) -> (r: Vec<char>)
    ensures
        r@ == cleaned_title(title_part@),
        bracket_free(r@),
{
    let c1 = regex_replace_all(RESOLUTION_PATTERN, title_part, " ");
    let c2 = regex_replace_all(EDITION_PATTERN, c1.as_str(), " ");
    let c3 = regex_replace_all(NOISE_TAGS_PATTERN, c2.as_str(), " ");
    let c4 = regex_replace_all(CLEANUP_SEPARATORS_PATTERN, c3.as_str(), " ");
    let c5 = regex_replace_all(NOISE_TAGS_PATTERN, c4.as_str(), " ");
    let c6 = regex_replace_all(RESOLUTION_PATTERN, c5.as_str(), " ");
    let c6v = chars_of(c6.as_str());
    let brackets = chars_of("()[]{}-");
    proof {
        reveal_strlit("()[]{}-");
    }
    assert(brackets@ =~= seq!['(', ')', '[', ']', '{', '}', '-']);
    let c7v = replace_chars_exec(c6v.as_slice(), brackets.as_slice(), ' ');
    let c7 = string_of(c7v.as_slice());
    let c8 = regex_replace_all(MULTI_SPACE_PATTERN, c7.as_str(), " ");
    proof {
        reveal_strlit(" ");
        assert(!" "@.contains('$')) by {
            if " "@.contains('$') {
                let k = choose|k: int| 0 <= k < " "@.len() && " "@[k] == '$';
            }
        }
        cleaned_title_has_no_brackets(title_part@);
    }
    let c8v = chars_of(c8.as_str());
    trim_chars(c8v.as_slice())
}

/// The filename parser.
pub struct FilenameParser;

impl FilenameParser {
    /// Guesses what a media file holds from its name (with or without the
    /// extension).
    pub fn parse(filename_or_stem: &str) -> (r: ParsedFilename)
        ensures
            r@ == parse_spec(filename_or_stem@),
            r.year_guess matches Some(y) ==> 1900 <= y <= 2099,
            filename_or_stem@.len() > 0 ==> r.title_guess@.len() > 0,
            bracket_free(r.title_guess@) || r.title_guess@ == stem_of(filename_or_stem@),
    {
        let stem = stem(filename_or_stem);

        let resolution_guess = match regex_find(RESOLUTION_PATTERN, stem) {
            Some((a, b)) => match slice_str(stem, a, b) {
                Some(t) => Some(to_uppercase(t)),
                None => None,
            },
            None => None,
        };

        let edition_guess = match regex_find(EDITION_PATTERN, stem) {
            Some((a, b)) => match slice_str(stem, a, b) {
                Some(t) => {
                    let tv = chars_of(t);
                    let dot = chars_of(".");
                    proof {
                        reveal_strlit(".");
                    }
                    assert(dot@ =~= seq!['.']);
                    let spaced = string_of(replace_chars_exec(tv.as_slice(), dot.as_slice(), ' ').as_slice());
                    Some(to_uppercase(spaced.as_str()))
                },
                None => None,
            },
            None => None,
        };

        let (media_type, title_part) = match episode_marker_exec(stem) {
            Some((s, e, start)) => {
                let part = if start > 0 {
                    match slice_str(stem, 0, start) {
                        Some(t) => t,
                        None => stem,
                    }
                } else {
                    stem
                };
                (ParsedMediaType::Episode { season_number: s, episode_number: e }, part)
            },
            None => (ParsedMediaType::Movie, stem),
        };

        let is_movie = match media_type {
            ParsedMediaType::Movie => true,
            _ => false,
        };
        let (year_guess, title_part2) = year_exec(is_movie, title_part);
        let cleaned = clean_title(title_part2.as_str());
        let title_guess = if cleaned.len() == 0 {
            stem.to_owned()
        } else {
            string_of(cleaned.as_slice())
        };
        ParsedFilename { title_guess, year_guess, edition_guess, resolution_guess, media_type }
    }
}

} // verus!
