//! Character-level text helpers shared by the parsers of this crate.
//!
//! Strings are modelled by their view, a `Seq<char>`.  Byte offsets (as used
//! by `str` slicing and by the regex engine) are related to that view through
//! vstd's UTF-8 model (`encode_utf8` / `decode_utf8`).
use vstd::prelude::*;
use vstd::utf8::*;
use vstd::string::StringSliceAdditionalSpecFns;

verus! {

broadcast use vstd::utf8::encode_utf8_valid_utf8, vstd::utf8::encode_utf8_decode_utf8;

// ---------------------------------------------------------------------------
// Character classes
// ---------------------------------------------------------------------------

/// Whether `c` is an ASCII decimal digit.
pub open spec fn is_ascii_digit(c: char) -> bool {
    '0' <= c && c <= '9'
}

/// Whether every character of `s` is ASCII.
pub open spec fn all_ascii(s: Seq<char>) -> bool {
    forall|i: int| 0 <= i < s.len() ==> (s[i] as u32) < 128
}

/// ASCII lowercase of one character; other characters are unchanged.
pub open spec fn ascii_lower_char(c: char) -> char {
    if 'A' <= c && c <= 'Z' {
        ((c as u32) + 32) as char
    } else {
        c
    }
}

/// ASCII uppercase of one character; other characters are unchanged.
pub open spec fn ascii_upper_char(c: char) -> char {
    if 'a' <= c && c <= 'z' {
        ((c as u32) - 32) as char
    } else {
        c
    }
}

/// ASCII lowercase of a whole sequence.
pub open spec fn ascii_lower(s: Seq<char>) -> Seq<char> {
    s.map_values(|c: char| ascii_lower_char(c))
}

/// ASCII uppercase of a whole sequence.
pub open spec fn ascii_upper(s: Seq<char>) -> Seq<char> {
    s.map_values(|c: char| ascii_upper_char(c))
}

/// The `White_Space` property of Unicode, which is what `char::is_whitespace`
/// (and hence `str::trim`) tests.
pub open spec fn is_white_space(c: char) -> bool {
    let u = c as u32;
    ||| 0x09 <= u <= 0x0D
    ||| u == 0x20
    ||| u == 0x85
    ||| u == 0xA0
    ||| u == 0x1680
    ||| 0x2000 <= u <= 0x200A
    ||| u == 0x2028
    ||| u == 0x2029
    ||| u == 0x202F
    ||| u == 0x205F
    ||| u == 0x3000
}

/// Executable `is_white_space`.
pub fn char_is_white_space(c: char) -> (b: bool)
    ensures
        b == is_white_space(c),
{
    let u = c as u32;
    (0x09 <= u && u <= 0x0D) || u == 0x20 || u == 0x85 || u == 0xA0 || u == 0x1680 || (0x2000
        <= u && u <= 0x200A) || u == 0x2028 || u == 0x2029 || u == 0x202F || u == 0x205F || u
        == 0x3000
}

// ---------------------------------------------------------------------------
// Conversions between `str` and character vectors
// ---------------------------------------------------------------------------

/// Copies the characters of `s` into a vector.
pub(crate) fn chars_of(s: &str) -> (v: Vec<char>)
    ensures
        v@ == s@,
{
    broadcast use vstd::string::axiom_spec_iter;

    let mut v: Vec<char> = Vec::new();
    for c in it: s.chars()
        invariant
            it.seq() == s@,
            v@ == it.seq().take(it.index()),
    {
        v.push(c);
    }
    v
}

/// Builds a `String` holding exactly the characters of `v`.
///
/// Trusted: collecting an iterator of `char` into a `String` appends each
/// character in order.
#[verifier::external_body]
pub(crate) fn string_of(v: &[char]) -> (s: String)
    ensures
        s@ == v@,
{
    v.iter().collect()
}

/// A string literal (or any `&str`) as an owned `String`.
pub fn owned(s: &str) -> (r: String)
    ensures
        r@ == s@,
{
    s.to_owned()
}

/// Appends the characters of `s` to `out`.
pub fn push_str_chars(out: &mut Vec<char>, s: &str)
    ensures
        final(out)@ == old(out)@ + s@,
{
    let v = chars_of(s);
    let mut i: usize = 0;
    while i < v.len()
        invariant
            0 <= i <= v.len(),
            v@ == s@,
            out@ == old(out)@ + v@.subrange(0, i as int),
        decreases v.len() - i,
    {
        out.push(v[i]);
        i = i + 1;
        assert(v@.subrange(0, i as int) =~= v@.subrange(0, (i - 1) as int).push(v@[i - 1]));
    }
    assert(v@.subrange(0, v.len() as int) =~= v@);
}

// ---------------------------------------------------------------------------
// Case mapping (std, Unicode-aware)
// ---------------------------------------------------------------------------

/// What `str::to_lowercase` returns for a string with the given characters.
pub uninterp spec fn lowercase_of(s: Seq<char>) -> Seq<char>;

/// What `str::to_uppercase` returns for a string with the given characters.
pub uninterp spec fn uppercase_of(s: Seq<char>) -> Seq<char>;

/// `str::to_lowercase`.
///
/// Trusted: the result is a function of the characters alone (named
/// `lowercase_of`); on ASCII input it lowercases `A`..`Z` and keeps every
/// other character, as the std documentation describes.  What it does to
/// other Unicode characters is left unsaid.
#[verifier::external_body]
pub(crate) fn to_lowercase(s: &str) -> (r: String)
    ensures
        r@ == lowercase_of(s@),
        all_ascii(s@) ==> r@ == ascii_lower(s@),
{
    s.to_lowercase()
}

/// `str::to_uppercase`.
///
/// Trusted: the result is a function of the characters alone (named
/// `uppercase_of`); on ASCII input it uppercases `a`..`z` and keeps every
/// other character.  What it does to other Unicode characters is left unsaid.
#[verifier::external_body]
pub(crate) fn to_uppercase(s: &str) -> (r: String)
    ensures
        r@ == uppercase_of(s@),
        all_ascii(s@) ==> r@ == ascii_upper(s@),
{
    s.to_uppercase()
}

// ---------------------------------------------------------------------------
// Comparisons and searching
// ---------------------------------------------------------------------------

/// Character-wise equality of two vectors.
pub fn chars_eq(a: &[char], b: &[char]) -> (r: bool)
    ensures
        r == (a@ == b@),
{
    if a.len() != b.len() {
        return false;
    }
    let mut i: usize = 0;
    while i < a.len()
        invariant
            a.len() == b.len(),
            0 <= i <= a.len(),
            forall|j: int| 0 <= j < i ==> a@[j] == b@[j],
        decreases a.len() - i,
    {
        if a[i] != b[i] {
            return false;
        }
        i = i + 1;
    }
    assert(a@ =~= b@);
    true
}

/// Whether the characters of `s` are exactly those of the literal `lit`.
pub fn chars_are(s: &[char], lit: &str) -> (r: bool)
    ensures
        r == (s@ == lit@),
{
    let l = chars_of(lit);
    chars_eq(s, l.as_slice())
}

/// `pat` occurs in `s` starting at index `i`.
pub open spec fn occurs_at(s: Seq<char>, pat: Seq<char>, i: int) -> bool {
    0 <= i && i + pat.len() <= s.len() && s.subrange(i, i + pat.len()) == pat
}

/// `pat` occurs somewhere in `s` (the meaning of `str::contains` on a `&str`
/// pattern).
pub open spec fn contains_seq(s: Seq<char>, pat: Seq<char>) -> bool {
    exists|i: int| occurs_at(s, pat, i)
}

/// Whether `pat` occurs in `s` at `i`.
pub fn occurs_at_exec(s: &[char], pat: &[char], i: usize) -> (r: bool)
    ensures
        r == occurs_at(s@, pat@, i as int),
{
    if i > s.len() || pat.len() > s.len() - i {
        return false;
    }
    let mut k: usize = 0;
    while k < pat.len()
        invariant
            i + pat.len() <= s.len(),
            0 <= k <= pat.len(),
            forall|j: int| 0 <= j < k ==> s@[i + j] == pat@[j],
        decreases pat.len() - k,
    {
        if s[i + k] != pat[k] {
            assert(s@.subrange(i as int, i + pat.len())[k as int] != pat@[k as int]);
            return false;
        }
        k = k + 1;
    }
    assert(s@.subrange(i as int, i + pat.len()) =~= pat@);
    true
}

/// `str::contains` for a character vector and a literal pattern.
pub fn contains_lit(s: &[char], lit: &str) -> (r: bool)
    ensures
        r == contains_seq(s@, lit@),
{
    let pat = chars_of(lit);
    if pat.len() > s.len() {
        return false;
    }
    if pat.len() == 0 {
        assert(s@.subrange(0, 0) =~= pat@);
        assert(occurs_at(s@, pat@, 0));
        return true;
    }
    let mut i: usize = 0;
    while i <= s.len() - pat.len()
        invariant
            pat@ == lit@,
            0 < pat.len() <= s.len(),
            0 <= i <= s.len() - pat.len() + 1,
            forall|j: int| 0 <= j < i ==> !occurs_at(s@, pat@, j),
        decreases s.len() - pat.len() + 1 - i,
    {
        if occurs_at_exec(s, pat.as_slice(), i) {
            return true;
        }
        i = i + 1;
    }
    assert forall|j: int| !occurs_at(s@, pat@, j) by {
        if 0 <= j < i {
        }
    }
    false
}

/// The sequence `s` with every character in `from` replaced by `to`.
pub open spec fn replace_chars(s: Seq<char>, from: Seq<char>, to: char) -> Seq<char> {
    s.map_values(|c: char| if from.contains(c) { to } else { c })
}

/// `str::replace` with a set of single characters as the pattern and a single
/// character as the replacement.
pub fn replace_chars_exec(s: &[char], from: &[char], to: char) -> (r: Vec<char>)
    ensures
        r@ == replace_chars(s@, from@, to),
{
    let mut out: Vec<char> = Vec::new();
    let mut i: usize = 0;
    while i < s.len()
        invariant
            0 <= i <= s.len(),
            out@ == replace_chars(s@.subrange(0, i as int), from@, to),
        decreases s.len() - i,
    {
        let c = s[i];
        let mut hit = false;
        let mut k: usize = 0;
        while k < from.len()
            invariant
                0 <= k <= from.len(),
                hit == (exists|j: int| 0 <= j < k && from@[j] == c),
            decreases from.len() - k,
        {
            if from[k] == c {
                hit = true;
            }
            k = k + 1;
        }
        assert(hit == from@.contains(c));
        if hit {
            out.push(to);
        } else {
            out.push(c);
        }
        i = i + 1;
        assert(replace_chars(s@.subrange(0, i as int), from@, to) =~= replace_chars(
            s@.subrange(0, (i - 1) as int),
            from@,
            to,
        ).push(if from@.contains(c) { to } else { c }));
    }
    assert(s@.subrange(0, s.len() as int) =~= s@);
    out
}

/// `pre` is a prefix of `s` (the meaning of `str::starts_with`).
pub open spec fn has_prefix(s: Seq<char>, pre: Seq<char>) -> bool {
    pre.len() <= s.len() && s.subrange(0, pre.len() as int) == pre
}

/// `str::starts_with` on character vectors.
pub fn starts_with_chars(s: &[char], pre: &[char]) -> (r: bool)
    ensures
        r == has_prefix(s@, pre@),
{
    occurs_at_exec(s, pre, 0)
}

/// ASCII case-insensitive equality (the meaning of `str::eq_ignore_ascii_case`).
pub open spec fn eq_ignore_ascii_case(a: Seq<char>, b: Seq<char>) -> bool {
    ascii_lower(a) == ascii_lower(b)
}

/// Executable `ascii_lower_char`.
pub fn ascii_lower_char_exec(c: char) -> (r: char)
    ensures
        r == ascii_lower_char(c),
{
    if 'A' <= c && c <= 'Z' {
        let b = c as u8;
        (b + 32) as char
    } else {
        c
    }
}

/// `str::eq_ignore_ascii_case` on character vectors.
pub fn eq_ignore_ascii_case_chars(a: &[char], b: &[char]) -> (r: bool)
    ensures
        r == eq_ignore_ascii_case(a@, b@),
{
    if a.len() != b.len() {
        assert(ascii_lower(a@).len() != ascii_lower(b@).len());
        return false;
    }
    let mut i: usize = 0;
    while i < a.len()
        invariant
            a.len() == b.len(),
            0 <= i <= a.len(),
            forall|j: int| 0 <= j < i ==> ascii_lower_char(a@[j]) == ascii_lower_char(b@[j]),
        decreases a.len() - i,
    {
        if ascii_lower_char_exec(a[i]) != ascii_lower_char_exec(b[i]) {
            assert(ascii_lower(a@)[i as int] != ascii_lower(b@)[i as int]);
            return false;
        }
        i = i + 1;
    }
    assert(ascii_lower(a@) =~= ascii_lower(b@));
    true
}

// ---------------------------------------------------------------------------
// Trimming
// ---------------------------------------------------------------------------

/// `s` without its leading white space.
pub open spec fn trim_start_seq(s: Seq<char>) -> Seq<char>
    decreases s.len(),
{
    if s.len() > 0 && is_white_space(s[0]) {
        trim_start_seq(s.drop_first())
    } else {
        s
    }
}

/// `s` without its trailing white space.
pub open spec fn trim_end_seq(s: Seq<char>) -> Seq<char>
    decreases s.len(),
{
    if s.len() > 0 && is_white_space(s.last()) {
        trim_end_seq(s.drop_last())
    } else {
        s
    }
}

/// The meaning of `str::trim`: leading and trailing white space removed.
pub open spec fn trim_seq(s: Seq<char>) -> Seq<char> {
    trim_end_seq(trim_start_seq(s))
}

/// Trimming only drops characters: every character of the trimmed text is
/// one of the text's.
pub proof fn trim_keeps_chars(s: Seq<char>)
    ensures
        forall|i: int| 0 <= i < trim_seq(s).len() ==> s.contains(#[trigger] trim_seq(s)[i]),
{
    trim_start_keeps_chars(s);
    trim_end_keeps_chars(trim_start_seq(s));
    let a = trim_start_seq(s);
    let b = trim_end_seq(a);
    assert forall|i: int| 0 <= i < b.len() implies s.contains(#[trigger] b[i]) by {
        let k = choose|k: int| 0 <= k < a.len() && a[k] == b[i];
        let m = choose|m: int| 0 <= m < s.len() && s[m] == a[k];
    }
}

proof fn trim_start_keeps_chars(s: Seq<char>)
    ensures
        forall|i: int| 0 <= i < trim_start_seq(s).len() ==> s.contains(#[trigger] trim_start_seq(s)[i]),
    decreases s.len(),
{
    if s.len() > 0 && is_white_space(s[0]) {
        let d = s.drop_first();
        trim_start_keeps_chars(d);
        assert forall|i: int| 0 <= i < trim_start_seq(s).len() implies s.contains(#[trigger] trim_start_seq(s)[i]) by {
            let k = choose|k: int| 0 <= k < d.len() && d[k] == trim_start_seq(d)[i];
            assert(s[k + 1] == d[k]);
        }
    } else {
        assert forall|i: int| 0 <= i < trim_start_seq(s).len() implies s.contains(#[trigger] trim_start_seq(s)[i]) by {
            assert(s[i] == trim_start_seq(s)[i]);
        }
    }
}

proof fn trim_end_keeps_chars(s: Seq<char>)
    ensures
        forall|i: int| 0 <= i < trim_end_seq(s).len() ==> s.contains(#[trigger] trim_end_seq(s)[i]),
    decreases s.len(),
{
    if s.len() > 0 && is_white_space(s.last()) {
        let d = s.drop_last();
        trim_end_keeps_chars(d);
        assert forall|i: int| 0 <= i < trim_end_seq(s).len() implies s.contains(#[trigger] trim_end_seq(s)[i]) by {
            let k = choose|k: int| 0 <= k < d.len() && d[k] == trim_end_seq(d)[i];
            assert(s[k] == d[k]);
        }
    } else {
        assert forall|i: int| 0 <= i < trim_end_seq(s).len() implies s.contains(#[trigger] trim_end_seq(s)[i]) by {
            assert(s[i] == trim_end_seq(s)[i]);
        }
    }
}

proof fn lemma_trim_start_skip(s: Seq<char>, i: int)
    requires
        0 <= i <= s.len(),
        forall|j: int| 0 <= j < i ==> is_white_space(s[j]),
    ensures
        trim_start_seq(s) == trim_start_seq(s.subrange(i, s.len() as int)),
    decreases i,
{
    if i > 0 {
        assert(s.drop_first().subrange(i - 1, s.drop_first().len() as int) =~= s.subrange(
            i,
            s.len() as int,
        ));
        lemma_trim_start_skip(s.drop_first(), i - 1);
    } else {
        assert(s.subrange(0, s.len() as int) =~= s);
    }
}

proof fn lemma_trim_end_skip(s: Seq<char>, j: int)
    requires
        0 <= j <= s.len(),
        forall|k: int| j <= k < s.len() ==> is_white_space(s[k]),
    ensures
        trim_end_seq(s) == trim_end_seq(s.subrange(0, j)),
    decreases s.len() - j,
{
    if j < s.len() {
        assert(s.drop_last().subrange(0, j) =~= s.subrange(0, j));
        lemma_trim_end_skip(s.drop_last(), j);
    } else {
        assert(s.subrange(0, j) =~= s);
    }
}

/// `str::trim` on a character vector.
pub fn trim_chars(s: &[char]) -> (r: Vec<char>)
    ensures
        r@ == trim_seq(s@),
{
    let mut i: usize = 0;
    while i < s.len() && char_is_white_space(s[i])
        invariant
            0 <= i <= s.len(),
            forall|j: int| 0 <= j < i ==> is_white_space(s@[j]),
        decreases s.len() - i,
    {
        i = i + 1;
    }
    proof {
        lemma_trim_start_skip(s@, i as int);
    }
    let ghost rest = s@.subrange(i as int, s.len() as int);
    assert(trim_start_seq(rest) == rest);
    let mut j: usize = s.len();
    while j > i && char_is_white_space(s[j - 1])
        invariant
            i <= j <= s.len(),
            rest == s@.subrange(i as int, s.len() as int),
            forall|k: int| j <= k < s.len() ==> is_white_space(s@[k]),
        decreases j - i,
    {
        j = j - 1;
    }
    proof {
        lemma_trim_end_skip(rest, j - i);
        assert(rest.subrange(0, j - i) =~= s@.subrange(i as int, j as int));
    }
    let mut out: Vec<char> = Vec::new();
    let mut k: usize = i;
    while k < j
        invariant
            i <= k <= j <= s.len(),
            out@ == s@.subrange(i as int, k as int),
        decreases j - k,
    {
        out.push(s[k]);
        k = k + 1;
        assert(s@.subrange(i as int, k as int) =~= s@.subrange(i as int, (k - 1) as int).push(
            s@[k - 1],
        ));
    }
    out
}

// ---------------------------------------------------------------------------
// Decimal numbers
// ---------------------------------------------------------------------------

/// Value of a digit character.
pub open spec fn digit_value(c: char) -> nat {
    ((c as u32) - ('0' as u32)) as nat
}

/// Value of a sequence of decimal digits (most significant first).
pub open spec fn digits_value(s: Seq<char>) -> nat
    decreases s.len(),
{
    if s.len() == 0 {
        0
    } else {
        digits_value(s.drop_last()) * 10 + digit_value(s.last())
    }
}

/// The digits part of a number: a leading `+` is dropped, as `from_str` does
/// for unsigned integers.
pub open spec fn unsigned_body(s: Seq<char>) -> Seq<char> {
    if s.len() > 0 && s[0] == '+' {
        s.drop_first()
    } else {
        s
    }
}

/// What `<uN as FromStr>::from_str` accepts and returns, for an unsigned type
/// whose largest value is `max`: an optional `+`, then at least one ASCII
/// digit and nothing else, with a value that fits.
pub open spec fn parse_unsigned(s: Seq<char>, max: nat) -> Option<nat> {
    let body = unsigned_body(s);
    if body.len() > 0 && (forall|i: int| 0 <= i < body.len() ==> is_ascii_digit(body[i]))
        && digits_value(body) <= max {
        Some(digits_value(body))
    } else {
        None
    }
}

proof fn lemma_digits_value_prefix_mono(s: Seq<char>, i: int)
    requires
        0 <= i <= s.len(),
    ensures
        digits_value(s.subrange(0, i)) <= digits_value(s),
    decreases s.len() - i,
{
    if i < s.len() {
        lemma_digits_value_prefix_mono(s, i + 1);
        assert(s.subrange(0, i + 1).drop_last() =~= s.subrange(0, i));
    } else {
        assert(s.subrange(0, i) =~= s);
    }
}

/// Parses an unsigned decimal number no larger than `max`, with the rules of
/// `from_str` for unsigned integer types.
pub fn parse_unsigned_exec(s: &[char], max: u64) -> (r: Option<u64>)
    ensures
        match parse_unsigned(s@, max as nat) {
            Some(v) => r == Some(v as u64),
            None => r is None,
        },
{
    let start: usize = if s.len() > 0 && s[0] == '+' {
        1
    } else {
        0
    };
    let ghost body = unsigned_body(s@);
    assert(body =~= s@.subrange(start as int, s.len() as int));
    if start >= s.len() {
        return None;
    }
    let mut value: u64 = 0;
    let mut i: usize = start;
    while i < s.len()
        invariant
            start <= i <= s.len(),
            start < s.len(),
            body == unsigned_body(s@),
            body =~= s@.subrange(start as int, s.len() as int),
            forall|j: int| 0 <= j < i - start ==> is_ascii_digit(body[j]),
            value as nat == digits_value(body.subrange(0, i - start)),
            value <= max,
        decreases s.len() - i,
    {
        let c = s[i];
        assert(body[i - start] == c);
        if !('0' <= c && c <= '9') {
            assert(!is_ascii_digit(body[i - start]));
            assert(!(forall|j: int| 0 <= j < body.len() ==> is_ascii_digit(body[j])));
            return None;
        }
        let d = (c as u32 - '0' as u32) as u64;
        assert(body.subrange(0, i + 1 - start).drop_last() =~= body.subrange(0, i - start));
        assert(body.subrange(0, i + 1 - start).last() == c);
        proof {
            lemma_digits_value_prefix_mono(body, i + 1 - start);
        }
        let next: u128 = (value as u128) * 10 + (d as u128);
        assert(digits_value(body.subrange(0, i + 1 - start)) == next);
        if next > max as u128 {
            assert(digits_value(body) > max);
            return None;
        }
        value = next as u64;
        i = i + 1;
    }
    assert(body.subrange(0, s.len() - start) =~= body);
    Some(value)
}


// ---------------------------------------------------------------------------
// Slicing by byte offsets
// ---------------------------------------------------------------------------

/// `s[a..b]` where `a` and `b` are byte offsets into the UTF-8 encoding.
pub open spec fn byte_slice(s: Seq<char>, a: int, b: int) -> Seq<char> {
    decode_utf8(encode_utf8(s).subrange(a, b))
}

/// Whether `s[a..b]` is a valid slice (in bounds, on character boundaries).
pub open spec fn can_slice(s: Seq<char>, a: int, b: int) -> bool {
    &&& 0 <= a <= b <= encode_utf8(s).len()
    &&& is_char_boundary(encode_utf8(s), a)
    &&& is_char_boundary(encode_utf8(s), b)
}

proof fn lemma_prefix_boundary(bytes: Seq<u8>, a: int, b: int)
    requires
        valid_utf8(bytes),
        0 <= a <= b <= bytes.len(),
        is_char_boundary(bytes, a),
        is_char_boundary(bytes, b),
    ensures
        valid_utf8(bytes.subrange(0, b)),
        is_char_boundary(bytes.subrange(0, b), a),
{
    valid_utf8_split(bytes, b);
    let head = bytes.subrange(0, b);
    if a == b {
        is_char_boundary_start_end_of_seq(head);
    } else {
        is_char_boundary_iff_not_is_continuation_byte(bytes, a);
        is_char_boundary_iff_not_is_continuation_byte(head, a);
    }
}

/// `s[a..b]`, or `None` where that slice would panic.
pub fn slice_str<'a>(s: &'a str, a: usize, b: usize) -> (r: Option<&'a str>)
    ensures
        r is Some <==> can_slice(s@, a as int, b as int),
        r matches Some(t) ==> t@ == byte_slice(s@, a as int, b as int),
{
    let ghost bytes = encode_utf8(s@);
    assert(s.spec_bytes() == bytes);
    let n = s.as_bytes().len();
    if a <= b && b <= n && s.is_char_boundary(a) && s.is_char_boundary(b) {
        proof {
            lemma_prefix_boundary(bytes, a as int, b as int);
        }
        let (head, _tail) = s.split_at(b);
        assert(head.spec_bytes() =~= bytes.subrange(0, b as int));
        let (_lead, mid) = head.split_at(a);
        assert(mid.spec_bytes() =~= bytes.subrange(a as int, b as int));
        assert(mid@ == decode_utf8(encode_utf8(mid@)));
        Some(mid)
    } else {
        None
    }
}

// ---------------------------------------------------------------------------
// Formatting numbers
// ---------------------------------------------------------------------------

/// The character of a decimal digit `d < 10`.
pub open spec fn digit_char(d: nat) -> char {
    ((48 + d) as u8) as char
}

/// Decimal representation of `n` (what `format!("{}", n)` prints).
pub open spec fn decimal_seq(n: nat) -> Seq<char>
    decreases n,
{
    if n < 10 {
        seq![digit_char(n)]
    } else {
        decimal_seq(n / 10).push(digit_char(n % 10))
    }
}

/// Decimal representation of `n` padded with zeros to at least two
/// characters (what `format!("{:02}", n)` prints).
pub open spec fn decimal_pad2(n: nat) -> Seq<char> {
    if n < 10 {
        seq!['0'] + decimal_seq(n)
    } else {
        decimal_seq(n)
    }
}

/// Appends the decimal representation of `n`.
pub fn push_decimal(out: &mut Vec<char>, n: u64)
    ensures
        final(out)@ == old(out)@ + decimal_seq(n as nat),
    decreases n,
{
    if n >= 10 {
        push_decimal(out, n / 10);
    }
    let d = (n % 10) as u8;
    out.push((48u8 + d) as char);
    assert(old(out)@ + decimal_seq(n as nat) =~= if n >= 10 {
        old(out)@ + decimal_seq((n / 10) as nat) + seq![digit_char((n % 10) as nat)]
    } else {
        old(out)@ + seq![digit_char((n % 10) as nat)]
    });
}

/// Appends the decimal representation of `n`, zero-padded to two characters.
pub fn push_decimal_pad2(out: &mut Vec<char>, n: u64)
    ensures
        final(out)@ == old(out)@ + decimal_pad2(n as nat),
{
    if n < 10 {
        out.push('0');
    }
    push_decimal(out, n);
    assert(final(out)@ =~= old(out)@ + decimal_pad2(n as nat)) by {
        if n < 10 {
            assert(old(out)@.push('0') + decimal_seq(n as nat) =~= old(out)@ + (seq!['0']
                + decimal_seq(n as nat)));
        }
    }
}

/// Decimal representation of a signed integer (a `-` before the digits of a
/// negative one).
pub open spec fn signed_decimal_seq(n: int) -> Seq<char> {
    if n < 0 {
        seq!['-'] + decimal_seq((-n) as nat)
    } else {
        decimal_seq(n as nat)
    }
}

/// Appends the decimal representation of a signed integer.
pub fn push_signed_decimal(out: &mut Vec<char>, n: i64)
    ensures
        final(out)@ == old(out)@ + signed_decimal_seq(n as int),
{
    if n < 0 {
        out.push('-');
        let magnitude: u64 = if n == i64::MIN {
            9223372036854775808u64
        } else {
            (-n) as u64
        };
        push_decimal(out, magnitude);
        assert(final(out)@ =~= old(out)@ + signed_decimal_seq(n as int));
    } else {
        push_decimal(out, n as u64);
    }
}

/// `s` with every non-overlapping occurrence of `pat` (found from the left)
/// replaced by `rep` (`str::replace` with a non-empty string pattern).
pub open spec fn replace_all(s: Seq<char>, pat: Seq<char>, rep: Seq<char>) -> Seq<char>
    recommends
        pat.len() > 0,
    decreases s.len(),
{
    if s.len() == 0 || pat.len() == 0 {
        s
    } else if has_prefix(s, pat) {
        rep + replace_all(s.skip(pat.len() as int), pat, rep)
    } else {
        seq![s[0]] + replace_all(s.drop_first(), pat, rep)
    }
}

/// `str::replace` with a non-empty literal pattern and replacement.
pub fn replace_all_exec(s: &str, pat: &str, rep: &str) -> (r: String)
    requires
        pat@.len() > 0,
    ensures
        r@ == replace_all(s@, pat@, rep@),
{
    let v = chars_of(s);
    let p = chars_of(pat);
    let mut out: Vec<char> = Vec::new();
    let mut i: usize = 0;
    assert(v@.skip(0) =~= v@);
    while i < v.len()
        invariant
            i <= v.len(),
            v@ == s@,
            p@ == pat@,
            p@.len() > 0,
            out@ + replace_all(v@.skip(i as int), p@, rep@) == replace_all(s@, pat@, rep@),
        decreases v.len() - i,
    {
        let ghost t = v@.skip(i as int);
        let ghost before = out@;
        if occurs_at_exec(v.as_slice(), p.as_slice(), i) {
            assert(t.subrange(0, p@.len() as int) =~= v@.subrange(i as int, i + p@.len()));
            assert(has_prefix(t, p@));
            push_str_chars(&mut out, rep);
            assert(t.skip(p@.len() as int) =~= v@.skip(i + p@.len()));
            assert(out@ + replace_all(v@.skip(i + p@.len()), p@, rep@) =~= before + replace_all(
                t,
                p@,
                rep@,
            ));
            i = i + p.len();
        } else {
            assert(!has_prefix(t, p@)) by {
                if has_prefix(t, p@) {
                    assert(t.subrange(0, p@.len() as int) =~= v@.subrange(
                        i as int,
                        i + p@.len(),
                    ));
                }
            }
            out.push(v[i]);
            assert(t.drop_first() =~= v@.skip(i + 1));
            assert(out@ + replace_all(v@.skip(i + 1), p@, rep@) =~= before + replace_all(
                t,
                p@,
                rep@,
            ));
            i = i + 1;
        }
    }
    assert(v@.skip(i as int) =~= Seq::<char>::empty());
    assert(out@ =~= replace_all(s@, pat@, rep@));
    string_of(out.as_slice())
}

} // verus!
