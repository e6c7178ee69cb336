//! What the streaming server sends back: byte ranges of a file, the MIME type
//! of a media file, and subtitle files (SubRip converted to WebVTT).
use vstd::prelude::*;
use vstd::utf8::*;

use crate::paths::{extension_of, path_extension};
use crate::text::{
    chars_are, chars_of, contains_lit, contains_seq, decimal_seq,
    eq_ignore_ascii_case, eq_ignore_ascii_case_chars, has_prefix, lowercase_of, owned,
    parse_unsigned, parse_unsigned_exec, push_decimal, push_str_chars, replace_chars,
    replace_chars_exec, starts_with_chars, string_of, to_lowercase,
};

verus! {

// ---------------------------------------------------------------------------
// HTTP byte ranges
// ---------------------------------------------------------------------------

/// `a - b`, or zero when `b` is larger (`u64::saturating_sub`).
pub open spec fn sat_sub(a: nat, b: nat) -> nat {
    if a >= b {
        (a - b) as nat
    } else {
        0
    }
}

/// `r[i]` is the one `-` in `r`: splitting `r` on `-` gives exactly two parts.
pub open spec fn single_dash_at(r: Seq<char>, i: int) -> bool {
    &&& 0 <= i < r.len()
    &&& r[i] == '-'
    &&& forall|j: int| 0 <= j < r.len() && j != i ==> r[j] != '-'
}

/// The range selected by the two parts around the dash, for a file of `size`
/// bytes: `-N` is the last `N` bytes, `S-` runs from `S` to the end and
/// `S-E` from `S` to `E`, cut at the end of the file.  A start at or past the
/// end, a start past the end mark, or a part that is not a `u64` selects
/// nothing.
pub open spec fn range_from_parts(a: Seq<char>, b: Seq<char>, size: nat) -> Option<(nat, nat)> {
    let max = u64::MAX as nat;
    if a.len() == 0 {
        match parse_unsigned(b, max) {
            Some(n) => Some((sat_sub(size, n), sat_sub(size, 1))),
            None => None,
        }
    } else if b.len() == 0 {
        match parse_unsigned(a, max) {
            Some(s) => if s >= size {
                None
            } else {
                Some((s, (size - 1) as nat))
            },
            None => None,
        }
    } else {
        match (parse_unsigned(a, max), parse_unsigned(b, max)) {
            (Some(s), Some(e)) => if s > e || s >= size {
                None
            } else {
                Some((s, if e < size - 1 { e } else { (size - 1) as nat }))
            },
            _ => None,
        }
    }
}

/// The byte range (first and last byte, inclusive) that a `Range` header
/// selects in a file of `size` bytes: `bytes=` followed by two parts joined by
/// exactly one `-`.
pub open spec fn byte_range_of(header: Seq<char>, size: nat) -> Option<(nat, nat)> {
    if !has_prefix(header, "bytes="@) {
        None
    } else {
        let r = header.skip(6);
        if exists|i: int| single_dash_at(r, i) {
            let i = choose|i: int| single_dash_at(r, i);
            range_from_parts(r.take(i), r.skip(i + 1), size)
        } else {
            None
        }
    }
}

proof fn lemma_bytes_literal()
    ensures
        "bytes="@.len() == 6,
        "bytes="@ == seq!['b', 'y', 't', 'e', 's', '='],
{
    reveal_strlit("bytes=");
}

/// Parses the value of a `Range` header for a file of `file_size` bytes into
/// the first and last byte to send.
pub fn parse_range(range_header: &str, file_size: u64) -> (r: Option<(u64, u64)>)
    ensures
        match byte_range_of(range_header@, file_size as nat) {
            Some((s, e)) => r == Some((s as u64, e as u64)),
            None => r is None,
        },
{
    proof {
        lemma_bytes_literal();
    }
    let h = chars_of(range_header);
    let prefix = chars_of("bytes=");
    if !starts_with_chars(h.as_slice(), prefix.as_slice()) {
        return None;
    }
    let rest = vstd::slice::slice_subrange(h.as_slice(), 6, h.len());
    let ghost r = range_header@.skip(6);
    assert(rest@ =~= r);
    // The first dash.
    let mut i: usize = 0;
    while i < rest.len() && rest[i] != '-'
        invariant
            0 <= i <= rest.len(),
            rest@ == r,
            forall|j: int| 0 <= j < i ==> r[j] != '-',
        decreases rest.len() - i,
    {
        i = i + 1;
    }
    if i == rest.len() {
        assert(!exists|k: int| single_dash_at(r, k));
        return None;
    }
    // No second dash.
    let mut k: usize = i + 1;
    while k < rest.len()
        invariant
            i < k <= rest.len(),
            rest@ == r,
            r == range_header@.skip(6),
            has_prefix(range_header@, "bytes="@),
            r[i as int] == '-',
            forall|j: int| 0 <= j < i ==> r[j] != '-',
            forall|j: int| i < j < k ==> r[j] != '-',
        decreases rest.len() - k,
    {
        if rest[k] == '-' {
            assert forall|m: int| !single_dash_at(r, m) by {
                if single_dash_at(r, m) {
                    assert(m == i as int);
                    assert(m == k as int);
                }
            }
            return None;
        }
        k = k + 1;
    }
    assert(single_dash_at(r, i as int));
    assert forall|m: int| single_dash_at(r, m) implies m == i as int by {}
    let a = vstd::slice::slice_subrange(rest, 0, i);
    let b = vstd::slice::slice_subrange(rest, i + 1, rest.len());
    assert(a@ =~= r.take(i as int));
    assert(b@ =~= r.skip(i + 1));
    if a.len() == 0 {
        match parse_unsigned_exec(b, u64::MAX) {
            Some(n) => {
                let start = if file_size >= n {
                    file_size - n
                } else {
                    0
                };
                let end = if file_size >= 1 {
                    file_size - 1
                } else {
                    0
                };
                Some((start, end))
            },
            None => None,
        }
    } else if b.len() == 0 {
        match parse_unsigned_exec(a, u64::MAX) {
            Some(s) => {
                if s >= file_size {
                    None
                } else {
                    Some((s, file_size - 1))
                }
            },
            None => None,
        }
    } else {
        let s = match parse_unsigned_exec(a, u64::MAX) {
            Some(s) => s,
            None => {
                return None;
            },
        };
        let e = match parse_unsigned_exec(b, u64::MAX) {
            Some(e) => e,
            None => {
                return None;
            },
        };
        if s > e || s >= file_size {
            None
        } else {
            let last = file_size - 1;
            Some((s, if e < last { e } else { last }))
        }
    }
}

/// Every range that a header selects ends within the file (in a non-empty
/// file) and starts at most one byte past its end; a range that starts inside
/// the file does not start after it ends.  (A zero-length suffix, as in
/// `bytes=-0`, selects the empty range just past the last byte.)
pub proof fn selected_range_bounds(header: Seq<char>, size: nat)
    requires
        byte_range_of(header, size) is Some,
    ensures
        ({
            let (s, e) = byte_range_of(header, size)->0;
            &&& s <= e + 1
            &&& size > 0 ==> e < size
            &&& size == 0 ==> s == 0 && e == 0
            &&& s < size ==> s <= e
        }),
{
}

/// For a non-empty file, a selected range never covers more bytes than the
/// file holds.  (For an empty file a suffix range selects byte 0, one byte
/// more than there is.)
pub proof fn selected_range_fits_the_file(header: Seq<char>, size: nat)
    requires
        byte_range_of(header, size) is Some,
        size > 0,
    ensures
        ({
            let (s, e) = byte_range_of(header, size)->0;
            e + 1 - s <= size
        }),
{
    selected_range_bounds(header, size);
}

/// The `Content-Range` value for bytes `start..=end` of a file of `size`
/// bytes: `bytes START-END/SIZE`.
pub open spec fn content_range_text(start: nat, end: nat, size: nat) -> Seq<char> {
    "bytes "@ + decimal_seq(start) + seq!['-'] + decimal_seq(end) + seq!['/'] + decimal_seq(size)
}

/// How a stream request is answered.
pub enum StreamReply {
    /// `200 OK` with the whole file.
    Whole { content_length: u64 },
    /// `206 Partial Content` with bytes `start..=end`.
    Partial { start: u64, end: u64, content_length: u64, content_range: String },
}

/// The answer to a stream request for a file of `file_size` bytes, given the
/// request's `Range` header if it had a readable one: the selected range when
/// the header selects one, the whole file otherwise.
pub fn plan_stream_reply(range_header: Option<&str>, file_size: u64) -> (r: StreamReply)
    ensures
        match range_header {
            Some(h) => match byte_range_of(h@, file_size as nat) {
                Some((s, e)) => r matches StreamReply::Partial { start, end, content_length, content_range }
                    && start == s && end == e && content_length == e + 1 - s
                    && content_range@ == content_range_text(s, e, file_size as nat),
                None => r == (StreamReply::Whole { content_length: file_size }),
            },
            None => r == (StreamReply::Whole { content_length: file_size }),
        },
{
    match range_header {
        None => StreamReply::Whole { content_length: file_size },
        Some(h) => match parse_range(h, file_size) {
            None => StreamReply::Whole { content_length: file_size },
            Some((start, end)) => {
                proof {
                    selected_range_bounds(h@, file_size as nat);
                }
                let content_length = end + 1 - start;
                let mut text: Vec<char> = Vec::new();
                push_str_chars(&mut text, "bytes ");
                push_decimal(&mut text, start);
                text.push('-');
                push_decimal(&mut text, end);
                text.push('/');
                push_decimal(&mut text, file_size);
                let content_range = string_of(text.as_slice());
                assert(content_range@ =~= content_range_text(start as nat, end as nat, file_size as nat));
                StreamReply::Partial { start, end, content_length, content_range }
            },
        },
    }
}

// ---------------------------------------------------------------------------
// MIME types
// ---------------------------------------------------------------------------

/// The MIME type served for a (lowercased) file extension; Matroska files are
/// announced as MP4 so that the player's demuxer takes them.
pub open spec fn mime_for_extension(ext: Option<Seq<char>>) -> Seq<char> {
    match ext {
        Some(e) => if e == "mp4"@ || e == "m4v"@ || e == "mkv"@ {
            "video/mp4"@
        } else if e == "webm"@ {
            "video/webm"@
        } else if e == "mov"@ {
            "video/quicktime"@
        } else if e == "avi"@ {
            "video/x-msvideo"@
        } else if e == "ts"@ || e == "m2ts"@ {
            "video/mp2t"@
        } else if e == "flv"@ {
            "video/x-flv"@
        } else if e == "mp3"@ {
            "audio/mpeg"@
        } else if e == "flac"@ {
            "audio/flac"@
        } else if e == "aac"@ {
            "audio/aac"@
        } else if e == "wav"@ {
            "audio/wav"@
        } else if e == "ogg"@ || e == "ogv"@ {
            "video/ogg"@
        } else {
            "video/mp4"@
        },
        None => "video/mp4"@,
    }
}

/// The lowercased extension of a path, if it has one.
pub open spec fn lowered_extension(path: Seq<char>) -> Option<Seq<char>> {
    match extension_of(path) {
        Some(e) => Some(lowercase_of(e)),
        None => None,
    }
}

proof fn lemma_webm_name_differs()
    ensures
        "video/mp4"@ != "video/webm"@,
        "video/quicktime"@ != "video/webm"@,
        "video/x-msvideo"@ != "video/webm"@,
        "video/mp2t"@ != "video/webm"@,
        "video/x-flv"@ != "video/webm"@,
        "audio/mpeg"@ != "video/webm"@,
        "audio/flac"@ != "video/webm"@,
        "audio/aac"@ != "video/webm"@,
        "audio/wav"@ != "video/webm"@,
        "video/ogg"@ != "video/webm"@,
{
    reveal_strlit("video/webm");
    reveal_strlit("video/mp4");
    reveal_strlit("video/quicktime");
    reveal_strlit("video/x-msvideo");
    reveal_strlit("video/mp2t");
    reveal_strlit("video/x-flv");
    reveal_strlit("audio/mpeg");
    reveal_strlit("audio/flac");
    reveal_strlit("audio/aac");
    reveal_strlit("audio/wav");
    reveal_strlit("video/ogg");
    assert("video/mp2t"@[6] != "video/webm"@[6]);
    assert("audio/mpeg"@[0] != "video/webm"@[0]);
    assert("audio/flac"@[0] != "video/webm"@[0]);
}

/// How a file is announced, by its extension in any case: `mp4`, `m4v` and
/// `mkv` (and a file without an extension) as MP4 video, `webm` as WebM and
/// only `webm`, `mov` as QuickTime, `avi` as AVI, `ts`/`m2ts` as MPEG
/// transport streams, `ogg`/`ogv` as Ogg video, and the audio formats as
/// their audio types.
pub proof fn mime_types_by_extension(path: Seq<char>)
    ensures
        ({
            let ext = lowered_extension(path);
            let mime = mime_for_extension(ext);
            &&& (ext == Some("mp4"@) || ext == Some("m4v"@) || ext == Some("mkv"@) || ext is None)
                ==> mime == "video/mp4"@
            &&& ext == Some("webm"@) ==> mime == "video/webm"@
            &&& mime == "video/webm"@ ==> ext == Some("webm"@)
            &&& ext == Some("mov"@) ==> mime == "video/quicktime"@
            &&& ext == Some("avi"@) ==> mime == "video/x-msvideo"@
            &&& (ext == Some("ts"@) || ext == Some("m2ts"@)) ==> mime == "video/mp2t"@
            &&& ext == Some("flv"@) ==> mime == "video/x-flv"@
            &&& (ext == Some("ogg"@) || ext == Some("ogv"@)) ==> mime == "video/ogg"@
            &&& ext == Some("mp3"@) ==> mime == "audio/mpeg"@
            &&& ext == Some("flac"@) ==> mime == "audio/flac"@
            &&& ext == Some("aac"@) ==> mime == "audio/aac"@
            &&& ext == Some("wav"@) ==> mime == "audio/wav"@
        }),
{
    lemma_webm_name_differs();
    reveal_strlit("mp4");
    reveal_strlit("m4v");
    reveal_strlit("mkv");
    reveal_strlit("webm");
    reveal_strlit("mov");
    reveal_strlit("avi");
    reveal_strlit("ts");
    reveal_strlit("m2ts");
    reveal_strlit("flv");
    reveal_strlit("ogg");
    reveal_strlit("ogv");
    reveal_strlit("mp3");
    reveal_strlit("flac");
    reveal_strlit("aac");
    reveal_strlit("wav");
    assert("mp4"@.len() == 3);
    assert("mp4"@[0] == 'm');
    assert("mp4"@[1] == 'p');
    assert("mp4"@[2] == '4');
    assert("m4v"@.len() == 3);
    assert("m4v"@[0] == 'm');
    assert("m4v"@[1] == '4');
    assert("m4v"@[2] == 'v');
    assert("mkv"@.len() == 3);
    assert("mkv"@[0] == 'm');
    assert("mkv"@[1] == 'k');
    assert("mkv"@[2] == 'v');
    assert("webm"@.len() == 4);
    assert("webm"@[0] == 'w');
    assert("webm"@[1] == 'e');
    assert("webm"@[2] == 'b');
    assert("webm"@[3] == 'm');
    assert("mov"@.len() == 3);
    assert("mov"@[0] == 'm');
    assert("mov"@[1] == 'o');
    assert("mov"@[2] == 'v');
    assert("avi"@.len() == 3);
    assert("avi"@[0] == 'a');
    assert("avi"@[1] == 'v');
    assert("avi"@[2] == 'i');
    assert("ts"@.len() == 2);
    assert("ts"@[0] == 't');
    assert("ts"@[1] == 's');
    assert("m2ts"@.len() == 4);
    assert("m2ts"@[0] == 'm');
    assert("m2ts"@[1] == '2');
    assert("m2ts"@[2] == 't');
    assert("m2ts"@[3] == 's');
    assert("flv"@.len() == 3);
    assert("flv"@[0] == 'f');
    assert("flv"@[1] == 'l');
    assert("flv"@[2] == 'v');
    assert("ogg"@.len() == 3);
    assert("ogg"@[0] == 'o');
    assert("ogg"@[1] == 'g');
    assert("ogg"@[2] == 'g');
    assert("ogv"@.len() == 3);
    assert("ogv"@[0] == 'o');
    assert("ogv"@[1] == 'g');
    assert("ogv"@[2] == 'v');
    assert("mp3"@.len() == 3);
    assert("mp3"@[0] == 'm');
    assert("mp3"@[1] == 'p');
    assert("mp3"@[2] == '3');
    assert("flac"@.len() == 4);
    assert("flac"@[0] == 'f');
    assert("flac"@[1] == 'l');
    assert("flac"@[2] == 'a');
    assert("flac"@[3] == 'c');
    assert("aac"@.len() == 3);
    assert("aac"@[0] == 'a');
    assert("aac"@[1] == 'a');
    assert("aac"@[2] == 'c');
    assert("wav"@.len() == 3);
    assert("wav"@[0] == 'w');
    assert("wav"@[1] == 'a');
    assert("wav"@[2] == 'v');
}

/// The MIME type served for a file with the given lowercased extension.
pub fn mime_type_for_extension(ext: Option<&str>) -> (r: String)
    ensures
        r@ == mime_for_extension(
            match ext {
                Some(e) => Some(e@),
                None => None,
            },
        ),
{
    let e = match ext {
        Some(e) => chars_of(e),
        None => {
            return owned("video/mp4");
        },
    };
    let e = e.as_slice();
    if chars_are(e, "mp4") || chars_are(e, "m4v") || chars_are(e, "mkv") {
        owned("video/mp4")
    } else if chars_are(e, "webm") {
        owned("video/webm")
    } else if chars_are(e, "mov") {
        owned("video/quicktime")
    } else if chars_are(e, "avi") {
        owned("video/x-msvideo")
    } else if chars_are(e, "ts") || chars_are(e, "m2ts") {
        owned("video/mp2t")
    } else if chars_are(e, "flv") {
        owned("video/x-flv")
    } else if chars_are(e, "mp3") {
        owned("audio/mpeg")
    } else if chars_are(e, "flac") {
        owned("audio/flac")
    } else if chars_are(e, "aac") {
        owned("audio/aac")
    } else if chars_are(e, "wav") {
        owned("audio/wav")
    } else if chars_are(e, "ogg") || chars_are(e, "ogv") {
        owned("video/ogg")
    } else {
        owned("video/mp4")
    }
}

/// The MIME type served for the file at `path`, chosen by its extension.
pub fn detect_mime_type(path: &str) -> (r: String)
    ensures
        r@ == mime_for_extension(lowered_extension(path@)),
{
    match path_extension(path) {
        Some(e) => {
            let lower = to_lowercase(e.as_str());
            mime_type_for_extension(Some(lower.as_str()))
        },
        None => mime_type_for_extension(None),
    }
}

// ---------------------------------------------------------------------------
// Subtitles
// ---------------------------------------------------------------------------

/// Largest subtitle file served, in bytes (10 MB).
pub const MAX_SUBTITLE_SIZE: u64 = 10485760;

/// The extension of a path, or the empty text when it has none.
pub open spec fn extension_or_empty(path: Seq<char>) -> Seq<char> {
    match extension_of(path) {
        Some(e) => e,
        None => Seq::empty(),
    }
}

/// Whether a (lowercased) extension is that of a subtitle format served.
pub open spec fn is_subtitle_extension(lower: Seq<char>) -> bool {
    lower == "srt"@ || lower == "vtt"@ || lower == "ass"@ || lower == "ssa"@ || lower == "sub"@
}

/// Whether the file at `path` may be served as subtitles: its extension,
/// lowercased, is one of `srt`, `vtt`, `ass`, `ssa`, `sub`.
pub fn is_subtitle_path(path: &str) -> (r: bool)
    ensures
        r == is_subtitle_extension(lowercase_of(extension_or_empty(path@))),
{
    let ext = match path_extension(path) {
        Some(e) => e,
        None => owned(""),
    };
    proof {
        reveal_strlit("");
    }
    assert(ext@ == extension_or_empty(path@));
    let lower = to_lowercase(ext.as_str());
    let l = chars_of(lower.as_str());
    let l = l.as_slice();
    chars_are(l, "srt") || chars_are(l, "vtt") || chars_are(l, "ass") || chars_are(l, "ssa")
        || chars_are(l, "sub")
}

/// The refusal sent for a subtitle file of `size` bytes, when it is larger
/// than `MAX_SUBTITLE_SIZE`.
pub fn subtitle_size_error(size: u64) -> (r: Option<String>)
    ensures
        size <= MAX_SUBTITLE_SIZE ==> r is None,
        size > MAX_SUBTITLE_SIZE ==> (r matches Some(m) && m@
            == "Subtitle file exceeds maximum allowed size of 10MB ("@ + decimal_seq(size as nat)
            + " bytes)"@),
{
    if size <= MAX_SUBTITLE_SIZE {
        return None;
    }
    let mut text: Vec<char> = Vec::new();
    push_str_chars(&mut text, "Subtitle file exceeds maximum allowed size of 10MB (");
    push_decimal(&mut text, size);
    push_str_chars(&mut text, " bytes)");
    Some(string_of(text.as_slice()))
}

/// Position of the first line feed in `s` (its length when there is none).
pub open spec fn line_end(s: Seq<char>) -> nat
    decreases s.len(),
{
    if s.len() == 0 || s[0] == '\n' {
        0
    } else {
        1 + line_end(s.drop_first())
    }
}

/// A line without the carriage return that ended it.
pub open spec fn strip_cr(l: Seq<char>) -> Seq<char> {
    if l.len() > 0 && l.last() == '\r' {
        l.drop_last()
    } else {
        l
    }
}

/// The lines of a text as `str::lines` yields them: split at each line feed,
/// a carriage return just before it dropped, no empty line after a final line
/// feed (a carriage return at the very end stays).
pub open spec fn text_lines(s: Seq<char>) -> Seq<Seq<char>>
    decreases s.len(),
{
    if s.len() == 0 {
        seq![]
    } else {
        let e = line_end(s);
        if e < s.len() {
            seq![strip_cr(s.take(e as int))] + text_lines(s.skip(e + 1int))
        } else {
            seq![s]
        }
    }
}

/// One SubRip line in WebVTT: on a timing line (one holding `-->`) the
/// decimal commas become dots; every line ends with a line feed.
pub open spec fn vtt_line(l: Seq<char>) -> Seq<char> {
    (if contains_seq(l, "-->"@) {
        replace_chars(l, seq![','], '.')
    } else {
        l
    }) + seq!['\n']
}

/// The WebVTT lines for a sequence of SubRip lines.
pub open spec fn vtt_lines(ls: Seq<Seq<char>>) -> Seq<char>
    decreases ls.len(),
{
    if ls.len() == 0 {
        seq![]
    } else {
        vtt_line(ls[0]) + vtt_lines(ls.drop_first())
    }
}

/// A SubRip text converted to WebVTT: the `WEBVTT` header and a blank line,
/// then each line converted.
pub open spec fn srt_to_vtt(s: Seq<char>) -> Seq<char> {
    "WEBVTT\n\n"@ + vtt_lines(text_lines(s))
}

proof fn lemma_line_end(t: Seq<char>, m: int)
    requires
        0 <= m <= t.len(),
        forall|k: int| 0 <= k < m ==> t[k] != '\n',
        m == t.len() || t[m] == '\n',
    ensures
        line_end(t) == m,
    decreases m,
{
    if m > 0 {
        lemma_line_end(t.drop_first(), m - 1);
    }
}

/// Converts a SubRip subtitle text to WebVTT.
pub fn convert_srt_to_vtt(srt: &str) -> (r: String)
    ensures
        r@ == srt_to_vtt(srt@),
{
    let s = chars_of(srt);
    let mut out: Vec<char> = Vec::new();
    push_str_chars(&mut out, "WEBVTT\n\n");
    let ghost header = "WEBVTT\n\n"@;
    assert(s@.skip(0) =~= s@);
    let mut pos: usize = 0;
    while pos < s.len()
        invariant
            pos <= s.len(),
            s@ == srt@,
            out@ + vtt_lines(text_lines(s@.skip(pos as int))) == header + vtt_lines(
                text_lines(s@),
            ),
        decreases s.len() - pos,
    {
        let mut j: usize = pos;
        while j < s.len() && s[j] != '\n'
            invariant
                pos <= j <= s.len(),
                forall|k: int| pos <= k < j ==> s@[k] != '\n',
            decreases s.len() - j,
        {
            j = j + 1;
        }
        let ghost t = s@.skip(pos as int);
        proof {
            lemma_line_end(t, j - pos);
        }
        let line: Vec<char>;
        let next: usize;
        if j < s.len() {
            let end = if j > pos && s[j - 1] == '\r' {
                j - 1
            } else {
                j
            };
            line = vstd::slice::slice_to_vec(vstd::slice::slice_subrange(s.as_slice(), pos, end));
            assert(line@ =~= strip_cr(t.take(j - pos)));
            assert(t.skip(j - pos + 1) =~= s@.skip(j + 1));
            next = j + 1;
        } else {
            line = vstd::slice::slice_to_vec(vstd::slice::slice_subrange(s.as_slice(), pos, j));
            assert(line@ =~= t);
            assert(text_lines(s@.skip(j as int)) =~= Seq::<Seq<char>>::empty());
            next = j;
        }
        let ghost ls = text_lines(t);
        assert(ls[0] == line@);
        assert(ls.drop_first() =~= text_lines(s@.skip(next as int)));
        let mut converted = if contains_lit(line.as_slice(), "-->") {
            let commas = vec![','];
            assert(commas@ =~= seq![',']);
            replace_chars_exec(line.as_slice(), commas.as_slice(), '.')
        } else {
            line
        };
        converted.push('\n');
        let ghost before = out@;
        out.append(&mut converted);
        assert(out@ + vtt_lines(text_lines(s@.skip(next as int))) =~= before + vtt_lines(ls));
        pos = next;
    }
    string_of(out.as_slice())
}

/// What is sent for a subtitle file at `path` holding `content`: SubRip
/// (extension `srt`, in any case) converted to WebVTT, anything else as is.
pub fn subtitle_body(path: &str, content: String) -> (r: String)
    ensures
        r@ == if eq_ignore_ascii_case(extension_or_empty(path@), "srt"@) {
            srt_to_vtt(content@)
        } else {
            content@
        },
{
    let ext = match path_extension(path) {
        Some(e) => e,
        None => owned(""),
    };
    proof {
        reveal_strlit("");
    }
    assert(ext@ == extension_or_empty(path@));
    let e = chars_of(ext.as_str());
    let srt = chars_of("srt");
    if eq_ignore_ascii_case_chars(e.as_slice(), srt.as_slice()) {
        convert_srt_to_vtt(content.as_str())
    } else {
        content
    }
}

} // verus!
