//! Human-readable names for the FourCC codes the media engine reports.
use vstd::prelude::*;
use vstd::utf8::{decode_utf8, valid_utf8};

use crate::text::{
    chars_are, chars_of, lowercase_of, owned, string_of, to_lowercase,
    to_uppercase, trim_chars, trim_seq, uppercase_of,
};

verus! {

/// The four bytes of a FourCC code, least significant first (what
/// `u32::to_le_bytes` gives).
pub open spec fn fourcc_bytes(f: u32) -> Seq<u8> {
    seq![(f % 256) as u8, ((f / 256) % 256) as u8, ((f / 65536) % 256) as u8, (f / 16777216) as u8]
}

/// Lowercase hexadecimal digit of `d < 16`.
pub open spec fn hex_digit(d: nat) -> char {
    if d < 10 {
        ((48 + d) as u8) as char
    } else {
        ((87 + d) as u8) as char
    }
}

/// The eight lowercase hexadecimal digits of `f`, most significant first
/// (what `format!("{:08x}", f)` prints).
pub open spec fn hex8(f: u32) -> Seq<char> {
    Seq::new(8, |i: int| hex_digit(((f as nat) / pow16((7 - i) as nat)) % 16))
}

/// `16` to the power `k`.
pub open spec fn pow16(k: nat) -> nat
    decreases k,
{
    if k == 0 {
        1
    } else {
        16 * pow16((k - 1) as nat)
    }
}

/// The text a FourCC code is matched by: its bytes as trimmed, lowercased
/// UTF-8 text, or `0x` and its hexadecimal digits when the bytes are not
/// UTF-8.
pub open spec fn fourcc_text(f: u32) -> Seq<char> {
    let b = fourcc_bytes(f);
    if valid_utf8(b) {
        lowercase_of(trim_seq(decode_utf8(b)))
    } else {
        "0x"@ + hex8(f)
    }
}

/// The codec name for the text of a FourCC code; unknown codes are shown
/// uppercased.
pub open spec fn codec_name_for(t: Seq<char>) -> Seq<char> {
    if t == "avc1"@ || t == "h264"@ || t == "x264"@ {
        "H.264 / AVC"@
    } else if t == "hevc"@ || t == "h265"@ || t == "x265"@ || t == "hev1"@ {
        "H.265 / HEVC"@
    } else if t == "vp90"@ || t == "vp9"@ {
        "VP9"@
    } else if t == "vp80"@ || t == "vp8"@ {
        "VP8"@
    } else if t == "av01"@ || t == "av1"@ {
        "AV1"@
    } else if t == "mp4v"@ || t == "xvid"@ || t == "divx"@ {
        "MPEG-4 Part 2"@
    } else if t == "mpgv"@ || t == "mpg1"@ || t == "mpg2"@ {
        "MPEG-1/2"@
    } else if t == "vc-1"@ || t == "wvc1"@ {
        "VC-1"@
    } else if t == "theora"@ || t == "theo"@ {
        "Theora"@
    } else if t == "mp4a"@ || t == "aac"@ {
        "AAC"@
    } else if t == "a52"@ || t == "ac-3"@ || t == "ac3"@ {
        "AC-3 / Dolby Digital"@
    } else if t == "eac3"@ || t == "ec-3"@ {
        "E-AC-3 / Dolby Digital Plus"@
    } else if t == "dts"@ || t == "dtsb"@ {
        "DTS"@
    } else if t == "flac"@ {
        "FLAC"@
    } else if t == "mp3"@ || t == "mpga"@ {
        "MP3"@
    } else if t == "opus"@ {
        "Opus"@
    } else if t == "vorb"@ {
        "Vorbis"@
    } else if t == "subt"@ || t == "tx3g"@ {
        "Timed Text / SubRip"@
    } else {
        uppercase_of(t)
    }
}

/// `std::str::from_utf8`, keeping an owned copy of the text.
///
/// Trusted: the std documentation says `from_utf8` succeeds exactly when the
/// bytes are valid UTF-8, and the text then has those bytes as its encoding.
#[verifier::external_body]
fn utf8_text(bytes: &[u8]) -> (r: Option<String>)
    ensures
        r is Some <==> valid_utf8(bytes@),
        r matches Some(s) ==> s@ == decode_utf8(bytes@),
{
    match std::str::from_utf8(bytes) {
        Ok(s) => Some(s.to_owned()),
        Err(_) => None,
    }
}

proof fn lemma_pow16_steps()
    ensures
        pow16(0) == 1,
        pow16(1) == 16,
        pow16(2) == 256,
        pow16(3) == 4096,
        pow16(4) == 65536,
        pow16(5) == 1048576,
        pow16(6) == 16777216,
        pow16(7) == 268435456,
{
    reveal_with_fuel(pow16, 8);
}

/// `0x` followed by the eight lowercase hexadecimal digits of `f`.
fn hex_text(f: u32) -> (r: Vec<char>)
    ensures
        r@ == "0x"@ + hex8(f),
{
    let mut out = chars_of("0x");
    let ghost prefix = out@;
    let mut k: u32 = 0;
    let mut div: u32 = 268435456;
    proof {
        lemma_pow16_steps();
    }
    while k < 8
        invariant
            0 <= k <= 8,
            prefix == "0x"@,
            out@.len() == prefix.len() + k,
            out@.subrange(0, prefix.len() as int) == prefix,
            k < 8 ==> div as nat == pow16((7 - k) as nat),
            forall|j: int| 0 <= j < k ==> out@[prefix.len() + j] == hex8(f)[j],
            pow16(0) == 1,
            pow16(1) == 16,
            pow16(2) == 256,
            pow16(3) == 4096,
            pow16(4) == 65536,
            pow16(5) == 1048576,
            pow16(6) == 16777216,
            pow16(7) == 268435456,
        decreases 8 - k,
    {
        let d = ((f / div) % 16) as u8;
        let c = if d < 10 {
            (48u8 + d) as char
        } else {
            (87u8 + d) as char
        };
        out.push(c);
        assert(c == hex8(f)[k as int]);
        if k < 7 {
            div = div / 16;
            assert(pow16((7 - k) as nat) == 16 * pow16((7 - (k + 1)) as nat));
        }
        k = k + 1;
    }
    assert(out@ =~= "0x"@ + hex8(f));
    out
}

/// The human-readable name of a FourCC codec code, e.g. `H.264 / AVC` for
/// `avc1`.  Unknown codes are shown as their text uppercased.
pub fn fourcc_to_codec_name(fourcc: u32) -> (r: String)
    ensures
        r@ == codec_name_for(fourcc_text(fourcc)),
{
    let bytes: [u8; 4] = [
        (fourcc % 256) as u8,
        ((fourcc / 256) % 256) as u8,
        ((fourcc / 65536) % 256) as u8,
        (fourcc / 16777216) as u8,
    ];
    assert(bytes@ =~= fourcc_bytes(fourcc));
    let text: String = match utf8_text(bytes.as_slice()) {
        Some(s) => {
            let v = chars_of(s.as_str());
            let trimmed = trim_chars(v.as_slice());
            let t = string_of(trimmed.as_slice());
            to_lowercase(t.as_str())
        },
        None => string_of(hex_text(fourcc).as_slice()),
    };
    assert(text@ == fourcc_text(fourcc));
    let t = chars_of(text.as_str());
    let s = t.as_slice();
    if chars_are(s, "avc1") || chars_are(s, "h264") || chars_are(s, "x264") {
        owned("H.264 / AVC")
    } else if chars_are(s, "hevc") || chars_are(s, "h265") || chars_are(s, "x265") || chars_are(
        s,
        "hev1",
    ) {
        owned("H.265 / HEVC")
    } else if chars_are(s, "vp90") || chars_are(s, "vp9") {
        owned("VP9")
    } else if chars_are(s, "vp80") || chars_are(s, "vp8") {
        owned("VP8")
    } else if chars_are(s, "av01") || chars_are(s, "av1") {
        owned("AV1")
    } else if chars_are(s, "mp4v") || chars_are(s, "xvid") || chars_are(s, "divx") {
        owned("MPEG-4 Part 2")
    } else if chars_are(s, "mpgv") || chars_are(s, "mpg1") || chars_are(s, "mpg2") {
        owned("MPEG-1/2")
    } else if chars_are(s, "vc-1") || chars_are(s, "wvc1") {
        owned("VC-1")
    } else if chars_are(s, "theora") || chars_are(s, "theo") {
        owned("Theora")
    } else if chars_are(s, "mp4a") || chars_are(s, "aac") {
        owned("AAC")
    } else if chars_are(s, "a52") || chars_are(s, "ac-3") || chars_are(s, "ac3") {
        owned("AC-3 / Dolby Digital")
    } else if chars_are(s, "eac3") || chars_are(s, "ec-3") {
        owned("E-AC-3 / Dolby Digital Plus")
    } else if chars_are(s, "dts") || chars_are(s, "dtsb") {
        owned("DTS")
    } else if chars_are(s, "flac") {
        owned("FLAC")
    } else if chars_are(s, "mp3") || chars_are(s, "mpga") {
        owned("MP3")
    } else if chars_are(s, "opus") {
        owned("Opus")
    } else if chars_are(s, "vorb") {
        owned("Vorbis")
    } else if chars_are(s, "subt") || chars_are(s, "tx3g") {
        owned("Timed Text / SubRip")
    } else {
        to_uppercase(text.as_str())
    }
}

} // verus!
