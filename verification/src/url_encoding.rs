//! Percent-encoding of text placed in URLs (`urlencoding`).
use vstd::prelude::*;
use vstd::utf8::*;

verus! {

/// Bytes left as they are by percent-encoding: ASCII letters and digits and
/// `-`, `.`, `_`, `~`.
pub open spec fn is_unreserved_byte(b: u8) -> bool {
    ||| 48 <= b <= 57
    ||| 65 <= b <= 90
    ||| 97 <= b <= 122
    ||| b == 45
    ||| b == 46
    ||| b == 95
    ||| b == 126
}

/// Uppercase hexadecimal digit for `d < 16`.
pub open spec fn hex_upper(d: nat) -> char {
    if d < 10 {
        (48 + d) as char
    } else {
        (55 + d) as char
    }
}

/// One byte percent-encoded.
pub open spec fn percent_encode_byte(b: u8) -> Seq<char> {
    if is_unreserved_byte(b) {
        seq![b as char]
    } else {
        seq!['%', hex_upper((b / 16) as nat), hex_upper((b % 16) as nat)]
    }
}

/// A byte string percent-encoded, byte by byte.
pub open spec fn percent_encoded(bytes: Seq<u8>) -> Seq<char>
    decreases bytes.len(),
{
    if bytes.len() == 0 {
        seq![]
    } else {
        percent_encode_byte(bytes[0]) + percent_encoded(bytes.drop_first())
    }
}

/// Value of a hexadecimal digit (either case).
pub open spec fn hex_value(c: char) -> Option<nat> {
    let u = c as u32;
    if 48 <= u <= 57 {
        Some((u - 48) as nat)
    } else if 65 <= u <= 70 {
        Some((u - 55) as nat)
    } else if 97 <= u <= 102 {
        Some((u - 87) as nat)
    } else {
        None
    }
}

/// Percent-decoding: `%` followed by two hexadecimal digits stands for the
/// byte they write, any other character for its UTF-8 bytes.
pub open spec fn percent_decoded(s: Seq<char>) -> Seq<u8>
    decreases s.len(),
{
    if s.len() == 0 {
        seq![]
    } else if s[0] == '%' && s.len() >= 3 && hex_value(s[1]) is Some && hex_value(s[2]) is Some {
        seq![(hex_value(s[1])->0 * 16 + hex_value(s[2])->0) as u8] + percent_decoded(s.skip(3))
    } else {
        encode_utf8(seq![s[0]]) + percent_decoded(s.drop_first())
    }
}

proof fn decode_one_encoded_byte(b: u8, rest: Seq<char>)
    ensures
        percent_decoded(percent_encode_byte(b) + rest) == seq![b] + percent_decoded(rest),
{
    let e = percent_encode_byte(b);
    let s = e + rest;
    if is_unreserved_byte(b) {
        assert(s[0] == b as char);
        assert((b as char) as u32 == b as u32);
        assert(s.drop_first() =~= rest);
        assert(encode_utf8(seq![b as char]) =~= seq![b]) by {
            let c = b as char;
            assert(seq![c].drop_first() =~= Seq::<char>::empty());
            assert(encode_utf8(seq![c]) =~= encode_scalar(c as u32) + encode_utf8(Seq::<char>::empty()));
            assert(has_width_1_encoding(c as u32));
            let u = c as u32;
            assert(leading_byte_width_1(u) == b) by (bit_vector)
                requires
                    u == b as u32,
                    u < 128,
            ;
        }
    } else {
        let hi = (b / 16) as nat;
        let lo = (b % 16) as nat;
        assert(s[0] == '%');
        assert(s[1] == hex_upper(hi));
        assert(s[2] == hex_upper(lo));
        assert(hex_value(hex_upper(hi)) == Some(hi));
        assert(hex_value(hex_upper(lo)) == Some(lo));
        assert(s.skip(3) =~= rest);
        assert((hi * 16 + lo) as u8 == b);
    }
}

/// Percent-decoding undoes percent-encoding: the encoded bytes come back.
pub proof fn percent_decoding_undoes_encoding(bytes: Seq<u8>)
    ensures
        percent_decoded(percent_encoded(bytes)) == bytes,
    decreases bytes.len(),
{
    if bytes.len() > 0 {
        percent_decoding_undoes_encoding(bytes.drop_first());
        decode_one_encoded_byte(bytes[0], percent_encoded(bytes.drop_first()));
        assert(seq![bytes[0]] + bytes.drop_first() =~= bytes);
    }
}

/// `urlencoding::encode`.
///
/// Trusted: it percent-encodes the UTF-8 bytes of `s`, keeping ASCII letters,
/// digits and `-._~` and writing every other byte as `%` and two uppercase
/// hexadecimal digits, as the crate's source does.
#[verifier::external_body]
pub(crate) fn url_encode(s: &str) -> (r: String)
    ensures
        r@ == percent_encoded(encode_utf8(s@)),
{
    urlencoding::encode(s).into_owned()
}

} // verus!
