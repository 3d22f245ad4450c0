//! Encodings the library hands text through: URL percent-encoding, HTML form
//! encoding, JSON string literals, base64 and SHA-256.
//!
//! Each encoding is done by an outside crate (`urlencoding`,
//! `serde_urlencoded`, `serde_json`, `base64`, `sha2`); the contracts below
//! state what those crates compute.
use vstd::prelude::*;
use vstd::utf8::encode_utf8;
use crate::text::joined;
use base64::Engine;
use sha2::Digest;

verus! {

// ---------------------------------------------------------------------
// Hex digits
// ---------------------------------------------------------------------

/// Upper-case hex digit for `d < 16`.
pub open spec fn hex_upper(d: int) -> char {
    if d < 10 {
        (d + 48) as char
    } else {
        (d + 55) as char
    }
}

/// Lower-case hex digit for `d < 16`.
pub open spec fn hex_lower(d: int) -> char {
    if d < 10 {
        (d + 48) as char
    } else {
        (d + 87) as char
    }
}

/// `%XX` with upper-case hex digits.
pub open spec fn percent_byte(b: u8) -> Seq<char> {
    seq!['%', hex_upper(b as int / 16), hex_upper(b as int % 16)]
}

// ---------------------------------------------------------------------
// urlencoding::encode
// ---------------------------------------------------------------------

/// The bytes `urlencoding::encode` leaves as they are.
pub open spec fn url_unreserved(b: u8) -> bool {
    (48 <= b && b <= 57) || (65 <= b && b <= 90) || (97 <= b && b <= 122) || b == 45 || b == 46
        || b == 95 || b == 126
}

/// Percent-encoding of a byte sequence, unreserved bytes kept.
pub open spec fn url_encode_bytes(bs: Seq<u8>) -> Seq<char>
    decreases bs.len(),
{
    if bs.len() == 0 {
        seq![]
    } else {
        (if url_unreserved(bs[0]) {
            seq![bs[0] as char]
        } else {
            percent_byte(bs[0])
        }) + url_encode_bytes(bs.drop_first())
    }
}

/// The percent-encoding of the UTF-8 bytes of `s`.
pub open spec fn url_encoded(s: Seq<char>) -> Seq<char> {
    url_encode_bytes(encode_utf8(s))
}

/// `urlencoding::encode`: every UTF-8 byte of `s` percent-encoded as `%XX`
/// (upper-case hex) except ASCII letters, digits and `-`, `.`, `_`, `~`,
/// which are kept.
#[verifier::external_body]
pub(crate) fn url_encode(s: &str) -> (r: String)
    ensures
        r@ == url_encoded(s@),
{
    urlencoding::encode(s).into_owned()
}

// ---------------------------------------------------------------------
// serde_urlencoded::to_string on a sequence of string pairs
// ---------------------------------------------------------------------

/// The bytes `application/x-www-form-urlencoded` leaves as they are.
pub open spec fn form_unchanged(b: u8) -> bool {
    b == 42 || b == 45 || b == 46 || (48 <= b && b <= 57) || (65 <= b && b <= 90) || b == 95 || (
    97 <= b && b <= 122)
}

/// Form encoding of a byte sequence: space as `+`, others percent-encoded.
pub open spec fn form_encode_bytes(bs: Seq<u8>) -> Seq<char>
    decreases bs.len(),
{
    if bs.len() == 0 {
        seq![]
    } else {
        (if form_unchanged(bs[0]) {
            seq![bs[0] as char]
        } else if bs[0] == 32 {
            seq!['+']
        } else {
            percent_byte(bs[0])
        }) + form_encode_bytes(bs.drop_first())
    }
}

/// One `name=value` pair, both sides form-encoded.
pub open spec fn form_pair(p: (Seq<char>, Seq<char>)) -> Seq<char> {
    form_encode_bytes(encode_utf8(p.0)) + seq!['='] + form_encode_bytes(encode_utf8(p.1))
}

/// The views of a list of string pairs.
pub open spec fn pairs_view(v: Seq<(String, String)>) -> Seq<(Seq<char>, Seq<char>)> {
    v.map_values(|p: (String, String)| (p.0@, p.1@))
}

/// A whole form body: the encoded pairs joined with `&`.
pub open spec fn form_encoded(pairs: Seq<(Seq<char>, Seq<char>)>) -> Seq<char> {
    joined(pairs.map_values(|p: (Seq<char>, Seq<char>)| form_pair(p)), seq!['&'])
}

/// `serde_urlencoded::to_string` on a list of `(name, value)` string pairs:
/// `name=value` items joined by `&`, each side encoded byte by byte (ASCII
/// letters, digits and `*-._` kept, space as `+`, every other byte as `%XX`).
/// The serializer accepts every pair of strings, so the result is `Ok`.
#[verifier::external_body]
pub(crate) fn form_urlencode(pairs: &Vec<(String, String)>) -> (r: Result<
    String,
    serde_urlencoded::ser::Error,
>)
    ensures
        r is Ok,
        r matches Ok(s) ==> s@ == form_encoded(pairs_view(pairs@)),
{
    serde_urlencoded::to_string(pairs)
}

#[verifier::external_type_specification]
#[verifier::external_body]
pub struct ExFormError(serde_urlencoded::ser::Error);

/// The form encoding of `pairs` (`name=value` items joined by `&`).
pub fn form_body(pairs: &Vec<(String, String)>) -> (r: String)
    ensures
        r@ == form_encoded(pairs_view(pairs@)),
{
    match form_urlencode(pairs) {
        Ok(s) => s,
        Err(_) => String::new(),
    }
}

// ---------------------------------------------------------------------
// serde_json::to_string on a string
// ---------------------------------------------------------------------

/// How `serde_json` writes one character inside a string literal.
pub open spec fn json_escape_char(c: char) -> Seq<char> {
    if c == '"' {
        seq!['\\', '"']
    } else if c == '\\' {
        seq!['\\', '\\']
    } else if c == '\u{08}' {
        seq!['\\', 'b']
    } else if c == '\t' {
        seq!['\\', 't']
    } else if c == '\n' {
        seq!['\\', 'n']
    } else if c == '\u{0c}' {
        seq!['\\', 'f']
    } else if c == '\r' {
        seq!['\\', 'r']
    } else if (c as int) < 32 {
        seq!['\\', 'u', '0', '0', hex_lower(c as int / 16), hex_lower(c as int % 16)]
    } else {
        seq![c]
    }
}

/// The escaped body of a JSON string literal.
pub open spec fn json_escaped(s: Seq<char>) -> Seq<char>
    decreases s.len(),
{
    if s.len() == 0 {
        seq![]
    } else {
        json_escape_char(s[0]) + json_escaped(s.drop_first())
    }
}

/// The JSON string literal for `s`, quotes included.
pub open spec fn json_quoted(s: Seq<char>) -> Seq<char> {
    seq!['"'] + json_escaped(s) + seq!['"']
}

#[verifier::external_type_specification]
#[verifier::external_body]
pub struct ExJsonError(serde_json::Error);

/// `serde_json::to_string` on a string: the JSON string literal, with `"`
/// and `\` backslash-escaped, `\b \t \n \f \r` for those controls, other
/// characters below U+0020 as `\u00xx` (lower-case hex), everything else as
/// it is.  Writing a string into a byte vector cannot fail, so it is `Ok`.
#[verifier::external_body]
pub(crate) fn json_string_literal(s: &str) -> (r: Result<String, serde_json::Error>)
    ensures
        r is Ok,
        r matches Ok(q) ==> q@ == json_quoted(s@),
{
    serde_json::to_string(s)
}

// ---------------------------------------------------------------------
// base64
// ---------------------------------------------------------------------

/// The base64 digit for `v < 64`; `url` picks `-` and `_` over `+` and `/`.
pub open spec fn b64_digit(v: int, url: bool) -> char {
    if v < 26 {
        (v + 65) as char
    } else if v < 52 {
        (v + 71) as char
    } else if v < 62 {
        (v - 4) as char
    } else if v == 62 {
        if url { '-' } else { '+' }
    } else {
        if url { '_' } else { '/' }
    }
}

/// Base64 of `bs`, three bytes to four digits; `pad` adds `=` to the last group.
pub open spec fn base64_of(bs: Seq<u8>, url: bool, pad: bool) -> Seq<char>
    decreases bs.len(),
{
    if bs.len() >= 3 {
        let n = bs[0] as int * 65536 + bs[1] as int * 256 + bs[2] as int;
        seq![
            b64_digit(n / 262144, url),
            b64_digit((n / 4096) % 64, url),
            b64_digit((n / 64) % 64, url),
            b64_digit(n % 64, url),
        ] + base64_of(bs.skip(3), url, pad)
    } else if bs.len() == 2 {
        let n = bs[0] as int * 65536 + bs[1] as int * 256;
        seq![b64_digit(n / 262144, url), b64_digit((n / 4096) % 64, url), b64_digit((n / 64) % 64, url)]
            + (if pad { seq!['='] } else { seq![] })
    } else if bs.len() == 1 {
        let n = bs[0] as int * 65536;
        seq![b64_digit(n / 262144, url), b64_digit((n / 4096) % 64, url)] + (if pad {
            seq!['=', '=']
        } else {
            seq![]
        })
    } else {
        seq![]
    }
}

/// Unpadded base64 of `n` bytes has `4 * (n / 3)` digits, plus `n % 3 + 1`
/// when `n` is not a multiple of three.
pub proof fn lemma_base64_unpadded_len(bs: Seq<u8>, url: bool)
    ensures
        base64_of(bs, url, false).len() == 4 * (bs.len() / 3) + (if bs.len() % 3 == 0 {
            0
        } else {
            bs.len() % 3 + 1
        }),
    decreases bs.len(),
{
    if bs.len() >= 3 {
        lemma_base64_unpadded_len(bs.skip(3), url);
    }
}

/// `base64::engine::general_purpose::STANDARD.encode`: RFC 4648 alphabet
/// (`+`, `/`) with `=` padding.
#[verifier::external_body]
pub(crate) fn base64_standard(bs: &[u8]) -> (r: String)
    ensures
        r@ == base64_of(bs@, false, true),
{
    base64::engine::general_purpose::STANDARD.encode(bs)
}

/// `base64::engine::general_purpose::URL_SAFE_NO_PAD.encode`: URL-safe
/// alphabet (`-`, `_`) without padding.
#[verifier::external_body]
pub(crate) fn base64_url_no_pad(bs: &[u8]) -> (r: String)
    ensures
        r@ == base64_of(bs@, true, false),
{
    base64::engine::general_purpose::URL_SAFE_NO_PAD.encode(bs)
}

// ---------------------------------------------------------------------
// SHA-256
// ---------------------------------------------------------------------

/// The SHA-256 digest of a byte sequence.
pub uninterp spec fn sha256_of(data: Seq<u8>) -> Seq<u8>;

/// `sha2::Sha256::digest`: the SHA-256 digest of `data`, 32 bytes long.
#[verifier::external_body]
pub(crate) fn sha256_digest(data: &[u8]) -> (r: Vec<u8>)
    ensures
        r@ == sha256_of(data@),
        r@.len() == 32,
{
    sha2::Sha256::digest(data).to_vec()
}

} // verus!
