//! Images embedded in the web front end as `data:` URLs.

use vstd::prelude::*;
use base64::Engine;
use crate::text::{chars_of, extend_chars, string_from_chars};

verus! {

/// The character of the standard Base64 alphabet (RFC 4648) for the
/// six-bit value `v`.
pub open spec fn base64_char(v: int) -> char {
    if v < 26 {
        (('A' as int) + v) as char
    } else if v < 52 {
        (('a' as int) + v - 26) as char
    } else if v < 62 {
        (('0' as int) + v - 52) as char
    } else if v == 62 {
        '+'
    } else {
        '/'
    }
}

/// The standard Base64 text of `bytes` (RFC 4648): each group of three
/// bytes becomes four characters of six bits each; a last group of one or
/// two bytes is padded with `=`.
pub open spec fn base64_text(bytes: Seq<u8>) -> Seq<char>
    decreases bytes.len(),
{
    let b0 = if bytes.len() > 0 { bytes[0] as int } else { 0 };
    let b1 = if bytes.len() > 1 { bytes[1] as int } else { 0 };
    let b2 = if bytes.len() > 2 { bytes[2] as int } else { 0 };
    if bytes.len() == 0 {
        Seq::empty()
    } else if bytes.len() == 1 {
        seq![base64_char(b0 / 4), base64_char((b0 % 4) * 16), '=', '=']
    } else if bytes.len() == 2 {
        seq![base64_char(b0 / 4), base64_char((b0 % 4) * 16 + b1 / 16), base64_char((b1 % 16) * 4), '=']
    } else {
        seq![
            base64_char(b0 / 4),
            base64_char((b0 % 4) * 16 + b1 / 16),
            base64_char((b1 % 16) * 4 + b2 / 64),
            base64_char(b2 % 64),
        ] + base64_text(bytes.skip(3))
    }
}

/// `Engine::encode` of base64's `STANDARD` engine, which its documentation
/// describes as the standard alphabet of RFC 4648 with padding: claimed to
/// give `base64_text(bytes)`.
#[verifier::external_body]
fn base64_standard(bytes: &[u8]) -> (s: String)
    ensures
        s@ == base64_text(bytes@),
{
    base64::engine::general_purpose::STANDARD.encode(bytes)
}

/// The `data:` URL of a JPEG image.
pub fn jpeg_data_url(jpeg: &[u8]) -> (s: String)
    ensures
        s@ == "data:image/jpeg;base64,"@ + base64_text(jpeg@),
{
    let mut v = chars_of("data:image/jpeg;base64,");
    let encoded = base64_standard(jpeg);
    extend_chars(&mut v, &chars_of(encoded.as_str()));
    string_from_chars(&v)
}

/// The `data:` URL of a PNG image.
pub fn png_data_url(png: &[u8]) -> (s: String)
    ensures
        s@ == "data:image/png;base64,"@ + base64_text(png@),
{
    let mut v = chars_of("data:image/png;base64,");
    let encoded = base64_standard(png);
    extend_chars(&mut v, &chars_of(encoded.as_str()));
    string_from_chars(&v)
}

} // verus!
