//! Random tokens, one-time passwords and content digests.
//!
//! The primitives themselves come from other crates. Each is reached through
//! one small function whose contract is taken on trust; everything built on
//! them is verified against those contracts.

use crate::text::str_eq;
use sha2::Digest;
use vstd::prelude::*;

verus! {

/// Whether `c` is an ASCII letter or digit.
pub open spec fn is_alphanumeric(c: char) -> bool {
    ('a' <= c && c <= 'z') || ('A' <= c && c <= 'Z') || ('0' <= c && c <= '9')
}

/// Whether every character of `s` is an ASCII letter or digit.
pub open spec fn all_alphanumeric(s: Seq<char>) -> bool {
    forall|i: int| 0 <= i < s.len() ==> is_alphanumeric(#[trigger] s[i])
}

/// The SHA-512 digest of `data`.
pub uninterp spec fn sha512_digest(data: Seq<u8>) -> Seq<u8>;

/// The padded base32 encoding of `data`.
pub uninterp spec fn base32_encoding(data: Seq<u8>) -> Seq<char>;

/// The bytes that `text` stands for in padded base32, if it is well formed.
pub uninterp spec fn base32_decoding(text: Seq<char>) -> Option<Seq<u8>>;

/// The six-digit HMAC-SHA-1 one-time password of `secret` at `counter`;
/// `None` where none can be computed.
pub uninterp spec fn hotp_code(secret: Seq<u8>, counter: u64) -> Option<Seq<char>>;

/// The provisioning URI for a one-time password of the kind `kind`, with
/// the label and the issuer percent-encoded; `None` for an unknown kind.
pub uninterp spec fn otp_uri_text(
    kind: Seq<char>,
    secret: Seq<char>,
    label: Seq<char>,
    issuer: Seq<char>,
) -> Option<Seq<char>>;

/// The QR code for `text` as an SVG image of the size that the renderer
/// chooses by itself; `None` where the text does not fit a code of that
/// correction level.
pub uninterp spec fn qr_svg_text(text: Seq<char>, level: QrLevel) -> Option<Seq<char>>;

/// How much damage a QR code is to survive.
#[derive(Clone, Copy, Debug, PartialEq, Eq, Structural)]
pub enum QrLevel {
    Low,
    Medium,
    Quartile,
    High,
}

/// The lower-case hexadecimal digit for a value below 16.
pub open spec fn hex_digit(nibble: int) -> char {
    if nibble == 0 { '0' }
    else if nibble == 1 { '1' }
    else if nibble == 2 { '2' }
    else if nibble == 3 { '3' }
    else if nibble == 4 { '4' }
    else if nibble == 5 { '5' }
    else if nibble == 6 { '6' }
    else if nibble == 7 { '7' }
    else if nibble == 8 { '8' }
    else if nibble == 9 { '9' }
    else if nibble == 10 { 'a' }
    else if nibble == 11 { 'b' }
    else if nibble == 12 { 'c' }
    else if nibble == 13 { 'd' }
    else if nibble == 14 { 'e' }
    else { 'f' }
}

/// The lower-case hexadecimal text of `data`: two digits per byte, high
/// half first.
pub open spec fn hex_lower(data: Seq<u8>) -> Seq<char> {
    Seq::new(
        2 * data.len(),
        |i: int| if i % 2 == 0 { hex_digit(data[i / 2] as int / 16) } else { hex_digit(data[i / 2] as int % 16) },
    )
}

/// Calls `Rng::gen_range` of `rand` on the thread's generator. The contract
/// claims only that the result lies in the half-open range.
#[verifier::external_body]
pub(crate) fn random_in_range(low: usize, high: usize) -> (n: usize)
    requires
        low < high,
    ensures
        low <= n < high,
{
    rand::Rng::gen_range(&mut rand::thread_rng(), low..high)
}

/// Calls `DistString::sample_string` of `rand` with its `Alphanumeric`
/// distribution. The contract claims the length asked for and that every
/// character is an ASCII letter or digit.
#[verifier::external_body]
pub(crate) fn random_alphanumeric(len: usize) -> (s: String)
    ensures
        s@.len() == len,
        all_alphanumeric(s@),
{
    rand::distributions::DistString::sample_string(
        &rand::distributions::Alphanumeric,
        &mut rand::thread_rng(),
        len,
    )
}

/// Calls `thotp::generate_secret`. The contract claims only the length of
/// the buffer of random bytes.
#[verifier::external_body]
pub(crate) fn random_secret(size: usize) -> (secret: Vec<u8>)
    ensures
        secret@.len() == size,
{
    thotp::generate_secret(size)
}

/// Calls `thotp::encoding::encode` with `data_encoding::BASE32`. The
/// contract names the result and claims that decoding it gives the bytes
/// back.
#[verifier::external_body]
pub(crate) fn base32_encode(data: &[u8]) -> (text: String)
    ensures
        text@ == base32_encoding(data@),
        base32_decoding(text@) == Some(data@),
{
    thotp::encoding::encode(data, data_encoding::BASE32)
}

/// Calls `thotp::encoding::decode` with `data_encoding::BASE32`. The
/// contract names the result; a rejected text is `None`.
#[verifier::external_body]
pub(crate) fn base32_decode(text: &str) -> (data: Option<Vec<u8>>)
    ensures
        match data {
            Some(bytes) => base32_decoding(text@) == Some(bytes@),
            None => base32_decoding(text@) is None,
        },
{
    match thotp::encoding::decode(text, data_encoding::BASE32) {
        Ok(bytes) => Some(bytes),
        Err(_) => None,
    }
}

/// Calls `thotp::otp`. The contract names what comes back: the password,
/// or `None` for an error of the call.
#[verifier::external_body]
pub(crate) fn hotp(secret: &[u8], counter: u64) -> (code: Option<String>)
    ensures
        match code {
            Some(text) => hotp_code(secret@, counter) == Some(text@),
            None => hotp_code(secret@, counter) is None,
        },
{
    match thotp::otp(secret, counter) {
        Ok(text) => Some(text),
        Err(_) => None,
    }
}

/// Calls `thotp::qr::otp_uri` without a counter. The contract names the
/// URI; an error of the call is `None`, and it claims that the call fails
/// for no other reason than a kind that is neither `totp` nor `hotp`.
#[verifier::external_body]
pub(crate) fn otp_uri(kind: &str, secret: &str, label: &str, issuer: &str) -> (uri: Option<String>)
    ensures
        match uri {
            Some(text) => otp_uri_text(kind@, secret@, label@, issuer@) == Some(text@),
            None => otp_uri_text(kind@, secret@, label@, issuer@) is None,
        },
        uri is Some <==> (kind@ == "totp"@ || kind@ == "hotp"@),
{
    match thotp::qr::otp_uri(kind, secret, label, issuer, None) {
        Ok(text) => Some(text),
        Err(_) => None,
    }
}

/// Calls `thotp::qr::generate_code_svg` without a width and a height, so
/// that the call takes its own. The contract names the image; an error of
/// the call is `None`.
#[verifier::external_body]
pub(crate) fn qr_svg(text: &str, level: QrLevel) -> (svg: Option<String>)
    ensures
        match svg {
            Some(image) => qr_svg_text(text@, level) == Some(image@),
            None => qr_svg_text(text@, level) is None,
        },
{
    let ec_level = match level {
        QrLevel::Low => thotp::qr::EcLevel::L,
        QrLevel::Medium => thotp::qr::EcLevel::M,
        QrLevel::Quartile => thotp::qr::EcLevel::Q,
        QrLevel::High => thotp::qr::EcLevel::H,
    };
    match thotp::qr::generate_code_svg(text, None, None, ec_level) {
        Ok(image) => Some(image),
        Err(_) => None,
    }
}

/// Calls `Digest::digest` of `sha2` for `Sha512`. The contract names the
/// digest and claims its length of 64 bytes.
#[verifier::external_body]
pub(crate) fn sha512(data: &[u8]) -> (digest: Vec<u8>)
    ensures
        digest@ == sha512_digest(data@),
        digest@.len() == 64,
{
    sha2::Sha512::digest(data).to_vec()
}

/// Calls `Encoding::encode` of `data_encoding` on `HEXLOWER`. The contract
/// claims two lower-case hexadecimal digits per byte.
#[verifier::external_body]
pub(crate) fn hex_encode(data: &[u8]) -> (text: String)
    ensures
        text@ == hex_lower(data@),
{
    data_encoding::HEXLOWER.encode(data)
}

/// Generates a random string of `len` ASCII letters and digits.
pub fn gen_random(len: usize) -> (s: String)
    ensures
        s@.len() == len,
        all_alphanumeric(s@),
{
    random_alphanumeric(len)
}

/// The lower-case hexadecimal SHA-512 digest of `content`.
pub fn content_digest(content: &[u8]) -> (text: String)
    ensures
        text@ == hex_lower(sha512_digest(content@)),
        text@.len() == 128,
{
    let digest = sha512(content);
    hex_encode(digest.as_slice())
}

/// Whether `expected` is the lower-case hexadecimal SHA-512 digest of
/// `content`.
pub fn digest_matches(content: &[u8], expected: &str) -> (b: bool)
    ensures
        b == (expected@ == hex_lower(sha512_digest(content@))),
{
    let actual = content_digest(content);
    str_eq(actual.as_str(), expected)
}

} // verus!
