//! Digests and text encodings the backend takes from outside crates:
//! SHA-1 and SHA-256 (sha1, sha2), lower-case hex (hex), URL-safe Base64
//! without padding (base64) and `application/x-www-form-urlencoded` (url).
use vstd::prelude::*;

verus! {

/// The SHA-256 digest of a byte string.
pub uninterp spec fn sha256_digest(data: Seq<u8>) -> Seq<u8>;

/// The SHA-1 digest of a byte string.
pub uninterp spec fn sha1_digest(data: Seq<u8>) -> Seq<u8>;

/// URL-safe Base64 of a byte string, without `=` padding.
pub uninterp spec fn base64_url_nopad(data: Seq<u8>) -> Seq<char>;

/// `application/x-www-form-urlencoded` serialization of name/value pairs, in order.
pub uninterp spec fn urlencoded_form(pairs: Seq<(Seq<char>, Seq<char>)>) -> Seq<char>;

/// The URL-safe Base64 alphabet (RFC 4648, section 5).
pub const BASE64_URL_ALPHABET: &'static str = "ABCDEFGHIJKLMNOPQRSTUVWXYZabcdefghijklmnopqrstuvwxyz0123456789-_";

/// Length of unpadded Base64 for `n` bytes: 4 characters per 3 bytes, and 2 or 3
/// for a last group of 1 or 2 bytes.
pub open spec fn base64_nopad_len(n: nat) -> nat {
    (n / 3) * 4 + if n % 3 == 0 {
        0nat
    } else if n % 3 == 1 {
        2nat
    } else {
        3nat
    }
}

/// The views of a list of string pairs.
pub open spec fn pairs_view(pairs: Seq<(String, String)>) -> Seq<(Seq<char>, Seq<char>)> {
    pairs.map_values(|p: (String, String)| (p.0@, p.1@))
}

/// A lower-case hexadecimal digit.
pub open spec fn hex_digit(n: nat) -> char {
    if n == 0 { '0' }
    else if n == 1 { '1' }
    else if n == 2 { '2' }
    else if n == 3 { '3' }
    else if n == 4 { '4' }
    else if n == 5 { '5' }
    else if n == 6 { '6' }
    else if n == 7 { '7' }
    else if n == 8 { '8' }
    else if n == 9 { '9' }
    else if n == 10 { 'a' }
    else if n == 11 { 'b' }
    else if n == 12 { 'c' }
    else if n == 13 { 'd' }
    else if n == 14 { 'e' }
    else { 'f' }
}

/// Lower-case hex of a byte string: two digits per byte, high nibble first.
pub open spec fn hex_lower(data: Seq<u8>) -> Seq<char>
    decreases data.len(),
{
    if data.len() == 0 {
        seq![]
    } else {
        seq![hex_digit((data[0] / 16) as nat), hex_digit((data[0] % 16) as nat)] + hex_lower(
            data.drop_first(),
        )
    }
}

pub proof fn lemma_hex_lower_len(data: Seq<u8>)
    ensures
        hex_lower(data).len() == 2 * data.len(),
    decreases data.len(),
{
    if data.len() > 0 {
        lemma_hex_lower_len(data.drop_first());
    }
}

/// `Sha256::digest` (sha2): 32 bytes.
#[verifier::external_body]
pub(crate) fn sha256(data: &[u8]) -> (r: Vec<u8>)
    ensures
        r@ == sha256_digest(data@),
        r@.len() == 32,
{
    <sha2::Sha256 as sha2::Digest>::digest(data).to_vec()
}

/// `Sha1::digest` (sha1): 20 bytes.
#[verifier::external_body]
pub(crate) fn sha1(data: &[u8]) -> (r: Vec<u8>)
    ensures
        r@ == sha1_digest(data@),
        r@.len() == 20,
{
    <sha1::Sha1 as sha1::Digest>::digest(data).to_vec()
}

/// `hex::encode`: lower-case hex, two digits per byte.
#[verifier::external_body]
pub(crate) fn hex_encode(data: &[u8]) -> (r: String)
    ensures
        r@ == hex_lower(data@),
{
    hex::encode(data)
}

/// `URL_SAFE_NO_PAD.encode` (base64): characters of the URL-safe alphabet only
/// (no `=` padding), as many as `base64_nopad_len` gives. (base64 panics when
/// that length overflows `usize`; slices of at most half of `usize::MAX` bytes
/// cannot make it.)
#[verifier::external_body]
pub(crate) fn base64_url_encode(data: &[u8]) -> (r: String)
    requires
        data@.len() <= usize::MAX / 2,
    ensures
        r@ == base64_url_nopad(data@),
        r@.len() == base64_nopad_len(data@.len()),
        forall|i: int| 0 <= i < r@.len() ==> BASE64_URL_ALPHABET@.contains(#[trigger] r@[i]),
{
    base64::Engine::encode(&base64::engine::general_purpose::URL_SAFE_NO_PAD, data)
}

/// `form_urlencoded::Serializer` (as re-exported by url) fed the pairs in order.
#[verifier::external_body]
pub(crate) fn form_urlencode(pairs: &Vec<(String, String)>) -> (r: String)
    ensures
        r@ == urlencoded_form(pairs_view(pairs@)),
{
    url::form_urlencoded::Serializer::new(String::new()).extend_pairs(pairs.iter()).finish()
}

} // verus!
