//! Byte-level codecs: URL-safe unpadded base64 for keys, device ids and
//! signatures, and big-endian byte encodings of machine integers.
use vstd::prelude::*;

verus! {

/// The characters of the URL-safe base64 alphabet (no padding is ever used).
pub open spec fn is_b64url_char(c: char) -> bool {
    ('A' <= c && c <= 'Z') || ('a' <= c && c <= 'z') || ('0' <= c && c <= '9') || c == '-'
        || c == '_'
}

/// Whether every character of `s` is in the URL-safe base64 alphabet.
pub open spec fn all_b64url(s: Seq<char>) -> bool {
    forall|i: int| 0 <= i < s.len() ==> is_b64url_char(#[trigger] s[i])
}

/// The URL-safe unpadded base64 encoding of a byte string, as base64's
/// `URL_SAFE_NO_PAD` engine produces it.
pub uninterp spec fn b64_of(bytes: Seq<u8>) -> Seq<char>;

/// What base64's strict `URL_SAFE_NO_PAD` decoding yields on a string:
/// `Some(bytes)` exactly when the string is a well-formed unpadded encoding
/// (no stray characters, no padding, no dangling trailing bits).
pub uninterp spec fn b64_decode_of(s: Seq<char>) -> Option<Seq<u8>>;

/// Rejected input for [`decode`]: the string is not well-formed base64url.
#[derive(Clone, Copy, PartialEq, Eq, Structural, Debug)]
pub struct NotBase64;

/// Relies on base64's `Engine::encode` with the `URL_SAFE_NO_PAD` engine:
/// the unpadded URL-safe encoding, 4 output characters for every 3 input
/// bytes (rounded up), all in the URL-safe alphabet, and strict decoding
/// inverts it.
#[verifier::external_body]
pub fn encode(bytes: &[u8]) -> (r: String)
    ensures
        r@ == b64_of(bytes@),
        r@.len() == (bytes@.len() * 4 + 2) / 3,
        all_b64url(r@),
        b64_decode_of(r@) == Some(bytes@),
{
    base64::Engine::encode(&base64::engine::general_purpose::URL_SAFE_NO_PAD, bytes)
}

/// Relies on base64's `Engine::decode` with the `URL_SAFE_NO_PAD` engine:
/// strict decoding, which accepts exactly the canonical unpadded encodings
/// and yields 3 bytes for every 4 input characters (rounded down).
#[verifier::external_body]
pub fn decode(string: &str) -> (r: Result<Vec<u8>, NotBase64>)
    ensures
        match r {
            Ok(v) => b64_decode_of(string@) == Some(v@) && string@ == b64_of(v@) && v@.len()
                == string@.len() * 3 / 4,
            Err(_) => b64_decode_of(string@) is None,
        },
{
    match base64::Engine::decode(&base64::engine::general_purpose::URL_SAFE_NO_PAD, string) {
        Ok(v) => Ok(v),
        Err(_) => Err(NotBase64),
    }
}

/// The big-endian byte rendering of a 64-bit integer.
pub open spec fn be_bytes_of_u64(x: u64) -> Seq<u8> {
    seq![
        (x >> 56) as u8,
        (x >> 48) as u8,
        (x >> 40) as u8,
        (x >> 32) as u8,
        (x >> 24) as u8,
        (x >> 16) as u8,
        (x >> 8) as u8,
        x as u8,
    ]
}

/// The 64-bit integer read back from 8 big-endian bytes.
pub open spec fn u64_of_be_bytes(s: Seq<u8>) -> u64 {
    ((s[0] as u64) << 56) | ((s[1] as u64) << 48) | ((s[2] as u64) << 40) | ((s[3] as u64) << 32)
        | ((s[4] as u64) << 24) | ((s[5] as u64) << 16) | ((s[6] as u64) << 8) | (s[7] as u64)
}

/// Renders an integer as its 8 big-endian bytes.
pub fn encode_u64(x: u64) -> (r: Vec<u8>)
    ensures
        r@ == be_bytes_of_u64(x),
{
    let mut v: Vec<u8> = Vec::new();
    v.push((x >> 56) as u8);
    v.push((x >> 48) as u8);
    v.push((x >> 40) as u8);
    v.push((x >> 32) as u8);
    v.push((x >> 24) as u8);
    v.push((x >> 16) as u8);
    v.push((x >> 8) as u8);
    v.push(x as u8);
    proof {
        assert(v@ =~= be_bytes_of_u64(x));
    }
    v
}

/// Reads an integer back from 8 big-endian bytes; any other length yields 0.
pub fn decode_u64(bytes: &[u8]) -> (r: u64)
    ensures
        r == if bytes@.len() == 8 {
            u64_of_be_bytes(bytes@)
        } else {
            0u64
        },
{
    if bytes.len() != 8 {
        return 0;
    }
    ((bytes[0] as u64) << 56) | ((bytes[1] as u64) << 48) | ((bytes[2] as u64) << 40) | ((
    bytes[3] as u64) << 32) | ((bytes[4] as u64) << 24) | ((bytes[5] as u64) << 16) | ((
    bytes[6] as u64) << 8) | (bytes[7] as u64)
}

} // verus!
