//! The name under which the clip list of an audio asset is cached: a
//! digest of the asset's canonical path.

use vstd::prelude::*;
use sha2::Digest;

verus! {

/// The SHA-256 digest of `data`.
pub uninterp spec fn sha256(data: Seq<u8>) -> Seq<u8>;

/// Computes the digest by `sha2::Sha256::digest`. Taken on trust: the
/// result is a function of the bytes alone, here called `sha256`.
#[verifier::external_body]
fn sha256_digest(data: &[u8]) -> (digest: Vec<u8>)
    ensures
        digest@ == sha256(data@),
{
    sha2::Sha256::digest(data).to_vec()
}

/// The lower-case hexadecimal digit of the value `n`, for `n` below 16.
pub open spec fn hex_digit(n: int) -> char {
    seq!['0', '1', '2', '3', '4', '5', '6', '7', '8', '9', 'a', 'b', 'c', 'd', 'e', 'f'][n]
}

/// The bytes `data` in lower-case hexadecimal: two digits for each byte,
/// the high half first.
pub open spec fn hex_lower(data: Seq<u8>) -> Seq<char>
    decreases data.len(),
{
    if data.len() == 0 {
        Seq::empty()
    } else {
        hex_lower(data.drop_last()) + seq![
            hex_digit(data.last() as int / 16),
            hex_digit(data.last() as int % 16),
        ]
    }
}

/// Encodes `data` by `hex::encode`. Taken on trust from its source: each
/// byte is written as two lower-case hexadecimal digits, the high half
/// first.
#[verifier::external_body]
fn hex_encode(data: &[u8]) -> (s: String)
    ensures
        s@ == hex_lower(data@),
{
    hex::encode(data)
}

/// The name of the cache entry with the digest `digest`: the digest in
/// hexadecimal, with the extension `.json`.
pub open spec fn entry_name(digest: Seq<u8>) -> Seq<char> {
    hex_lower(digest) + ".json"@
}

/// The name of the cache entry for the asset at `path`: the entry name of
/// the digest of the path's UTF-8 bytes.
pub open spec fn cache_name(path: Seq<char>) -> Seq<char> {
    entry_name(sha256(vstd::utf8::encode_utf8(path)))
}

/// The file name of the cache entry with the digest `digest`.
pub fn entry_file_name(digest: &[u8]) -> (name: String)
    ensures
        name@ == entry_name(digest@),
{
    let mut name = hex_encode(digest);
    name.append(".json");
    name
}

/// The file name of the cache entry for the asset whose canonical path is
/// `canonical_path`.
pub fn cache_file_name(canonical_path: &str) -> (name: String)
    ensures
        name@ == cache_name(canonical_path@),
{
    let digest = sha256_digest(canonical_path.as_bytes());
    entry_file_name(digest.as_slice())
}

} // verus!
