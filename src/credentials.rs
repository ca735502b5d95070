//! Password digests as they are kept in the user tables.

use vstd::prelude::*;
use vstd::string::StringSliceAdditionalSpecFns;

verus! {

/// Longest input that SHA-256 accepts, in bytes (2^64 bits).
pub const SHA256_MAX_INPUT: u64 = 0x1fff_ffff_ffff_ffff;

/// The SHA-256 digest of `data`.
pub uninterp spec fn sha256_of(data: Seq<u8>) -> Seq<u8>;

/// `data` in standard base 64 (RFC 4648, with padding).
pub uninterp spec fn base64_of(data: Seq<u8>) -> Seq<char>;

/// Relies on ring's `digest::digest` with `digest::SHA256`: a 32-byte digest that
/// depends on the input alone; it panics only past the algorithm's input limit.
#[verifier::external_body]
fn sha256(data: &[u8]) -> (r: Vec<u8>)
    requires
        data@.len() <= SHA256_MAX_INPUT,
    ensures
        r@ == sha256_of(data@),
        r@.len() == 32,
{
    ring::digest::digest(&ring::digest::SHA256, data).as_ref().to_vec()
}

/// Relies on data-encoding's `BASE64.encode`: padded standard base 64, four characters
/// for every three bytes begun; it asserts that the input is at most `usize::MAX / 512`
/// bytes long.
#[verifier::external_body]
fn base64(data: &[u8]) -> (r: String)
    requires
        data@.len() <= usize::MAX / 512,
    ensures
        r@ == base64_of(data@),
        r@.len() == 4 * ((data@.len() + 2) / 3),
{
    data_encoding::BASE64.encode(data)
}

/// The stored form of a password: its SHA-256 digest in base 64 (44 characters).
pub fn make_hash(password: &str) -> (r: String)
    requires
        password.spec_bytes().len() <= SHA256_MAX_INPUT,
    ensures
        r@ == base64_of(sha256_of(password.spec_bytes())),
        r@.len() == 44,
{
    let digest = sha256(password.as_bytes());
    base64(digest.as_slice())
}

} // verus!
