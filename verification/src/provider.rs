//! The digest provider: SHA-1, SHA-256 and SHA-512 as OpenSSL computes them.
//!
//! The digests themselves are not verified here. Each is given a name, and
//! the functions of this module promise that a digest which was computed is
//! the named one.

use openssl::error::ErrorStack;
use openssl::hash::{hash, MessageDigest};
use vstd::prelude::*;

verus! {

/// The longest digest that the provider hands out, in bytes.
pub const MAX_DIGEST_LEN: usize = 64;

/// The algorithms that the provider computes.
#[derive(PartialEq, Eq, Clone, Copy, Debug, Structural)]
pub enum Algorithm {
    Sha1,
    Sha256,
    Sha512,
}

/// `openssl::error::ErrorStack`, the errors that OpenSSL reports for a failed
/// call. Nothing is known of what it holds.
#[verifier::external_type_specification]
#[verifier::external_body]
pub struct ExErrorStack(openssl::error::ErrorStack);

/// The SHA-1 digest of `data`: what `openssl::hash::hash` computes for
/// `MessageDigest::sha1()`.
pub uninterp spec fn sha1_digest(data: Seq<u8>) -> Seq<u8>;

/// The SHA-256 digest of `data`: what `openssl::hash::hash` computes for
/// `MessageDigest::sha256()`.
pub uninterp spec fn sha256_digest(data: Seq<u8>) -> Seq<u8>;

/// The SHA-512 digest of `data`: what `openssl::hash::hash` computes for
/// `MessageDigest::sha512()`.
pub uninterp spec fn sha512_digest(data: Seq<u8>) -> Seq<u8>;

/// The digest of `data` under `algorithm`.
pub open spec fn digest_of(algorithm: Algorithm, data: Seq<u8>) -> Seq<u8> {
    match algorithm {
        Algorithm::Sha1 => sha1_digest(data),
        Algorithm::Sha256 => sha256_digest(data),
        Algorithm::Sha512 => sha512_digest(data),
    }
}

/// Calls `openssl::hash::hash` with `openssl::hash::MessageDigest::sha1()`.
///
/// Trusted: when the call succeeds, the bytes are the SHA-1 digest of `data`,
/// the same for the same data. They are at most `MAX_DIGEST_LEN` long, since
/// OpenSSL hands a digest out in a buffer of `EVP_MAX_MD_SIZE` (64) bytes.
/// Whether the call succeeds is left open.
#[verifier::external_body]
fn openssl_sha1(data: &[u8]) -> (r: Result<Vec<u8>, ErrorStack>)
    ensures
        r matches Ok(d) ==> d@ == sha1_digest(data@) && d@.len() <= MAX_DIGEST_LEN,
{
    match hash(MessageDigest::sha1(), data) {
        Ok(bytes) => Ok(bytes.to_vec()),
        Err(stack) => Err(stack),
    }
}

/// Calls `openssl::hash::hash` with `openssl::hash::MessageDigest::sha256()`.
///
/// Trusted: when the call succeeds, the bytes are the SHA-256 digest of
/// `data`, the same for the same data. They are at most `MAX_DIGEST_LEN` long,
/// since OpenSSL hands a digest out in a buffer of `EVP_MAX_MD_SIZE` (64)
/// bytes. Whether the call succeeds is left open.
#[verifier::external_body]
fn openssl_sha256(data: &[u8]) -> (r: Result<Vec<u8>, ErrorStack>)
    ensures
        r matches Ok(d) ==> d@ == sha256_digest(data@) && d@.len() <= MAX_DIGEST_LEN,
{
    match hash(MessageDigest::sha256(), data) {
        Ok(bytes) => Ok(bytes.to_vec()),
        Err(stack) => Err(stack),
    }
}

/// Calls `openssl::hash::hash` with `openssl::hash::MessageDigest::sha512()`.
///
/// Trusted: when the call succeeds, the bytes are the SHA-512 digest of
/// `data`, the same for the same data. They are at most `MAX_DIGEST_LEN` long,
/// since OpenSSL hands a digest out in a buffer of `EVP_MAX_MD_SIZE` (64)
/// bytes. Whether the call succeeds is left open.
#[verifier::external_body]
fn openssl_sha512(data: &[u8]) -> (r: Result<Vec<u8>, ErrorStack>)
    ensures
        r matches Ok(d) ==> d@ == sha512_digest(data@) && d@.len() <= MAX_DIGEST_LEN,
{
    match hash(MessageDigest::sha512(), data) {
        Ok(bytes) => Ok(bytes.to_vec()),
        Err(stack) => Err(stack),
    }
}

/// Formats an `openssl::error::ErrorStack` through its `Display` impl.
///
/// Trusted, and nothing is claimed: the text is whatever OpenSSL reported.
#[verifier::external_body]
fn error_text(stack: &ErrorStack) -> String {
    format!("{}", stack)
}

/// Computes the digest of `data` under `algorithm`.
///
/// A digest that comes back is `digest_of(algorithm, data)` and fits the
/// length byte of a multihash. The provider may fail instead; the error is
/// then its message.
pub fn compute_digest(algorithm: Algorithm, data: &[u8]) -> (r: Result<Vec<u8>, String>)
    ensures
        r matches Ok(d) ==> d@ == digest_of(algorithm, data@) && d@.len() <= MAX_DIGEST_LEN,
{
    let outcome = match algorithm {
        Algorithm::Sha1 => openssl_sha1(data),
        Algorithm::Sha256 => openssl_sha256(data),
        Algorithm::Sha512 => openssl_sha512(data),
    };
    match outcome {
        Ok(digest) => Ok(digest),
        Err(stack) => Err(error_text(&stack)),
    }
}

} // verus!
