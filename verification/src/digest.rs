//! Digest providers: one deterministic, fixed-output-size hash function
//! per supported algorithm.
//!
//! The digest routines come from outside crates and are treated as
//! trusted primitives: each gets an uninterpreted name for its result,
//! which depends on the input bytes alone, together with its documented
//! output length.

use vstd::prelude::*;

verus! {

pub uninterp spec fn sha1_of(data: Seq<u8>) -> Seq<u8>;

pub uninterp spec fn sha224_of(data: Seq<u8>) -> Seq<u8>;

pub uninterp spec fn sha256_of(data: Seq<u8>) -> Seq<u8>;

pub uninterp spec fn sha384_of(data: Seq<u8>) -> Seq<u8>;

pub uninterp spec fn sha512_of(data: Seq<u8>) -> Seq<u8>;

pub uninterp spec fn sha3_224_of(data: Seq<u8>) -> Seq<u8>;

pub uninterp spec fn sha3_256_of(data: Seq<u8>) -> Seq<u8>;

pub uninterp spec fn sha3_384_of(data: Seq<u8>) -> Seq<u8>;

pub uninterp spec fn sha3_512_of(data: Seq<u8>) -> Seq<u8>;

pub uninterp spec fn sm3_of(data: Seq<u8>) -> Seq<u8>;

/// Relies on `sha1::Sha1` through `Digest::digest`: a 20-byte SHA-1
/// digest determined by the input bytes alone.
#[verifier::external_body]
pub(crate) fn sha1_digest(data: &[u8]) -> (r: Vec<u8>)
    ensures
        r@ == sha1_of(data@),
        r@.len() == 20,
{
    <sha1::Sha1 as sha1::Digest>::digest(data).to_vec()
}

/// Relies on `sha2::Sha224` through `Digest::digest`: a 28-byte SHA-224
/// digest determined by the input bytes alone.
#[verifier::external_body]
pub(crate) fn sha224_digest(data: &[u8]) -> (r: Vec<u8>)
    ensures
        r@ == sha224_of(data@),
        r@.len() == 28,
{
    <sha2::Sha224 as sha2::Digest>::digest(data).to_vec()
}

/// Relies on `sha2::Sha256` through `Digest::digest`: a 32-byte SHA-256
/// digest determined by the input bytes alone.
#[verifier::external_body]
pub(crate) fn sha256_digest(data: &[u8]) -> (r: Vec<u8>)
    ensures
        r@ == sha256_of(data@),
        r@.len() == 32,
{
    <sha2::Sha256 as sha2::Digest>::digest(data).to_vec()
}

/// Relies on `sha2::Sha384` through `Digest::digest`: a 48-byte SHA-384
/// digest determined by the input bytes alone.
#[verifier::external_body]
pub(crate) fn sha384_digest(data: &[u8]) -> (r: Vec<u8>)
    ensures
        r@ == sha384_of(data@),
        r@.len() == 48,
{
    <sha2::Sha384 as sha2::Digest>::digest(data).to_vec()
}

/// Relies on `sha2::Sha512` through `Digest::digest`: a 64-byte SHA-512
/// digest determined by the input bytes alone.
#[verifier::external_body]
pub(crate) fn sha512_digest(data: &[u8]) -> (r: Vec<u8>)
    ensures
        r@ == sha512_of(data@),
        r@.len() == 64,
{
    <sha2::Sha512 as sha2::Digest>::digest(data).to_vec()
}

/// Relies on `sha3::Sha3_224` through `Digest::digest`: a 28-byte
/// SHA3-224 digest determined by the input bytes alone.
#[verifier::external_body]
pub(crate) fn sha3_224_digest(data: &[u8]) -> (r: Vec<u8>)
    ensures
        r@ == sha3_224_of(data@),
        r@.len() == 28,
{
    <sha3::Sha3_224 as sha3::Digest>::digest(data).to_vec()
}

/// Relies on `sha3::Sha3_256` through `Digest::digest`: a 32-byte
/// SHA3-256 digest determined by the input bytes alone.
#[verifier::external_body]
pub(crate) fn sha3_256_digest(data: &[u8]) -> (r: Vec<u8>)
    ensures
        r@ == sha3_256_of(data@),
        r@.len() == 32,
{
    <sha3::Sha3_256 as sha3::Digest>::digest(data).to_vec()
}

/// Relies on `sha3::Sha3_384` through `Digest::digest`: a 48-byte
/// SHA3-384 digest determined by the input bytes alone.
#[verifier::external_body]
pub(crate) fn sha3_384_digest(data: &[u8]) -> (r: Vec<u8>)
    ensures
        r@ == sha3_384_of(data@),
        r@.len() == 48,
{
    <sha3::Sha3_384 as sha3::Digest>::digest(data).to_vec()
}

/// Relies on `sha3::Sha3_512` through `Digest::digest`: a 64-byte
/// SHA3-512 digest determined by the input bytes alone.
#[verifier::external_body]
pub(crate) fn sha3_512_digest(data: &[u8]) -> (r: Vec<u8>)
    ensures
        r@ == sha3_512_of(data@),
        r@.len() == 64,
{
    <sha3::Sha3_512 as sha3::Digest>::digest(data).to_vec()
}

/// Relies on `libsm::sm3::hash::Sm3Hash`: a 32-byte SM3 digest
/// determined by the input bytes alone.
#[verifier::external_body]
pub(crate) fn sm3_digest(data: &[u8]) -> (r: Vec<u8>)
    ensures
        r@ == sm3_of(data@),
        r@.len() == 32,
{
    let mut hasher = libsm::sm3::hash::Sm3Hash::new(data);
    hasher.get_hash().to_vec()
}

} // verus!
