//! The one-shot hash calculator: digests a single input, given either
//! as literal text or as a hex string, under any supported algorithm.
//! It shares the digest providers with the PCR bank but holds no
//! chaining state.

use vstd::prelude::*;
use vstd::string::*;
use crate::digest::{
    sha1_digest, sha1_of, sha224_digest, sha224_of, sha256_digest, sha256_of, sha384_digest,
    sha384_of, sha512_digest, sha512_of, sha3_224_digest, sha3_224_of, sha3_256_digest,
    sha3_256_of, sha3_384_digest, sha3_384_of, sha3_512_digest, sha3_512_of, sm3_digest, sm3_of,
};
use crate::hexcodec::{decode_hex_spec, hex_bytes, hex_str_of, hex_to_bytes, to_hex_string};
use crate::text::{remove_spaces, strip_spaces};

verus! {

/// The algorithms the one-shot calculator offers.
#[derive(PartialEq, Eq, Structural, Clone, Copy)]
pub enum HashType {
    Sha1,
    Sha224,
    Sha256,
    Sha384,
    Sha512,
    Sha3_224,
    Sha3_256,
    Sha3_384,
    Sha3_512,
    Sm3,
}

/// Whether the calculator input is literal text or a hex string to be
/// decoded first.
#[derive(PartialEq, Eq, Structural, Clone, Copy)]
pub enum InputType {
    Text,
    Hex,
}

/// The digest of `data` under the calculator algorithm `t`.
pub open spec fn calc_digest_of(t: HashType, data: Seq<u8>) -> Seq<u8> {
    match t {
        HashType::Sha1 => sha1_of(data),
        HashType::Sha224 => sha224_of(data),
        HashType::Sha256 => sha256_of(data),
        HashType::Sha384 => sha384_of(data),
        HashType::Sha512 => sha512_of(data),
        HashType::Sha3_224 => sha3_224_of(data),
        HashType::Sha3_256 => sha3_256_of(data),
        HashType::Sha3_384 => sha3_384_of(data),
        HashType::Sha3_512 => sha3_512_of(data),
        HashType::Sm3 => sm3_of(data),
    }
}

fn dispatch_digest(hash_type: HashType, data: &[u8]) -> (r: Vec<u8>)
    ensures
        r@ == calc_digest_of(hash_type, data@),
{
    match hash_type {
        HashType::Sha1 => sha1_digest(data),
        HashType::Sha224 => sha224_digest(data),
        HashType::Sha256 => sha256_digest(data),
        HashType::Sha384 => sha384_digest(data),
        HashType::Sha512 => sha512_digest(data),
        HashType::Sha3_224 => sha3_224_digest(data),
        HashType::Sha3_256 => sha3_256_digest(data),
        HashType::Sha3_384 => sha3_384_digest(data),
        HashType::Sha3_512 => sha3_512_digest(data),
        HashType::Sm3 => sm3_digest(data),
    }
}

/// Hashes one input under the chosen algorithm and renders the digest
/// in hex. Text input is digested as its UTF-8 bytes and never fails;
/// hex input has its spaces removed and is decoded first, failing on
/// odd length or non-hex characters.
pub fn calculate_hash(input: &str, input_type: InputType, hash_type: HashType) -> (r: Result<
    String,
    String,
>)
    ensures
        input_type == InputType::Text ==> r is Ok && r->Ok_0@ == hex_str_of(
            calc_digest_of(hash_type, input.spec_bytes()),
        ),
        input_type == InputType::Hex ==> {
            &&& (r is Ok <==> decode_hex_spec(strip_spaces(input@)) is Some)
            &&& (r matches Ok(h) ==> h@ == hex_str_of(
                calc_digest_of(hash_type, hex_bytes(strip_spaces(input@))),
            ))
            &&& (r matches Err(m) ==> m@ == "Invalid Hex Input"@)
        },
{
    let input_bytes: Vec<u8> = match input_type {
        InputType::Text => input.as_bytes_vec(),
        InputType::Hex => {
            let cleaned = remove_spaces(input);
            match hex_to_bytes(cleaned.as_str()) {
                Some(bytes) => bytes,
                None => {
                    return Err(String::from_str("Invalid Hex Input"));
                },
            }
        },
    };
    let digest = dispatch_digest(hash_type, input_bytes.as_slice());
    Ok(to_hex_string(digest.as_slice()))
}

} // verus!
