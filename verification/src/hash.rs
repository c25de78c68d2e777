//! Content-addressed integrity checking: the digest used to decide whether a
//! local file already satisfies a download task. The digest is computed over
//! the file's raw bytes, so binary payloads (jars, textures) are covered.

use vstd::prelude::*;

verus! {

/// The lowercase hexadecimal SHA-1 digest of a byte sequence. The algorithm
/// itself is performed by an outside implementation; contracts speak of its
/// result only through this name, which is a function of the input alone.
pub uninterp spec fn sha1_hex_of(data: Seq<u8>) -> Seq<char>;

/// Relies on sha1_smol::Sha1: `Sha1::from(bytes).digest().to_string()`
/// returns the lowercase hex SHA-1 digest of the input bytes, a
/// deterministic function of the argument alone.
#[verifier::external_body]
pub fn calculate_sha1(data: &Vec<u8>) -> (r: String)
    ensures
        r@ == sha1_hex_of(data@),
{
    sha1_smol::Sha1::from(data.as_slice()).digest().to_string()
}

/// Whether the given file contents hash to the expected digest: the
/// pre-transfer integrity comparison of the skip policy.
pub fn file_matches(content: &Vec<u8>, expected: &String) -> (r: bool)
    ensures
        r == (sha1_hex_of(content@) == expected@),
{
    let digest = calculate_sha1(content);
    digest == *expected
}

} // verus!
