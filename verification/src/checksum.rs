//! The MD5 content hash of a payload, as the remote service reports it: 32
//! lower-case hexadecimal digits.

use crate::text::{hex, hex_string};
use md5::Digest;
use vstd::prelude::*;

verus! {

/// The MD5 digest of `data`, as RFC 1321 defines it.
pub uninterp spec fn md5_digest(data: Seq<u8>) -> Seq<u8>;

/// `md5::Md5::digest` hashes the whole input in one go; its result depends
/// on the input bytes alone. The contract gives that result its name and
/// claims nothing else.
#[verifier::external_body]
fn md5_of(data: &[u8]) -> (digest: Vec<u8>)
    ensures
        digest@ == md5_digest(data@),
{
    md5::Md5::digest(data).to_vec()
}

/// The MD5 hash of a payload in the form the service reports it.
pub fn md5_hex(data: &[u8]) -> (r: String)
    ensures
        r@ == hex(md5_digest(data@)),
{
    let digest = md5_of(data);
    hex_string(&digest)
}

} // verus!
