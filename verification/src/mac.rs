//! Message authentication codes, as the `hmac` and `sha2` crates compute
//! them.

use hmac::Mac;
use vstd::prelude::*;

verus! {

/// How many bytes an HMAC-SHA256 code has.
pub const CODE_LENGTH: usize = 32;

/// The HMAC-SHA256 code of `message` under `key`.
pub uninterp spec fn hmac_sha256_of(key: Seq<u8>, message: Seq<u8>) -> Seq<u8>;

/// Computes the HMAC-SHA256 code of `message` under `key` with
/// `hmac::Hmac<sha2::Sha256>`: the key is taken whatever its length, the
/// message is fed in one piece, and the 32 bytes of the code are handed
/// out. The code depends on the key and the message alone.
#[verifier::external_body]
pub(crate) fn hmac_sha256(key: &[u8], message: &[u8]) -> (code: Vec<u8>)
    ensures
        code@ == hmac_sha256_of(key@, message@),
        code@.len() == CODE_LENGTH,
{
    let mut mac = hmac::Hmac::<sha2::Sha256>::new_from_slice(key).expect("any key length is taken");
    mac.update(message);
    mac.finalize().into_bytes().to_vec()
}

} // verus!
