use vstd::prelude::*;

verus! {

/// The SHA-256 digest of `data`.
pub uninterp spec fn sha256_digest(data: Seq<u8>) -> Seq<u8>;

/// Calls `dharitri_chain_vm::crypto_functions::sha256`, the digest that the chain's crypto
/// API computes. Claimed: the result is the named digest of the input, and it is 32 bytes
/// long (the function returns a `[u8; 32]`).
#[verifier::external_body]
pub(crate) fn sha256(data: &[u8]) -> (r: Vec<u8>)
    ensures
        r@ == sha256_digest(data@),
        r@.len() == 32,
{
    dharitri_chain_vm::crypto_functions::sha256(data).to_vec()
}

} // verus!
