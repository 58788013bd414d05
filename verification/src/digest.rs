//! Content digests derived from an address: the SHA-256 digest of its
//! canonical string, and a historical accessor that hashes nothing.

use vstd::prelude::*;

use crate::address::Address;

verus! {

/// The SHA-256 digest of a string's byte encoding: a function of the
/// characters alone, identical across processes and machines.
pub uninterp spec fn sha256_of(s: Seq<char>) -> Seq<u8>;

/// Relies on sha2::Sha256 (Digest::update and Digest::finalize): the
/// digest is a function of the input bytes alone, and is always 32 bytes
/// long.
#[verifier::external_body]
fn sha256_string(s: &String) -> (r: Vec<u8>)
    ensures
        r@ == sha256_of(s@),
        r@.len() == 32,
{
    let mut hasher = sha2::Sha256::default();
    sha2::Digest::update(&mut hasher, s.as_bytes());
    sha2::Digest::finalize(hasher).to_vec()
}

impl Address {
    /// The full SHA-256 digest of the canonical string's byte encoding.
    pub fn get_address_hash(&self) -> (r: Vec<u8>)
        ensures
            r@ == sha256_of(self@),
            r@.len() == 32,
    {
        sha256_string(&self.0)
    }

    /// Historical accessor kept for interface compatibility: despite its
    /// name it performs no hashing at all and returns the canonical
    /// string unchanged. Consumers may depend on the pass-through, so it
    /// must stay exactly this.
    pub fn get_address_sha1(&self) -> (r: String)
        ensures
            r@ == self@,
    {
        self.0.clone()
    }
}

/// Digest determinism: addresses with equal canonical strings have equal
/// digests, in every call and on every machine; so repeated calls of
/// [`Address::get_address_hash`] on one address agree.
pub proof fn lemma_digest_deterministic(a: Address, b: Address)
    requires
        a@ == b@,
    ensures
        sha256_of(a@) == sha256_of(b@),
{
}

} // verus!
