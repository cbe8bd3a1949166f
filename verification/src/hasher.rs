//! The content hash that binds records to policies.

use vstd::prelude::*;

verus! {

/// A 32-byte digest.
pub type Digest = [u8; 32];

/// The SHA-256 digest of a byte sequence.
///
/// The function is not defined here: it stands for what the hash
/// implementation of the Solana program library computes, which depends on
/// the input bytes alone. Nothing else is assumed of it; in particular, that
/// two inputs do not collide is nowhere taken for granted.
pub uninterp spec fn sha256(bytes: Seq<u8>) -> [u8; 32];

/// Hashes `bytes` with `solana_program::hash::hash`.
///
/// Trusted: the result is the SHA-256 digest of exactly the bytes given. Off
/// chain the call runs the `sha2` implementation, on chain the runtime's
/// SHA-256 system call.
#[verifier::external_body]
pub(crate) fn digest(bytes: &[u8]) -> (out: Digest)
    ensures
        out == sha256(bytes@),
{
    anchor_lang::solana_program::hash::hash(bytes).to_bytes()
}

} // verus!
