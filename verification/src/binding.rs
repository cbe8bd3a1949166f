//! Binding a decision to the policy in force.
//!
//! A policy's canonical bytes are its five fields in a fixed order and a
//! fixed width each, 53 bytes in all:
//!
//! | bytes  | field                                           |
//! |--------|-------------------------------------------------|
//! | 0..32  | `authority`                                     |
//! | 32..40 | `max_spend_usdc`, little-endian                 |
//! | 40     | `min_confidence`                                |
//! | 41..45 | `allowed_chains`                                |
//! | 45..53 | `expires_at`, two's complement, little-endian   |
//!
//! A decision's canonical bytes are the policy hash (32 bytes), the decision
//! identifier in UTF-8, and the timestamp in eight little-endian
//! two's-complement bytes. Both layouts can be read back in one way only, so
//! two different inputs never share their canonical bytes. What is stored is
//! the SHA-256 digest of those bytes.
//!
//! A refusal and an execution of the same market at the same time under the
//! same policy have the same decision hash: the hashed bytes carry no mark of
//! the record's kind, which is known from where the record is kept.

use vstd::prelude::*;
use vstd::utf8::encode_utf8;
use vstd::utf8::encode_utf8_decode_utf8;
use crate::encoding::le_bytes;
use crate::encoding::twos_complement;
use crate::encoding::append_bytes;
use crate::encoding::append_u64;
use crate::encoding::append_i64;
use crate::encoding::lemma_le_bytes_len;
use crate::encoding::lemma_le_bytes_injective;
use crate::encoding::lemma_twos_complement_injective;
use crate::encoding::lemma_capacity_of_eight_bytes;
use crate::encoding::lemma_concat_injective;
use crate::encoding::lemma_concat_injective_right;
use crate::hasher::Digest;
use crate::hasher::sha256;
use crate::hasher::digest;
use crate::policy::Policy;

verus! {

/// The two digests that every record carries.
#[derive(Clone, Copy, Debug, PartialEq, Eq)]
pub struct DecisionBinding {
    /// The digest of the policy's canonical bytes.
    pub policy_hash: Digest,
    /// The digest of the policy hash, the decision identifier and the
    /// timestamp.
    pub decision_hash: Digest,
}

/// The canonical bytes of a policy.
pub open spec fn policy_preimage(policy: Policy) -> Seq<u8> {
    policy.authority@ + le_bytes(policy.max_spend_usdc as nat, 8) + seq![policy.min_confidence]
        + policy.allowed_chains@ + le_bytes(twos_complement(policy.expires_at), 8)
}

/// The canonical bytes of a decision.
pub open spec fn decision_preimage(
    policy_hash: Digest,
    decision_identifier: Seq<char>,
    timestamp: i64,
) -> Seq<u8> {
    policy_hash@ + encode_utf8(decision_identifier) + le_bytes(twos_complement(timestamp), 8)
}

/// The policy hash: the digest of the policy's canonical bytes.
pub open spec fn policy_hash(policy: Policy) -> Digest {
    sha256(policy_preimage(policy))
}

/// The decision hash: the digest of the decision's canonical bytes.
pub open spec fn decision_hash(
    policy_hash: Digest,
    decision_identifier: Seq<char>,
    timestamp: i64,
) -> Digest {
    sha256(decision_preimage(policy_hash, decision_identifier, timestamp))
}

/// Two different byte strings with the same digest.
pub open spec fn collide(a: Seq<u8>, b: Seq<u8>) -> bool {
    a != b && sha256(a) == sha256(b)
}

/// Every field of `p` has the value of the same field of `q`.
pub open spec fn same_fields(p: Policy, q: Policy) -> bool {
    &&& p.authority@ == q.authority@
    &&& p.max_spend_usdc == q.max_spend_usdc
    &&& p.min_confidence == q.min_confidence
    &&& p.allowed_chains@ == q.allowed_chains@
    &&& p.expires_at == q.expires_at
}

/// Writes the canonical bytes of `policy`.
pub fn policy_bytes(policy: &Policy) -> (bytes: Vec<u8>)
    ensures
        bytes@ == policy_preimage(*policy),
        bytes@.len() == 53,
{
    let mut bytes: Vec<u8> = Vec::new();
    append_bytes(&mut bytes, policy.authority.as_slice());
    append_u64(&mut bytes, policy.max_spend_usdc);
    bytes.push(policy.min_confidence);
    append_bytes(&mut bytes, policy.allowed_chains.as_slice());
    append_i64(&mut bytes, policy.expires_at);
    proof {
        lemma_le_bytes_len(policy.max_spend_usdc as nat, 8);
        lemma_le_bytes_len(twos_complement(policy.expires_at), 8);
        assert(bytes@ =~= policy_preimage(*policy));
    }
    bytes
}

/// Writes the canonical bytes of a decision.
pub fn decision_bytes(
    policy_hash: &Digest,
    decision_identifier: &str,
    timestamp: i64,
) -> (bytes: Vec<u8>)
    ensures
        bytes@ == decision_preimage(*policy_hash, decision_identifier@, timestamp),
{
    let mut bytes: Vec<u8> = Vec::new();
    append_bytes(&mut bytes, policy_hash.as_slice());
    append_bytes(&mut bytes, decision_identifier.as_bytes());
    append_i64(&mut bytes, timestamp);
    proof {
        assert(bytes@ =~= decision_preimage(*policy_hash, decision_identifier@, timestamp));
    }
    bytes
}

/// Computes the policy hash.
pub fn bind_policy(policy: &Policy) -> (hash: Digest)
    ensures
        hash == policy_hash(*policy),
{
    let bytes = policy_bytes(policy);
    digest(bytes.as_slice())
}

/// Computes the decision hash from a policy hash, the decision identifier
/// (the market identifier, for a refusal and for an execution alike) and the
/// timestamp.
pub fn bind_decision(
    policy_hash: &Digest,
    decision_identifier: &str,
    timestamp: i64,
) -> (hash: Digest)
    ensures
        hash == decision_hash(*policy_hash, decision_identifier@, timestamp),
{
    let bytes = decision_bytes(policy_hash, decision_identifier, timestamp);
    digest(bytes.as_slice())
}

/// Computes both digests of a decision taken under `policy`.
pub fn bind(
    policy: &Policy,
    decision_identifier: &str,
    timestamp: i64,
) -> (binding: DecisionBinding)
    ensures
        binding.policy_hash == policy_hash(*policy),
        binding.decision_hash == decision_hash(
            policy_hash(*policy),
            decision_identifier@,
            timestamp,
        ),
{
    let policy_hash = bind_policy(policy);
    let decision_hash = bind_decision(&policy_hash, decision_identifier, timestamp);
    DecisionBinding { policy_hash, decision_hash }
}

/// Policies with the same canonical bytes are the same policy.
pub proof fn lemma_policy_preimage_injective(p: Policy, q: Policy)
    requires
        policy_preimage(p) == policy_preimage(q),
    ensures
        p == q,
{
    let p_spend = le_bytes(p.max_spend_usdc as nat, 8);
    let q_spend = le_bytes(q.max_spend_usdc as nat, 8);
    let p_expiry = le_bytes(twos_complement(p.expires_at), 8);
    let q_expiry = le_bytes(twos_complement(q.expires_at), 8);
    lemma_le_bytes_len(p.max_spend_usdc as nat, 8);
    lemma_le_bytes_len(q.max_spend_usdc as nat, 8);
    lemma_le_bytes_len(twos_complement(p.expires_at), 8);
    lemma_le_bytes_len(twos_complement(q.expires_at), 8);
    lemma_concat_injective(
        p.authority@ + p_spend + seq![p.min_confidence] + p.allowed_chains@,
        p_expiry,
        q.authority@ + q_spend + seq![q.min_confidence] + q.allowed_chains@,
        q_expiry,
    );
    lemma_concat_injective(
        p.authority@ + p_spend + seq![p.min_confidence],
        p.allowed_chains@,
        q.authority@ + q_spend + seq![q.min_confidence],
        q.allowed_chains@,
    );
    lemma_concat_injective(
        p.authority@ + p_spend,
        seq![p.min_confidence],
        q.authority@ + q_spend,
        seq![q.min_confidence],
    );
    lemma_concat_injective(p.authority@, p_spend, q.authority@, q_spend);
    assert(seq![p.min_confidence][0] == seq![q.min_confidence][0]);
    lemma_capacity_of_eight_bytes();
    lemma_le_bytes_injective(p.max_spend_usdc as nat, q.max_spend_usdc as nat, 8);
    lemma_twos_complement_injective(p.expires_at, q.expires_at);
    lemma_twos_complement_injective(q.expires_at, p.expires_at);
    lemma_le_bytes_injective(twos_complement(p.expires_at), twos_complement(q.expires_at), 8);
    assert(p.authority =~= q.authority);
    assert(p.allowed_chains =~= q.allowed_chains);
}

/// Decisions with the same canonical bytes have the same policy hash, the
/// same identifier and the same timestamp.
pub proof fn lemma_decision_preimage_injective(
    hash1: Digest,
    id1: Seq<char>,
    time1: i64,
    hash2: Digest,
    id2: Seq<char>,
    time2: i64,
)
    requires
        decision_preimage(hash1, id1, time1) == decision_preimage(hash2, id2, time2),
    ensures
        hash1 == hash2,
        id1 == id2,
        time1 == time2,
{
    let stamp1 = le_bytes(twos_complement(time1), 8);
    let stamp2 = le_bytes(twos_complement(time2), 8);
    lemma_le_bytes_len(twos_complement(time1), 8);
    lemma_le_bytes_len(twos_complement(time2), 8);
    lemma_concat_injective_right(
        hash1@ + encode_utf8(id1),
        stamp1,
        hash2@ + encode_utf8(id2),
        stamp2,
    );
    lemma_concat_injective(hash1@, encode_utf8(id1), hash2@, encode_utf8(id2));
    assert(hash1 =~= hash2);
    lemma_twos_complement_injective(time1, time2);
    lemma_twos_complement_injective(time2, time1);
    lemma_le_bytes_injective(twos_complement(time1), twos_complement(time2), 8);
    encode_utf8_decode_utf8(id1);
    encode_utf8_decode_utf8(id2);
}

/// Binding a policy is deterministic: policies whose fields have the same
/// values have the same canonical bytes and the same policy hash.
pub proof fn law_policy_hash_deterministic(p: Policy, q: Policy)
    requires
        same_fields(p, q),
    ensures
        policy_preimage(p) == policy_preimage(q),
        policy_hash(p) == policy_hash(q),
{
}

/// Changing any field of a policy changes its canonical bytes, and with them
/// the policy hash, unless SHA-256 maps the two byte strings to one digest.
pub proof fn law_policy_hash_sensitive(p: Policy, q: Policy)
    requires
        !same_fields(p, q),
    ensures
        policy_preimage(p) != policy_preimage(q),
        !collide(policy_preimage(p), policy_preimage(q)) ==> policy_hash(p) != policy_hash(q),
{
    if policy_preimage(p) == policy_preimage(q) {
        lemma_policy_preimage_injective(p, q);
    }
}

/// Binding a decision is deterministic: the decision hash is a function of
/// the policy hash, the identifier and the timestamp, and of nothing else.
pub proof fn law_decision_hash_deterministic(
    hash1: Digest,
    id1: Seq<char>,
    time1: i64,
    hash2: Digest,
    id2: Seq<char>,
    time2: i64,
)
    requires
        hash1@ == hash2@,
        id1 == id2,
        time1 == time2,
    ensures
        decision_hash(hash1, id1, time1) == decision_hash(hash2, id2, time2),
{
}

/// Changing the policy hash, the identifier or the timestamp of a decision
/// changes its canonical bytes, and with them the decision hash, unless
/// SHA-256 maps the two byte strings to one digest.
pub proof fn law_decision_hash_sensitive(
    hash1: Digest,
    id1: Seq<char>,
    time1: i64,
    hash2: Digest,
    id2: Seq<char>,
    time2: i64,
)
    requires
        hash1@ != hash2@ || id1 != id2 || time1 != time2,
    ensures
        decision_preimage(hash1, id1, time1) != decision_preimage(hash2, id2, time2),
        !collide(decision_preimage(hash1, id1, time1), decision_preimage(hash2, id2, time2))
            ==> decision_hash(hash1, id1, time1) != decision_hash(hash2, id2, time2),
{
    if decision_preimage(hash1, id1, time1) == decision_preimage(hash2, id2, time2) {
        lemma_decision_preimage_injective(hash1, id1, time1, hash2, id2, time2);
    }
}

/// A change of the policy reaches the decision hash: decisions taken under
/// policies that differ in any field differ in the canonical bytes of the
/// policy and, identifier and timestamp being equal, of the decision, so
/// that both digests change, unless SHA-256 maps two of the different byte
/// strings to one digest.
pub proof fn law_policy_change_reaches_decision_hash(
    p: Policy,
    q: Policy,
    id: Seq<char>,
    time: i64,
)
    requires
        !same_fields(p, q),
    ensures
        !collide(policy_preimage(p), policy_preimage(q)) ==> policy_hash(p) != policy_hash(q)
            && decision_preimage(policy_hash(p), id, time) != decision_preimage(
            policy_hash(q),
            id,
            time,
        ),
        !collide(policy_preimage(p), policy_preimage(q)) && !collide(
            decision_preimage(policy_hash(p), id, time),
            decision_preimage(policy_hash(q), id, time),
        ) ==> decision_hash(policy_hash(p), id, time) != decision_hash(policy_hash(q), id, time),
{
    law_policy_hash_sensitive(p, q);
    if decision_preimage(policy_hash(p), id, time) == decision_preimage(policy_hash(q), id, time) {
        lemma_decision_preimage_injective(
            policy_hash(p),
            id,
            time,
            policy_hash(q),
            id,
            time,
        );
    }
}

/// Changing the timestamp alone, with the policy hash and the identifier
/// held fixed, changes the canonical bytes of a decision, and with them the
/// decision hash, unless SHA-256 maps the two byte strings to one digest.
pub proof fn law_decision_hash_tracks_time(
    hash: Digest,
    id: Seq<char>,
    time1: i64,
    time2: i64,
)
    requires
        time1 != time2,
    ensures
        decision_preimage(hash, id, time1) != decision_preimage(hash, id, time2),
        !collide(decision_preimage(hash, id, time1), decision_preimage(hash, id, time2))
            ==> decision_hash(hash, id, time1) != decision_hash(hash, id, time2),
{
    if decision_preimage(hash, id, time1) == decision_preimage(hash, id, time2) {
        lemma_decision_preimage_injective(hash, id, time1, hash, id, time2);
    }
}

} // verus!
