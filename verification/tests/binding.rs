use anchor_lang::solana_program::hash::hash;
use policy_agent::bind;
use policy_agent::bind_decision;
use policy_agent::bind_policy;
use policy_agent::binding::decision_bytes;
use policy_agent::binding::policy_bytes;
use policy_agent::Policy;

const POLICY_HASH: [u8; 32] = [
    29, 160, 109, 149, 96, 176, 246, 125, 29, 27, 56, 204, 177, 247, 160, 102, 161, 227, 245, 70,
    54, 58, 127, 70, 169, 51, 249, 25, 153, 122, 181, 54,
];

const DECISION_HASH_M1: [u8; 32] = [
    146, 102, 139, 47, 60, 112, 183, 36, 234, 3, 247, 168, 187, 103, 103, 197, 198, 116, 190, 242,
    171, 240, 126, 159, 142, 124, 32, 183, 233, 55, 71, 65,
];

const DECISION_HASH_M2: [u8; 32] = [
    148, 184, 87, 170, 175, 110, 46, 0, 172, 175, 121, 105, 72, 56, 99, 138, 127, 41, 89, 11, 66,
    148, 46, 1, 51, 54, 141, 92, 230, 136, 106, 34,
];

const DECISION_HASH_M1_A_SECOND_LATER: [u8; 32] = [
    54, 222, 29, 5, 13, 187, 207, 144, 217, 77, 30, 229, 60, 135, 235, 10, 186, 181, 149, 205, 64,
    75, 57, 195, 36, 231, 151, 151, 80, 165, 90, 128,
];

fn binding_authority() -> [u8; 32] {
    let mut a = [0u8; 32];
    for i in 0..32 {
        a[i] = (i + 1) as u8;
    }
    a
}

fn bound_policy() -> Policy {
    Policy {
        authority: binding_authority(),
        max_spend_usdc: 1000,
        min_confidence: 70,
        allowed_chains: [1, 2, 0, 0],
        expires_at: 1_900_000_000,
    }
}

#[test]
fn policy_bytes_have_the_fixed_layout() {
    let bytes = policy_bytes(&bound_policy());
    let expected: Vec<u8> = vec![
        1, 2, 3, 4, 5, 6, 7, 8, 9, 10, 11, 12, 13, 14, 15, 16, 17, 18, 19, 20, 21, 22, 23, 24, 25,
        26, 27, 28, 29, 30, 31, 32, 232, 3, 0, 0, 0, 0, 0, 0, 70, 1, 2, 0, 0, 0, 179, 63, 113, 0,
        0, 0, 0,
    ];
    assert_eq!(bytes.len(), 53);
    assert_eq!(bytes, expected);
}

#[test]
fn policy_bytes_are_always_fifty_three() {
    let extreme = Policy {
        authority: [255; 32],
        max_spend_usdc: u64::MAX,
        min_confidence: 100,
        allowed_chains: [255; 4],
        expires_at: i64::MIN,
    };
    let bytes = policy_bytes(&extreme);
    assert_eq!(bytes.len(), 53);
    assert_eq!(&bytes[32..40], &[255u8; 8]);
    assert_eq!(&bytes[45..53], &[0, 0, 0, 0, 0, 0, 0, 128]);
}

#[test]
fn bind_policy_gives_the_sha256_of_the_policy_bytes() {
    assert_eq!(bind_policy(&bound_policy()), POLICY_HASH);
}

#[test]
fn bind_policy_matches_an_independent_recomputation() {
    let policy = bound_policy();
    let mut bytes: Vec<u8> = Vec::new();
    bytes.extend_from_slice(&policy.authority);
    bytes.extend_from_slice(&policy.max_spend_usdc.to_le_bytes());
    bytes.push(policy.min_confidence);
    bytes.extend_from_slice(&policy.allowed_chains);
    bytes.extend_from_slice(&policy.expires_at.to_le_bytes());
    assert_eq!(bind_policy(&policy), hash(&bytes).to_bytes());
}

#[test]
fn bind_policy_is_deterministic() {
    let first = bind_policy(&bound_policy());
    let copy = bound_policy();
    let second = bind_policy(&copy);
    assert_eq!(first, second);
}

#[test]
fn bind_policy_is_not_the_identity_on_its_input() {
    let policy = bound_policy();
    let hashed = bind_policy(&policy);
    assert_ne!(hashed.to_vec(), policy_bytes(&policy)[..32].to_vec());
}

#[test]
fn policy_hash_changes_with_the_spend_cap_by_one_unit() {
    let hundred = Policy { max_spend_usdc: 100, ..bound_policy() };
    let hundred_and_one = Policy { max_spend_usdc: 101, ..bound_policy() };
    let expected_hundred: [u8; 32] = [
        8, 174, 93, 18, 56, 233, 254, 80, 155, 7, 14, 21, 239, 221, 101, 209, 31, 191, 119, 51,
        216, 217, 171, 154, 148, 47, 213, 188, 5, 5, 109, 226,
    ];
    let expected_hundred_and_one: [u8; 32] = [
        123, 100, 39, 196, 21, 112, 17, 155, 236, 39, 254, 116, 21, 133, 107, 9, 171, 249, 192,
        226, 4, 173, 153, 218, 226, 198, 176, 191, 73, 228, 201, 10,
    ];
    assert_eq!(bind_policy(&hundred), expected_hundred);
    assert_eq!(bind_policy(&hundred_and_one), expected_hundred_and_one);
}

#[test]
fn policy_hash_changes_with_every_single_field() {
    let base = bound_policy();
    let base_hash = bind_policy(&base);
    let mut other_authority = base.authority;
    other_authority[31] = 33;
    let changed = [
        Policy { authority: other_authority, ..base },
        Policy { max_spend_usdc: 1001, ..base },
        Policy { min_confidence: 71, ..base },
        Policy { allowed_chains: [1, 2, 0, 1], ..base },
        Policy { allowed_chains: [2, 1, 0, 0], ..base },
        Policy { expires_at: 1_900_000_001, ..base },
        Policy { expires_at: -1_900_000_000, ..base },
    ];
    for policy in changed.iter() {
        assert_ne!(policy_bytes(policy), policy_bytes(&base));
        assert_ne!(bind_policy(policy), base_hash);
    }
}

#[test]
fn decision_bytes_are_hash_then_identifier_then_time() {
    let bytes = decision_bytes(&POLICY_HASH, "M1", 1_700_000_000);
    let mut expected: Vec<u8> = POLICY_HASH.to_vec();
    expected.extend_from_slice(&[77, 49]);
    expected.extend_from_slice(&[0, 241, 83, 101, 0, 0, 0, 0]);
    assert_eq!(bytes, expected);
}

#[test]
fn decision_bytes_take_the_identifier_in_utf8() {
    let bytes = decision_bytes(&[0u8; 32], "m\u{e4}rkt\u{20ac}", -1);
    let mut expected: Vec<u8> = vec![0u8; 32];
    expected.extend_from_slice(&[109, 195, 164, 114, 107, 116, 226, 130, 172]);
    expected.extend_from_slice(&[255u8; 8]);
    assert_eq!(bytes, expected);
}

#[test]
fn bind_decision_gives_the_sha256_of_the_decision_bytes() {
    assert_eq!(bind_decision(&POLICY_HASH, "M1", 1_700_000_000), DECISION_HASH_M1);
    assert_eq!(bind_decision(&POLICY_HASH, "M2", 1_700_000_000), DECISION_HASH_M2);
}

#[test]
fn bind_decision_matches_an_independent_recomputation() {
    let mut bytes: Vec<u8> = POLICY_HASH.to_vec();
    bytes.extend_from_slice("M1".as_bytes());
    bytes.extend_from_slice(&1_700_000_000i64.to_le_bytes());
    assert_eq!(bind_decision(&POLICY_HASH, "M1", 1_700_000_000), hash(&bytes).to_bytes());
}

#[test]
fn bind_decision_of_an_empty_identifier_before_the_epoch() {
    let expected: [u8; 32] = [
        68, 135, 118, 1, 169, 191, 200, 247, 29, 118, 219, 174, 226, 246, 161, 29, 8, 153, 179,
        245, 205, 170, 209, 89, 120, 36, 125, 232, 12, 125, 42, 68,
    ];
    assert_eq!(bind_decision(&[0u8; 32], "", -1), expected);
}

#[test]
fn bind_decision_of_a_unicode_identifier() {
    let expected: [u8; 32] = [
        190, 152, 221, 246, 124, 206, 165, 125, 96, 43, 154, 96, 174, 35, 176, 247, 245, 228, 80,
        218, 160, 175, 17, 37, 109, 20, 26, 70, 171, 183, 142, 170,
    ];
    assert_eq!(bind_decision(&POLICY_HASH, "m\u{e4}rkt\u{20ac}", 0), expected);
}

#[test]
fn decision_hash_changes_with_the_timestamp_alone() {
    let now = bind_decision(&POLICY_HASH, "M1", 1_700_000_000);
    let later = bind_decision(&POLICY_HASH, "M1", 1_700_000_001);
    assert_eq!(later, DECISION_HASH_M1_A_SECOND_LATER);
    assert_ne!(now, later);
}

#[test]
fn decision_hash_changes_with_the_identifier_alone() {
    assert_ne!(
        bind_decision(&POLICY_HASH, "M1", 1_700_000_000),
        bind_decision(&POLICY_HASH, "M2", 1_700_000_000)
    );
    assert_ne!(
        bind_decision(&POLICY_HASH, "M1", 1_700_000_000),
        bind_decision(&POLICY_HASH, "M1 ", 1_700_000_000)
    );
}

#[test]
fn decision_hash_changes_with_the_policy_hash_alone() {
    let mut other = POLICY_HASH;
    other[0] ^= 1;
    assert_ne!(
        bind_decision(&POLICY_HASH, "M1", 1_700_000_000),
        bind_decision(&other, "M1", 1_700_000_000)
    );
}

#[test]
fn decision_hash_is_deterministic() {
    assert_eq!(
        bind_decision(&POLICY_HASH, "M1", 1_700_000_000),
        bind_decision(&POLICY_HASH, "M1", 1_700_000_000)
    );
}

#[test]
fn bind_computes_both_digests() {
    let binding = bind(&bound_policy(), "M1", 1_700_000_000);
    assert_eq!(binding.policy_hash, POLICY_HASH);
    assert_eq!(binding.decision_hash, DECISION_HASH_M1);
}
