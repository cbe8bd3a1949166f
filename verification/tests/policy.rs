use policy_agent::initialize_policy;
use policy_agent::InitializePolicy;
use policy_agent::Policy;
use policy_agent::PolicyError;

fn authority() -> [u8; 32] {
    let mut a = [0u8; 32];
    for i in 0..32 {
        a[i] = (i + 1) as u8;
    }
    a
}

fn sample_policy() -> Policy {
    Policy {
        authority: authority(),
        max_spend_usdc: 1000,
        min_confidence: 70,
        allowed_chains: [1, 2, 0, 0],
        expires_at: 1_900_000_000,
    }
}

#[test]
fn initialize_policy_keeps_every_field() {
    let ctx = InitializePolicy { authority: authority() };
    let created = initialize_policy(&ctx, 1000, 70, [1, 2, 0, 0], 1_900_000_000);
    assert_eq!(created, Ok(sample_policy()));
}

#[test]
fn min_confidence_of_zero_is_valid() {
    let ctx = InitializePolicy { authority: authority() };
    let created = initialize_policy(&ctx, 1, 0, [0, 0, 0, 0], 0).unwrap();
    assert_eq!(created.min_confidence, 0);
}

#[test]
fn min_confidence_of_one_hundred_is_valid() {
    let ctx = InitializePolicy { authority: authority() };
    let created = initialize_policy(&ctx, 1, 100, [0, 0, 0, 0], 0).unwrap();
    assert_eq!(created.min_confidence, 100);
}

#[test]
fn min_confidence_of_one_hundred_and_one_is_invalid() {
    let ctx = InitializePolicy { authority: authority() };
    assert_eq!(initialize_policy(&ctx, 1, 101, [0, 0, 0, 0], 0), Err(PolicyError::InvalidConfidence));
    assert_eq!(initialize_policy(&ctx, 1, 255, [1, 2, 3, 4], 9), Err(PolicyError::InvalidConfidence));
}

#[test]
fn evaluate_passes_an_action_within_every_rule() {
    let policy = sample_policy();
    assert_eq!(policy.evaluate(1000, 70, 1, 1_899_999_999), Ok(()));
    assert_eq!(policy.evaluate(0, 100, 2, i64::MIN), Ok(()));
}

#[test]
fn evaluate_reports_expiry_from_the_expiry_time_on() {
    let policy = sample_policy();
    assert_eq!(policy.evaluate(1, 99, 1, 1_900_000_000), Err(PolicyError::PolicyExpired));
    assert_eq!(policy.evaluate(1, 99, 1, 1_900_000_001), Err(PolicyError::PolicyExpired));
    assert_eq!(policy.evaluate(1, 99, 1, 1_899_999_999), Ok(()));
}

#[test]
fn evaluate_reports_a_chain_that_is_not_listed() {
    let policy = sample_policy();
    assert_eq!(policy.evaluate(1, 99, 3, 0), Err(PolicyError::ChainNotAllowed));
    assert_eq!(policy.evaluate(1, 99, 255, 0), Err(PolicyError::ChainNotAllowed));
}

#[test]
fn evaluate_never_allows_the_unused_slot_marker() {
    let policy = sample_policy();
    assert_eq!(policy.evaluate(1, 99, 0, 0), Err(PolicyError::ChainNotAllowed));
    assert!(!policy.allows_chain(0));
    let empty = Policy { allowed_chains: [0, 0, 0, 0], ..sample_policy() };
    for chain in [0u8, 1, 2, 255] {
        assert!(!empty.allows_chain(chain));
    }
}

#[test]
fn allowed_chains_are_found_in_any_slot() {
    let scattered = Policy { allowed_chains: [0, 7, 0, 9], ..sample_policy() };
    assert!(scattered.allows_chain(7));
    assert!(scattered.allows_chain(9));
    assert!(!scattered.allows_chain(1));
    let full = Policy { allowed_chains: [4, 3, 2, 1], ..sample_policy() };
    for chain in [1u8, 2, 3, 4] {
        assert!(full.allows_chain(chain));
    }
    assert!(!full.allows_chain(5));
}

#[test]
fn evaluate_reports_confidence_below_the_threshold() {
    let policy = sample_policy();
    assert_eq!(policy.evaluate(1, 69, 1, 0), Err(PolicyError::ConfidenceTooLow));
    assert_eq!(policy.evaluate(1, 70, 1, 0), Ok(()));
}

#[test]
fn evaluate_reports_spend_above_the_cap() {
    let policy = sample_policy();
    assert_eq!(policy.evaluate(1001, 70, 1, 0), Err(PolicyError::SpendLimitExceeded));
    assert_eq!(policy.evaluate(5000, 70, 1, 0), Err(PolicyError::SpendLimitExceeded));
    assert_eq!(policy.evaluate(1000, 70, 1, 0), Ok(()));
}

#[test]
fn evaluate_reports_the_first_broken_rule() {
    let policy = sample_policy();
    // Everything is wrong: expiry comes first.
    assert_eq!(policy.evaluate(5000, 1, 9, 2_000_000_000), Err(PolicyError::PolicyExpired));
    // In time, the rest wrong: chain comes next.
    assert_eq!(policy.evaluate(5000, 1, 9, 0), Err(PolicyError::ChainNotAllowed));
    // In time and on an allowed chain: confidence comes next.
    assert_eq!(policy.evaluate(5000, 1, 2, 0), Err(PolicyError::ConfidenceTooLow));
    // Only the spend is wrong.
    assert_eq!(policy.evaluate(5000, 80, 2, 0), Err(PolicyError::SpendLimitExceeded));
}

#[test]
fn rule_names_follow_the_record_vocabulary() {
    assert_eq!(PolicyError::PolicyExpired.rule_name(), Some("expiry"));
    assert_eq!(PolicyError::ChainNotAllowed.rule_name(), Some("chain"));
    assert_eq!(PolicyError::ConfidenceTooLow.rule_name(), Some("confidence"));
    assert_eq!(PolicyError::SpendLimitExceeded.rule_name(), Some("spend"));
}

#[test]
fn errors_that_are_no_rule_have_no_rule_name() {
    for error in [
        PolicyError::InvalidConfidence,
        PolicyError::DuplicatePolicy,
        PolicyError::PolicyNotFound,
        PolicyError::FieldTooLong,
        PolicyError::DuplicateRecord,
        PolicyError::StorageFailure,
    ] {
        assert_eq!(error.rule_name(), None);
    }
}
