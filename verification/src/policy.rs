//! The policy record, its creation, and the rules it imposes on a proposed
//! action.

use vstd::prelude::*;

verus! {

/// The address of an account or an actor: 32 bytes.
pub type Address = [u8; 32];

/// The highest confidence a policy can ask for, in percent.
pub const MAX_CONFIDENCE: u8 = 100;

/// Why an operation failed, or which rule a proposed action breaks.
#[derive(Clone, Copy, Debug, PartialEq, Eq, Structural)]
pub enum PolicyError {
    /// The minimum confidence is not a percentage.
    InvalidConfidence,
    /// The authority already owns a policy.
    DuplicatePolicy,
    /// The authority owns no policy.
    PolicyNotFound,
    /// The policy has expired.
    PolicyExpired,
    /// The chain is not on the policy's allowlist.
    ChainNotAllowed,
    /// The confidence is below the policy's threshold.
    ConfidenceTooLow,
    /// The requested spend is above the policy's cap.
    SpendLimitExceeded,
    /// A text field is longer than a record can hold.
    FieldTooLong,
    /// A record with the same policy, agent and timestamp already exists.
    DuplicateRecord,
    /// The environment could not serve the request.
    StorageFailure,
}

/// The constraints a principal puts on an agent. A policy is never changed
/// after it was made: a new policy is a new record.
#[derive(Clone, Copy, Debug, PartialEq, Eq)]
pub struct Policy {
    /// The principal who made the policy.
    pub authority: Address,
    /// The most that a single action may spend.
    pub max_spend_usdc: u64,
    /// The least confidence, in percent, that an action must come with.
    pub min_confidence: u8,
    /// Up to four chain identifiers; a zero marks an unused slot.
    pub allowed_chains: [u8; 4],
    /// The time from which on the policy no longer allows anything.
    pub expires_at: i64,
}

/// What creating a policy reads from its surroundings.
#[derive(Clone, Copy, Debug, PartialEq, Eq)]
pub struct InitializePolicy {
    /// The principal who signs the creation.
    pub authority: Address,
}

impl PolicyError {
    /// The name under which records list the rule that this error stands
    /// for; `None` for an error that is not a rule violation.
    pub open spec fn rule_name_spec(self) -> Option<Seq<char>> {
        match self {
            PolicyError::PolicyExpired => Some("expiry"@),
            PolicyError::ChainNotAllowed => Some("chain"@),
            PolicyError::ConfidenceTooLow => Some("confidence"@),
            PolicyError::SpendLimitExceeded => Some("spend"@),
            _ => None,
        }
    }

    /// The rule's name as records spell it.
    pub fn rule_name(&self) -> (name: Option<&'static str>)
        ensures
            name is Some <==> self.rule_name_spec() is Some,
            name is Some ==> name->0@ == self.rule_name_spec()->0,
    {
        match self {
            PolicyError::PolicyExpired => Some("expiry"),
            PolicyError::ChainNotAllowed => Some("chain"),
            PolicyError::ConfidenceTooLow => Some("confidence"),
            PolicyError::SpendLimitExceeded => Some("spend"),
            _ => None,
        }
    }
}

impl Policy {
    /// A policy is valid when its confidence threshold is a percentage.
    pub open spec fn valid(self) -> bool {
        self.min_confidence <= MAX_CONFIDENCE
    }

    /// The chain identifiers that the policy allows: the non-zero slots,
    /// wherever they stand.
    pub open spec fn chains(self) -> Set<u8> {
        Set::new(|c: u8| c != 0 && self.allowed_chains@.contains(c))
    }

    /// The proposed action keeps all four rules: it comes before the policy
    /// expires, on an allowed chain, with enough confidence and within the
    /// cap.
    pub open spec fn permits(
        self,
        requested_usdc: u64,
        confidence: u8,
        chain_id: u8,
        current_time: i64,
    ) -> bool {
        &&& current_time < self.expires_at
        &&& self.chains().contains(chain_id)
        &&& confidence >= self.min_confidence
        &&& requested_usdc <= self.max_spend_usdc
    }

    /// The first rule, in the order expiry, chain, confidence, spend, that
    /// the proposed action breaks, if it breaks any.
    pub open spec fn first_violation(
        self,
        requested_usdc: u64,
        confidence: u8,
        chain_id: u8,
        current_time: i64,
    ) -> Option<PolicyError> {
        if current_time >= self.expires_at {
            Some(PolicyError::PolicyExpired)
        } else if !self.chains().contains(chain_id) {
            Some(PolicyError::ChainNotAllowed)
        } else if confidence < self.min_confidence {
            Some(PolicyError::ConfidenceTooLow)
        } else if requested_usdc > self.max_spend_usdc {
            Some(PolicyError::SpendLimitExceeded)
        } else {
            None
        }
    }

    /// Whether the policy allows `chain_id`.
    pub fn allows_chain(&self, chain_id: u8) -> (allowed: bool)
        ensures
            allowed == self.chains().contains(chain_id),
    {
        if chain_id == 0 {
            return false;
        }
        let mut i: usize = 0;
        while i < 4
            invariant
                i <= 4,
                chain_id != 0,
                forall|j: int| 0 <= j < i ==> self.allowed_chains@[j] != chain_id,
            decreases 4 - i,
        {
            if self.allowed_chains[i] == chain_id {
                return true;
            }
            i += 1;
        }
        false
    }

    /// Checks a proposed action against the policy's four rules, in the
    /// order expiry, chain, confidence, spend, and reports the first one
    /// that it breaks.
    pub fn evaluate(
        &self,
        requested_usdc: u64,
        confidence: u8,
        chain_id: u8,
        current_time: i64,
    ) -> (verdict: Result<(), PolicyError>)
        ensures
            verdict == match self.first_violation(
                requested_usdc,
                confidence,
                chain_id,
                current_time,
            ) {
                Some(rule) => Err::<(), PolicyError>(rule),
                None => Ok(()),
            },
            verdict is Ok <==> self.permits(requested_usdc, confidence, chain_id, current_time),
    {
        if current_time >= self.expires_at {
            Err(PolicyError::PolicyExpired)
        } else if !self.allows_chain(chain_id) {
            Err(PolicyError::ChainNotAllowed)
        } else if confidence < self.min_confidence {
            Err(PolicyError::ConfidenceTooLow)
        } else if requested_usdc > self.max_spend_usdc {
            Err(PolicyError::SpendLimitExceeded)
        } else {
            Ok(())
        }
    }
}

/// Creates the policy of `ctx.authority`.
///
/// Fails with `InvalidConfidence` exactly when `min_confidence` is above 100.
/// That the authority owns no policy yet is for the store to check.
pub fn initialize_policy(
    ctx: &InitializePolicy,
    max_spend_usdc: u64,
    min_confidence: u8,
    allowed_chains: [u8; 4],
    expires_at: i64,
) -> (created: Result<Policy, PolicyError>)
    ensures
        min_confidence > MAX_CONFIDENCE ==> created == Err::<Policy, PolicyError>(
            PolicyError::InvalidConfidence,
        ),
        min_confidence <= MAX_CONFIDENCE ==> created == Ok::<Policy, PolicyError>(
            (Policy {
                authority: ctx.authority,
                max_spend_usdc,
                min_confidence,
                allowed_chains,
                expires_at,
            }),
        ),
        created is Ok ==> created->Ok_0.valid(),
{
    if min_confidence > MAX_CONFIDENCE {
        return Err(PolicyError::InvalidConfidence);
    }
    Ok(Policy { authority: ctx.authority, max_spend_usdc, min_confidence, allowed_chains, expires_at })
}

} // verus!
