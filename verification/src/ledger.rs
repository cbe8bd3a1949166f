//! The two kinds of record, and the operations that make them.
//!
//! A refusal says that an agent declined an opportunity because it breaks a
//! rule of the policy; an execution says that the agent acted and attests
//! that the four rules were checked. Both carry the digests that bind them to
//! the policy, and both copy what a verifier needs so that a record can be
//! checked on its own.

use vstd::prelude::*;
use vstd::utf8::encode_utf8;
use crate::binding::DecisionBinding;
use crate::binding::bind;
use crate::binding::decision_hash;
use crate::binding::policy_hash;
use crate::binding::collide;
use crate::binding::policy_preimage;
use crate::binding::same_fields;
use crate::binding::law_policy_hash_deterministic;
use crate::binding::law_policy_hash_sensitive;
use crate::clock::unix_timestamp;
use crate::encoding::same_bytes;
use crate::hasher::Digest;
use crate::policy::Address;
use crate::policy::Policy;
use crate::policy::PolicyError;

verus! {

/// The longest market identifier a record holds, in bytes of UTF-8.
pub const MAX_MARKET_ID_LEN: usize = 64;

/// The longest rule name a record holds, in bytes of UTF-8.
pub const MAX_RULE_NAME_LEN: usize = 32;

/// The longest transaction reference a record holds, in bytes of UTF-8.
pub const MAX_TX_REF_LEN: usize = 128;

/// What logging a refusal reads from its surroundings.
#[derive(Clone, Copy, Debug, PartialEq, Eq)]
pub struct LogRefusal {
    /// The address under which the policy is kept.
    pub policy_key: Address,
    /// The policy in force.
    pub policy: Policy,
    /// The agent who signs the record.
    pub agent: Address,
}

/// What logging an execution reads from its surroundings.
#[derive(Clone, Copy, Debug, PartialEq, Eq)]
pub struct LogExecution {
    /// The address under which the policy is kept.
    pub policy_key: Address,
    /// The policy in force.
    pub policy: Policy,
    /// The agent who signs the record.
    pub agent: Address,
}

/// The record of a decision not to act.
#[derive(Clone, Debug, PartialEq, Eq)]
pub struct RefusalLog {
    /// The address of the policy.
    pub policy: Address,
    /// The digest of the policy's canonical bytes.
    pub policy_hash: Digest,
    /// The digest that chains the policy hash to this decision.
    pub decision_hash: Digest,
    /// The opportunity that was declined.
    pub market_id: String,
    /// The name of the rule that the opportunity breaks.
    pub rule_violated: String,
    /// The spend that was asked for.
    pub requested_usdc: u64,
    /// The policy's cap at the time of the decision.
    pub allowed_usdc: u64,
    /// The time of the decision.
    pub timestamp: i64,
}

/// The record of a decision to act.
#[derive(Clone, Debug, PartialEq, Eq)]
pub struct ExecutionLog {
    /// The address of the policy.
    pub policy: Address,
    /// The digest of the policy's canonical bytes.
    pub policy_hash: Digest,
    /// The digest that chains the policy hash to this decision.
    pub decision_hash: Digest,
    /// The opportunity that was taken.
    pub market_id: String,
    /// The names of the rules that the agent attests to have checked.
    pub rules_passed: Vec<String>,
    /// The reference of the burn transaction.
    pub cctp_burn_tx: String,
    /// The reference of the mint transaction.
    pub cctp_mint_tx: String,
    /// The reference of the bet transaction.
    pub bet_tx: String,
    /// The time of the decision.
    pub timestamp: i64,
}

/// What a refusal record says.
pub struct RefusalLogView {
    pub policy: Seq<u8>,
    pub policy_hash: Seq<u8>,
    pub decision_hash: Seq<u8>,
    pub market_id: Seq<char>,
    pub rule_violated: Seq<char>,
    pub requested_usdc: u64,
    pub allowed_usdc: u64,
    pub timestamp: i64,
}

/// What an execution record says.
pub struct ExecutionLogView {
    pub policy: Seq<u8>,
    pub policy_hash: Seq<u8>,
    pub decision_hash: Seq<u8>,
    pub market_id: Seq<char>,
    pub rules_passed: Seq<Seq<char>>,
    pub cctp_burn_tx: Seq<char>,
    pub cctp_mint_tx: Seq<char>,
    pub bet_tx: Seq<char>,
    pub timestamp: i64,
}

impl View for RefusalLog {
    type V = RefusalLogView;

    open spec fn view(&self) -> RefusalLogView {
        RefusalLogView {
            policy: self.policy@,
            policy_hash: self.policy_hash@,
            decision_hash: self.decision_hash@,
            market_id: self.market_id@,
            rule_violated: self.rule_violated@,
            requested_usdc: self.requested_usdc,
            allowed_usdc: self.allowed_usdc,
            timestamp: self.timestamp,
        }
    }
}

impl View for ExecutionLog {
    type V = ExecutionLogView;

    open spec fn view(&self) -> ExecutionLogView {
        ExecutionLogView {
            policy: self.policy@,
            policy_hash: self.policy_hash@,
            decision_hash: self.decision_hash@,
            market_id: self.market_id@,
            rules_passed: Seq::new(self.rules_passed@.len(), |i: int| self.rules_passed@[i]@),
            cctp_burn_tx: self.cctp_burn_tx@,
            cctp_mint_tx: self.cctp_mint_tx@,
            bet_tx: self.bet_tx@,
            timestamp: self.timestamp,
        }
    }
}

impl RefusalLogView {
    /// The record carries the digests of `policy` and of its own decision,
    /// and the cap of `policy`.
    pub open spec fn bound_to(self, policy: Policy) -> bool {
        &&& self.policy_hash == policy_hash(policy)@
        &&& self.decision_hash == decision_hash(
            policy_hash(policy),
            self.market_id,
            self.timestamp,
        )@
        &&& self.allowed_usdc == policy.max_spend_usdc
    }
}

impl ExecutionLogView {
    /// The record carries the digests of `policy` and of its own decision.
    pub open spec fn bound_to(self, policy: Policy) -> bool {
        &&& self.policy_hash == policy_hash(policy)@
        &&& self.decision_hash == decision_hash(
            policy_hash(policy),
            self.market_id,
            self.timestamp,
        )@
    }
}

/// The number of bytes that `text` takes in a record.
pub open spec fn stored_len(text: Seq<char>) -> nat {
    encode_utf8(text).len()
}

/// The text fields of a refusal fit into a record.
pub open spec fn refusal_fits(market_id: Seq<char>, rule_violated: Seq<char>) -> bool {
    &&& stored_len(market_id) <= MAX_MARKET_ID_LEN
    &&& stored_len(rule_violated) <= MAX_RULE_NAME_LEN
}

/// The text fields of an execution fit into a record.
pub open spec fn execution_fits(
    market_id: Seq<char>,
    cctp_burn_tx: Seq<char>,
    cctp_mint_tx: Seq<char>,
    bet_tx: Seq<char>,
) -> bool {
    &&& stored_len(market_id) <= MAX_MARKET_ID_LEN
    &&& stored_len(cctp_burn_tx) <= MAX_TX_REF_LEN
    &&& stored_len(cctp_mint_tx) <= MAX_TX_REF_LEN
    &&& stored_len(bet_tx) <= MAX_TX_REF_LEN
}

/// The rules that every execution record lists, in the order in which a
/// policy is evaluated.
pub open spec fn canonical_rules() -> Seq<Seq<char>> {
    seq!["expiry"@, "chain"@, "confidence"@, "spend"@]
}

/// The refusal that is logged under `ctx` at `timestamp`.
pub open spec fn refusal_at(
    ctx: LogRefusal,
    market_id: Seq<char>,
    rule_violated: Seq<char>,
    requested_usdc: u64,
    timestamp: i64,
) -> RefusalLogView {
    RefusalLogView {
        policy: ctx.policy_key@,
        policy_hash: policy_hash(ctx.policy)@,
        decision_hash: decision_hash(policy_hash(ctx.policy), market_id, timestamp)@,
        market_id,
        rule_violated,
        requested_usdc,
        allowed_usdc: ctx.policy.max_spend_usdc,
        timestamp,
    }
}

/// The execution that is logged under `ctx` at `timestamp`.
pub open spec fn execution_at(
    ctx: LogExecution,
    market_id: Seq<char>,
    cctp_burn_tx: Seq<char>,
    cctp_mint_tx: Seq<char>,
    bet_tx: Seq<char>,
    timestamp: i64,
) -> ExecutionLogView {
    ExecutionLogView {
        policy: ctx.policy_key@,
        policy_hash: policy_hash(ctx.policy)@,
        decision_hash: decision_hash(policy_hash(ctx.policy), market_id, timestamp)@,
        market_id,
        rules_passed: canonical_rules(),
        cctp_burn_tx,
        cctp_mint_tx,
        bet_tx,
        timestamp,
    }
}

/// Whether `text` takes at most `limit` bytes in a record.
pub fn fits(text: &str, limit: usize) -> (within: bool)
    ensures
        within == (stored_len(text@) <= limit),
{
    text.as_bytes().len() <= limit
}

/// The canonical rule names, as owned strings.
pub fn canonical_rules_passed() -> (rules: Vec<String>)
    ensures
        rules@.len() == 4,
        Seq::new(rules@.len(), |i: int| rules@[i]@) == canonical_rules(),
{
    let mut rules: Vec<String> = Vec::new();
    rules.push("expiry".to_owned());
    rules.push("chain".to_owned());
    rules.push("confidence".to_owned());
    rules.push("spend".to_owned());
    assert(Seq::new(rules@.len(), |i: int| rules@[i]@) =~= canonical_rules());
    rules
}

impl RefusalLog {
    /// Whether the record carries exactly the two digests of `binding` and
    /// `cap` as its allowed spend.
    pub fn carries(&self, binding: &DecisionBinding, cap: u64) -> (same: bool)
        ensures
            same == (self.policy_hash@ == binding.policy_hash@ && self.decision_hash@
                == binding.decision_hash@ && self.allowed_usdc == cap),
    {
        same_bytes(&self.policy_hash, &binding.policy_hash) && same_bytes(
            &self.decision_hash,
            &binding.decision_hash,
        ) && self.allowed_usdc == cap
    }

    /// Checks the record against `policy`: recomputes both digests from the
    /// policy's fields and the record's own market identifier and timestamp,
    /// and compares them, and the policy's cap, with what the record
    /// carries.
    pub fn is_bound_to(&self, policy: &Policy) -> (bound: bool)
        ensures
            bound == self@.bound_to(*policy),
    {
        let binding = bind(policy, self.market_id.as_str(), self.timestamp);
        self.carries(&binding, policy.max_spend_usdc)
    }

    /// Makes the record of a refusal from a binding that was computed for it.
    ///
    /// Fails with `FieldTooLong` exactly when the market identifier or the
    /// rule name does not fit. Otherwise the record holds what it was given,
    /// and the policy's cap as `allowed_usdc`.
    pub fn record(
        ctx: &LogRefusal,
        binding: DecisionBinding,
        market_id: String,
        rule_violated: String,
        requested_usdc: u64,
        timestamp: i64,
    ) -> (made: Result<RefusalLog, PolicyError>)
        ensures
            !refusal_fits(market_id@, rule_violated@) ==> made is Err && made->Err_0
                == PolicyError::FieldTooLong,
            refusal_fits(market_id@, rule_violated@) ==> made is Ok && made->Ok_0@ == (
            RefusalLogView {
                policy: ctx.policy_key@,
                policy_hash: binding.policy_hash@,
                decision_hash: binding.decision_hash@,
                market_id: market_id@,
                rule_violated: rule_violated@,
                requested_usdc,
                allowed_usdc: ctx.policy.max_spend_usdc,
                timestamp,
            }),
    {
        if !fits(market_id.as_str(), MAX_MARKET_ID_LEN) || !fits(
            rule_violated.as_str(),
            MAX_RULE_NAME_LEN,
        ) {
            return Err(PolicyError::FieldTooLong);
        }
        Ok(
            RefusalLog {
                policy: ctx.policy_key,
                policy_hash: binding.policy_hash,
                decision_hash: binding.decision_hash,
                market_id,
                rule_violated,
                requested_usdc,
                allowed_usdc: ctx.policy.max_spend_usdc,
                timestamp,
            },
        )
    }
}

impl ExecutionLog {
    /// Whether the record carries exactly the two digests of `binding`.
    pub fn carries(&self, binding: &DecisionBinding) -> (same: bool)
        ensures
            same == (self.policy_hash@ == binding.policy_hash@ && self.decision_hash@
                == binding.decision_hash@),
    {
        same_bytes(&self.policy_hash, &binding.policy_hash) && same_bytes(
            &self.decision_hash,
            &binding.decision_hash,
        )
    }

    /// Checks the record against `policy`: recomputes both digests from the
    /// policy's fields and the record's own market identifier and timestamp,
    /// and compares them with what the record carries.
    pub fn is_bound_to(&self, policy: &Policy) -> (bound: bool)
        ensures
            bound == self@.bound_to(*policy),
    {
        let binding = bind(policy, self.market_id.as_str(), self.timestamp);
        self.carries(&binding)
    }

    /// Makes the record of an execution from a binding that was computed for
    /// it.
    ///
    /// Fails with `FieldTooLong` exactly when the market identifier or one of
    /// the transaction references does not fit. Otherwise the record holds
    /// what it was given, and the four canonical rule names as
    /// `rules_passed`, whatever the caller checked.
    pub fn record(
        ctx: &LogExecution,
        binding: DecisionBinding,
        market_id: String,
        cctp_burn_tx: String,
        cctp_mint_tx: String,
        bet_tx: String,
        timestamp: i64,
    ) -> (made: Result<ExecutionLog, PolicyError>)
        ensures
            !execution_fits(market_id@, cctp_burn_tx@, cctp_mint_tx@, bet_tx@) ==> made is Err
                && made->Err_0 == PolicyError::FieldTooLong,
            execution_fits(market_id@, cctp_burn_tx@, cctp_mint_tx@, bet_tx@) ==> made is Ok
                && made->Ok_0@ == (ExecutionLogView {
                policy: ctx.policy_key@,
                policy_hash: binding.policy_hash@,
                decision_hash: binding.decision_hash@,
                market_id: market_id@,
                rules_passed: canonical_rules(),
                cctp_burn_tx: cctp_burn_tx@,
                cctp_mint_tx: cctp_mint_tx@,
                bet_tx: bet_tx@,
                timestamp,
            }),
    {
        if !fits(market_id.as_str(), MAX_MARKET_ID_LEN) || !fits(
            cctp_burn_tx.as_str(),
            MAX_TX_REF_LEN,
        ) || !fits(cctp_mint_tx.as_str(), MAX_TX_REF_LEN) || !fits(
            bet_tx.as_str(),
            MAX_TX_REF_LEN,
        ) {
            return Err(PolicyError::FieldTooLong);
        }
        Ok(
            ExecutionLog {
                policy: ctx.policy_key,
                policy_hash: binding.policy_hash,
                decision_hash: binding.decision_hash,
                market_id,
                rules_passed: canonical_rules_passed(),
                cctp_burn_tx,
                cctp_mint_tx,
                bet_tx,
                timestamp,
            },
        )
    }
}

/// Logs a refusal at a given time: binds the decision to the policy of `ctx`
/// and makes the record.
///
/// The time is the caller's to vouch for; `log_refusal` takes it from the
/// clock. Fails with `FieldTooLong` exactly when the market identifier or the
/// rule name does not fit; that a rule was broken is no failure.
pub fn log_refusal_at(
    ctx: &LogRefusal,
    market_id: String,
    rule_violated: String,
    requested_usdc: u64,
    timestamp: i64,
) -> (logged: Result<RefusalLog, PolicyError>)
    ensures
        !refusal_fits(market_id@, rule_violated@) ==> logged is Err && logged->Err_0
            == PolicyError::FieldTooLong,
        refusal_fits(market_id@, rule_violated@) ==> logged is Ok && logged->Ok_0@ == refusal_at(
            *ctx,
            market_id@,
            rule_violated@,
            requested_usdc,
            timestamp,
        ),
{
    let binding = bind(&ctx.policy, market_id.as_str(), timestamp);
    RefusalLog::record(ctx, binding, market_id, rule_violated, requested_usdc, timestamp)
}

/// Logs an execution at a given time: binds the decision to the policy of
/// `ctx` and makes the record.
///
/// The time is the caller's to vouch for; `log_execution` takes it from the
/// clock. Fails with `FieldTooLong` exactly when the market identifier or a
/// transaction reference does not fit, and for no other reason: the record
/// lists the four canonical rules whatever the policy would have said.
pub fn log_execution_at(
    ctx: &LogExecution,
    market_id: String,
    cctp_burn_tx: String,
    cctp_mint_tx: String,
    bet_tx: String,
    timestamp: i64,
) -> (logged: Result<ExecutionLog, PolicyError>)
    ensures
        !execution_fits(market_id@, cctp_burn_tx@, cctp_mint_tx@, bet_tx@) ==> logged is Err
            && logged->Err_0 == PolicyError::FieldTooLong,
        execution_fits(market_id@, cctp_burn_tx@, cctp_mint_tx@, bet_tx@) ==> logged is Ok
            && logged->Ok_0@ == execution_at(
            *ctx,
            market_id@,
            cctp_burn_tx@,
            cctp_mint_tx@,
            bet_tx@,
            timestamp,
        ),
{
    let binding = bind(&ctx.policy, market_id.as_str(), timestamp);
    ExecutionLog::record(ctx, binding, market_id, cctp_burn_tx, cctp_mint_tx, bet_tx, timestamp)
}

/// Logs a refusal now: reads the clock, binds the decision to the policy of
/// `ctx` and makes the record.
///
/// Text that does not fit is refused with `FieldTooLong` before the clock is
/// asked. With text that fits, the only failure is `StorageFailure`, when the
/// environment serves no clock; otherwise the record is the one that
/// `log_refusal_at` makes for the time that the clock gave.
pub fn log_refusal(
    ctx: &LogRefusal,
    market_id: String,
    rule_violated: String,
    requested_usdc: u64,
) -> (logged: Result<RefusalLog, PolicyError>)
    ensures
        !refusal_fits(market_id@, rule_violated@) ==> logged is Err && logged->Err_0
            == PolicyError::FieldTooLong,
        refusal_fits(market_id@, rule_violated@) ==> match logged {
            Ok(log) => log@ == refusal_at(
                *ctx,
                market_id@,
                rule_violated@,
                requested_usdc,
                log.timestamp,
            ),
            Err(error) => error == PolicyError::StorageFailure,
        },
{
    if !fits(market_id.as_str(), MAX_MARKET_ID_LEN) || !fits(
        rule_violated.as_str(),
        MAX_RULE_NAME_LEN,
    ) {
        return Err(PolicyError::FieldTooLong);
    }
    match unix_timestamp() {
        Ok(now) => log_refusal_at(ctx, market_id, rule_violated, requested_usdc, now),
        Err(_) => Err(PolicyError::StorageFailure),
    }
}

/// Logs an execution now: reads the clock, binds the decision to the policy
/// of `ctx` and makes the record.
///
/// Text that does not fit is refused with `FieldTooLong` before the clock is
/// asked. With text that fits, the only failure is `StorageFailure`, when the
/// environment serves no clock; otherwise the record is the one that
/// `log_execution_at` makes for the time that the clock gave. The record
/// always lists the four canonical rules: that they were checked is the
/// caller's word, which is not examined here.
pub fn log_execution(
    ctx: &LogExecution,
    market_id: String,
    cctp_burn_tx: String,
    cctp_mint_tx: String,
    bet_tx: String,
) -> (logged: Result<ExecutionLog, PolicyError>)
    ensures
        !execution_fits(market_id@, cctp_burn_tx@, cctp_mint_tx@, bet_tx@) ==> logged is Err
            && logged->Err_0 == PolicyError::FieldTooLong,
        execution_fits(market_id@, cctp_burn_tx@, cctp_mint_tx@, bet_tx@) ==> match logged {
            Ok(log) => log@ == execution_at(
                *ctx,
                market_id@,
                cctp_burn_tx@,
                cctp_mint_tx@,
                bet_tx@,
                log.timestamp,
            ),
            Err(error) => error == PolicyError::StorageFailure,
        },
{
    if !fits(market_id.as_str(), MAX_MARKET_ID_LEN) || !fits(
        cctp_burn_tx.as_str(),
        MAX_TX_REF_LEN,
    ) || !fits(cctp_mint_tx.as_str(), MAX_TX_REF_LEN) || !fits(bet_tx.as_str(), MAX_TX_REF_LEN) {
        return Err(PolicyError::FieldTooLong);
    }
    match unix_timestamp() {
        Ok(now) => log_execution_at(ctx, market_id, cctp_burn_tx, cctp_mint_tx, bet_tx, now),
        Err(_) => Err(PolicyError::StorageFailure),
    }
}

/// What is logged can be checked: the refusal that is logged under a policy
/// is bound to that policy, whatever the inputs and the time.
pub proof fn law_logged_refusal_is_bound(
    ctx: LogRefusal,
    market_id: Seq<char>,
    rule_violated: Seq<char>,
    requested_usdc: u64,
    timestamp: i64,
)
    ensures
        refusal_at(ctx, market_id, rule_violated, requested_usdc, timestamp).bound_to(ctx.policy),
{
}

/// What is logged can be checked: the execution that is logged under a
/// policy is bound to that policy and lists the four canonical rules,
/// whatever the inputs and the time.
pub proof fn law_logged_execution_is_bound(
    ctx: LogExecution,
    market_id: Seq<char>,
    cctp_burn_tx: Seq<char>,
    cctp_mint_tx: Seq<char>,
    bet_tx: Seq<char>,
    timestamp: i64,
)
    ensures
        execution_at(ctx, market_id, cctp_burn_tx, cctp_mint_tx, bet_tx, timestamp).bound_to(
            ctx.policy,
        ),
        execution_at(ctx, market_id, cctp_burn_tx, cctp_mint_tx, bet_tx, timestamp).rules_passed
            == canonical_rules(),
{
}

/// The decision hash does not tell the kind of record: a refusal and an
/// execution that are logged under one policy for one market at one time
/// carry the same two digests. Which of the two a digest belongs to is known
/// only from the table in which the record is kept.
pub proof fn law_decision_hash_ignores_kind(
    refusal: LogRefusal,
    execution: LogExecution,
    market_id: Seq<char>,
    rule_violated: Seq<char>,
    requested_usdc: u64,
    cctp_burn_tx: Seq<char>,
    cctp_mint_tx: Seq<char>,
    bet_tx: Seq<char>,
    timestamp: i64,
)
    requires
        same_fields(refusal.policy, execution.policy),
    ensures
        refusal_at(refusal, market_id, rule_violated, requested_usdc, timestamp).policy_hash
            == execution_at(
            execution,
            market_id,
            cctp_burn_tx,
            cctp_mint_tx,
            bet_tx,
            timestamp,
        ).policy_hash,
        refusal_at(refusal, market_id, rule_violated, requested_usdc, timestamp).decision_hash
            == execution_at(
            execution,
            market_id,
            cctp_burn_tx,
            cctp_mint_tx,
            bet_tx,
            timestamp,
        ).decision_hash,
{
    law_policy_hash_deterministic(refusal.policy, execution.policy);
}

/// A record is bound to one policy: a refusal that checks out against two
/// policies shows that their fields are the same, or that SHA-256 maps their
/// different canonical bytes to one digest.
pub proof fn law_refusal_names_one_policy(log: RefusalLogView, p: Policy, q: Policy)
    ensures
        log.bound_to(p) && log.bound_to(q) ==> same_fields(p, q) || collide(
            policy_preimage(p),
            policy_preimage(q),
        ),
{
    if log.bound_to(p) && log.bound_to(q) && !same_fields(p, q) {
        law_policy_hash_sensitive(p, q);
        assert(policy_hash(p) =~= policy_hash(q));
    }
}

/// A record is bound to one policy: an execution that checks out against
/// two policies shows that their fields are the same, or that SHA-256 maps
/// their different canonical bytes to one digest.
pub proof fn law_execution_names_one_policy(log: ExecutionLogView, p: Policy, q: Policy)
    ensures
        log.bound_to(p) && log.bound_to(q) ==> same_fields(p, q) || collide(
            policy_preimage(p),
            policy_preimage(q),
        ),
{
    if log.bound_to(p) && log.bound_to(q) && !same_fields(p, q) {
        law_policy_hash_sensitive(p, q);
        assert(policy_hash(p) =~= policy_hash(q));
    }
}

} // verus!
