//! Keeping policies and records: create-only, keyed, and unique per key.
//!
//! A policy is kept under its authority, a record under its policy, its
//! agent and its timestamp. Nothing that was stored is ever changed or
//! removed: the only operation that alters a store adds an entry under a key
//! that was free.

use vstd::prelude::*;
use crate::encoding::same_bytes;
use crate::ledger::ExecutionLog;
use crate::ledger::ExecutionLogView;
use crate::ledger::LogRefusal;
use crate::ledger::RefusalLog;
use crate::ledger::RefusalLogView;
use crate::ledger::refusal_at;
use crate::policy::Address;
use crate::policy::InitializePolicy;
use crate::policy::MAX_CONFIDENCE;
use crate::policy::Policy;
use crate::policy::PolicyError;
use crate::policy::initialize_policy;

verus! {

/// The key of a record: who decided, under which policy, and when.
#[derive(Clone, Copy, Debug, PartialEq, Eq)]
pub struct RecordKey {
    /// The address of the policy.
    pub policy: Address,
    /// The agent who logged the record.
    pub agent: Address,
    /// The time of the decision.
    pub timestamp: i64,
}

/// What a record key says.
pub struct RecordKeyView {
    pub policy: Seq<u8>,
    pub agent: Seq<u8>,
    pub timestamp: i64,
}

impl View for RecordKey {
    type V = RecordKeyView;

    open spec fn view(&self) -> RecordKeyView {
        RecordKeyView { policy: self.policy@, agent: self.agent@, timestamp: self.timestamp }
    }
}

impl RecordKey {
    /// Whether two keys are the same.
    pub fn same(&self, other: &RecordKey) -> (same: bool)
        ensures
            same == (self@ == other@),
    {
        self.timestamp == other.timestamp && same_bytes(&self.policy, &other.policy)
            && same_bytes(&self.agent, &other.agent)
    }
}

/// What adding a record under `key` does to a table and returns: a key that
/// is taken is refused and the table stays as it is; a free key is filled.
pub open spec fn append_outcome<V>(
    table: Map<RecordKeyView, V>,
    key: RecordKeyView,
    record: V,
) -> (Map<RecordKeyView, V>, Result<(), PolicyError>) {
    if table.dom().contains(key) {
        (table, Err(PolicyError::DuplicateRecord))
    } else {
        (table.insert(key, record), Ok(()))
    }
}

/// What creating a policy does to a store and returns.
pub open spec fn create_outcome(
    store: Map<Seq<u8>, Policy>,
    authority: Address,
    max_spend_usdc: u64,
    min_confidence: u8,
    allowed_chains: [u8; 4],
    expires_at: i64,
) -> (Map<Seq<u8>, Policy>, Result<Policy, PolicyError>) {
    let policy = Policy { authority, max_spend_usdc, min_confidence, allowed_chains, expires_at };
    if min_confidence > MAX_CONFIDENCE {
        (store, Err(PolicyError::InvalidConfidence))
    } else if store.dom().contains(authority@) {
        (store, Err(PolicyError::DuplicatePolicy))
    } else {
        (store.insert(authority@, policy), Ok(policy))
    }
}

/// What looking up the policy of `authority` returns.
pub open spec fn lookup_outcome(
    store: Map<Seq<u8>, Policy>,
    authority: Seq<u8>,
) -> Result<Policy, PolicyError> {
    if store.dom().contains(authority) {
        Ok(store[authority])
    } else {
        Err(PolicyError::PolicyNotFound)
    }
}

/// Create-only records of one kind, each under its own key.
pub struct Table<T: View> {
    keys: Vec<RecordKey>,
    records: Vec<T>,
    model: Ghost<Map<RecordKeyView, T::V>>,
}

impl<T: View> View for Table<T> {
    type V = Map<RecordKeyView, T::V>;

    closed spec fn view(&self) -> Map<RecordKeyView, T::V> {
        self.model@
    }
}

impl<T: View> Table<T> {
    /// The entries in memory are exactly the entries of the view.
    pub closed spec fn wf(&self) -> bool {
        &&& self.keys@.len() == self.records@.len()
        &&& forall|i: int|
            0 <= i < self.keys@.len() ==> self.model@.dom().contains(#[trigger] self.keys@[i]@)
                && self.model@[self.keys@[i]@] == self.records@[i]@
        &&& forall|k: RecordKeyView| #[trigger]
            self.model@.dom().contains(k) ==> exists|i: int|
                0 <= i < self.keys@.len() && #[trigger] self.keys@[i]@ == k
    }

    /// An empty table.
    pub fn new() -> (table: Table<T>)
        ensures
            table.wf(),
            table@ == Map::<RecordKeyView, T::V>::empty(),
    {
        Table { keys: Vec::new(), records: Vec::new(), model: Ghost(Map::empty()) }
    }

    /// Where `key` stands, if it is taken.
    fn position(&self, key: &RecordKey) -> (at: Option<usize>)
        requires
            self.wf(),
        ensures
            at is Some <==> self@.dom().contains(key@),
            at is Some ==> at->0 < self.records@.len() && self.records@[at->0 as int]@
                == self@[key@],
    {
        let mut i: usize = 0;
        while i < self.keys.len()
            invariant
                self.wf(),
                i <= self.keys@.len(),
                forall|j: int| 0 <= j < i ==> self.keys@[j]@ != key@,
            decreases self.keys@.len() - i,
        {
            if self.keys[i].same(key) {
                return Some(i);
            }
            i += 1;
        }
        None
    }

    /// The record under `key`, if there is one.
    pub fn get(&self, key: &RecordKey) -> (found: Option<&T>)
        requires
            self.wf(),
        ensures
            found is Some <==> self@.dom().contains(key@),
            found is Some ==> found->0@ == self@[key@],
    {
        match self.position(key) {
            Some(i) => Some(&self.records[i]),
            None => None,
        }
    }

    /// Adds `record` under `key`, unless the key is taken.
    pub fn append(&mut self, key: RecordKey, record: T) -> (added: Result<(), PolicyError>)
        requires
            old(self).wf(),
        ensures
            final(self).wf(),
            (final(self)@, added) == append_outcome(old(self)@, key@, record@),
    {
        if self.position(&key).is_some() {
            return Err(PolicyError::DuplicateRecord);
        }
        let ghost before = *self;
        self.model = Ghost(self.model@.insert(key@, record@));
        self.keys.push(key);
        self.records.push(record);
        proof {
            let last = before.keys@.len() as int;
            assert(self.keys@[last]@ == key@);
            assert forall|k: RecordKeyView| #[trigger]
                self.model@.dom().contains(k) implies exists|i: int|
                0 <= i < self.keys@.len() && #[trigger] self.keys@[i]@ == k by {
                if k == key@ {
                    assert(self.keys@[last]@ == k);
                } else {
                    assert(before.model@.dom().contains(k));
                    let i = choose|i: int|
                        0 <= i < before.keys@.len() && #[trigger] before.keys@[i]@ == k;
                    assert(self.keys@[i]@ == k);
                }
            }
        }
        Ok(())
    }
}

/// The policies that were created, one per authority.
pub struct PolicyStore {
    policies: Vec<Policy>,
    model: Ghost<Map<Seq<u8>, Policy>>,
}

impl View for PolicyStore {
    type V = Map<Seq<u8>, Policy>;

    closed spec fn view(&self) -> Map<Seq<u8>, Policy> {
        self.model@
    }
}

impl PolicyStore {
    /// The policies in memory are exactly the policies of the view, each
    /// valid and kept under its own authority.
    pub closed spec fn wf(&self) -> bool {
        &&& forall|i: int|
            0 <= i < self.policies@.len() ==> self.model@.dom().contains(
                #[trigger] self.policies@[i].authority@,
            ) && self.model@[self.policies@[i].authority@] == self.policies@[i]
                && self.policies@[i].valid()
        &&& forall|a: Seq<u8>| #[trigger]
            self.model@.dom().contains(a) ==> exists|i: int|
                0 <= i < self.policies@.len() && #[trigger] self.policies@[i].authority@ == a
    }

    /// A store without policies.
    pub fn new() -> (store: PolicyStore)
        ensures
            store.wf(),
            store@ == Map::<Seq<u8>, Policy>::empty(),
    {
        PolicyStore { policies: Vec::new(), model: Ghost(Map::empty()) }
    }

    /// Where the policy of `authority` stands, if it owns one.
    fn position(&self, authority: &Address) -> (at: Option<usize>)
        requires
            self.wf(),
        ensures
            at is Some <==> self@.dom().contains(authority@),
            at is Some ==> at->0 < self.policies@.len() && self.policies@[at->0 as int]
                == self@[authority@],
    {
        let mut i: usize = 0;
        while i < self.policies.len()
            invariant
                self.wf(),
                i <= self.policies@.len(),
                forall|j: int| 0 <= j < i ==> self.policies@[j].authority@ != authority@,
            decreases self.policies@.len() - i,
        {
            if same_bytes(&self.policies[i].authority, authority) {
                return Some(i);
            }
            i += 1;
        }
        None
    }

    /// Creates the policy of `ctx.authority` and keeps it.
    ///
    /// Fails with `InvalidConfidence` when `min_confidence` is above 100, and
    /// otherwise with `DuplicatePolicy` when the authority already owns a
    /// policy; a failure leaves the store as it is. On success the policy is
    /// returned and kept under its authority. No policy that was in the
    /// store is changed or removed.
    pub fn create_policy(
        &mut self,
        ctx: &InitializePolicy,
        max_spend_usdc: u64,
        min_confidence: u8,
        allowed_chains: [u8; 4],
        expires_at: i64,
    ) -> (created: Result<Policy, PolicyError>)
        requires
            old(self).wf(),
        ensures
            final(self).wf(),
            (final(self)@, created) == create_outcome(
                old(self)@,
                ctx.authority,
                max_spend_usdc,
                min_confidence,
                allowed_chains,
                expires_at,
            ),
            forall|a: Seq<u8>|
                old(self)@.dom().contains(a) ==> final(self)@.dom().contains(a) && final(self)@[a]
                    == old(self)@[a],
    {
        let policy = match initialize_policy(
            ctx,
            max_spend_usdc,
            min_confidence,
            allowed_chains,
            expires_at,
        ) {
            Ok(policy) => policy,
            Err(error) => {
                return Err(error);
            },
        };
        if self.position(&ctx.authority).is_some() {
            return Err(PolicyError::DuplicatePolicy);
        }
        let ghost before = *self;
        self.model = Ghost(self.model@.insert(policy.authority@, policy));
        self.policies.push(policy);
        proof {
            let last = before.policies@.len() as int;
            assert(self.policies@[last] == policy);
            assert forall|a: Seq<u8>| #[trigger]
                self.model@.dom().contains(a) implies exists|i: int|
                0 <= i < self.policies@.len() && #[trigger] self.policies@[i].authority@ == a by {
                if a == policy.authority@ {
                    assert(self.policies@[last].authority@ == a);
                } else {
                    assert(before.model@.dom().contains(a));
                    let i = choose|i: int|
                        0 <= i < before.policies@.len() && #[trigger] before.policies@[i].authority@
                            == a;
                    assert(self.policies@[i].authority@ == a);
                }
            }
        }
        Ok(policy)
    }

    /// The policy of `authority`; `PolicyNotFound` when it owns none.
    pub fn get_policy(&self, authority: &Address) -> (found: Result<Policy, PolicyError>)
        requires
            self.wf(),
        ensures
            found == lookup_outcome(self@, authority@),
    {
        match self.position(authority) {
            Some(i) => Ok(self.policies[i]),
            None => Err(PolicyError::PolicyNotFound),
        }
    }

    /// Every policy in a store is valid and is kept under its own authority.
    pub proof fn lemma_stored_policy(&self, authority: Seq<u8>)
        requires
            self.wf(),
            self@.dom().contains(authority),
        ensures
            self@[authority].valid(),
            self@[authority].authority@ == authority,
    {
        let i = choose|i: int|
            0 <= i < self.policies@.len() && #[trigger] self.policies@[i].authority@ == authority;
        assert(self.model@[self.policies@[i].authority@] == self.policies@[i]);
    }
}

/// The key under which a refusal of `agent` is kept.
pub open spec fn refusal_key(agent: Seq<u8>, log: RefusalLogView) -> RecordKeyView {
    RecordKeyView { policy: log.policy, agent, timestamp: log.timestamp }
}

/// The key under which an execution of `agent` is kept.
pub open spec fn execution_key(agent: Seq<u8>, log: ExecutionLogView) -> RecordKeyView {
    RecordKeyView { policy: log.policy, agent, timestamp: log.timestamp }
}

/// What a ledger holds: the refusals and the executions, each under its key.
pub struct LedgerView {
    pub refusals: Map<RecordKeyView, RefusalLogView>,
    pub executions: Map<RecordKeyView, ExecutionLogView>,
}

/// The append-only log of decisions: one table of refusals and one of
/// executions.
pub struct Ledger {
    refusals: Table<RefusalLog>,
    executions: Table<ExecutionLog>,
}

impl View for Ledger {
    type V = LedgerView;

    closed spec fn view(&self) -> LedgerView {
        LedgerView { refusals: self.refusals@, executions: self.executions@ }
    }
}

impl Ledger {
    /// Both tables are well formed, and every record is kept under the
    /// policy and the timestamp that it names.
    pub closed spec fn wf(&self) -> bool {
        &&& self.refusals.wf()
        &&& self.executions.wf()
        &&& forall|k: RecordKeyView| #[trigger]
            self.refusals@.dom().contains(k) ==> self.refusals@[k].policy == k.policy
                && self.refusals@[k].timestamp == k.timestamp
        &&& forall|k: RecordKeyView| #[trigger]
            self.executions@.dom().contains(k) ==> self.executions@[k].policy == k.policy
                && self.executions@[k].timestamp == k.timestamp
    }

    /// A ledger without records.
    pub fn new() -> (ledger: Ledger)
        ensures
            ledger.wf(),
            ledger@.refusals == Map::<RecordKeyView, RefusalLogView>::empty(),
            ledger@.executions == Map::<RecordKeyView, ExecutionLogView>::empty(),
    {
        Ledger { refusals: Table::new(), executions: Table::new() }
    }

    /// Adds a refusal that `agent` logged, under its policy, the agent and
    /// its timestamp. Where a refusal is kept under that key already, the
    /// call fails with `DuplicateRecord` and changes nothing.
    pub fn append_refusal(
        &mut self,
        agent: Address,
        log: RefusalLog,
    ) -> (added: Result<(), PolicyError>)
        requires
            old(self).wf(),
        ensures
            final(self).wf(),
            final(self)@.executions == old(self)@.executions,
            (final(self)@.refusals, added) == append_outcome(
                old(self)@.refusals,
                refusal_key(agent@, log@),
                log@,
            ),
    {
        let key = RecordKey { policy: log.policy, agent, timestamp: log.timestamp };
        self.refusals.append(key, log)
    }

    /// Adds an execution that `agent` logged, under its policy, the agent
    /// and its timestamp. Where an execution is kept under that key already,
    /// the call fails with `DuplicateRecord` and changes nothing.
    pub fn append_execution(
        &mut self,
        agent: Address,
        log: ExecutionLog,
    ) -> (added: Result<(), PolicyError>)
        requires
            old(self).wf(),
        ensures
            final(self).wf(),
            final(self)@.refusals == old(self)@.refusals,
            (final(self)@.executions, added) == append_outcome(
                old(self)@.executions,
                execution_key(agent@, log@),
                log@,
            ),
    {
        let key = RecordKey { policy: log.policy, agent, timestamp: log.timestamp };
        self.executions.append(key, log)
    }

    /// The refusal kept under `key`, if there is one.
    pub fn refusal(&self, key: &RecordKey) -> (found: Option<&RefusalLog>)
        requires
            self.wf(),
        ensures
            found is Some <==> self@.refusals.dom().contains(key@),
            found is Some ==> found->0@ == self@.refusals[key@],
    {
        self.refusals.get(key)
    }

    /// The execution kept under `key`, if there is one.
    pub fn execution(&self, key: &RecordKey) -> (found: Option<&ExecutionLog>)
        requires
            self.wf(),
        ensures
            found is Some <==> self@.executions.dom().contains(key@),
            found is Some ==> found->0@ == self@.executions[key@],
    {
        self.executions.get(key)
    }

    /// Every record in a ledger names the policy and the timestamp of its
    /// key.
    pub proof fn lemma_record_matches_key(&self, key: RecordKeyView)
        requires
            self.wf(),
        ensures
            self@.refusals.dom().contains(key) ==> refusal_key(key.agent, self@.refusals[key])
                == key,
            self@.executions.dom().contains(key) ==> execution_key(
                key.agent,
                self@.executions[key],
            ) == key,
    {
    }
}

/// A key is filled once: after a record was added under a key, a second
/// record under that key, the same or another, is refused with
/// `DuplicateRecord`, and the table stays as the first call left it.
pub proof fn law_key_is_filled_once<V>(
    table: Map<RecordKeyView, V>,
    key: RecordKeyView,
    first: V,
    second: V,
)
    ensures
        append_outcome(table, key, first).0.dom().contains(key),
        append_outcome(append_outcome(table, key, first).0, key, second) == (
            append_outcome(table, key, first).0,
            Err::<(), PolicyError>(PolicyError::DuplicateRecord),
        ),
{
}

/// A decision is logged once: when the refusal that is logged under `ctx` at
/// `timestamp` has been added to a table, adding it again is refused with
/// `DuplicateRecord`, and the table stays as the first call left it.
pub proof fn law_refusal_is_logged_once(
    refusals: Map<RecordKeyView, RefusalLogView>,
    ctx: LogRefusal,
    market_id: Seq<char>,
    rule_violated: Seq<char>,
    requested_usdc: u64,
    timestamp: i64,
)
    ensures
        ({
            let record = refusal_at(ctx, market_id, rule_violated, requested_usdc, timestamp);
            let key = refusal_key(ctx.agent@, record);
            let once = append_outcome(refusals, key, record).0;
            &&& key == (RecordKeyView { policy: ctx.policy_key@, agent: ctx.agent@, timestamp })
            &&& once.dom().contains(key)
            &&& append_outcome(once, key, record) == (
                once,
                Err::<(), PolicyError>(PolicyError::DuplicateRecord),
            )
        }),
{
}

/// Records are never changed or removed: whatever is added, a record that
/// was in the table is still there, as it was.
pub proof fn law_append_keeps_records<V>(
    table: Map<RecordKeyView, V>,
    key: RecordKeyView,
    record: V,
    kept: RecordKeyView,
)
    requires
        table.dom().contains(kept),
    ensures
        append_outcome(table, key, record).0.dom().contains(kept),
        append_outcome(table, key, record).0[kept] == table[kept],
{
}

/// Policies are never changed or removed: whatever is created, a policy that
/// was in the store is still there, as it was.
pub proof fn law_create_keeps_policies(
    store: Map<Seq<u8>, Policy>,
    authority: Address,
    max_spend_usdc: u64,
    min_confidence: u8,
    allowed_chains: [u8; 4],
    expires_at: i64,
    kept: Seq<u8>,
)
    requires
        store.dom().contains(kept),
    ensures
        create_outcome(
            store,
            authority,
            max_spend_usdc,
            min_confidence,
            allowed_chains,
            expires_at,
        ).0.dom().contains(kept),
        create_outcome(
            store,
            authority,
            max_spend_usdc,
            min_confidence,
            allowed_chains,
            expires_at,
        ).0[kept] == store[kept],
{
}

/// An authority owns one policy: after a policy was created for it, a second
/// creation for it fails, and the store stays as the first call left it.
pub proof fn law_one_policy_per_authority(
    store: Map<Seq<u8>, Policy>,
    authority: Address,
    max_spend_usdc: u64,
    min_confidence: u8,
    allowed_chains: [u8; 4],
    expires_at: i64,
    next_spend_usdc: u64,
    next_confidence: u8,
    next_chains: [u8; 4],
    next_expires_at: i64,
)
    requires
        min_confidence <= MAX_CONFIDENCE,
    ensures
        ({
            let once = create_outcome(
                store,
                authority,
                max_spend_usdc,
                min_confidence,
                allowed_chains,
                expires_at,
            ).0;
            let again = create_outcome(
                once,
                authority,
                next_spend_usdc,
                next_confidence,
                next_chains,
                next_expires_at,
            );
            &&& once.dom().contains(authority@)
            &&& again.0 == once
            &&& again.1 is Err
        }),
{
}

} // verus!
