//! Policy-bound decision ledger.
//!
//! A principal delegates bounded spending authority to an agent through an
//! immutable [`Policy`]. Every decision the agent takes under that policy, a
//! refusal or an execution, is recorded together with two SHA-256 digests: one
//! of the policy's canonical bytes and one that chains that digest to the
//! decision's identifier and timestamp. Anyone holding the public fields can
//! rebuild both digests and so check that a record was made under exactly
//! that policy.
//!
//! * [`policy`]: the policy, its creation and its four rules.
//! * [`binding`]: the canonical bytes and the two digests.
//! * [`ledger`]: the refusal and execution records and the logging
//!   operations.
//! * [`store`]: create-only keeping of policies and records, unique per key.
//! * [`encoding`], [`hasher`], [`clock`]: fixed-width integers, SHA-256 and
//!   the time of logging.

pub mod binding;
pub mod clock;
pub mod encoding;
pub mod hasher;
pub mod ledger;
pub mod policy;
pub mod store;

pub use binding::bind;
pub use binding::bind_decision;
pub use binding::bind_policy;
pub use binding::DecisionBinding;
pub use hasher::Digest;
pub use ledger::log_execution;
pub use ledger::log_execution_at;
pub use ledger::log_refusal;
pub use ledger::log_refusal_at;
pub use ledger::ExecutionLog;
pub use ledger::LogExecution;
pub use ledger::LogRefusal;
pub use ledger::RefusalLog;
pub use policy::initialize_policy;
pub use policy::Address;
pub use policy::InitializePolicy;
pub use policy::Policy;
pub use policy::PolicyError;
pub use store::Ledger;
pub use store::PolicyStore;
pub use store::RecordKey;
