//! A verified core for an in-process actor runtime: actor identities, the
//! wait-for graph used to detect `ask` deadlocks, error classification,
//! dead-letter bookkeeping, per-actor metrics and the decisions of the actor
//! lifecycle loop.

mod clock;
pub mod actor_result;
pub mod dead_letter;
pub mod deadlock;
pub mod error;
pub mod identity;
pub mod lifecycle;
pub mod metrics;
pub mod spawn;

pub use identity::Identity;
pub use metrics::{MetricsCollector, MetricsSnapshot};
pub use error::{Channel, Error, Operation};
pub use dead_letter::{dead_letter_count, reset_dead_letter_count, DeadLetterReason};
pub use actor_result::{ActorFailure, ActorResult, FailurePhase};
pub use spawn::{set_default_mailbox_capacity, SpawnOptions, DEFAULT_MAILBOX_CAPACITY, IDLE_SUBSCRIBE_CHANNEL_CAPACITY, PRIORITY_CHANNEL_CAPACITY};
