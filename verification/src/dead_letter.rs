//! Dead letters: messages that could not be delivered, why, and how the
//! failure of a delivery is reported to the sender.

use crate::error::{Channel, Error, Operation};
use crate::identity::Identity;
use std::time::Duration;
use vstd::prelude::*;

verus! {

/// Reason why a message became a dead letter.
#[derive(Debug, Clone, Copy, PartialEq, Eq, Structural)]
#[non_exhaustive]
pub enum DeadLetterReason {
    /// The actor's mailbox channel was closed.
    ActorStopped,
    /// A send or ask operation exceeded its timeout.
    Timeout,
    /// The reply channel was dropped before a response could be sent.
    ReplyDropped,
}

/// How a reason is rendered.
pub open spec fn reason_label(r: DeadLetterReason) -> Seq<char> {
    match r {
        DeadLetterReason::ActorStopped => "actor stopped"@,
        DeadLetterReason::Timeout => "timeout"@,
        DeadLetterReason::ReplyDropped => "reply dropped"@,
    }
}

impl DeadLetterReason {
    /// The human-readable reason (e.g. `"actor stopped"`).
    pub fn to_string(&self) -> (s: String)
        ensures
            s@ == reason_label(*self),
    {
        match self {
            DeadLetterReason::ActorStopped => String::from_str("actor stopped"),
            DeadLetterReason::Timeout => String::from_str("timeout"),
            DeadLetterReason::ReplyDropped => String::from_str("reply dropped"),
        }
    }
}

/// The tally of dead letters recorded so far.
#[derive(Debug)]
pub struct DeadLetters {
    count: u64,
}

impl View for DeadLetters {
    type V = u64;

    closed spec fn view(&self) -> u64 {
        self.count
    }
}

impl DeadLetters {
    /// An empty tally.
    pub fn new() -> (r: Self)
        ensures
            r@ == 0,
    {
        DeadLetters { count: 0 }
    }
}

/// Records one dead letter: the tally grows by one (wrapping at `u64::MAX`,
/// as an atomic counter does).
pub fn record(log: &mut DeadLetters)
    ensures
        final(log)@ == crate::metrics::wrap_add(old(log)@, 1),
{
    log.count = log.count.wrapping_add(1);
}

/// Returns the total number of dead letters recorded.
pub fn dead_letter_count(log: &DeadLetters) -> (r: u64)
    ensures
        r == log@,
{
    log.count
}

/// Resets the dead letter counter.
pub fn reset_dead_letter_count(log: &mut DeadLetters)
    ensures
        final(log)@ == 0,
{
    log.count = 0;
}

/// Step `i` of a history of tallies is one recording.
pub open spec fn recorded_once(tallies: Seq<u64>, i: int) -> bool {
    tallies[i + 1] == crate::metrics::wrap_add(tallies[i], 1)
}

/// After a reset, the tally is the number of dead letters recorded since,
/// modulo 2^64: in a history of tallies that starts at zero and grows by one
/// recording per step, the last tally is the number of steps.
pub proof fn lemma_count_after_records(tallies: Seq<u64>)
    requires
        tallies.len() >= 1,
        tallies[0] == 0,
        forall|i: int| 0 <= i < tallies.len() - 1 ==> #[trigger] recorded_once(tallies, i),
    ensures
        tallies.last() == (tallies.len() - 1) % 0x1_0000_0000_0000_0000,
    decreases tallies.len(),
{
    if tallies.len() > 1 {
        let prev = tallies.drop_last();
        assert forall|i: int| 0 <= i < prev.len() - 1 implies #[trigger] recorded_once(prev, i) by {
            assert(recorded_once(tallies, i));
        }
        lemma_count_after_records(prev);
        assert(recorded_once(tallies, tallies.len() - 2));
        let k = tallies.len() - 2;
        assert(tallies.last() == (k + 1) % 0x1_0000_0000_0000_0000) by (nonlinear_arith)
            requires
                tallies[k] == k % 0x1_0000_0000_0000_0000,
                tallies.last() == crate::metrics::wrap_add(tallies[k], 1),
                k >= 0,
        ;
    }
}

/// What went wrong while delivering a message or awaiting its reply.
#[derive(Debug, Clone, Copy)]
pub enum DeliveryFailure {
    /// The regular mailbox is closed.
    MailboxClosed,
    /// The priority channel is closed.
    PriorityClosed,
    /// The idle-subscribe channel is closed.
    SubscribeClosed,
    /// The idle-subscribe buffer is full.
    SubscribeFull,
    /// The operation missed its deadline of the given duration.
    TimedOut(Duration),
    /// The reply channel was dropped before a reply was sent.
    ReplyDropped,
    /// The reply had another type than the given expected one.
    ReplyTypeMismatch(&'static str),
    /// The actor has no priority channel.
    PriorityNotEnabled,
    /// The actor has no idle channel.
    IdleNotEnabled,
}

/// The error a sender sees for a failed delivery, and the dead-letter reason
/// recorded for it, if the message became a dead letter. Configuration
/// errors, full buffers and reply type mismatches are no dead letters.
pub open spec fn failure_outcome(identity: Identity, operation: Operation, f: DeliveryFailure) -> (
    Error,
    Option<DeadLetterReason>,
) {
    match f {
        DeliveryFailure::MailboxClosed => (
            Error::Send { identity, details: "Mailbox channel closed" },
            Some(DeadLetterReason::ActorStopped),
        ),
        DeliveryFailure::PriorityClosed => (
            Error::Send { identity, details: "Priority channel closed" },
            Some(DeadLetterReason::ActorStopped),
        ),
        DeliveryFailure::SubscribeClosed => (
            Error::Send {
                identity,
                details: "Idle subscribe channel closed (actor is no longer alive)",
            },
            None,
        ),
        DeliveryFailure::SubscribeFull => (
            Error::ChannelFull { identity, channel: Channel::IdleSubscribe },
            None,
        ),
        DeliveryFailure::TimedOut(timeout) => (
            Error::Timeout { identity, timeout, operation },
            Some(DeadLetterReason::Timeout),
        ),
        DeliveryFailure::ReplyDropped => (
            Error::Receive { identity, details: "Reply channel closed unexpectedly" },
            Some(DeadLetterReason::ReplyDropped),
        ),
        DeliveryFailure::ReplyTypeMismatch(expected_type) => (
            Error::Downcast { identity, expected_type },
            None,
        ),
        DeliveryFailure::PriorityNotEnabled => (
            Error::PriorityChannelNotEnabled { identity },
            None,
        ),
        DeliveryFailure::IdleNotEnabled => (Error::IdleChannelNotEnabled { identity }, None),
    }
}

/// Classifies a failed delivery of `operation` to the actor `identity`:
/// the error the sender gets and, if the message became a dead letter, why.
pub fn classify_failure(identity: Identity, operation: Operation, failure: DeliveryFailure) -> (r: (
    Error,
    Option<DeadLetterReason>,
))
    ensures
        r == failure_outcome(identity, operation, failure),
        r.0 is Send <==> (failure is MailboxClosed || failure is PriorityClosed
            || failure is SubscribeClosed),
        r.0 is Receive <==> failure is ReplyDropped,
        r.1 == Some(DeadLetterReason::ActorStopped) <==> (failure is MailboxClosed
            || failure is PriorityClosed),
{
    match failure {
        DeliveryFailure::MailboxClosed => (
            Error::Send { identity, details: "Mailbox channel closed" },
            Some(DeadLetterReason::ActorStopped),
        ),
        DeliveryFailure::PriorityClosed => (
            Error::Send { identity, details: "Priority channel closed" },
            Some(DeadLetterReason::ActorStopped),
        ),
        DeliveryFailure::SubscribeClosed => (
            Error::Send {
                identity,
                details: "Idle subscribe channel closed (actor is no longer alive)",
            },
            None,
        ),
        DeliveryFailure::SubscribeFull => (
            Error::ChannelFull { identity, channel: Channel::IdleSubscribe },
            None,
        ),
        DeliveryFailure::TimedOut(timeout) => (
            Error::Timeout { identity, timeout, operation },
            Some(DeadLetterReason::Timeout),
        ),
        DeliveryFailure::ReplyDropped => (
            Error::Receive { identity, details: "Reply channel closed unexpectedly" },
            Some(DeadLetterReason::ReplyDropped),
        ),
        DeliveryFailure::ReplyTypeMismatch(expected_type) => (
            Error::Downcast { identity, expected_type },
            None,
        ),
        DeliveryFailure::PriorityNotEnabled => (
            Error::PriorityChannelNotEnabled { identity },
            None,
        ),
        DeliveryFailure::IdleNotEnabled => (Error::IdleChannelNotEnabled { identity }, None),
    }
}

/// Reports a failed delivery: records a dead letter when the message became
/// one, and returns the error for the sender together with the dead-letter
/// reason (for logging).
pub fn report_failure(
    log: &mut DeadLetters,
    identity: Identity,
    operation: Operation,
    failure: DeliveryFailure,
) -> (r: (Error, Option<DeadLetterReason>))
    ensures
        r == failure_outcome(identity, operation, failure),
        r.0 is Send <==> (failure is MailboxClosed || failure is PriorityClosed
            || failure is SubscribeClosed),
        r.0 is Receive <==> failure is ReplyDropped,
        r.1 == Some(DeadLetterReason::ActorStopped) <==> (failure is MailboxClosed
            || failure is PriorityClosed),
        r.1 is Some ==> final(log)@ == crate::metrics::wrap_add(old(log)@, 1),
        r.1 is None ==> final(log)@ == old(log)@,
{
    let r = classify_failure(identity, operation, failure);
    if r.1.is_some() {
        record(log);
    }
    r
}

/// Each failure is reported as the error that says what went wrong, for the
/// actor the message was for: a closed channel (the actor is gone) as a
/// failed send; a dropped reply as a failed receive; a missed deadline as a
/// timeout of that very operation; a full idle-subscribe buffer as that
/// channel being at capacity; a reply of another type as a failed downcast to
/// the expected type; a missing priority or idle channel as that channel not
/// being enabled. The dead letter is `ActorStopped` exactly for a closed
/// mailbox or priority channel, `Timeout` exactly for a missed deadline and
/// `ReplyDropped` exactly for a dropped reply.
pub proof fn lemma_failures_are_reported_as_what_happened(
    identity: Identity,
    operation: Operation,
    f: DeliveryFailure,
)
    ensures
        ({
            let (e, reason) = failure_outcome(identity, operation, f);
            &&& e is Send <==> (f is MailboxClosed || f is PriorityClosed || f is SubscribeClosed)
            &&& e is Receive <==> f is ReplyDropped
            &&& e is Timeout <==> f is TimedOut
            &&& e is ChannelFull <==> f is SubscribeFull
            &&& e is Downcast <==> f is ReplyTypeMismatch
            &&& e is PriorityChannelNotEnabled <==> f is PriorityNotEnabled
            &&& e is IdleChannelNotEnabled <==> f is IdleNotEnabled
            &&& !(e is Runtime) && !(e is MailboxCapacity) && !(e is Join)
            &&& e matches Error::Send { identity: i, .. } ==> i == identity
            &&& e matches Error::Receive { identity: i, .. } ==> i == identity
            &&& e matches Error::Timeout { identity: i, timeout: t, operation: o } ==> (i
                == identity && o == operation && f == DeliveryFailure::TimedOut(t))
            &&& e matches Error::ChannelFull { identity: i, channel: c } ==> (i == identity && c
                == Channel::IdleSubscribe)
            &&& e matches Error::Downcast { identity: i, expected_type: t } ==> (i == identity
                && f == DeliveryFailure::ReplyTypeMismatch(t))
            &&& e matches Error::PriorityChannelNotEnabled { identity: i } ==> i == identity
            &&& e matches Error::IdleChannelNotEnabled { identity: i } ==> i == identity
            &&& reason == Some(DeadLetterReason::ActorStopped) <==> (f is MailboxClosed
                || f is PriorityClosed)
            &&& reason == Some(DeadLetterReason::Timeout) <==> f is TimedOut
            &&& reason == Some(DeadLetterReason::ReplyDropped) <==> f is ReplyDropped
        }),
{
}

/// A dead letter is recorded exactly for the failures that lose a message:
/// a closed mailbox or priority channel, a missed deadline, a dropped reply.
/// A failed delivery is never retryable unless it timed out or met a full
/// buffer.
pub proof fn lemma_dead_letters_are_lost_messages(
    identity: Identity,
    operation: Operation,
    f: DeliveryFailure,
)
    ensures
        failure_outcome(identity, operation, f).1 is Some <==> (f is MailboxClosed
            || f is PriorityClosed || f is TimedOut || f is ReplyDropped),
        (failure_outcome(identity, operation, f).0 is Timeout || failure_outcome(
            identity,
            operation,
            f,
        ).0 is ChannelFull) <==> (f is TimedOut || f is SubscribeFull),
{
}

} // verus!
