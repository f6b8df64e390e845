//! Errors of actor operations, their classification and their rendering.

use crate::identity::{identity_text, Identity};
use std::sync::Arc;
use std::time::Duration;
use vstd::prelude::*;

verus! {

/// A failure reported by the task runtime when a spawned task panicked or was
/// cancelled (`tokio::task::JoinError`), carried opaquely.
#[verifier::external_type_specification]
#[verifier::external_body]
pub struct ExJoinError(tokio::task::JoinError);

/// An operating-system level failure (`std::io::Error`), carried opaquely.
#[verifier::external_type_specification]
#[verifier::external_body]
pub struct ExIoError(std::io::Error);

/// `std::time::Duration` is `Copy`; its `clone` returns the same duration.
pub assume_specification[<Duration as Clone>::clone](d: &Duration) -> (r: Duration)
    ensures
        r == *d,
;

/// Identifies the operation family that produced an [`Error::Timeout`].
#[derive(Debug, Clone, Copy, PartialEq, Eq, Hash, Structural)]
#[non_exhaustive]
pub enum Operation {
    Tell,
    Ask,
    TellPriority,
    AskPriority,
    BlockingTell,
    BlockingTellPriority,
    BlockingAsk,
    BlockingAskPriority,
}

/// The stable label of an operation: the name of the public method.
pub open spec fn operation_label(op: Operation) -> Seq<char> {
    match op {
        Operation::Tell => "tell"@,
        Operation::Ask => "ask"@,
        Operation::TellPriority => "tell_priority"@,
        Operation::AskPriority => "ask_priority"@,
        Operation::BlockingTell => "blocking_tell"@,
        Operation::BlockingTellPriority => "blocking_tell_priority"@,
        Operation::BlockingAsk => "blocking_ask"@,
        Operation::BlockingAskPriority => "blocking_ask_priority"@,
    }
}

impl Operation {
    /// Returns the stable string label for this operation (e.g. `"tell"`).
    pub fn as_str(self) -> (s: &'static str)
        ensures
            s@ == operation_label(self),
    {
        match self {
            Operation::Tell => "tell",
            Operation::Ask => "ask",
            Operation::TellPriority => "tell_priority",
            Operation::AskPriority => "ask_priority",
            Operation::BlockingTell => "blocking_tell",
            Operation::BlockingTellPriority => "blocking_tell_priority",
            Operation::BlockingAsk => "blocking_ask",
            Operation::BlockingAskPriority => "blocking_ask_priority",
        }
    }

    /// The label as an owned string; it agrees with [`as_str`](Self::as_str).
    pub fn to_string(&self) -> (s: String)
        ensures
            s@ == operation_label(*self),
    {
        String::from_str(self.as_str())
    }
}

/// Identifies which bounded channel produced an [`Error::ChannelFull`].
#[derive(Debug, Clone, Copy, PartialEq, Eq, Hash, Structural)]
#[non_exhaustive]
pub enum Channel {
    /// The per-actor idle-subscribe buffer.
    IdleSubscribe,
}

/// The stable label of a channel.
pub open spec fn channel_label(c: Channel) -> Seq<char> {
    match c {
        Channel::IdleSubscribe => "idle_subscribe"@,
    }
}

impl Channel {
    /// Returns the stable string label for this channel (e.g. `"idle_subscribe"`).
    pub fn as_str(self) -> (s: &'static str)
        ensures
            s@ == channel_label(self),
    {
        match self {
            Channel::IdleSubscribe => "idle_subscribe",
        }
    }

    /// The label as an owned string; it agrees with [`as_str`](Self::as_str).
    pub fn to_string(&self) -> (s: String)
        ensures
            s@ == channel_label(*self),
    {
        String::from_str(self.as_str())
    }
}

/// Errors that can occur in actor operations.
#[derive(Debug, Clone)]
#[non_exhaustive]
pub enum Error {
    /// Sending to a channel that has been closed (the actor is no longer alive).
    Send { identity: Identity, details: &'static str },
    /// A bounded channel is currently at capacity (transient).
    ChannelFull { identity: Identity, channel: Channel },
    /// Receiving a reply failed.
    Receive { identity: Identity, details: &'static str },
    /// A request timed out.
    Timeout { identity: Identity, timeout: Duration, operation: Operation },
    /// A reply could not be downcast to the expected type.
    Downcast { identity: Identity, expected_type: &'static str },
    /// A blocking call could not build or run its temporary runtime.
    Runtime { identity: Identity, details: String, source: Option<Arc<std::io::Error>> },
    /// Mailbox capacity misconfiguration.
    MailboxCapacity { message: &'static str },
    /// Awaiting a spawned task failed.
    Join { identity: Identity, source: Arc<tokio::task::JoinError> },
    /// A priority operation on an actor spawned without a priority channel.
    PriorityChannelNotEnabled { identity: Identity },
    /// An idle-channel operation on an actor spawned without an idle channel.
    IdleChannelNotEnabled { identity: Identity },
}

/// The underlying cause of an error, where it has one.
#[derive(Debug)]
pub enum ErrorSource<'a> {
    /// The task failure behind [`Error::Join`].
    Join(&'a tokio::task::JoinError),
    /// The operating-system failure behind [`Error::Runtime`].
    Io(&'a std::io::Error),
}

/// The `Debug` rendering of a `std::time::Duration` (e.g. `1.5s`).
pub uninterp spec fn duration_debug_text(d: Duration) -> Seq<char>;

/// The `Display` rendering of a `tokio::task::JoinError` (e.g. `task 7
/// panicked with message "boom"`).
pub uninterp spec fn join_error_display_text(e: tokio::task::JoinError) -> Seq<char>;

/// Calls the `Debug` rendering of `std::time::Duration` (e.g. `1.5s`); the
/// text is [`duration_debug_text`] of the duration.
#[verifier::external_body]
fn duration_text(d: &Duration) -> (s: String)
    ensures
        s@ == duration_debug_text(*d),
{
    format!("{:?}", d)
}

/// Calls the `Display` rendering of `tokio::task::JoinError`; the text is
/// [`join_error_display_text`] of the failure.
#[verifier::external_body]
fn join_error_text(e: &tokio::task::JoinError) -> (s: String)
    ensures
        s@ == join_error_display_text(*e),
{
    format!("{}", e)
}

/// Appends the rendering of `identity` to `s`.
fn push_identity(s: &mut String, identity: &Identity)
    ensures
        final(s)@ == old(s)@ + identity_text(*identity),
{
    let t = identity.to_string();
    s.append(t.as_str());
}

/// The debugging tips of each kind of error, in order.
pub open spec fn error_tips(e: Error) -> Seq<Seq<char>> {
    match e {
        Error::Send { .. } => seq!["Verify the actor is still running with `actor_ref.is_alive()`"@, "The actor's mailbox is closed - the actor has terminated"@, "Consider using `ActorWeak` for long-lived references"@],
        Error::ChannelFull { .. } => seq!["Transient failure - the actor is alive and its runtime loop drains the buffer"@, "Retry only from OUTSIDE the target actor: the buffer drains between handler invocations, so a retry loop inside the actor's own on_start/handler spins forever and cannot be kill()ed"@, "For subscribe_idle specifically, spawn with SpawnOptions::with_idle_capacity(n) if you regularly fan out more than 32 streams, merge sources into one stream (futures::stream::select_all), or batch subscriptions across handler invocations"@, "The rejected stream is returned in IdleSubscribeError - reuse it for the retry"@],
        Error::Receive { .. } => seq!["The actor dropped the reply channel before responding"@, "Check if the message handler panicked or returned early"@, "Verify the handler correctly awaits async operations"@],
        Error::Timeout { .. } => seq!["Consider increasing the timeout duration"@, "Check if the actor is processing a slow operation"@, "Verify there's no deadlock in the message handler"@, "Use `tell` instead if you don't need a response"@],
        Error::Downcast { .. } => seq!["The handler returned a different type than expected"@, "Verify the Message trait impl returns correct Reply type"@, "This usually indicates a bug in handler implementation"@],
        Error::Runtime { .. } => seq!["Emitted when a blocking_* call fails to build or run its dedicated temporary runtime"@, "Match on `Error::Runtime { source, .. }` and inspect `source` for the underlying cause (e.g. std::io::Error)"@, "This usually indicates OS resource exhaustion (unable to spawn a thread or build a runtime)"@, "Prefer calling blocking_* from within an existing multi-thread runtime, or use the async ask()/tell() APIs"@],
        Error::MailboxCapacity { .. } => seq!["Mailbox capacity must be greater than 0"@, "set_default_mailbox_capacity() can only be called once"@, "Call it early in main() before spawning actors"@],
        Error::Join { .. } => seq!["The spawned task panicked or was cancelled by the runtime"@, "Run with RUST_BACKTRACE=1 or RUST_BACKTRACE=full for panic details"@, "Match on `Error::Join { source, .. }` and use `source.is_panic()` / `source.is_cancelled()` to distinguish the cause"@, "Check for unwrap(), expect(), or panic!() calls in actor code"@, "Verify tokio runtime wasn't shut down while actor was running"@],
        Error::PriorityChannelNotEnabled { .. } => seq!["Spawn the actor with SpawnOptions::new().with_priority() via spawn_with_options()"@, "Use ActorRef::has_priority_channel() to check before sending priority messages"@, "If priority is not required, use the regular tell()/ask() methods instead"@],
        Error::IdleChannelNotEnabled { .. } => seq!["Spawn the actor with SpawnOptions::new().with_idle() via spawn_with_options()"@, "Use ActorRef::has_idle_channel() to check before calling subscribe_idle()"@, "on_idle is only driven when the idle channel is enabled"@],
    }
}

/// The part of an error's text that outside code renders: a timeout's
/// duration, a join failure's task failure, nothing otherwise.
pub open spec fn outside_text(e: Error) -> Seq<char> {
    match e {
        Error::Timeout { timeout, .. } => duration_debug_text(timeout),
        Error::Join { source, .. } => join_error_display_text(*source),
        _ => Seq::empty(),
    }
}

/// How an error is rendered, given the renderings of its duration or task
/// failure (which come from outside code).
pub open spec fn error_text(e: Error, outside: Seq<char>) -> Seq<char> {
    match e {
        Error::Send { identity, details } => "Failed to send message to actor "@ + identity_text(
            identity,
        ) + ": "@ + details@,
        Error::ChannelFull { identity, channel } => "Bounded channel '"@ + channel_label(channel)
            + "' for actor "@ + identity_text(identity) + " is at capacity"@,
        Error::Receive { identity, details } => "Failed to receive reply from actor "@
            + identity_text(identity) + ": "@ + details@,
        Error::Timeout { identity, timeout, operation } => operation_label(operation)
            + " operation to actor "@ + identity_text(identity) + " timed out after "@ + outside,
        Error::Downcast { identity, expected_type } => "Failed to downcast reply from actor "@
            + identity_text(identity) + " to expected type '"@ + expected_type@ + "'"@,
        Error::Runtime { identity, details, .. } => "Runtime error in actor "@ + identity_text(
            identity,
        ) + ": "@ + details@,
        Error::MailboxCapacity { message } => "Mailbox capacity error: "@ + message@,
        Error::Join { identity, .. } => "Failed to join spawned task from actor "@
            + identity_text(identity) + ": "@ + outside,
        Error::PriorityChannelNotEnabled { identity } => "Priority channel is not enabled for actor "@
            + identity_text(identity)
            + ": enable it via SpawnOptions::with_priority()"@,
        Error::IdleChannelNotEnabled { identity } => "Idle channel is not enabled for actor "@
            + identity_text(identity) + ": enable it via SpawnOptions::with_idle()"@,
    }
}

impl Error {
    /// A human-readable description of the error; a timeout's duration is
    /// rendered with its `Debug` text and a task failure with its `Display`
    /// text.
    pub fn to_string(&self) -> (s: String)
        ensures
            s@ == error_text(*self, outside_text(*self)),
    {
        match self {
            Error::Send { identity, details } => {
                let mut s = String::from_str("Failed to send message to actor ");
                push_identity(&mut s, identity);
                s.append(": ");
                s.append(details);
                s
            },
            Error::ChannelFull { identity, channel } => {
                let mut s = String::from_str("Bounded channel '");
                s.append(channel.as_str());
                s.append("' for actor ");
                push_identity(&mut s, identity);
                s.append(" is at capacity");
                s
            },
            Error::Receive { identity, details } => {
                let mut s = String::from_str("Failed to receive reply from actor ");
                push_identity(&mut s, identity);
                s.append(": ");
                s.append(details);
                s
            },
            Error::Timeout { identity, timeout, operation } => {
                let mut s = String::from_str(operation.as_str());
                s.append(" operation to actor ");
                push_identity(&mut s, identity);
                s.append(" timed out after ");
                let t = duration_text(timeout);
                s.append(t.as_str());
                                s
            },
            Error::Downcast { identity, expected_type } => {
                let mut s = String::from_str("Failed to downcast reply from actor ");
                push_identity(&mut s, identity);
                s.append(" to expected type '");
                s.append(expected_type);
                s.append("'");
                s
            },
            Error::Runtime { identity, details, .. } => {
                let mut s = String::from_str("Runtime error in actor ");
                push_identity(&mut s, identity);
                s.append(": ");
                s.append(details.as_str());
                s
            },
            Error::MailboxCapacity { message } => {
                let mut s = String::from_str("Mailbox capacity error: ");
                s.append(message);
                s
            },
            Error::Join { identity, source } => {
                let mut s = String::from_str("Failed to join spawned task from actor ");
                push_identity(&mut s, identity);
                s.append(": ");
                let t = join_error_text(&**source);
                s.append(t.as_str());
                                s
            },
            Error::PriorityChannelNotEnabled { identity } => {
                let mut s = String::from_str("Priority channel is not enabled for actor ");
                push_identity(&mut s, identity);
                s.append(": enable it via SpawnOptions::with_priority()");
                s
            },
            Error::IdleChannelNotEnabled { identity } => {
                let mut s = String::from_str("Idle channel is not enabled for actor ");
                push_identity(&mut s, identity);
                s.append(": enable it via SpawnOptions::with_idle()");
                s
            },
        }
    }


    /// Returns whether this error might succeed if retried: only the
    /// transient `Timeout` and `ChannelFull`.
    pub fn is_retryable(&self) -> (r: bool)
        ensures
            r <==> (self is Timeout || self is ChannelFull),
    {
        match self {
            Error::Timeout { .. } => true,
            Error::ChannelFull { .. } => true,
            _ => false,
        }
    }

    /// Returns actionable debugging tips for this error.
    pub fn debugging_tips(&self) -> (r: &'static [&'static str])
        ensures
            r@.len() == error_tips(*self).len(),
            forall|i: int| 0 <= i < r@.len() ==> (#[trigger] r@[i])@ == error_tips(*self)[i],
    {
        match self {
            Error::Send { .. } => &[
                "Verify the actor is still running with `actor_ref.is_alive()`",
                "The actor's mailbox is closed - the actor has terminated",
                "Consider using `ActorWeak` for long-lived references",
            ],
            Error::ChannelFull { .. } => &[
                "Transient failure - the actor is alive and its runtime loop drains the buffer",
                "Retry only from OUTSIDE the target actor: the buffer drains between handler invocations, so a retry loop inside the actor's own on_start/handler spins forever and cannot be kill()ed",
                "For subscribe_idle specifically, spawn with SpawnOptions::with_idle_capacity(n) if you regularly fan out more than 32 streams, merge sources into one stream (futures::stream::select_all), or batch subscriptions across handler invocations",
                "The rejected stream is returned in IdleSubscribeError - reuse it for the retry",
            ],
            Error::Receive { .. } => &[
                "The actor dropped the reply channel before responding",
                "Check if the message handler panicked or returned early",
                "Verify the handler correctly awaits async operations",
            ],
            Error::Timeout { .. } => &[
                "Consider increasing the timeout duration",
                "Check if the actor is processing a slow operation",
                "Verify there's no deadlock in the message handler",
                "Use `tell` instead if you don't need a response",
            ],
            Error::Downcast { .. } => &[
                "The handler returned a different type than expected",
                "Verify the Message trait impl returns correct Reply type",
                "This usually indicates a bug in handler implementation",
            ],
            Error::Runtime { .. } => &[
                "Emitted when a blocking_* call fails to build or run its dedicated temporary runtime",
                "Match on `Error::Runtime { source, .. }` and inspect `source` for the underlying cause (e.g. std::io::Error)",
                "This usually indicates OS resource exhaustion (unable to spawn a thread or build a runtime)",
                "Prefer calling blocking_* from within an existing multi-thread runtime, or use the async ask()/tell() APIs",
            ],
            Error::MailboxCapacity { .. } => &[
                "Mailbox capacity must be greater than 0",
                "set_default_mailbox_capacity() can only be called once",
                "Call it early in main() before spawning actors",
            ],
            Error::Join { .. } => &[
                "The spawned task panicked or was cancelled by the runtime",
                "Run with RUST_BACKTRACE=1 or RUST_BACKTRACE=full for panic details",
                "Match on `Error::Join { source, .. }` and use `source.is_panic()` / `source.is_cancelled()` to distinguish the cause",
                "Check for unwrap(), expect(), or panic!() calls in actor code",
                "Verify tokio runtime wasn't shut down while actor was running",
            ],
            Error::PriorityChannelNotEnabled { .. } => &[
                "Spawn the actor with SpawnOptions::new().with_priority() via spawn_with_options()",
                "Use ActorRef::has_priority_channel() to check before sending priority messages",
                "If priority is not required, use the regular tell()/ask() methods instead",
            ],
            Error::IdleChannelNotEnabled { .. } => &[
                "Spawn the actor with SpawnOptions::new().with_idle() via spawn_with_options()",
                "Use ActorRef::has_idle_channel() to check before calling subscribe_idle()",
                "on_idle is only driven when the idle channel is enabled",
            ],
        }
    }

    /// The underlying cause: the task failure of a `Join` error, the
    /// operating-system failure of a `Runtime` error that has one, and
    /// nothing otherwise.
    pub fn source(&self) -> (r: Option<ErrorSource<'_>>)
        ensures
            r is Some <==> (self is Join || (self matches Error::Runtime { source, .. }
                && source is Some)),
            self matches Error::Join { source, .. } ==> r == Some(ErrorSource::Join(&*source)),
            self matches Error::Runtime { source: Some(src), .. } ==> r == Some(
                ErrorSource::Io(&*src),
            ),
    {
        match self {
            Error::Join { source, .. } => Some(ErrorSource::Join(&**source)),
            Error::Runtime { source: Some(src), .. } => Some(ErrorSource::Io(&**src)),
            _ => None,
        }
    }
}

} // verus!
