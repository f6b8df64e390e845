//! The decisions of an actor's runtime loop.
//!
//! The loop itself (awaiting channels, running the actor's hooks) lives with
//! the async runtime; on each turn it reports what it observed as a
//! [`LoopEvent`] and carries out the [`LoopAction`] decided here, and it
//! builds the final [`ActorResult`] with the functions below.

use crate::actor_result::{ActorFailure, ActorResult};
use vstd::prelude::*;

verus! {

/// What one turn of the runtime loop observed. The loop polls, in this
/// order of priority: the terminate channel, the priority channel (while
/// open), new idle subscriptions (while open), the regular mailbox, and the
/// subscribed idle streams (while there are any).
#[derive(Debug, Clone, Copy, PartialEq, Eq, Structural)]
pub enum LoopEvent {
    /// The terminate channel yielded: `explicit` when `kill()` sent a signal,
    /// not when the channel closed because every reference was dropped.
    Terminate { explicit: bool },
    /// A message arrived on the priority channel.
    PriorityMessage,
    /// A graceful-stop request arrived on the priority channel, which only
    /// ever carries messages.
    PriorityStopRequest,
    /// The priority channel closed.
    PriorityClosed,
    /// A new idle stream was subscribed.
    Subscription,
    /// The idle-subscribe channel closed.
    SubscriptionClosed,
    /// A message arrived in the regular mailbox.
    MailboxMessage,
    /// A graceful-stop request arrived in the mailbox, or the mailbox closed.
    MailboxStop,
    /// A subscribed idle stream yielded an event.
    IdleEvent,
}

/// What the runtime loop does next.
#[derive(Debug, Clone, Copy, PartialEq, Eq, Structural)]
pub enum LoopAction {
    /// Run the message's handler (from the priority channel or the mailbox).
    ProcessMessage { priority: bool },
    /// Add the new stream to the subscribed idle streams.
    InstallSubscription,
    /// Stop polling the priority channel.
    DisablePriority,
    /// Stop polling for new idle subscriptions.
    DisableSubscriptions,
    /// Nothing to do.
    Ignore,
    /// Run the idle handler on the event.
    DispatchIdle,
    /// Leave the loop: first, when `drain_priority` is set, close the
    /// priority channel and process the messages already queued there; then
    /// run the cleanup hook with the `killed` flag.
    Stop { killed: bool, drain_priority: bool },
}

/// Which optional channels the loop still polls.
#[derive(Debug, Clone, Copy, PartialEq, Eq, Structural)]
pub struct LoopState {
    /// The priority channel exists and has not closed.
    pub priority_open: bool,
    /// The idle-subscribe channel has not closed.
    pub subscribe_open: bool,
}

/// The action for an event in a state.
pub open spec fn action_for(state: LoopState, event: LoopEvent) -> LoopAction {
    match event {
        LoopEvent::Terminate { explicit } => LoopAction::Stop { killed: explicit, drain_priority: false },
        LoopEvent::PriorityMessage => LoopAction::ProcessMessage { priority: true },
        LoopEvent::PriorityStopRequest => LoopAction::Ignore,
        LoopEvent::PriorityClosed => LoopAction::DisablePriority,
        LoopEvent::Subscription => LoopAction::InstallSubscription,
        LoopEvent::SubscriptionClosed => LoopAction::DisableSubscriptions,
        LoopEvent::MailboxMessage => LoopAction::ProcessMessage { priority: false },
        LoopEvent::MailboxStop => LoopAction::Stop {
            killed: false,
            drain_priority: state.priority_open,
        },
        LoopEvent::IdleEvent => LoopAction::DispatchIdle,
    }
}

/// The state after an event: a closed channel is no longer polled.
pub open spec fn state_after(state: LoopState, event: LoopEvent) -> LoopState {
    match event {
        LoopEvent::PriorityClosed => LoopState { priority_open: false, ..state },
        LoopEvent::SubscriptionClosed => LoopState { subscribe_open: false, ..state },
        _ => state,
    }
}

impl LoopState {
    /// The state when the loop is entered: the priority channel is polled
    /// when the actor was spawned with one.
    pub fn new(priority_enabled: bool) -> (r: Self)
        ensures
            r.priority_open == priority_enabled,
            r.subscribe_open,
    {
        LoopState { priority_open: priority_enabled, subscribe_open: true }
    }

    /// Decides what to do with an event and updates the state.
    pub fn step(&mut self, event: LoopEvent) -> (r: LoopAction)
        ensures
            r == action_for(*old(self), event),
            *final(self) == state_after(*old(self), event),
            event is Subscription ==> r == LoopAction::InstallSubscription,
            event is PriorityMessage ==> r == (LoopAction::ProcessMessage { priority: true }),
            event is MailboxMessage ==> r == (LoopAction::ProcessMessage { priority: false }),
            event is IdleEvent ==> r == LoopAction::DispatchIdle,
    {
        let action = match event {
            LoopEvent::Terminate { explicit } => LoopAction::Stop {
                killed: explicit,
                drain_priority: false,
            },
            LoopEvent::PriorityMessage => LoopAction::ProcessMessage { priority: true },
            LoopEvent::PriorityStopRequest => LoopAction::Ignore,
            LoopEvent::PriorityClosed => LoopAction::DisablePriority,
            LoopEvent::Subscription => LoopAction::InstallSubscription,
            LoopEvent::SubscriptionClosed => LoopAction::DisableSubscriptions,
            LoopEvent::MailboxMessage => LoopAction::ProcessMessage { priority: false },
            LoopEvent::MailboxStop => LoopAction::Stop {
                killed: false,
                drain_priority: self.priority_open,
            },
            LoopEvent::IdleEvent => LoopAction::DispatchIdle,
        };
        match event {
            LoopEvent::PriorityClosed => {
                self.priority_open = false;
            },
            LoopEvent::SubscriptionClosed => {
                self.subscribe_open = false;
            },
            _ => {},
        }
        action
    }
}

/// The loop only leaves on a terminate event or a stop request in the
/// mailbox; only an explicit kill marks the actor as killed; a graceful stop
/// drains the priority channel exactly when it is still polled; and a
/// channel, once closed, is never polled again.
pub proof fn lemma_loop_decisions(state: LoopState, event: LoopEvent)
    ensures
        action_for(state, event) is Stop <==> (event is Terminate || event is MailboxStop),
        action_for(state, event) matches LoopAction::Stop { killed, .. } ==> (killed <==> (
        event matches LoopEvent::Terminate { explicit } && explicit)),
        action_for(state, event) matches LoopAction::Stop { drain_priority, .. } ==> (
        drain_priority <==> (event is MailboxStop && state.priority_open)),
        state_after(state, event).priority_open ==> state.priority_open,
        state_after(state, event).subscribe_open ==> state.subscribe_open,
{
}

/// Every event that does not end the loop is acted on as it arrives: a
/// message is processed, from the channel it came on; a newly subscribed
/// idle stream is installed, in every state; an idle event is dispatched to
/// the idle handler; a closed channel stops being polled; and a stop request
/// on the priority channel, which carries only messages, is ignored. No
/// event installs a subscription but a new subscription, and no event is
/// processed as a message but a message.
pub proof fn lemma_events_are_acted_on(state: LoopState, event: LoopEvent)
    ensures
        event is Subscription ==> action_for(state, event) == LoopAction::InstallSubscription,
        action_for(state, event) == LoopAction::InstallSubscription ==> event is Subscription,
        event is PriorityMessage ==> action_for(state, event) == (LoopAction::ProcessMessage {
            priority: true,
        }),
        event is MailboxMessage ==> action_for(state, event) == (LoopAction::ProcessMessage {
            priority: false,
        }),
        action_for(state, event) is ProcessMessage <==> (event is PriorityMessage
            || event is MailboxMessage),
        event is IdleEvent <==> action_for(state, event) == LoopAction::DispatchIdle,
        event is PriorityClosed <==> action_for(state, event) == LoopAction::DisablePriority,
        event is SubscriptionClosed <==> action_for(state, event)
            == LoopAction::DisableSubscriptions,
        event is PriorityStopRequest <==> action_for(state, event) == LoopAction::Ignore,
        !(event is PriorityClosed) ==> state_after(state, event).priority_open
            == state.priority_open,
        !(event is SubscriptionClosed) ==> state_after(state, event).subscribe_open
            == state.subscribe_open,
        event is PriorityClosed ==> !state_after(state, event).priority_open,
        event is SubscriptionClosed ==> !state_after(state, event).subscribe_open,
{
}

/// The outcome when the start-up hook fails: there is no actor, and the
/// actor was not killed.
pub fn start_failed<A, E>(error: E) -> (r: ActorResult<A, E>)
    ensures
        r == (ActorResult::<A, E>::Failed { failure: ActorFailure::<A, E>::OnStart { error }, killed: false }),
{
    ActorResult::Failed { failure: ActorFailure::<A, E>::OnStart { error }, killed: false }
}

/// The outcome after the cleanup hook ran on leaving the loop: completed
/// when it succeeded, an `OnStop` failure when it did not.
pub fn finish_stop<A, E>(actor: A, killed: bool, stop: Result<(), E>) -> (r: ActorResult<A, E>)
    ensures
        stop is Ok ==> r == (ActorResult::<A, E>::Completed { actor, killed }),
        stop matches Err(error) ==> r == (ActorResult::<A, E>::Failed {
            failure: ActorFailure::<A, E>::OnStop { actor, error },
            killed,
        }),
{
    match stop {
        Ok(()) => ActorResult::Completed { actor, killed },
        Err(error) => ActorResult::Failed { failure: ActorFailure::<A, E>::OnStop { actor, error }, killed },
    }
}

/// The outcome after an idle handler failed with `error` and the cleanup
/// hook then ran: an `OnIdle` failure when cleanup succeeded, an
/// `OnIdleThenOnStop` failure carrying both errors when it failed too.
pub fn finish_idle_failure<A, E>(actor: A, error: E, stop: Result<(), E>, killed: bool) -> (r:
    ActorResult<A, E>)
    ensures
        stop is Ok ==> r == (ActorResult::<A, E>::Failed {
            failure: ActorFailure::<A, E>::OnIdle { actor, error },
            killed,
        }),
        stop matches Err(stop_error) ==> r == (ActorResult::<A, E>::Failed {
            failure: ActorFailure::<A, E>::OnIdleThenOnStop { actor, error, stop_error },
            killed,
        }),
{
    match stop {
        Ok(()) => ActorResult::Failed { failure: ActorFailure::<A, E>::OnIdle { actor, error }, killed },
        Err(stop_error) => ActorResult::Failed {
            failure: ActorFailure::<A, E>::OnIdleThenOnStop { actor, error, stop_error },
            killed,
        },
    }
}

/// A lifecycle that leaves the loop completes exactly when its cleanup hook
/// succeeds, reports the kill flag it was stopped with, and keeps the actor;
/// one whose idle handler failed always fails, keeps the actor and reports
/// the idle error first.
pub proof fn lemma_finish_outcomes<A, E>(
    actor: A,
    error: E,
    killed: bool,
    stop: Result<(), E>,
    r_stop: ActorResult<A, E>,
    r_idle: ActorResult<A, E>,
)
    requires
        stop is Ok ==> r_stop == (ActorResult::<A, E>::Completed { actor, killed }),
        stop matches Err(e) ==> r_stop == (ActorResult::<A, E>::Failed {
            failure: ActorFailure::<A, E>::OnStop { actor, error: e },
            killed,
        }),
        stop is Ok ==> r_idle == (ActorResult::<A, E>::Failed {
            failure: ActorFailure::<A, E>::OnIdle { actor, error },
            killed,
        }),
        stop matches Err(e) ==> r_idle == (ActorResult::<A, E>::Failed {
            failure: ActorFailure::<A, E>::OnIdleThenOnStop { actor, error, stop_error: e },
            killed,
        }),
    ensures
        (r_stop is Completed) <==> (stop is Ok),
        r_stop.killed_of() == killed,
        r_stop.actor_of() == Some(actor),
        r_idle is Failed,
        r_idle.actor_of() == Some(actor),
        r_idle.error_of() == Some(error),
        r_idle.killed_of() == killed,
{
}

} // verus!
