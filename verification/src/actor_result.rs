//! The outcome of an actor's lifecycle.
//!
//! `A` is the actor type and `E` the actor's error type.

use vstd::prelude::*;

verus! {

/// The lifecycle phase in which an actor failed.
#[derive(Debug, Clone, Copy, PartialEq, Eq, Structural)]
pub enum FailurePhase {
    /// Initialisation failed; there is no actor instance.
    OnStart,
    /// An idle handler failed; the cleanup hook then succeeded.
    OnIdle,
    /// The cleanup hook failed during a normal stop or kill.
    OnStop,
    /// An idle handler failed and the cleanup hook failed too.
    OnIdleThenOnStop,
}

impl FailurePhase {
    /// The name of the phase (e.g. `"OnStart"`).
    pub fn to_string(&self) -> (s: String)
        ensures
            s@ == match *self {
                FailurePhase::OnStart => "OnStart"@,
                FailurePhase::OnIdle => "OnIdle"@,
                FailurePhase::OnStop => "OnStop"@,
                FailurePhase::OnIdleThenOnStop => "OnIdleThenOnStop"@,
            },
    {
        match self {
            FailurePhase::OnStart => String::from_str("OnStart"),
            FailurePhase::OnIdle => String::from_str("OnIdle"),
            FailurePhase::OnStop => String::from_str("OnStop"),
            FailurePhase::OnIdleThenOnStop => String::from_str("OnIdleThenOnStop"),
        }
    }
}

/// Details of an actor failure; each variant carries exactly the data its
/// phase can produce.
#[derive(Debug)]
pub enum ActorFailure<A, E> {
    /// Initialisation failed: only the error exists.
    OnStart { error: E },
    /// An idle handler failed and the cleanup hook succeeded.
    OnIdle { actor: A, error: E },
    /// The cleanup hook failed during a normal stop or kill.
    OnStop { actor: A, error: E },
    /// An idle handler failed, then the cleanup hook failed too.
    OnIdleThenOnStop { actor: A, error: E, stop_error: E },
}

impl<A, E> ActorFailure<A, E> {
    /// The phase of the failure.
    pub open spec fn phase_of(self) -> FailurePhase {
        match self {
            ActorFailure::OnStart { .. } => FailurePhase::OnStart,
            ActorFailure::OnIdle { .. } => FailurePhase::OnIdle,
            ActorFailure::OnStop { .. } => FailurePhase::OnStop,
            ActorFailure::OnIdleThenOnStop { .. } => FailurePhase::OnIdleThenOnStop,
        }
    }

    /// The primary error of the failure.
    pub open spec fn error_of(self) -> E {
        match self {
            ActorFailure::OnStart { error } => error,
            ActorFailure::OnIdle { error, .. } => error,
            ActorFailure::OnStop { error, .. } => error,
            ActorFailure::OnIdleThenOnStop { error, .. } => error,
        }
    }

    /// The actor instance, when one exists.
    pub open spec fn actor_of(self) -> Option<A> {
        match self {
            ActorFailure::OnStart { .. } => None,
            ActorFailure::OnIdle { actor, .. } => Some(actor),
            ActorFailure::OnStop { actor, .. } => Some(actor),
            ActorFailure::OnIdleThenOnStop { actor, .. } => Some(actor),
        }
    }

    /// The cleanup hook's error after an idle failure, if any.
    pub open spec fn stop_error_of(self) -> Option<E> {
        match self {
            ActorFailure::OnIdleThenOnStop { stop_error, .. } => Some(stop_error),
            _ => None,
        }
    }

    /// Returns the lifecycle phase in which the failure occurred.
    pub fn phase(&self) -> (r: FailurePhase)
        ensures
            r == self.phase_of(),
    {
        match self {
            ActorFailure::OnStart { .. } => FailurePhase::OnStart,
            ActorFailure::OnIdle { .. } => FailurePhase::OnIdle,
            ActorFailure::OnStop { .. } => FailurePhase::OnStop,
            ActorFailure::OnIdleThenOnStop { .. } => FailurePhase::OnIdleThenOnStop,
        }
    }

    /// Returns a reference to the primary error.
    pub fn error(&self) -> (r: &E)
        ensures
            *r == self.error_of(),
    {
        match self {
            ActorFailure::OnStart { error } => error,
            ActorFailure::OnIdle { error, .. } => error,
            ActorFailure::OnStop { error, .. } => error,
            ActorFailure::OnIdleThenOnStop { error, .. } => error,
        }
    }

    /// Consumes the failure and returns the primary error.
    pub fn into_error(self) -> (r: E)
        ensures
            r == self.error_of(),
    {
        match self {
            ActorFailure::OnStart { error } => error,
            ActorFailure::OnIdle { error, .. } => error,
            ActorFailure::OnStop { error, .. } => error,
            ActorFailure::OnIdleThenOnStop { error, .. } => error,
        }
    }

    /// Returns a reference to the actor instance, if available.
    pub fn actor(&self) -> (r: Option<&A>)
        ensures
            r is Some == self.actor_of() is Some,
            r matches Some(a) ==> *a == self.actor_of()->0,
    {
        match self {
            ActorFailure::OnStart { .. } => None,
            ActorFailure::OnIdle { actor, .. } => Some(actor),
            ActorFailure::OnStop { actor, .. } => Some(actor),
            ActorFailure::OnIdleThenOnStop { actor, .. } => Some(actor),
        }
    }

    /// Consumes the failure and returns the actor instance, if available.
    pub fn into_actor(self) -> (r: Option<A>)
        ensures
            r == self.actor_of(),
    {
        match self {
            ActorFailure::OnStart { .. } => None,
            ActorFailure::OnIdle { actor, .. } => Some(actor),
            ActorFailure::OnStop { actor, .. } => Some(actor),
            ActorFailure::OnIdleThenOnStop { actor, .. } => Some(actor),
        }
    }

    /// Returns a reference to the cleanup error after an idle failure.
    pub fn stop_error(&self) -> (r: Option<&E>)
        ensures
            r is Some == self.stop_error_of() is Some,
            r matches Some(e) ==> *e == self.stop_error_of()->0,
    {
        match self {
            ActorFailure::OnIdleThenOnStop { stop_error, .. } => Some(stop_error),
            _ => None,
        }
    }

    /// Consumes the failure and returns the cleanup error, if any.
    pub fn into_stop_error(self) -> (r: Option<E>)
        ensures
            r == self.stop_error_of(),
    {
        match self {
            ActorFailure::OnIdleThenOnStop { stop_error, .. } => Some(stop_error),
            _ => None,
        }
    }
}

/// The outcome of an actor's lifecycle.
#[derive(Debug)]
pub enum ActorResult<A, E> {
    /// The actor stopped without failure; `killed` tells a kill from a
    /// graceful stop.
    Completed { actor: A, killed: bool },
    /// The actor failed; `killed` tells whether the failing lifecycle was
    /// ended by a kill.
    Failed { failure: ActorFailure<A, E>, killed: bool },
}

impl<A, E> ActorResult<A, E> {
    /// The actor instance, when one exists.
    pub open spec fn actor_of(self) -> Option<A> {
        match self {
            ActorResult::Completed { actor, .. } => Some(actor),
            ActorResult::Failed { failure, .. } => failure.actor_of(),
        }
    }

    /// The primary error, for a failure.
    pub open spec fn error_of(self) -> Option<E> {
        match self {
            ActorResult::Completed { .. } => None,
            ActorResult::Failed { failure, .. } => Some(failure.error_of()),
        }
    }

    /// The cleanup error after an idle failure, if any.
    pub open spec fn secondary_error_of(self) -> Option<E> {
        match self {
            ActorResult::Completed { .. } => None,
            ActorResult::Failed { failure, .. } => failure.stop_error_of(),
        }
    }

    /// The failure phase, for a failure.
    pub open spec fn phase_of(self) -> Option<FailurePhase> {
        match self {
            ActorResult::Completed { .. } => None,
            ActorResult::Failed { failure, .. } => Some(failure.phase_of()),
        }
    }

    /// Whether the lifecycle was ended by a kill.
    pub open spec fn killed_of(self) -> bool {
        match self {
            ActorResult::Completed { killed, .. } => killed,
            ActorResult::Failed { killed, .. } => killed,
        }
    }

    /// Returns `true` if the actor completed without failure.
    pub fn is_completed(&self) -> (r: bool)
        ensures
            r == self is Completed,
    {
        match self {
            ActorResult::Completed { .. } => true,
            _ => false,
        }
    }

    /// Returns `true` if the actor was killed, completed or failed.
    pub fn was_killed(&self) -> (r: bool)
        ensures
            r == self.killed_of(),
    {
        match self {
            ActorResult::Completed { killed, .. } => *killed,
            ActorResult::Failed { killed, .. } => *killed,
        }
    }

    /// Returns `true` if the actor completed and was not killed.
    pub fn stopped_normally(&self) -> (r: bool)
        ensures
            r == (self is Completed && !self.killed_of()),
    {
        match self {
            ActorResult::Completed { killed, .. } => !*killed,
            _ => false,
        }
    }

    /// Returns the failure phase, or `None` for a completed actor.
    pub fn phase(&self) -> (r: Option<FailurePhase>)
        ensures
            r == self.phase_of(),
    {
        match self {
            ActorResult::Completed { .. } => None,
            ActorResult::Failed { failure, .. } => Some(failure.phase()),
        }
    }

    /// Returns `true` if the actor failed during initialisation.
    pub fn is_startup_failed(&self) -> (r: bool)
        ensures
            r == (self.phase_of() == Some(FailurePhase::OnStart)),
    {
        match self {
            ActorResult::Failed { failure: ActorFailure::OnStart { .. }, .. } => true,
            _ => false,
        }
    }

    /// Returns `true` if an idle handler failed (whether or not the cleanup
    /// hook failed as well).
    pub fn is_runtime_failed(&self) -> (r: bool)
        ensures
            r == (self.phase_of() == Some(FailurePhase::OnIdle) || self.phase_of() == Some(
                FailurePhase::OnIdleThenOnStop,
            )),
    {
        match self {
            ActorResult::Failed { failure: ActorFailure::OnIdle { .. }, .. } => true,
            ActorResult::Failed { failure: ActorFailure::OnIdleThenOnStop { .. }, .. } => true,
            _ => false,
        }
    }

    /// Returns `true` only when the cleanup hook failed after an idle
    /// failure.
    pub fn is_cleanup_failed(&self) -> (r: bool)
        ensures
            r == (self.phase_of() == Some(FailurePhase::OnIdleThenOnStop)),
    {
        match self {
            ActorResult::Failed { failure: ActorFailure::OnIdleThenOnStop { .. }, .. } => true,
            _ => false,
        }
    }

    /// Returns `true` if the cleanup hook failed, whatever triggered it.
    pub fn is_stop_failed(&self) -> (r: bool)
        ensures
            r == (self.phase_of() == Some(FailurePhase::OnStop) || self.phase_of() == Some(
                FailurePhase::OnIdleThenOnStop,
            )),
    {
        match self {
            ActorResult::Failed { failure: ActorFailure::OnStop { .. }, .. } => true,
            ActorResult::Failed { failure: ActorFailure::OnIdleThenOnStop { .. }, .. } => true,
            _ => false,
        }
    }

    /// Returns a reference to the actor instance, if available.
    pub fn actor(&self) -> (r: Option<&A>)
        ensures
            r is Some == self.actor_of() is Some,
            r matches Some(a) ==> *a == self.actor_of()->0,
    {
        match self {
            ActorResult::Completed { actor, .. } => Some(actor),
            ActorResult::Failed { failure, .. } => failure.actor(),
        }
    }

    /// Consumes the result and returns the actor instance, if available.
    pub fn into_actor(self) -> (r: Option<A>)
        ensures
            r == self.actor_of(),
    {
        match self {
            ActorResult::Completed { actor, .. } => Some(actor),
            ActorResult::Failed { failure, .. } => failure.into_actor(),
        }
    }

    /// Returns a reference to the primary error, if the actor failed.
    pub fn error(&self) -> (r: Option<&E>)
        ensures
            r is Some == self.error_of() is Some,
            r matches Some(e) ==> *e == self.error_of()->0,
    {
        match self {
            ActorResult::Completed { .. } => None,
            ActorResult::Failed { failure, .. } => Some(failure.error()),
        }
    }

    /// Consumes the result and returns the primary error, if the actor failed.
    pub fn into_error(self) -> (r: Option<E>)
        ensures
            r == self.error_of(),
    {
        match self {
            ActorResult::Completed { .. } => None,
            ActorResult::Failed { failure, .. } => Some(failure.into_error()),
        }
    }

    /// Returns a reference to the cleanup error after an idle failure.
    pub fn secondary_error(&self) -> (r: Option<&E>)
        ensures
            r is Some == self.secondary_error_of() is Some,
            r matches Some(e) ==> *e == self.secondary_error_of()->0,
    {
        match self {
            ActorResult::Failed { failure, .. } => failure.stop_error(),
            ActorResult::Completed { .. } => None,
        }
    }

    /// Consumes the result and returns the cleanup error, if any.
    pub fn into_secondary_error(self) -> (r: Option<E>)
        ensures
            r == self.secondary_error_of(),
    {
        match self {
            ActorResult::Failed { failure, .. } => failure.into_stop_error(),
            ActorResult::Completed { .. } => None,
        }
    }

    /// Returns `true` if the actor failed.
    pub fn is_failed(&self) -> (r: bool)
        ensures
            r == self is Failed,
    {
        !self.is_completed()
    }

    /// Returns `true` if the result holds an actor instance.
    pub fn has_actor(&self) -> (r: bool)
        ensures
            r == self.actor_of() is Some,
    {
        self.actor().is_some()
    }

    /// Converts into a standard `Result`: the actor on completion, the
    /// primary error on failure.
    pub fn into_result(self) -> (r: Result<A, E>)
        ensures
            self is Completed ==> r == Ok::<A, E>(self.actor_of()->0),
            self is Failed ==> r == Err::<A, E>(self.error_of()->0),
    {
        match self {
            ActorResult::Completed { actor, .. } => Ok(actor),
            ActorResult::Failed { failure, .. } => Err(failure.into_error()),
        }
    }

    /// Splits the result into the actor instance and the primary error, each
    /// when available.
    pub fn into_parts(self) -> (r: (Option<A>, Option<E>))
        ensures
            r == (self.actor_of(), self.error_of()),
    {
        match self {
            ActorResult::Completed { actor, .. } => (Some(actor), None),
            ActorResult::Failed { failure, .. } => match failure {
                ActorFailure::OnStart { error } => (None, Some(error)),
                ActorFailure::OnIdle { actor, error } => (Some(actor), Some(error)),
                ActorFailure::OnStop { actor, error } => (Some(actor), Some(error)),
                ActorFailure::OnIdleThenOnStop { actor, error, .. } => (Some(actor), Some(error)),
            },
        }
    }
}

impl<A, E> From<ActorResult<A, E>> for (Option<A>, Option<E>) {
    /// The actor instance and the primary error, each when available.
    fn from(result: ActorResult<A, E>) -> (r: (Option<A>, Option<E>)) {
        result.into_parts()
    }
}

impl<A, E> vstd::std_specs::convert::FromSpecImpl<ActorResult<A, E>> for (Option<A>, Option<E>) {
    open spec fn obeys_from_spec() -> bool {
        true
    }

    open spec fn from_spec(v: ActorResult<A, E>) -> (Option<A>, Option<E>) {
        (v.actor_of(), v.error_of())
    }
}

/// A failed start-up is the only outcome without an actor; a completed
/// lifecycle carries no error; exactly the idle-then-cleanup failure carries
/// a secondary error.
pub proof fn lemma_result_shapes<A, E>(r: ActorResult<A, E>)
    ensures
        r.actor_of() is None <==> r.phase_of() == Some(FailurePhase::OnStart),
        r.error_of() is None <==> r is Completed,
        r.secondary_error_of() is Some <==> r.phase_of() == Some(FailurePhase::OnIdleThenOnStop),
{
}

} // verus!
