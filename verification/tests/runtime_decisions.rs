use rsactor::dead_letter::{classify_failure, record, report_failure, DeadLetters, DeliveryFailure};
use rsactor::lifecycle::{
    finish_idle_failure, finish_stop, start_failed, LoopAction, LoopEvent, LoopState,
};
use rsactor::{
    dead_letter_count, reset_dead_letter_count, set_default_mailbox_capacity, ActorFailure,
    ActorResult, DeadLetterReason, Error, FailurePhase, Identity, Operation, SpawnOptions,
};
use std::time::Duration;

#[test]
fn dead_letter_counter_counts_and_resets() {
    let mut log = DeadLetters::new();
    record(&mut log);
    record(&mut log);
    assert_eq!(dead_letter_count(&log), 2);
    reset_dead_letter_count(&mut log);
    assert_eq!(dead_letter_count(&log), 0);
}

#[test]
fn dead_letter_reason_labels() {
    assert_eq!(DeadLetterReason::ActorStopped.to_string(), "actor stopped");
    assert_eq!(DeadLetterReason::Timeout.to_string(), "timeout");
    assert_eq!(DeadLetterReason::ReplyDropped.to_string(), "reply dropped");
}

#[test]
fn failures_map_to_errors_and_dead_letters() {
    let who = Identity::new(1, "A");
    let (e, r) = classify_failure(who, Operation::Tell, DeliveryFailure::MailboxClosed);
    assert!(matches!(e, Error::Send { details: "Mailbox channel closed", .. }));
    assert_eq!(r, Some(DeadLetterReason::ActorStopped));

    let (e, r) = classify_failure(
        who,
        Operation::AskPriority,
        DeliveryFailure::TimedOut(Duration::from_millis(5)),
    );
    assert!(matches!(
        e,
        Error::Timeout {
            operation: Operation::AskPriority,
            ..
        }
    ));
    assert_eq!(r, Some(DeadLetterReason::Timeout));

    let (e, r) = classify_failure(who, Operation::Ask, DeliveryFailure::ReplyDropped);
    assert!(matches!(e, Error::Receive { .. }));
    assert_eq!(r, Some(DeadLetterReason::ReplyDropped));

    let (e, r) = classify_failure(who, Operation::Ask, DeliveryFailure::ReplyTypeMismatch("u32"));
    assert!(matches!(e, Error::Downcast { expected_type: "u32", .. }));
    assert_eq!(r, None);

    let (e, r) = classify_failure(who, Operation::TellPriority, DeliveryFailure::PriorityNotEnabled);
    assert!(matches!(e, Error::PriorityChannelNotEnabled { .. }));
    assert_eq!(r, None);

    let (e, r) = classify_failure(who, Operation::Tell, DeliveryFailure::SubscribeFull);
    assert!(e.is_retryable());
    assert_eq!(r, None);
}

#[test]
fn report_failure_counts_only_dead_letters() {
    let mut log = DeadLetters::new();
    let who = Identity::new(1, "A");
    let _ = report_failure(&mut log, who, Operation::Tell, DeliveryFailure::PriorityClosed);
    let _ = report_failure(&mut log, who, Operation::Tell, DeliveryFailure::IdleNotEnabled);
    let _ = report_failure(&mut log, who, Operation::Tell, DeliveryFailure::SubscribeClosed);
    assert_eq!(dead_letter_count(&log), 1);
}

#[test]
fn loop_decisions() {
    let mut state = LoopState::new(true);
    assert_eq!(
        state.step(LoopEvent::MailboxMessage),
        LoopAction::ProcessMessage { priority: false }
    );
    assert_eq!(
        state.step(LoopEvent::PriorityMessage),
        LoopAction::ProcessMessage { priority: true }
    );
    assert_eq!(
        state.step(LoopEvent::MailboxStop),
        LoopAction::Stop {
            killed: false,
            drain_priority: true
        }
    );
    assert_eq!(state.step(LoopEvent::PriorityClosed), LoopAction::DisablePriority);
    assert!(!state.priority_open);
    assert_eq!(
        state.step(LoopEvent::MailboxStop),
        LoopAction::Stop {
            killed: false,
            drain_priority: false
        }
    );
    assert_eq!(
        state.step(LoopEvent::Terminate { explicit: true }),
        LoopAction::Stop {
            killed: true,
            drain_priority: false
        }
    );
    assert_eq!(
        state.step(LoopEvent::Terminate { explicit: false }),
        LoopAction::Stop {
            killed: false,
            drain_priority: false
        }
    );
    assert_eq!(state.step(LoopEvent::SubscriptionClosed), LoopAction::DisableSubscriptions);
    assert!(!state.subscribe_open);
    assert_eq!(state.step(LoopEvent::IdleEvent), LoopAction::DispatchIdle);
    assert_eq!(state.step(LoopEvent::PriorityStopRequest), LoopAction::Ignore);
}

#[test]
fn lifecycle_outcomes() {
    let r: ActorResult<&str, String> = start_failed("boom".to_string());
    assert!(r.is_startup_failed());
    assert!(!r.has_actor());
    assert_eq!(r.phase(), Some(FailurePhase::OnStart));

    let r: ActorResult<&str, String> = finish_stop("actor", true, Ok(()));
    assert!(r.is_completed());
    assert!(r.was_killed());
    assert!(!r.stopped_normally());

    let r: ActorResult<&str, String> = finish_stop("actor", false, Err("cleanup".to_string()));
    assert!(r.is_stop_failed());
    assert!(!r.is_runtime_failed());
    assert_eq!(r.error().unwrap(), "cleanup");

    let r: ActorResult<&str, String> =
        finish_idle_failure("actor", "idle".to_string(), Err("stop".to_string()), false);
    assert!(r.is_cleanup_failed());
    assert!(r.is_runtime_failed());
    assert!(r.is_stop_failed());
    assert_eq!(r.secondary_error().unwrap(), "stop");
    assert_eq!(r.into_parts(), (Some("actor"), Some("idle".to_string())));

    let r: ActorResult<&str, String> =
        finish_idle_failure("actor", "idle".to_string(), Ok(()), false);
    assert_eq!(r.phase(), Some(FailurePhase::OnIdle));
    assert!(r.secondary_error().is_none());
    assert_eq!(r.into_result(), Err("idle".to_string()));
}

#[test]
fn actor_result_accessors() {
    let r: ActorResult<u32, String> = ActorResult::Completed {
        actor: 7,
        killed: false,
    };
    assert!(r.stopped_normally());
    assert_eq!(r.actor(), Some(&7));
    assert!(r.error().is_none());
    assert_eq!(r.into_result(), Ok(7));

    let f: ActorFailure<u32, String> = ActorFailure::OnStop {
        actor: 1,
        error: "e".to_string(),
    };
    assert_eq!(f.phase(), FailurePhase::OnStop);
    assert_eq!(f.actor(), Some(&1));
    assert!(f.stop_error().is_none());
    assert_eq!(f.into_error(), "e");
    assert_eq!(FailurePhase::OnIdleThenOnStop.to_string(), "OnIdleThenOnStop");
}

#[test]
fn default_mailbox_capacity_is_set_once() {
    let mut configured = None;
    assert!(matches!(
        set_default_mailbox_capacity(&mut configured, 0),
        Err(Error::MailboxCapacity { .. })
    ));
    assert_eq!(configured, None);
    assert!(set_default_mailbox_capacity(&mut configured, 64).is_ok());
    assert_eq!(configured, Some(64));
    assert!(set_default_mailbox_capacity(&mut configured, 8).is_err());
    assert_eq!(configured, Some(64));
}

#[test]
fn spawn_options_builder() {
    let opts = SpawnOptions::new(None);
    assert_eq!(opts.mailbox_capacity, 32);
    assert!(!opts.priority_enabled);
    let opts = SpawnOptions::new(Some(5)).mailbox_capacity(64).with_priority();
    assert_eq!(opts.mailbox_capacity, 64);
    assert!(opts.priority_enabled);
}

#[test]
fn actor_result_converts_into_parts() {
    let r: ActorResult<u32, String> = ActorResult::Failed {
        failure: ActorFailure::OnIdle {
            actor: 3,
            error: "idle".to_string(),
        },
        killed: false,
    };
    let parts: (Option<u32>, Option<String>) = r.into();
    assert_eq!(parts, (Some(3), Some("idle".to_string())));
    let r: ActorResult<u32, String> = ActorResult::Failed {
        failure: ActorFailure::OnStart {
            error: "start".to_string(),
        },
        killed: false,
    };
    let parts: (Option<u32>, Option<String>) = r.into();
    assert_eq!(parts, (None, Some("start".to_string())));
}
