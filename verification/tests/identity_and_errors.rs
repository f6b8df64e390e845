use rsactor::error::ErrorSource;
use rsactor::identity::decimal_text;
use rsactor::{Channel, Error, Identity, Operation};
use std::sync::Arc;
use std::time::Duration;

#[test]
fn operation_and_channel_labels_round_trip() {
    // `as_str` and the rendered label must agree.
    for (op, label) in [
        (Operation::Tell, "tell"),
        (Operation::Ask, "ask"),
        (Operation::TellPriority, "tell_priority"),
        (Operation::AskPriority, "ask_priority"),
        (Operation::BlockingTell, "blocking_tell"),
        (Operation::BlockingTellPriority, "blocking_tell_priority"),
        (Operation::BlockingAsk, "blocking_ask"),
        (Operation::BlockingAskPriority, "blocking_ask_priority"),
    ] {
        assert_eq!(op.as_str(), label);
        assert_eq!(op.to_string(), label);
    }
    assert_eq!(Channel::IdleSubscribe.as_str(), "idle_subscribe");
    assert_eq!(Channel::IdleSubscribe.to_string(), "idle_subscribe");
}

#[test]
fn is_retryable_for_all_variants() {
    let identity = Identity::new(1, "TestActor");

    // Timeout and ChannelFull are the transient (retryable) variants.
    let timeout_err = Error::Timeout {
        identity,
        timeout: Duration::from_secs(1),
        operation: Operation::Ask,
    };
    assert!(timeout_err.is_retryable());

    let channel_full = Error::ChannelFull {
        identity,
        channel: Channel::IdleSubscribe,
    };
    assert!(channel_full.is_retryable());

    // All others are NOT retryable.
    let send_err = Error::Send {
        identity,
        details: "channel closed",
    };
    assert!(!send_err.is_retryable());

    let receive_err = Error::Receive {
        identity,
        details: "channel closed",
    };
    assert!(!receive_err.is_retryable());

    let downcast_err = Error::Downcast {
        identity,
        expected_type: "String",
    };
    assert!(!downcast_err.is_retryable());

    let runtime_err = Error::Runtime {
        identity,
        details: "test error".into(),
        source: None,
    };
    assert!(!runtime_err.is_retryable());

    let mailbox_err = Error::MailboxCapacity {
        message: "invalid capacity",
    };
    assert!(!mailbox_err.is_retryable());
}

#[test]
fn all_errors_have_debugging_tips() {
    let identity = Identity::new(1, "TestActor");

    let errors: Vec<Error> = vec![
        Error::Send {
            identity,
            details: "test",
        },
        Error::Receive {
            identity,
            details: "test",
        },
        Error::Timeout {
            identity,
            timeout: Duration::from_secs(1),
            operation: Operation::Ask,
        },
        Error::Downcast {
            identity,
            expected_type: "String",
        },
        Error::Runtime {
            identity,
            details: "test".into(),
            source: None,
        },
        Error::MailboxCapacity { message: "test" },
    ];

    for err in &errors {
        let tips = err.debugging_tips();
        assert!(!tips.is_empty(), "Missing tips for: {:?}", err);
        for tip in tips {
            assert!(tip.len() > 10, "Tip too short to be useful: {}", tip);
        }
    }
}

#[test]
fn runtime_error_tips_are_specific() {
    let identity = Identity::new(1, "TestActor");
    let err = Error::Runtime {
        identity,
        details: "test".into(),
        source: None,
    };
    let tips = err.debugging_tips();

    let tips_text = tips.join(" ");
    assert!(
        tips_text.contains("blocking"),
        "Runtime tips should mention the blocking_* runtime source"
    );
    assert!(
        tips_text.contains("source"),
        "Runtime tips should point at the chainable source"
    );
}

#[test]
fn downcast_error_debugging_tips() {
    let identity = Identity::new(1, "TestActor");
    let err = Error::Downcast {
        identity,
        expected_type: "String",
    };

    let tips = err.debugging_tips();
    assert!(!tips.is_empty(), "Downcast error should have tips");

    let tips_text = tips.join(" ");
    assert!(
        tips_text.contains("Message") || tips_text.contains("handler"),
        "Downcast tips should mention Message trait or handler"
    );
}

#[test]
fn mailbox_capacity_error_tips() {
    let err = Error::MailboxCapacity {
        message: "capacity must be greater than 0",
    };

    let tips = err.debugging_tips();
    assert!(!tips.is_empty(), "MailboxCapacity should have debugging tips");

    let tips_text = tips.join(" ");
    assert!(
        tips_text.contains("greater than 0") || tips_text.contains("capacity"),
        "Tips should mention capacity requirements"
    );
    assert!(
        tips_text.contains("set_default_mailbox_capacity") || tips_text.contains("once"),
        "Tips should mention set_default_mailbox_capacity behavior"
    );
}

#[test]
fn error_display_all_variants() {
    let identity = Identity::new(1, "TestActor");

    let errors = vec![
        Error::Send {
            identity,
            details: "channel closed",
        },
        Error::Receive {
            identity,
            details: "reply dropped",
        },
        Error::Timeout {
            identity,
            timeout: Duration::from_secs(5),
            operation: Operation::Ask,
        },
        Error::Downcast {
            identity,
            expected_type: "String",
        },
        Error::Runtime {
            identity,
            details: "panic in handler".into(),
            source: None,
        },
        Error::MailboxCapacity {
            message: "capacity must be > 0",
        },
        Error::ChannelFull {
            identity,
            channel: Channel::IdleSubscribe,
        },
    ];

    for err in &errors {
        let display = err.to_string();
        assert!(!display.is_empty(), "Display should not be empty");
        assert!(display.len() > 5, "Display should be descriptive");
    }
}

#[test]
fn runtime_error_display_format() {
    let identity = Identity::new(1, "TestActor");
    let error = Error::Runtime {
        identity,
        details: "Test runtime error details".to_string(),
        source: None,
    };

    let display_str = error.to_string();
    assert!(
        display_str.contains("Runtime error in actor"),
        "Display should mention runtime error"
    );
    assert!(
        display_str.contains("TestActor"),
        "Display should contain actor name"
    );
    assert!(
        display_str.contains("Test runtime error details"),
        "Display should contain error details"
    );
}

#[test]
fn error_source_returns_none_for_non_join() {
    let identity = Identity::new(1, "TestActor");

    let errors: Vec<Error> = vec![
        Error::Send {
            identity,
            details: "test",
        },
        Error::Receive {
            identity,
            details: "test",
        },
        Error::Timeout {
            identity,
            timeout: Duration::from_secs(1),
            operation: Operation::Ask,
        },
        Error::Downcast {
            identity,
            expected_type: "String",
        },
        Error::Runtime {
            identity,
            details: "test".into(),
            source: None,
        },
        Error::MailboxCapacity { message: "test" },
    ];

    for err in &errors {
        assert!(
            err.source().is_none(),
            "Non-Join error {:?} should have no source",
            err
        );
    }
}

#[test]
fn runtime_error_with_source_exposes_source() {
    let identity = Identity::new(1, "TestActor");
    let io_err = std::io::Error::other("boom");
    let err = Error::Runtime {
        identity,
        details: "Failed to build blocking runtime".into(),
        source: Some(Arc::new(io_err)),
    };

    let source = err
        .source()
        .expect("Runtime error with a cause should expose source()");
    let text = match source {
        ErrorSource::Io(e) => e.to_string(),
        ErrorSource::Join(e) => e.to_string(),
    };
    assert!(
        text.contains("boom"),
        "source() should surface the underlying io::Error message"
    );
}

fn join_error_from_panic(msg: &'static str) -> tokio::task::JoinError {
    let rt = tokio::runtime::Builder::new_current_thread().build().unwrap();
    rt.block_on(async move {
        let handle = tokio::spawn(async move {
            panic!("{}", msg);
        });
        handle.await.unwrap_err()
    })
}

#[test]
fn error_join_display() {
    let join_error = join_error_from_panic("test panic for JoinError");
    let identity = Identity::new(1, "TestActor");

    let error = Error::Join {
        identity,
        source: Arc::new(join_error),
    };

    let display = error.to_string();
    assert!(display.contains("Failed to join"));
    assert!(display.contains("TestActor"));
    assert!(error.source().is_some(), "Join error should have a source");
}

#[test]
fn error_join_debugging_tips() {
    let join_error = join_error_from_panic("test panic for debugging tips");
    let identity = Identity::new(1, "TestActor");

    let error = Error::Join {
        identity,
        source: Arc::new(join_error),
    };

    let tips = error.debugging_tips();
    assert!(!tips.is_empty(), "Join error should have debugging tips");

    let tips_text = tips.join(" ");
    assert!(
        tips_text.contains("panic") || tips_text.contains("cancelled"),
        "Join tips should mention panic or cancellation"
    );
    assert!(
        tips_text.contains("RUST_BACKTRACE"),
        "Join tips should mention RUST_BACKTRACE"
    );
}

#[test]
fn error_join_is_not_retryable() {
    let join_error = join_error_from_panic("test panic for retryable check");
    let identity = Identity::new(1, "TestActor");

    let error = Error::Join {
        identity,
        source: Arc::new(join_error),
    };

    assert!(!error.is_retryable(), "Join error should not be retryable");
}

#[test]
fn identity_renders_name_and_id() {
    let identity = Identity::new(42, "Worker");
    assert_eq!(identity.to_string(), "Worker(#42)");
    assert_eq!(identity.name(), "Worker");
    assert_eq!(identity, Identity::new(42, "Worker"));
    assert_ne!(identity, Identity::new(43, "Worker"));
}

#[test]
fn decimal_text_matches_std_rendering() {
    for n in [0u64, 7, 10, 99, 100, 12345, u64::MAX] {
        assert_eq!(decimal_text(n), n.to_string());
    }
}

#[test]
fn error_texts_are_exact() {
    let identity = Identity::new(3, "Svc");
    let e = Error::Send {
        identity,
        details: "Mailbox channel closed",
    };
    assert_eq!(
        e.to_string(),
        "Failed to send message to actor Svc(#3): Mailbox channel closed"
    );
    let e = Error::ChannelFull {
        identity,
        channel: Channel::IdleSubscribe,
    };
    assert_eq!(
        e.to_string(),
        "Bounded channel 'idle_subscribe' for actor Svc(#3) is at capacity"
    );
    let e = Error::Timeout {
        identity,
        timeout: Duration::from_millis(1500),
        operation: Operation::TellPriority,
    };
    assert_eq!(
        e.to_string(),
        "tell_priority operation to actor Svc(#3) timed out after 1.5s"
    );
    let e = Error::MailboxCapacity { message: "bad" };
    assert_eq!(e.to_string(), "Mailbox capacity error: bad");
    let e = Error::PriorityChannelNotEnabled { identity };
    assert_eq!(
        e.to_string(),
        "Priority channel is not enabled for actor Svc(#3): enable it via SpawnOptions::with_priority()"
    );
}

#[test]
fn tips_count_per_variant() {
    let identity = Identity::new(1, "T");
    assert_eq!(Error::Send { identity, details: "x" }.debugging_tips().len(), 3);
    assert_eq!(
        Error::ChannelFull {
            identity,
            channel: Channel::IdleSubscribe
        }
        .debugging_tips()
        .len(),
        4
    );
    assert_eq!(Error::IdleChannelNotEnabled { identity }.debugging_tips().len(), 3);
    assert_eq!(
        Error::PriorityChannelNotEnabled { identity }.debugging_tips()[1],
        "Use ActorRef::has_priority_channel() to check before sending priority messages"
    );
}

#[test]
fn join_error_text_is_appended_whole() {
    let join_error = join_error_from_panic("exact join text");
    let expected_tail = join_error.to_string();
    let error = Error::Join {
        identity: Identity::new(4, "Svc"),
        source: Arc::new(join_error),
    };
    assert_eq!(
        error.to_string(),
        format!("Failed to join spawned task from actor Svc(#4): {}", expected_tail)
    );
    assert!(expected_tail.contains("exact join text"));
}
