//! Spawn-time configuration: mailbox capacities and the optional priority
//! channel.

use crate::error::Error;
use vstd::prelude::*;

verus! {

/// The default mailbox capacity for actors.
pub const DEFAULT_MAILBOX_CAPACITY: usize = 32;

/// The fixed capacity of the priority channel when it is enabled.
pub const PRIORITY_CHANNEL_CAPACITY: usize = 1;

/// Capacity of the idle-subscribe channel.
pub const IDLE_SUBSCRIBE_CHANNEL_CAPACITY: usize = 32;

/// Sets the process-wide default mailbox capacity held in `configured`. It
/// can be set only once, and only to a positive size.
pub fn set_default_mailbox_capacity(configured: &mut Option<usize>, size: usize) -> (r: Result<
    (),
    Error,
>)
    ensures
        size == 0 ==> r == Err::<(), Error>(
            Error::MailboxCapacity {
                message: "Global default mailbox capacity must be greater than 0",
            },
        ) && *final(configured) == *old(configured),
        size != 0 && *old(configured) is Some ==> r == Err::<(), Error>(
            Error::MailboxCapacity {
                message: "Global default mailbox capacity has already been set",
            },
        ) && *final(configured) == *old(configured),
        size != 0 && *old(configured) is None ==> r is Ok && *final(configured) == Some(size),
{
    if size == 0 {
        return Err(
            Error::MailboxCapacity {
                message: "Global default mailbox capacity must be greater than 0",
            },
        );
    }
    match configured {
        Some(_) => Err(
            Error::MailboxCapacity {
                message: "Global default mailbox capacity has already been set",
            },
        ),
        None => {
            *configured = Some(size);
            Ok(())
        },
    }
}

/// Configuration options for spawning an actor.
#[derive(Debug, Clone, Copy)]
#[non_exhaustive]
pub struct SpawnOptions {
    /// Capacity of the regular mailbox channel; positive.
    pub mailbox_capacity: usize,
    /// Whether the priority channel is enabled.
    pub priority_enabled: bool,
}

impl SpawnOptions {
    /// Well-formed options: a positive mailbox capacity.
    pub open spec fn wf(self) -> bool {
        self.mailbox_capacity > 0
    }

    /// Options with the default mailbox capacity (the configured default when
    /// one was set, otherwise [`DEFAULT_MAILBOX_CAPACITY`]) and the priority
    /// channel disabled.
    pub fn new(configured_default: Option<usize>) -> (r: Self)
        ensures
            r.mailbox_capacity == match configured_default {
                Some(n) => n,
                None => DEFAULT_MAILBOX_CAPACITY,
            },
            !r.priority_enabled,
            (configured_default matches Some(n) ==> n > 0) ==> r.wf(),
    {
        let capacity = match configured_default {
            Some(n) => n,
            None => DEFAULT_MAILBOX_CAPACITY,
        };
        SpawnOptions { mailbox_capacity: capacity, priority_enabled: false }
    }

    /// Sets the mailbox capacity, which must be greater than 0.
    pub fn mailbox_capacity(self, n: usize) -> (r: Self)
        requires
            n > 0,
        ensures
            r.mailbox_capacity == n,
            r.priority_enabled == self.priority_enabled,
            r.wf(),
    {
        SpawnOptions { mailbox_capacity: n, ..self }
    }

    /// Enables the priority channel for the spawned actor.
    pub fn with_priority(self) -> (r: Self)
        ensures
            r.mailbox_capacity == self.mailbox_capacity,
            r.priority_enabled,
            self.wf() ==> r.wf(),
    {
        SpawnOptions { priority_enabled: true, ..self }
    }
}

} // verus!
