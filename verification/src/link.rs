//! Classification of serial-link failures and the connection state machine
//! a caller drives around `execute` and `reconnect`.
//!
//! The transport owns at most one open handle. A timed-out write is
//! transient: the handle stays open and the same operation may be retried. A
//! broken pipe severs the link: the handle must be reopened once before
//! anything else is written. Any other failure is fatal, since the protocol
//! defines no recovery for an undiagnosed link.

use vstd::prelude::*;

verus! {

/// The kinds of write failure the protocol distinguishes.
#[derive(Clone, Copy, Debug, PartialEq, Eq, Structural)]
pub enum WriteError {
    /// The blocking write did not finish within its timeout.
    TimedOut,
    /// The link was severed underneath the open handle.
    BrokenPipe,
    /// Any other failure kind.
    Other,
}

/// What the caller must do next after a write attempt.
#[derive(Clone, Copy, Debug, PartialEq, Eq, Structural)]
pub enum LinkAction {
    /// The write went through; carry on with the next command.
    Proceed,
    /// Transient failure: pause briefly, then retry the same operation.
    Retry,
    /// The link is severed: reopen the connection once, then pause.
    Reconnect,
    /// Unrecoverable failure: abort, no further protocol state is trusted.
    Abort,
}

/// Whether the transport holds an open serial handle.
#[derive(Clone, Copy, Debug, PartialEq, Eq, Structural)]
pub enum LinkState {
    Connected,
    Disconnected,
}

impl WriteError {
    /// The action policy for each failure kind.
    pub open spec fn classification(&self) -> LinkAction {
        match self {
            WriteError::TimedOut => LinkAction::Retry,
            WriteError::BrokenPipe => LinkAction::Reconnect,
            WriteError::Other => LinkAction::Abort,
        }
    }

    /// Classify this write failure: timeouts are retried on the open handle,
    /// a broken pipe demands one reconnect, anything else is fatal.
    pub fn classify(&self) -> (a: LinkAction)
        ensures
            a == self.classification(),
    {
        match self {
            WriteError::TimedOut => LinkAction::Retry,
            WriteError::BrokenPipe => LinkAction::Reconnect,
            WriteError::Other => LinkAction::Abort,
        }
    }
}

/// The connection state and the required action after one write attempt on
/// an open handle. Only a broken pipe closes the handle; a timeout or any
/// other failure leaves it open, and no reconnect is triggered for them.
pub fn step_write(outcome: &Result<usize, WriteError>) -> (r: (LinkState, LinkAction))
    ensures
        r == match outcome {
            Ok(_) => (LinkState::Connected, LinkAction::Proceed),
            Err(e) => (
                if *e == WriteError::BrokenPipe {
                    LinkState::Disconnected
                } else {
                    LinkState::Connected
                },
                e.classification(),
            ),
        },
{
    match outcome {
        Ok(_) => (LinkState::Connected, LinkAction::Proceed),
        Err(error) => {
            let action = error.classify();
            let state = match error {
                WriteError::BrokenPipe => LinkState::Disconnected,
                _ => LinkState::Connected,
            };
            (state, action)
        },
    }
}

/// The connection state after a reconnect attempt: the handle is open again
/// exactly when the attempt succeeded; on failure the transport is left with
/// no open handle.
pub fn step_reconnect(succeeded: bool) -> (s: LinkState)
    ensures
        s == if succeeded {
            LinkState::Connected
        } else {
            LinkState::Disconnected
        },
{
    if succeeded {
        LinkState::Connected
    } else {
        LinkState::Disconnected
    }
}

} // verus!
