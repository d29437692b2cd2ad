//! Decisions of the daemonization sequence.
//!
//! Turning the freshly started process into a session-detached daemon is a
//! fixed sequence of process-level calls the shell performs: mask the hangup
//! signal, point the standard descriptors at the null device, become session
//! leader, fork with the parent exiting at once, then poll until the child
//! is confirmed orphaned, and finally restore the signal mask. The one
//! decision in that sequence — when the poll may stop — is verified here.

use vstd::prelude::*;

verus! {

/// The parent-process identifier of a fully reparented (orphaned) process:
/// the init process.
pub const INIT_PID: i32 = 1;

/// Whether the polled parent-process identifier confirms that the daemon is
/// fully orphaned, so the races around the parent's exit are over and socket
/// work may begin.
pub fn is_reparented(ppid: i32) -> (r: bool)
    ensures
        r <==> ppid == INIT_PID,
{
    ppid == INIT_PID
}

} // verus!
