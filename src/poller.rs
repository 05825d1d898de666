use vstd::prelude::*;

use crate::client::ZaloMessage;
use crate::text::{contains, contains_str};

verus! {

/// How long the platform holds a poll open when nothing arrives, in seconds.
pub const LONG_POLLING_TIMEOUT_SECS: u64 = 30;

/// How long the client waits for a poll, in seconds: a little longer than the
/// platform holds it.
pub const CLIENT_TIMEOUT_SECS: u64 = 35;

/// How long the loop rests after a poll failed for another reason than a
/// timeout, in milliseconds.
pub const ERROR_BACKOFF_MILLIS: u64 = 5000;

/// What the poll loop does next.
#[derive(Debug)]
pub enum PollAction {
    /// Leave the loop.
    Stop,
    /// Handle these messages one after the other, in this order, then poll.
    Dispatch(Vec<ZaloMessage>),
    /// Poll again at once.
    PollAgain,
    /// Wait this many milliseconds, then poll again.
    Backoff(u64),
}

/// Whether a failed poll merely timed out with nothing to report.
pub open spec fn is_poll_timeout(message: Seq<char>) -> bool {
    contains(message, "timeout"@)
}

/// What the poll loop does after a poll ended with `result`, or after the
/// shutdown signal when `shutdown` holds.
pub fn next_poll_action(shutdown: bool, result: Result<Vec<ZaloMessage>, String>) -> (r: PollAction)
    ensures
        shutdown ==> r is Stop,
        !shutdown ==> match result {
            Ok(messages) => if messages@.len() > 0 {
                r matches PollAction::Dispatch(m) && m@ == messages@
            } else {
                r is PollAgain
            },
            Err(message) => if is_poll_timeout(message@) {
                r is PollAgain
            } else {
                r == PollAction::Backoff(ERROR_BACKOFF_MILLIS)
            },
        },
{
    if shutdown {
        return PollAction::Stop;
    }
    match result {
        Ok(messages) => if messages.len() > 0 {
            PollAction::Dispatch(messages)
        } else {
            PollAction::PollAgain
        },
        Err(message) => if contains_str(message.as_str(), "timeout") {
            PollAction::PollAgain
        } else {
            PollAction::Backoff(ERROR_BACKOFF_MILLIS)
        },
    }
}

} // verus!
