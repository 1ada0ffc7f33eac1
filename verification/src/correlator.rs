//! The request/response correlator: every actor "calls" the coordinator by
//! sending an envelope — its payload bundled with a fresh single-use reply
//! channel — and waiting a bounded time for exactly one reply. The library
//! fixes the verdict a call must return for each way the send and the wait
//! can end; the asynchronous shell performs the send, the sleep and the
//! receive and reports which way it went.

use vstd::prelude::*;

verus! {

/// Default deadline of a correlated call, in milliseconds: five seconds.
pub const DEFAULT_DEADLINE_MS: u64 = 5000;

/// How long a correlated call may wait for its reply.
#[derive(Clone, Copy, PartialEq, Eq, Structural, Debug)]
pub struct CallConfig {
    pub deadline_ms: u64,
}

impl Default for CallConfig {
    /// The deadline a call uses when none is configured.
    fn default() -> (r: CallConfig)
        ensures
            r.deadline_ms == DEFAULT_DEADLINE_MS,
    {
        CallConfig { deadline_ms: DEFAULT_DEADLINE_MS }
    }
}

/// One message of the call protocol: the payload and the id of the single-use
/// reply channel sent along with it, as one unit. The shell maps the id to a
/// real sending half; the reply channel is used at most once.
pub struct Envelope<T> {
    pub payload: T,
    pub reply_chan: u64,
}

/// How the send and the bounded wait of one correlated call ended.
pub enum CallOutcome<R> {
    /// The outbound channel was closed: the coordinator is gone.
    SendClosed,
    /// A reply arrived before the deadline.
    Replied(R),
    /// The reply channel was dropped without a reply ever being sent.
    ReplyClosed,
    /// The deadline elapsed with no reply and the reply channel still open.
    DeadlineElapsed,
}

/// Why a correlated call failed. The correlator retries nothing itself;
/// retry policy belongs to the caller.
#[derive(Clone, Copy, PartialEq, Eq, Structural, Debug)]
pub enum CallError {
    /// The deadline elapsed with no reply.
    Timeout,
    /// The reply channel was closed before a reply was sent.
    NoResponse,
    /// The outbound channel was closed; the coordinator is presumed gone.
    SendFailed,
}

/// The verdict a correlated call owes its caller for each way the wait ended.
pub open spec fn spec_resolve_call<R>(outcome: CallOutcome<R>) -> Result<R, CallError> {
    match outcome {
        CallOutcome::SendClosed => Err(CallError::SendFailed),
        CallOutcome::Replied(reply) => Ok(reply),
        CallOutcome::ReplyClosed => Err(CallError::NoResponse),
        CallOutcome::DeadlineElapsed => Err(CallError::Timeout),
    }
}

/// Turns what the shell observed of one call into the call's result: the
/// reply on success, and otherwise an error that tells a closed outbound
/// channel, a dropped reply channel and an elapsed deadline apart.
pub fn resolve_call<R>(outcome: CallOutcome<R>) -> (r: Result<R, CallError>)
    ensures
        r == spec_resolve_call(outcome),
{
    match outcome {
        CallOutcome::SendClosed => Err(CallError::SendFailed),
        CallOutcome::Replied(reply) => Ok(reply),
        CallOutcome::ReplyClosed => Err(CallError::NoResponse),
        CallOutcome::DeadlineElapsed => Err(CallError::Timeout),
    }
}

/// A reply channel dropped without a reply is reported as `NoResponse`, an
/// elapsed deadline as `Timeout`, and the two verdicts are never the same:
/// a waiting caller can always tell the coordinator's silence from its
/// refusal.
pub proof fn lemma_dropped_reply_distinct_from_timeout<R>()
    ensures
        spec_resolve_call::<R>(CallOutcome::ReplyClosed) == Err::<R, CallError>(
            CallError::NoResponse,
        ),
        spec_resolve_call::<R>(CallOutcome::DeadlineElapsed) == Err::<R, CallError>(
            CallError::Timeout,
        ),
        spec_resolve_call::<R>(CallOutcome::ReplyClosed) != spec_resolve_call::<R>(
            CallOutcome::DeadlineElapsed,
        ),
{
}

} // verus!
