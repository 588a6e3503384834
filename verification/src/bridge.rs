//! Decision rules of the sync bridge and the retry policy.
//!
//! The bridge lets the engine block on a persistence result while the
//! underlying connection is asynchronous.  The waiting itself is runtime
//! plumbing; what is verified here is every decision the bridge takes: which
//! outcome completes a call, which one is retried with bounded backoff, and
//! which one must halt the node.  Only the channel-monitor path may halt the
//! node; every other store degrades gracefully instead.

use crate::records::StoreError;
use vstd::prelude::*;

verus! {

/// Which store a persistence call targets.
#[derive(Clone, Copy, PartialEq, Eq, Structural, Debug)]
pub enum StoreKind {
    ChannelMonitor,
    NetworkGraph,
    Scorer,
    PaymentLedger,
    PeerDirectory,
}

/// How one attempt of a write ended, as reported by the connection.
#[derive(Clone, Copy, PartialEq, Eq, Structural, Debug)]
pub enum WriteOutcome {
    /// The database confirmed the write.
    Durable,
    /// A connectivity failure before confirmation.
    TransientFailure,
    /// The wait on the asynchronous operation timed out.
    TimedOut,
}

/// What the caller must do next.
#[derive(Clone, Copy, PartialEq, Eq, Structural, Debug)]
pub enum BridgeVerdict {
    /// The write is durable; proceed.
    Complete,
    /// Retry after the given backoff delay, in milliseconds.
    RetryAfter(u64),
    /// Stop retrying and degrade gracefully (stale routing data, missed
    /// reconnect hint); the node keeps running.
    GiveUp,
    /// Unrecoverable: the node must stop rather than continue with unknown
    /// monitor durability.
    Fatal,
}

/// Bounded-backoff policy for non-safety-critical writes.
#[derive(Clone, Copy, PartialEq, Eq, Structural, Debug)]
pub struct RetryPolicy {
    /// How many attempts in total before giving up.
    pub max_attempts: u32,
    /// Delay after the first failed attempt, in milliseconds.
    pub base_delay_ms: u64,
    /// Upper bound on any delay, in milliseconds.
    pub max_delay_ms: u64,
}

/// A write whose loss can cost funds: a delayed or dropped channel-monitor
/// write can let a counterparty publish stale channel state.
pub open spec fn is_safety_critical(kind: StoreKind) -> bool {
    kind == StoreKind::ChannelMonitor
}

/// The delay before retry number `attempt + 1`: the base delay doubled per
/// previous attempt, saturating at the policy's cap.
pub open spec fn backoff_spec(base: u64, cap: u64, attempt: nat) -> u64
    decreases attempt,
{
    if attempt == 0 {
        if base <= cap {
            base
        } else {
            cap
        }
    } else {
        let prev = backoff_spec(base, cap, (attempt - 1) as nat);
        if prev > cap / 2 {
            cap
        } else {
            (2 * prev) as u64
        }
    }
}

/// The verdict the bridge owes for one attempt's outcome.
pub open spec fn verdict_spec(
    kind: StoreKind,
    outcome: WriteOutcome,
    attempt: u32,
    policy: RetryPolicy,
) -> BridgeVerdict {
    if outcome == WriteOutcome::Durable {
        BridgeVerdict::Complete
    } else if is_safety_critical(kind) {
        BridgeVerdict::Fatal
    } else if attempt + 1 < policy.max_attempts {
        BridgeVerdict::RetryAfter(backoff_spec(policy.base_delay_ms, policy.max_delay_ms, attempt as nat))
    } else {
        BridgeVerdict::GiveUp
    }
}

/// The backoff delay before retry number `attempt + 1`.
pub fn backoff_delay(policy: &RetryPolicy, attempt: u32) -> (d: u64)
    ensures
        d == backoff_spec(policy.base_delay_ms, policy.max_delay_ms, attempt as nat),
        d <= policy.max_delay_ms || d == policy.base_delay_ms,
{
    let mut d: u64 = if policy.base_delay_ms <= policy.max_delay_ms {
        policy.base_delay_ms
    } else {
        policy.max_delay_ms
    };
    let mut i: u32 = 0;
    while i < attempt
        invariant
            i <= attempt,
            d == backoff_spec(policy.base_delay_ms, policy.max_delay_ms, i as nat),
            d <= policy.max_delay_ms,
        decreases attempt - i,
    {
        if d > policy.max_delay_ms / 2 {
            d = policy.max_delay_ms;
        } else {
            d = 2 * d;
        }
        i = i + 1;
    }
    d
}

/// Decide what follows one attempt of a write.
///
/// A durable outcome completes the call.  For the channel-monitor store any
/// failure — a timeout included — is fatal and is never silently retried,
/// since a retry could mask an inconsistency window.  For every other store
/// a failed attempt is retried with bounded backoff while attempts remain,
/// and given up gracefully afterwards.
pub fn bridge_verdict(
    kind: StoreKind,
    outcome: WriteOutcome,
    attempt: u32,
    policy: &RetryPolicy,
) -> (v: BridgeVerdict)
    ensures
        v == verdict_spec(kind, outcome, attempt, *policy),
{
    if outcome == WriteOutcome::Durable {
        BridgeVerdict::Complete
    } else if kind == StoreKind::ChannelMonitor {
        BridgeVerdict::Fatal
    } else if attempt < u32::MAX && attempt + 1 < policy.max_attempts {
        BridgeVerdict::RetryAfter(backoff_delay(policy, attempt))
    } else {
        proof {
            assert(attempt + 1 >= policy.max_attempts);
        }
        BridgeVerdict::GiveUp
    }
}

/// Whether a store error may halt the node.
///
/// `Conflict` and `Corruption` are always fatal; `Transient` is fatal only
/// on the safety-critical path; a read miss never is.
pub fn error_is_fatal(error: StoreError, kind: StoreKind) -> (r: bool)
    ensures
        r == (error == StoreError::Conflict || error == StoreError::Corruption || (error
            == StoreError::Transient && is_safety_critical(kind))),
{
    match error {
        StoreError::Conflict => true,
        StoreError::Corruption => true,
        StoreError::Transient => kind == StoreKind::ChannelMonitor,
        StoreError::NotFound => false,
    }
}

/// Law: a failed channel-monitor write is never retried — whatever the
/// outcome, the bridge either completes on a durable write or halts the
/// node; no verdict on this path is a retry or a graceful give-up.
pub proof fn lemma_monitor_write_never_retried(
    outcome: WriteOutcome,
    attempt: u32,
    policy: RetryPolicy,
)
    ensures
        outcome == WriteOutcome::Durable ==> verdict_spec(
            StoreKind::ChannelMonitor,
            outcome,
            attempt,
            policy,
        ) == BridgeVerdict::Complete,
        outcome != WriteOutcome::Durable ==> verdict_spec(
            StoreKind::ChannelMonitor,
            outcome,
            attempt,
            policy,
        ) == BridgeVerdict::Fatal,
{
}

/// Law: retries are bounded.  Once `max_attempts` attempts have been made,
/// a non-critical write is never asked to retry again.
pub proof fn lemma_retries_bounded(
    kind: StoreKind,
    outcome: WriteOutcome,
    attempt: u32,
    policy: RetryPolicy,
)
    requires
        attempt + 1 >= policy.max_attempts,
    ensures
        !(verdict_spec(kind, outcome, attempt, policy) is RetryAfter),
{
}

} // verus!
