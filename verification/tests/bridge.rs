use kld::bridge::{
    backoff_delay, bridge_verdict, error_is_fatal, BridgeVerdict, RetryPolicy, StoreKind,
    WriteOutcome,
};
use kld::records::StoreError;

fn policy() -> RetryPolicy {
    RetryPolicy { max_attempts: 3, base_delay_ms: 100, max_delay_ms: 350 }
}

#[test]
fn test_durable_write_completes() {
    for kind in [
        StoreKind::ChannelMonitor,
        StoreKind::NetworkGraph,
        StoreKind::Scorer,
        StoreKind::PaymentLedger,
        StoreKind::PeerDirectory,
    ] {
        assert_eq!(
            bridge_verdict(kind, WriteOutcome::Durable, 0, &policy()),
            BridgeVerdict::Complete
        );
    }
}

#[test]
fn test_monitor_failure_is_fatal_never_retried() {
    for outcome in [WriteOutcome::TransientFailure, WriteOutcome::TimedOut] {
        for attempt in [0, 1, 100] {
            assert_eq!(
                bridge_verdict(StoreKind::ChannelMonitor, outcome, attempt, &policy()),
                BridgeVerdict::Fatal
            );
        }
    }
}

#[test]
fn test_graph_failure_retried_with_backoff() {
    assert_eq!(
        bridge_verdict(StoreKind::NetworkGraph, WriteOutcome::TimedOut, 0, &policy()),
        BridgeVerdict::RetryAfter(100)
    );
    assert_eq!(
        bridge_verdict(StoreKind::Scorer, WriteOutcome::TransientFailure, 1, &policy()),
        BridgeVerdict::RetryAfter(200)
    );
}

#[test]
fn test_retries_bounded_then_give_up() {
    assert_eq!(
        bridge_verdict(StoreKind::PeerDirectory, WriteOutcome::TimedOut, 2, &policy()),
        BridgeVerdict::GiveUp
    );
    assert_eq!(
        bridge_verdict(StoreKind::PaymentLedger, WriteOutcome::TransientFailure, 50, &policy()),
        BridgeVerdict::GiveUp
    );
}

#[test]
fn test_backoff_doubles_and_saturates() {
    let p = policy();
    assert_eq!(backoff_delay(&p, 0), 100);
    assert_eq!(backoff_delay(&p, 1), 200);
    assert_eq!(backoff_delay(&p, 2), 350);
    assert_eq!(backoff_delay(&p, 3), 350);
    let tight = RetryPolicy { max_attempts: 10, base_delay_ms: 500, max_delay_ms: 300 };
    assert_eq!(backoff_delay(&tight, 0), 300);
}

#[test]
fn test_error_fatality() {
    assert!(error_is_fatal(StoreError::Conflict, StoreKind::PeerDirectory));
    assert!(error_is_fatal(StoreError::Corruption, StoreKind::Scorer));
    assert!(error_is_fatal(StoreError::Transient, StoreKind::ChannelMonitor));
    assert!(!error_is_fatal(StoreError::Transient, StoreKind::NetworkGraph));
    assert!(!error_is_fatal(StoreError::NotFound, StoreKind::ChannelMonitor));
}
