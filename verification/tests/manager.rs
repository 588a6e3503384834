use kld::manager::KndManager;
use kld::text::u64_to_string;

#[test]
fn test_u64_to_string() {
    assert_eq!(u64_to_string(0), "0");
    assert_eq!(u64_to_string(7), "7");
    assert_eq!(u64_to_string(40001), "40001");
    assert_eq!(u64_to_string(18446744073709551615), "18446744073709551615");
}

#[test]
fn test_peer_port_spacing() {
    assert_eq!(KndManager::peer_port(0), 40000);
    assert_eq!(KndManager::peer_port(1), 41000);
    assert_eq!(KndManager::peer_port(25), 65000);
}

#[test]
fn test_knd_layout() {
    let knd = KndManager::test_knd("/build/knd", 0);
    assert!(knd.pid().is_none());
    assert_eq!(knd.bin_path(), "/build/knd");
    assert_eq!(knd.exporter_url("health"), "http://127.0.0.1:40001/health");
    assert_eq!(knd.health_url(), "http://127.0.0.1:40001/health");
    assert_eq!(knd.exporter_url("pid"), "http://127.0.0.1:40001/pid");
}

#[test]
fn test_pid_follows_process() {
    let mut knd = KndManager::test_knd("/build/knd", 2);
    assert_eq!(knd.pid(), None);
    knd.mark_started(4242);
    assert_eq!(knd.pid(), Some(4242));
    knd.mark_stopped();
    assert_eq!(knd.pid(), None);
}

#[test]
fn test_environment_pairs() {
    let knd = KndManager::test_knd("/build/knd", 1);
    let env = knd.environment("/data/knd-1", 41000, "regtest", "/data/bitcoin/.cookie", 18443, 26257);
    let expected = vec![
        ("KND_STORAGE_DIR", "/data/knd-1"),
        ("KND_PEER_PORT", "41000"),
        ("KND_EXPORTER_ADDRESS", "127.0.0.1:41001"),
        ("KND_BITCOIN_NETWORK", "regtest"),
        ("KND_BITCOIN_COOKIE_PATH", "/data/bitcoin/.cookie"),
        ("KND_BITCOIN_RPC_HOST", "127.0.0.1"),
        ("KND_BITCOIN_RPC_PORT", "18443"),
        ("KND_DATABASE_PORT", "26257"),
    ];
    assert_eq!(env.len(), expected.len());
    for (got, want) in env.iter().zip(expected.iter()) {
        assert_eq!(got.0, want.0);
        assert_eq!(got.1, want.1);
    }
}
