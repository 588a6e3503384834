use kld::node_info::{build_get_info, parse_address, parse_listen_addresses, parse_port, Network};

#[test]
fn test_parse_port() {
    assert_eq!(parse_port(&b"9735".to_vec()), 9735);
    assert_eq!(parse_port(&b"0".to_vec()), 0);
    assert_eq!(parse_port(&b"65535".to_vec()), 65535);
    assert_eq!(parse_port(&b"65536".to_vec()), 0);
    assert_eq!(parse_port(&b"70000".to_vec()), 0);
    assert_eq!(parse_port(&b"000080".to_vec()), 80);
    assert_eq!(parse_port(&b"".to_vec()), 0);
    assert_eq!(parse_port(&b"12a4".to_vec()), 0);
}

#[test]
fn test_parse_address() {
    let sock = parse_address(&b"192.168.0.7:9735".to_vec()).expect("address must parse");
    assert!(sock.host == b"192.168.0.7".to_vec());
    assert_eq!(sock.port, 9735);
    assert_eq!(sock.address_type, "ipv4");

    assert!(parse_address(&b"no-port-here".to_vec()).is_none());

    // A malformed port falls back to the default instead of failing.
    let sock = parse_address(&b"10.0.0.1:later".to_vec()).expect("address must parse");
    assert_eq!(sock.port, 0);
}

#[test]
fn test_parse_listen_addresses_skips_malformed() {
    let addrs = vec![
        b"127.0.0.1:8080".to_vec(),
        b"nocolon".to_vec(),
        b"10.1.1.1:1000".to_vec(),
    ];
    let socks = parse_listen_addresses(&addrs);
    assert_eq!(socks.len(), 2);
    assert!(socks[0].host == b"127.0.0.1".to_vec());
    assert_eq!(socks[0].port, 8080);
    assert!(socks[1].host == b"10.1.1.1".to_vec());
    assert_eq!(socks[1].port, 1000);
}

#[test]
fn test_build_get_info() {
    let addresses = vec![b"127.0.0.1:9735".to_vec()];
    let info = build_get_info(
        "02deadbeef".to_owned(),
        "alice".to_owned(),
        "v0.1".to_owned(),
        Network::Testnet,
        1,
        2,
        3,
        4,
        654321,
        &addresses,
    );
    assert_eq!(info.id, "02deadbeef");
    assert_eq!(info.alias, "alice");
    assert_eq!(info.color, "");
    assert_eq!(info.version, "v0.1");
    assert_eq!(info.api_version, "0.9.0");
    assert_eq!(info.network, "testnet");
    assert!(info.testnet);
    assert!(info.synced_to_chain);
    assert_eq!(info.num_pending_channels, 1);
    assert_eq!(info.num_active_channels, 2);
    assert_eq!(info.num_inactive_channels, 3);
    assert_eq!(info.num_peers, 4);
    assert_eq!(info.block_height, 654321);
    assert_eq!(info.chains.len(), 1);
    assert_eq!(info.chains[0].chain, "bitcoin");
    assert_eq!(info.chains[0].network, "testnet");
    assert_eq!(info.address.len(), 1);
    assert_eq!(info.address[0].port, 9735);
}

#[test]
fn test_mainnet_is_not_testnet() {
    let info = build_get_info(
        "02aa".to_owned(),
        "bob".to_owned(),
        "v0.1".to_owned(),
        Network::Bitcoin,
        0,
        0,
        0,
        0,
        0,
        &Vec::new(),
    );
    assert_eq!(info.network, "bitcoin");
    assert!(!info.testnet);
    assert!(info.address.is_empty());
}
