use kld::database::Database;
use kld::records::{Payment, PaymentDirection, PaymentStatus, Peer, StoreError};

fn pending_outbound(id: u8, amount_msat: u64) -> Payment {
    Payment {
        id: vec![id; 32],
        hash: vec![id ^ 0xff; 32],
        preimage: None,
        secret: Some(vec![7; 32]),
        status: PaymentStatus::Pending,
        amount_msat,
        fee_msat: None,
        direction: PaymentDirection::Outbound,
    }
}

#[test]
fn test_peers() {
    let mut db = Database::new();
    let peer = Peer {
        public_key: vec![128; 33],
        net_address: vec![23, 34, 3, 232],
    };
    db.persist_peer(&peer);

    let fetched = db.fetch_peer(&peer.public_key).expect("expected peer");
    assert!(fetched.public_key == peer.public_key);
    assert!(fetched.net_address == peer.net_address);

    let all = db.fetch_peers();
    assert_eq!(all.len(), 1);
    assert!(all[0].public_key == peer.public_key);

    // Reconnecting under the same key overwrites the address.
    let moved = Peer {
        public_key: vec![128; 33],
        net_address: vec![10, 0, 0, 1, 3, 232],
    };
    db.persist_peer(&moved);
    let all = db.fetch_peers();
    assert_eq!(all.len(), 1);
    assert!(all[0].net_address == moved.net_address);

    assert!(db.delete_peer(&peer.public_key));
    assert!(db.fetch_peer(&peer.public_key).is_none());
    assert!(db.fetch_peers().iter().all(|p| p.public_key != peer.public_key));
    assert_eq!(db.fetch_peers().len(), 0);
}

#[test]
fn test_peers_thousand() {
    let mut db = Database::new();
    for i in 0..1000u32 {
        let peer = Peer {
            public_key: i.to_be_bytes().to_vec(),
            net_address: vec![127, 0, 0, 1],
        };
        db.persist_peer(&peer);
    }
    assert_eq!(db.fetch_peers().len(), 1000);
    assert!(db.delete_peer(&42u32.to_be_bytes().to_vec()));
    assert_eq!(db.fetch_peers().len(), 999);
}

#[test]
fn test_outbound_payment() {
    let mut db = Database::new();
    let payment = pending_outbound(1, 500000);
    db.persist_payment(&payment).expect("insert must succeed");

    let preimage = vec![9; 32];
    db.update_outbound_payment(
        &payment.id,
        Some(preimage.clone()),
        PaymentStatus::Succeeded,
        Some(232),
    )
    .expect("update must succeed");

    let all = db.fetch_payments();
    assert_eq!(all.len(), 1);
    let fetched = &all[0];
    assert!(fetched.id == payment.id, "expected payment");
    assert!(fetched.hash == payment.hash, "expected payment");
    assert_eq!(fetched.amount_msat, 500000);
    assert_eq!(fetched.status, PaymentStatus::Succeeded);
    assert!(fetched.preimage == Some(preimage));
    assert_eq!(fetched.fee_msat, Some(232));
    assert_eq!(fetched.direction, PaymentDirection::Outbound);
}

#[test]
fn test_inbound_payment() {
    let mut db = Database::new();
    let payment = Payment {
        id: vec![2; 32],
        hash: vec![3; 32],
        preimage: Some(vec![4; 32]),
        secret: None,
        status: PaymentStatus::Pending,
        amount_msat: 12345,
        fee_msat: None,
        direction: PaymentDirection::Inbound,
    };
    db.persist_payment(&payment).expect("insert must succeed");

    db.update_inbound_payment(&payment.hash, None, PaymentStatus::Succeeded)
        .expect("update must succeed");

    let all = db.fetch_payments();
    assert_eq!(all.len(), 1, "expected payment");
    let fetched = &all[0];
    assert!(fetched.hash == payment.hash, "expected payment");
    assert_eq!(fetched.amount_msat, 12345);
    assert_eq!(fetched.status, PaymentStatus::Succeeded);
    // The preimage supplied by the sender at receive time is kept.
    assert!(fetched.preimage == payment.preimage);
    assert_eq!(fetched.direction, PaymentDirection::Inbound);
}

#[test]
fn test_duplicate_payment_conflict() {
    let mut db = Database::new();
    let payment = pending_outbound(5, 1000);
    db.persist_payment(&payment).expect("insert must succeed");
    assert_eq!(db.persist_payment(&payment), Err(StoreError::Conflict));
    assert_eq!(db.fetch_payments().len(), 1);
}

#[test]
fn test_update_missing_payment_not_found() {
    let mut db = Database::new();
    let id = vec![6; 32];
    assert_eq!(
        db.update_outbound_payment(&id, None, PaymentStatus::Failed, None),
        Err(StoreError::NotFound)
    );
}

#[test]
fn test_terminal_state_immutable() {
    let mut db = Database::new();
    let payment = pending_outbound(8, 777);
    db.persist_payment(&payment).expect("insert must succeed");
    db.update_outbound_payment(&payment.id, None, PaymentStatus::Failed, None)
        .expect("first transition must succeed");

    // A write against a terminal record is refused, whatever it asks for.
    assert_eq!(
        db.update_outbound_payment(&payment.id, None, PaymentStatus::Pending, None),
        Err(StoreError::Conflict)
    );
    assert_eq!(
        db.update_outbound_payment(&payment.id, Some(vec![1; 32]), PaymentStatus::Succeeded, Some(1)),
        Err(StoreError::Conflict)
    );

    let all = db.fetch_payments();
    assert_eq!(all.len(), 1);
    assert_eq!(all[0].status, PaymentStatus::Failed);
    assert!(all[0].preimage.is_none());
    assert!(all[0].fee_msat.is_none());
}

#[test]
fn test_inbound_terminal_state_immutable() {
    let mut db = Database::new();
    let payment = Payment {
        id: vec![11; 32],
        hash: vec![12; 32],
        preimage: Some(vec![13; 32]),
        secret: None,
        status: PaymentStatus::Pending,
        amount_msat: 1,
        fee_msat: None,
        direction: PaymentDirection::Inbound,
    };
    db.persist_payment(&payment).expect("insert must succeed");
    db.update_inbound_payment(&payment.hash, None, PaymentStatus::Succeeded)
        .expect("first transition must succeed");
    assert_eq!(
        db.update_inbound_payment(&payment.hash, None, PaymentStatus::Pending),
        Err(StoreError::Conflict)
    );
    assert_eq!(
        db.update_inbound_payment(&vec![99; 32], None, PaymentStatus::Failed),
        Err(StoreError::NotFound)
    );
    assert_eq!(db.fetch_payments()[0].status, PaymentStatus::Succeeded);
}

#[test]
fn test_delete_missing_peer() {
    let mut db = Database::new();
    assert!(!db.delete_peer(&vec![1; 33]));
    assert!(db.fetch_peers().is_empty());
}

#[test]
fn test_network_graph() {
    let mut db = Database::new();
    assert!(db.fetch_graph().is_none());

    db.persist_graph(vec![1, 2, 3], 0);
    let first = db.fetch_graph().expect("graph must be present");
    assert!(first.bytes == vec![1, 2, 3]);

    db.persist_graph(vec![4, 5, 6, 7], 10);
    let second = db.fetch_graph().expect("graph must be present");
    assert!(second.bytes == vec![4, 5, 6, 7]);
    assert_eq!(second.last_sync_timestamp, 10);
}

#[test]
fn test_scorer() {
    let mut db = Database::new();
    assert!(db.fetch_scorer().is_none());

    db.persist_scorer(vec![10, 11], 100);
    let first = db.fetch_scorer().expect("missing timestamp");
    assert_eq!(first.updated_at, 100);

    // The scorer was mutated and flushed again with a later clock reading;
    // poll until the new snapshot is observed (immediate here, but readers
    // of the live store poll with bounded retries).
    db.persist_scorer(vec![10, 11, 12], 101);
    let mut observed = first.updated_at;
    for _ in 0..5 {
        let snap = db.fetch_scorer().expect("missing timestamp");
        observed = snap.updated_at;
        if observed > first.updated_at {
            break;
        }
    }
    assert!(observed > first.updated_at);
}

#[test]
fn test_channel_isolation() {
    let mut db = Database::new();
    let id_a = vec![1; 32];
    let id_b = vec![2; 32];
    db.persist_new_channel(&id_a, vec![100]).expect("first channel");
    db.persist_new_channel(&id_b, vec![200]).expect("second channel");

    let monitors = db.read_all_channel_monitors();
    assert_eq!(monitors.len(), 2);
    let a = monitors.iter().find(|m| m.0 == id_a).expect("channel a");
    let b = monitors.iter().find(|m| m.0 == id_b).expect("channel b");
    assert!(a.1.bytes == vec![100]);
    assert!(b.1.bytes == vec![200]);

    // A second insert for an existing channel id is a defect upstream.
    assert_eq!(db.persist_new_channel(&id_a, vec![1]), Err(StoreError::Conflict));
}

#[test]
fn test_channel_update_idempotent() {
    let mut db = Database::new();
    let id = vec![9; 32];
    db.persist_new_channel(&id, vec![0]).expect("new channel");
    db.update_persisted_channel(&id, 3, vec![1, 2, 3]);
    db.update_persisted_channel(&id, 3, vec![1, 2, 3]);

    let monitors = db.read_all_channel_monitors();
    assert_eq!(monitors.len(), 1);
    assert_eq!(monitors[0].1.update_seq, 3);
    assert!(monitors[0].1.bytes == vec![1, 2, 3]);
}

#[test]
fn test_archive_channel() {
    let mut db = Database::new();
    let id = vec![4; 32];
    db.persist_new_channel(&id, vec![1]).expect("new channel");
    assert!(db.archive_persisted_channel(&id));
    assert!(!db.archive_persisted_channel(&id));
    assert_eq!(db.read_all_channel_monitors().len(), 0);
}
