//! The records held by the stores: peers, payments, channel monitors and the
//! two singleton snapshots, together with the error taxonomy shared by all
//! store operations.

use crate::bytes::{copy_bytes, copy_opt_bytes};
use crate::MilliSatoshi;
use vstd::prelude::*;

verus! {

/// View of an optional byte string.
pub open spec fn view_opt(o: Option<Vec<u8>>) -> Option<Seq<u8>> {
    match o {
        Some(v) => Some(v@),
        None => None,
    }
}

/// How a store operation can fail.
///
/// A read miss is non-fatal and surfaces as `NotFound`; a uniqueness violation
/// on insert, or a write against a terminal payment, is a caller defect and
/// surfaces as `Conflict`; `Transient` covers connectivity and timeout
/// failures of the underlying connection; `Corruption` marks stored bytes
/// that failed to deserialize.
#[derive(Clone, Copy, PartialEq, Eq, Structural, Debug)]
pub enum StoreError {
    NotFound,
    Conflict,
    Transient,
    Corruption,
}

/// A known peer: reconnection hint keyed by its public key.
pub struct Peer {
    pub public_key: Vec<u8>,
    pub net_address: Vec<u8>,
}

/// Mathematical view of a `Peer`.
pub struct PeerV {
    pub public_key: Seq<u8>,
    pub net_address: Seq<u8>,
}

impl View for Peer {
    type V = PeerV;

    open spec fn view(&self) -> PeerV {
        PeerV { public_key: self.public_key@, net_address: self.net_address@ }
    }
}

impl Peer {
    /// A fresh copy of this record.
    pub fn duplicate(&self) -> (r: Peer)
        ensures
            r@ == self@,
    {
        Peer { public_key: copy_bytes(&self.public_key), net_address: copy_bytes(&self.net_address) }
    }
}

/// Where a payment's value moves relative to this node.
#[derive(Clone, Copy, PartialEq, Eq, Structural, Debug)]
pub enum PaymentDirection {
    Inbound,
    Outbound,
}

/// The lifecycle of a payment: created `Pending`, mutated once to a terminal
/// status, never deleted.
#[derive(Clone, Copy, PartialEq, Eq, Structural, Debug)]
pub enum PaymentStatus {
    Pending,
    Succeeded,
    Failed,
}

/// `Succeeded` and `Failed` are absorbing: no further mutation is allowed.
pub open spec fn is_terminal(s: PaymentStatus) -> bool {
    s != PaymentStatus::Pending
}

/// One payment of the ledger.
pub struct Payment {
    pub id: Vec<u8>,
    pub hash: Vec<u8>,
    pub preimage: Option<Vec<u8>>,
    pub secret: Option<Vec<u8>>,
    pub status: PaymentStatus,
    pub amount_msat: MilliSatoshi,
    pub fee_msat: Option<MilliSatoshi>,
    pub direction: PaymentDirection,
}

/// Mathematical view of a `Payment`.
pub struct PaymentV {
    pub id: Seq<u8>,
    pub hash: Seq<u8>,
    pub preimage: Option<Seq<u8>>,
    pub secret: Option<Seq<u8>>,
    pub status: PaymentStatus,
    pub amount_msat: MilliSatoshi,
    pub fee_msat: Option<MilliSatoshi>,
    pub direction: PaymentDirection,
}

impl View for Payment {
    type V = PaymentV;

    open spec fn view(&self) -> PaymentV {
        PaymentV {
            id: self.id@,
            hash: self.hash@,
            preimage: view_opt(self.preimage),
            secret: view_opt(self.secret),
            status: self.status,
            amount_msat: self.amount_msat,
            fee_msat: self.fee_msat,
            direction: self.direction,
        }
    }
}

/// The natural key of a payment: outbound payments are keyed by id, inbound
/// (spontaneous) payments by payment hash.
pub open spec fn payment_key(p: PaymentV) -> Seq<u8> {
    match p.direction {
        PaymentDirection::Outbound => p.id,
        PaymentDirection::Inbound => p.hash,
    }
}

impl Payment {
    /// A fresh copy of this record.
    pub fn duplicate(&self) -> (r: Payment)
        ensures
            r@ == self@,
    {
        Payment {
            id: copy_bytes(&self.id),
            hash: copy_bytes(&self.hash),
            preimage: copy_opt_bytes(&self.preimage),
            secret: copy_opt_bytes(&self.secret),
            status: self.status,
            amount_msat: self.amount_msat,
            fee_msat: self.fee_msat,
            direction: self.direction,
        }
    }

    /// The key this payment is stored under.
    pub fn key(&self) -> (r: Vec<u8>)
        ensures
            r@ == payment_key(self@),
    {
        match self.direction {
            PaymentDirection::Outbound => copy_bytes(&self.id),
            PaymentDirection::Inbound => copy_bytes(&self.hash),
        }
    }
}

/// Per-channel state needed to recover or enforce channel closure; the bytes
/// are opaque to this layer and safety-critical to the engine.
pub struct ChannelMonitor {
    pub update_seq: u64,
    pub bytes: Vec<u8>,
}

/// Mathematical view of a `ChannelMonitor`.
pub struct ChannelMonitorV {
    pub update_seq: u64,
    pub bytes: Seq<u8>,
}

impl View for ChannelMonitor {
    type V = ChannelMonitorV;

    open spec fn view(&self) -> ChannelMonitorV {
        ChannelMonitorV { update_seq: self.update_seq, bytes: self.bytes@ }
    }
}

impl ChannelMonitor {
    /// A fresh copy of this record.
    pub fn duplicate(&self) -> (r: ChannelMonitor)
        ensures
            r@ == self@,
    {
        ChannelMonitor { update_seq: self.update_seq, bytes: copy_bytes(&self.bytes) }
    }
}

/// The singleton routing-graph snapshot: serialized graph bytes and the
/// timestamp of the last external sync.
pub struct GraphSnapshot {
    pub bytes: Vec<u8>,
    pub last_sync_timestamp: u64,
}

/// Mathematical view of a `GraphSnapshot`.
pub struct GraphSnapshotV {
    pub bytes: Seq<u8>,
    pub last_sync_timestamp: u64,
}

impl View for GraphSnapshot {
    type V = GraphSnapshotV;

    open spec fn view(&self) -> GraphSnapshotV {
        GraphSnapshotV { bytes: self.bytes@, last_sync_timestamp: self.last_sync_timestamp }
    }
}

/// The singleton routing-scorer snapshot: serialized scorer bytes and the
/// timestamp the write was issued at.
pub struct ScorerSnapshot {
    pub bytes: Vec<u8>,
    pub updated_at: u64,
}

/// Mathematical view of a `ScorerSnapshot`.
pub struct ScorerSnapshotV {
    pub bytes: Seq<u8>,
    pub updated_at: u64,
}

impl View for ScorerSnapshot {
    type V = ScorerSnapshotV;

    open spec fn view(&self) -> ScorerSnapshotV {
        ScorerSnapshotV { bytes: self.bytes@, updated_at: self.updated_at }
    }
}

} // verus!
