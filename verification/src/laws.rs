//! The store-spanning guarantees of the layer, stated over the same
//! mathematical views the operation contracts use, so that each law composes
//! directly with those contracts.

use crate::records::{ChannelMonitorV, ScorerSnapshotV};
use vstd::prelude::*;

verus! {

/// Law: peer round trip.  `persist_peer` yields exactly the old directory
/// with the peer's key bound to its address (its `ensures`), so a
/// `fetch_peer` of that key returns a record equal to the one persisted;
/// and after `delete_peer` of the key, the directory — hence any
/// `fetch_peers` listing, whose entries all lie in the directory — excludes
/// the key.
pub proof fn lemma_peer_round_trip(
    peers: Map<Seq<u8>, Seq<u8>>,
    public_key: Seq<u8>,
    net_address: Seq<u8>,
)
    ensures
        peers.insert(public_key, net_address).contains_key(public_key),
        peers.insert(public_key, net_address)[public_key] == net_address,
        !peers.insert(public_key, net_address).remove(public_key).contains_key(public_key),
{
}

/// Law: scorer timestamps are observed monotonically.  `persist_scorer`
/// replaces the singleton with the supplied write time and `fetch_scorer`
/// hands that time back, so when a second flush carries a later clock
/// reading, a poll after it observes a timestamp strictly greater than the
/// first.
pub proof fn lemma_scorer_timestamp_monotonic(
    bytes_first: Seq<u8>,
    written_first: u64,
    bytes_second: Seq<u8>,
    written_second: u64,
)
    requires
        written_first < written_second,
    ensures
        ({
            let first = Some(ScorerSnapshotV { bytes: bytes_first, updated_at: written_first });
            let second = Some(ScorerSnapshotV { bytes: bytes_second, updated_at: written_second });
            second->0.updated_at > first->0.updated_at
        }),
{
}

/// Law: channel isolation.  Writes for two distinct channel ids are
/// independent: persisting the first leaves the second id absent (so both
/// `persist_new_channel` calls succeed), both monitors are retrievable
/// unchanged afterwards, and the two insertion orders yield the same store —
/// which is why the engine may issue them concurrently.
pub proof fn lemma_channel_isolation(
    monitors: Map<Seq<u8>, ChannelMonitorV>,
    channel_id_a: Seq<u8>,
    monitor_a: ChannelMonitorV,
    channel_id_b: Seq<u8>,
    monitor_b: ChannelMonitorV,
)
    requires
        channel_id_a != channel_id_b,
        !monitors.contains_key(channel_id_a),
        !monitors.contains_key(channel_id_b),
    ensures
        !monitors.insert(channel_id_a, monitor_a).contains_key(channel_id_b),
        monitors.insert(channel_id_a, monitor_a).insert(channel_id_b, monitor_b)[channel_id_a]
            == monitor_a,
        monitors.insert(channel_id_a, monitor_a).insert(channel_id_b, monitor_b)[channel_id_b]
            == monitor_b,
        monitors.insert(channel_id_a, monitor_a).insert(channel_id_b, monitor_b)
            == monitors.insert(channel_id_b, monitor_b).insert(channel_id_a, monitor_a),
{
    assert(monitors.insert(channel_id_a, monitor_a).insert(channel_id_b, monitor_b)
        =~= monitors.insert(channel_id_b, monitor_b).insert(channel_id_a, monitor_a));
}

/// Law: monitor updates are idempotent.  Applying the same channel update
/// twice leaves the store — in particular the stored bytes — identical to
/// applying it once; the second application also satisfies the
/// non-decreasing sequence precondition, since the stored sequence then
/// equals the update's own.
pub proof fn lemma_channel_update_idempotent(
    monitors: Map<Seq<u8>, ChannelMonitorV>,
    channel_id: Seq<u8>,
    update_seq: u64,
    bytes: Seq<u8>,
)
    ensures
        ({
            let m = ChannelMonitorV { update_seq, bytes };
            monitors.insert(channel_id, m).insert(channel_id, m) == monitors.insert(channel_id, m)
        }),
{
    let m = ChannelMonitorV { update_seq, bytes };
    assert(monitors.insert(channel_id, m).insert(channel_id, m) =~= monitors.insert(
        channel_id,
        m,
    ));
}

} // verus!
