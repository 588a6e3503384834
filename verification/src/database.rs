//! The logical state of the persistence layer and its six storage
//! sub-contracts: channel monitors, network graph, routing scorer, payment
//! ledger and peer directory.
//!
//! Every operation is a single-row insert, upsert, update or removal; no
//! cross-store transaction exists, and each contract pins the touched store
//! exactly while stating that the others are left alone.

use crate::bytes::{copy_bytes, copy_opt_bytes};
use crate::records::{
    ChannelMonitor, ChannelMonitorV, GraphSnapshot, GraphSnapshotV, Payment, PaymentDirection,
    PaymentStatus, PaymentV, Peer, PeerV, ScorerSnapshot, ScorerSnapshotV, StoreError, is_terminal,
    payment_key, view_opt,
};
use crate::table::Table;
use vstd::prelude::*;

verus! {

/// View of the optional graph singleton.
pub open spec fn view_graph(o: Option<GraphSnapshot>) -> Option<GraphSnapshotV> {
    match o {
        Some(g) => Some(g@),
        None => None,
    }
}

/// View of the optional scorer singleton.
pub open spec fn view_scorer(o: Option<ScorerSnapshot>) -> Option<ScorerSnapshotV> {
    match o {
        Some(s) => Some(s@),
        None => None,
    }
}

/// The record resulting from a targeted payment update: status is replaced,
/// preimage and fee only where a new value is supplied; id, hash, secret,
/// amount and direction never change.
pub open spec fn payment_updated(
    p: PaymentV,
    preimage: Option<Seq<u8>>,
    status: PaymentStatus,
    fee_msat: Option<u64>,
) -> PaymentV {
    PaymentV {
        status,
        preimage: if preimage is Some {
            preimage
        } else {
            p.preimage
        },
        fee_msat: if fee_msat is Some {
            fee_msat
        } else {
            p.fee_msat
        },
        ..p
    }
}

/// The durable state of the node: five stores behind one handle.
pub struct Database {
    peers: Table<Vec<u8>>,
    payments: Table<Payment>,
    monitors: Table<ChannelMonitor>,
    graph: Option<GraphSnapshot>,
    scorer: Option<ScorerSnapshot>,
}

impl Database {
    /// The peer directory: public key to network address.
    pub closed spec fn peers_view(self) -> Map<Seq<u8>, Seq<u8>> {
        self.peers@
    }

    /// The peer rows in insertion order.
    pub closed spec fn peers_list(self) -> Seq<(Seq<u8>, Seq<u8>)> {
        self.peers.entries()
    }

    /// The payment ledger: natural key (id or hash) to record.
    pub closed spec fn payments_view(self) -> Map<Seq<u8>, PaymentV> {
        self.payments@
    }

    /// The payment rows in insertion order.
    pub closed spec fn payments_list(self) -> Seq<(Seq<u8>, PaymentV)> {
        self.payments.entries()
    }

    /// The channel monitor store: channel id to monitor record.
    pub closed spec fn monitors_view(self) -> Map<Seq<u8>, ChannelMonitorV> {
        self.monitors@
    }

    /// The channel monitor rows in insertion order.
    pub closed spec fn monitors_list(self) -> Seq<(Seq<u8>, ChannelMonitorV)> {
        self.monitors.entries()
    }

    /// The graph singleton: at most one logical row, `None` on cold start.
    pub closed spec fn graph_view(self) -> Option<GraphSnapshotV> {
        view_graph(self.graph)
    }

    /// The scorer singleton: at most one logical row, `None` on cold start.
    pub closed spec fn scorer_view(self) -> Option<ScorerSnapshotV> {
        view_scorer(self.scorer)
    }

    /// Well-formed: each table keyed uniquely, and each payment stored under
    /// its own natural key.
    pub closed spec fn wf(self) -> bool {
        &&& self.peers.wf()
        &&& self.payments.wf()
        &&& self.monitors.wf()
        &&& forall|k: Seq<u8>| #[trigger] self.payments@.contains_key(k)
            ==> payment_key(self.payments@[k]) == k
    }

    /// An empty database: no peers, no payments, no monitors, cold-start
    /// singletons.
    pub fn new() -> (r: Database)
        ensures
            r.wf(),
            r.peers_view() == Map::<Seq<u8>, Seq<u8>>::empty(),
            r.peers_list() == Seq::<(Seq<u8>, Seq<u8>)>::empty(),
            r.payments_view() == Map::<Seq<u8>, PaymentV>::empty(),
            r.payments_list() == Seq::<(Seq<u8>, PaymentV)>::empty(),
            r.monitors_view() == Map::<Seq<u8>, ChannelMonitorV>::empty(),
            r.monitors_list() == Seq::<(Seq<u8>, ChannelMonitorV)>::empty(),
            r.graph_view() is None,
            r.scorer_view() is None,
    {
        Database {
            peers: Table::new(),
            payments: Table::new(),
            monitors: Table::new(),
            graph: None,
            scorer: None,
        }
    }

    /// The peer directory is untouched.
    pub open spec fn same_peers(a: Database, b: Database) -> bool {
        a.peers_view() == b.peers_view() && a.peers_list() == b.peers_list()
    }

    /// The payment ledger is untouched.
    pub open spec fn same_payments(a: Database, b: Database) -> bool {
        a.payments_view() == b.payments_view() && a.payments_list() == b.payments_list()
    }

    /// The channel monitor store is untouched.
    pub open spec fn same_monitors(a: Database, b: Database) -> bool {
        a.monitors_view() == b.monitors_view() && a.monitors_list() == b.monitors_list()
    }

    /// Both singletons are untouched.
    pub open spec fn same_singletons(a: Database, b: Database) -> bool {
        a.graph_view() == b.graph_view() && a.scorer_view() == b.scorer_view()
    }

    /// Exposes how the ordered peer listing and the peer map agree.
    pub proof fn lemma_peers_agree(self)
        requires
            self.wf(),
        ensures
            self.peers_list().len() == self.peers_view().len(),
            forall|i: int| #![trigger self.peers_list()[i]]
                0 <= i < self.peers_list().len() ==> {
                    &&& self.peers_view().contains_key(self.peers_list()[i].0)
                    &&& self.peers_view()[self.peers_list()[i].0] == self.peers_list()[i].1
                },
            forall|k: Seq<u8>| #[trigger] self.peers_view().contains_key(k)
                ==> exists|i: int| 0 <= i < self.peers_list().len() && self.peers_list()[i].0 == k,
            forall|i: int, j: int| #![trigger self.peers_list()[i], self.peers_list()[j]]
                0 <= i < j < self.peers_list().len()
                ==> self.peers_list()[i].0 != self.peers_list()[j].0,
    {
        self.peers.lemma_entries_agree();
        assert forall|k: Seq<u8>| #[trigger] self.peers_view().contains_key(k)
            implies exists|i: int|
                0 <= i < self.peers_list().len() && self.peers_list()[i].0 == k by {
            let i = choose|i: int|
                0 <= i < self.peers.entries().len() && self.peers.entries()[i].0 == k;
            assert(0 <= i < self.peers_list().len() && self.peers_list()[i].0 == k);
        }
    }

    /// Upsert the peer keyed by its public key: a reconnecting peer
    /// overwrites its previous address.
    pub fn persist_peer(&mut self, peer: &Peer)
        requires
            old(self).wf(),
        ensures
            final(self).wf(),
            final(self).peers_view() == old(self).peers_view().insert(
                peer.public_key@,
                peer.net_address@,
            ),
            old(self).peers_view().contains_key(peer.public_key@) ==> {
                &&& final(self).peers_list().len() == old(self).peers_list().len()
                &&& forall|j: int| #![trigger final(self).peers_list()[j]]
                    0 <= j < old(self).peers_list().len() ==> {
                        &&& final(self).peers_list()[j].0 == old(self).peers_list()[j].0
                        &&& (old(self).peers_list()[j].0 != peer.public_key@
                            ==> final(self).peers_list()[j] == old(self).peers_list()[j])
                        &&& (old(self).peers_list()[j].0 == peer.public_key@
                            ==> final(self).peers_list()[j].1 == peer.net_address@)
                    }
            },
            !old(self).peers_view().contains_key(peer.public_key@)
                ==> final(self).peers_list() == old(self).peers_list().push(
                (peer.public_key@, peer.net_address@),
            ),
            Database::same_payments(*old(self), *final(self)),
            Database::same_monitors(*old(self), *final(self)),
            Database::same_singletons(*old(self), *final(self)),
    {
        proof {
            old(self).peers.lemma_entries_agree();
        }
        let key = copy_bytes(&peer.public_key);
        let value = copy_bytes(&peer.net_address);
        self.peers.upsert(key, value);
        proof {
            if old(self).peers_view().contains_key(peer.public_key@) {
                let i = choose|i: int|
                    0 <= i < old(self).peers.entries().len()
                        && old(self).peers.entries()[i].0 == peer.public_key@
                        && self.peers.entries() == old(self).peers.entries().update(
                        i,
                        (peer.public_key@, peer.net_address@),
                    );
                assert forall|j: int| 0 <= j < old(self).peers_list().len() implies {
                    &&& #[trigger] self.peers_list()[j].0 == old(self).peers_list()[j].0
                    &&& (old(self).peers_list()[j].0 != peer.public_key@
                        ==> self.peers_list()[j] == old(self).peers_list()[j])
                    &&& (old(self).peers_list()[j].0 == peer.public_key@
                        ==> self.peers_list()[j].1 == peer.net_address@)
                } by {
                    if j != i {
                        assert(old(self).peers_list()[j].0 != peer.public_key@);
                    }
                }
            }
        }
    }

    /// Read one peer by public key; `None` is a plain miss, not an error.
    pub fn fetch_peer(&self, public_key: &Vec<u8>) -> (r: Option<Peer>)
        requires
            self.wf(),
        ensures
            r is Some <==> self.peers_view().contains_key(public_key@),
            r is Some ==> {
                &&& r->0.public_key@ == public_key@
                &&& r->0.net_address@ == self.peers_view()[public_key@]
            },
    {
        match self.peers.get(public_key) {
            Some(addr) => Some(
                Peer { public_key: copy_bytes(public_key), net_address: copy_bytes(addr) },
            ),
            None => None,
        }
    }

    /// Read every known peer, used to reconnect after restart.
    pub fn fetch_peers(&self) -> (r: Vec<Peer>)
        requires
            self.wf(),
        ensures
            r@.len() == self.peers_list().len(),
            forall|i: int| #![trigger r@[i]]
                0 <= i < r@.len() ==> (r@[i].public_key@, r@[i].net_address@)
                    == self.peers_list()[i],
    {
        let n = self.peers.len();
        let mut r: Vec<Peer> = Vec::new();
        let mut i: usize = 0;
        while i < n
            invariant
                self.wf(),
                n == self.peers_list().len(),
                i <= n,
                r@.len() == i,
                forall|j: int| #![trigger r@[j]]
                    0 <= j < i ==> (r@[j].public_key@, r@[j].net_address@)
                        == self.peers_list()[j],
            decreases n - i,
        {
            let (key, addr) = self.peers.row(i);
            r.push(Peer { public_key: copy_bytes(key), net_address: copy_bytes(addr) });
            i = i + 1;
        }
        r
    }

    /// Remove a peer; reports whether a row existed.  A subsequent fetch
    /// must not contain the key.
    pub fn delete_peer(&mut self, public_key: &Vec<u8>) -> (r: bool)
        requires
            old(self).wf(),
        ensures
            final(self).wf(),
            r == old(self).peers_view().contains_key(public_key@),
            final(self).peers_view() == old(self).peers_view().remove(public_key@),
            r ==> exists|i: int|
                0 <= i < old(self).peers_list().len() && old(self).peers_list()[i].0
                    == public_key@ && final(self).peers_list() == old(self).peers_list().remove(i),
            !r ==> final(self).peers_list() == old(self).peers_list(),
            Database::same_payments(*old(self), *final(self)),
            Database::same_monitors(*old(self), *final(self)),
            Database::same_singletons(*old(self), *final(self)),
    {
        let r = self.peers.remove(public_key);
        proof {
            if r {
                let i = choose|i: int|
                    0 <= i < old(self).peers.entries().len()
                        && old(self).peers.entries()[i].0 == public_key@
                        && self.peers.entries() == old(self).peers.entries().remove(i);
                assert(0 <= i < old(self).peers_list().len() && old(self).peers_list()[i].0
                    == public_key@ && self.peers_list() == old(self).peers_list().remove(i));
            }
        }
        r
    }

    /// Exposes how the ordered payment listing and the ledger map agree.
    pub proof fn lemma_payments_agree(self)
        requires
            self.wf(),
        ensures
            self.payments_list().len() == self.payments_view().len(),
            forall|i: int| #![trigger self.payments_list()[i]]
                0 <= i < self.payments_list().len() ==> {
                    &&& self.payments_view().contains_key(self.payments_list()[i].0)
                    &&& self.payments_view()[self.payments_list()[i].0]
                        == self.payments_list()[i].1
                },
            forall|k: Seq<u8>| #[trigger] self.payments_view().contains_key(k)
                ==> exists|i: int|
                    0 <= i < self.payments_list().len() && self.payments_list()[i].0 == k,
            forall|i: int, j: int| #![trigger self.payments_list()[i], self.payments_list()[j]]
                0 <= i < j < self.payments_list().len()
                ==> self.payments_list()[i].0 != self.payments_list()[j].0,
            forall|i: int| #![trigger self.payments_list()[i]]
                0 <= i < self.payments_list().len()
                ==> payment_key(self.payments_list()[i].1) == self.payments_list()[i].0,
    {
        self.payments.lemma_entries_agree();
        assert forall|k: Seq<u8>| #[trigger] self.payments_view().contains_key(k)
            implies exists|i: int|
                0 <= i < self.payments_list().len() && self.payments_list()[i].0 == k by {
            let i = choose|i: int|
                0 <= i < self.payments.entries().len() && self.payments.entries()[i].0 == k;
            assert(0 <= i < self.payments_list().len() && self.payments_list()[i].0 == k);
        }
    }

    /// Insert a fresh payment under its natural key; a key already present
    /// is a caller defect and is refused as a conflict, leaving the ledger
    /// unchanged.
    pub fn persist_payment(&mut self, payment: &Payment) -> (r: Result<(), StoreError>)
        requires
            old(self).wf(),
        ensures
            final(self).wf(),
            r is Ok <==> !old(self).payments_view().contains_key(payment_key(payment@)),
            r is Ok ==> {
                &&& final(self).payments_view() == old(self).payments_view().insert(
                    payment_key(payment@),
                    payment@,
                )
                &&& final(self).payments_list() == old(self).payments_list().push(
                    (payment_key(payment@), payment@),
                )
            },
            r is Err ==> r == Err::<(), StoreError>(StoreError::Conflict)
                && Database::same_payments(*old(self), *final(self)),
            Database::same_peers(*old(self), *final(self)),
            Database::same_monitors(*old(self), *final(self)),
            Database::same_singletons(*old(self), *final(self)),
    {
        let key = payment.key();
        if self.payments.insert_new(key, payment.duplicate()) {
            Ok(())
        } else {
            Err(StoreError::Conflict)
        }
    }

    /// The updated copy of a stored payment.
    fn updated_record(
        p: &Payment,
        preimage: &Option<Vec<u8>>,
        status: PaymentStatus,
        fee_msat: Option<u64>,
    ) -> (r: Payment)
        ensures
            r@ == payment_updated(p@, view_opt(*preimage), status, fee_msat),
    {
        Payment {
            id: copy_bytes(&p.id),
            hash: copy_bytes(&p.hash),
            preimage: match preimage {
                Some(v) => Some(copy_bytes(v)),
                None => copy_opt_bytes(&p.preimage),
            },
            secret: copy_opt_bytes(&p.secret),
            status,
            amount_msat: p.amount_msat,
            fee_msat: match fee_msat {
                Some(f) => Some(f),
                None => p.fee_msat,
            },
            direction: p.direction,
        }
    }

    /// Update the payment stored under `key`: shared logic of the outbound
    /// and inbound update paths.  Terminal states are absorbing: a write
    /// against a `Succeeded` or `Failed` record is refused and the ledger is
    /// left unchanged.
    fn update_payment(
        &mut self,
        key: &Vec<u8>,
        preimage: Option<Vec<u8>>,
        status: PaymentStatus,
        fee_msat: Option<u64>,
    ) -> (r: Result<(), StoreError>)
        requires
            old(self).wf(),
        ensures
            final(self).wf(),
            !old(self).payments_view().contains_key(key@) ==> r == Err::<(), StoreError>(
                StoreError::NotFound,
            ) && Database::same_payments(*old(self), *final(self)),
            old(self).payments_view().contains_key(key@) && is_terminal(
                old(self).payments_view()[key@].status,
            ) ==> r == Err::<(), StoreError>(StoreError::Conflict) && Database::same_payments(
                *old(self),
                *final(self),
            ),
            old(self).payments_view().contains_key(key@) && !is_terminal(
                old(self).payments_view()[key@].status,
            ) ==> {
                &&& r == Ok::<(), StoreError>(())
                &&& final(self).payments_view() == old(self).payments_view().insert(
                    key@,
                    payment_updated(
                        old(self).payments_view()[key@],
                        view_opt(preimage),
                        status,
                        fee_msat,
                    ),
                )
                &&& final(self).payments_list().len() == old(self).payments_list().len()
                &&& forall|j: int| #![trigger final(self).payments_list()[j]]
                    0 <= j < old(self).payments_list().len() ==> {
                        &&& final(self).payments_list()[j].0 == old(self).payments_list()[j].0
                        &&& (old(self).payments_list()[j].0 != key@
                            ==> final(self).payments_list()[j] == old(self).payments_list()[j])
                        &&& (old(self).payments_list()[j].0 == key@
                            ==> final(self).payments_list()[j].1 == payment_updated(
                                old(self).payments_view()[key@],
                                view_opt(preimage),
                                status,
                                fee_msat,
                            ))
                    }
            },
            Database::same_peers(*old(self), *final(self)),
            Database::same_monitors(*old(self), *final(self)),
            Database::same_singletons(*old(self), *final(self)),
    {
        proof {
            old(self).payments.lemma_entries_agree();
        }
        let updated: Payment;
        match self.payments.get(key) {
            None => {
                return Err(StoreError::NotFound);
            }
            Some(cur) => {
                if cur.status != PaymentStatus::Pending {
                    return Err(StoreError::Conflict);
                }
                updated = Database::updated_record(cur, &preimage, status, fee_msat);
            }
        }
        let ghost target = payment_updated(
            old(self).payments_view()[key@],
            view_opt(preimage),
            status,
            fee_msat,
        );
        self.payments.upsert(copy_bytes(key), updated);
        proof {
            assert(payment_key(target) == key@);
            let i = choose|i: int|
                0 <= i < old(self).payments.entries().len()
                    && old(self).payments.entries()[i].0 == key@
                    && self.payments.entries() == old(self).payments.entries().update(
                    i,
                    (key@, target),
                );
            assert forall|j: int| 0 <= j < old(self).payments_list().len() implies {
                &&& #[trigger] self.payments_list()[j].0 == old(self).payments_list()[j].0
                &&& (old(self).payments_list()[j].0 != key@
                    ==> self.payments_list()[j] == old(self).payments_list()[j])
                &&& (old(self).payments_list()[j].0 == key@
                    ==> self.payments_list()[j].1 == target)
            } by {
                if j != i {
                    assert(old(self).payments_list()[j].0 != key@);
                }
            }
        }
        Ok(())
    }

    /// Targeted update of an outbound payment, keyed by id.
    pub fn update_outbound_payment(
        &mut self,
        id: &Vec<u8>,
        preimage: Option<Vec<u8>>,
        status: PaymentStatus,
        fee_msat: Option<u64>,
    ) -> (r: Result<(), StoreError>)
        requires
            old(self).wf(),
        ensures
            final(self).wf(),
            !old(self).payments_view().contains_key(id@) ==> r == Err::<(), StoreError>(
                StoreError::NotFound,
            ) && Database::same_payments(*old(self), *final(self)),
            old(self).payments_view().contains_key(id@) && is_terminal(
                old(self).payments_view()[id@].status,
            ) ==> r == Err::<(), StoreError>(StoreError::Conflict) && Database::same_payments(
                *old(self),
                *final(self),
            ),
            old(self).payments_view().contains_key(id@) && !is_terminal(
                old(self).payments_view()[id@].status,
            ) ==> {
                &&& r == Ok::<(), StoreError>(())
                &&& final(self).payments_view() == old(self).payments_view().insert(
                    id@,
                    payment_updated(
                        old(self).payments_view()[id@],
                        view_opt(preimage),
                        status,
                        fee_msat,
                    ),
                )
                &&& final(self).payments_list().len() == old(self).payments_list().len()
                &&& forall|j: int| #![trigger final(self).payments_list()[j]]
                    0 <= j < old(self).payments_list().len() ==> {
                        &&& final(self).payments_list()[j].0 == old(self).payments_list()[j].0
                        &&& (old(self).payments_list()[j].0 != id@
                            ==> final(self).payments_list()[j] == old(self).payments_list()[j])
                        &&& (old(self).payments_list()[j].0 == id@
                            ==> final(self).payments_list()[j].1 == payment_updated(
                                old(self).payments_view()[id@],
                                view_opt(preimage),
                                status,
                                fee_msat,
                            ))
                    }
            },
            Database::same_peers(*old(self), *final(self)),
            Database::same_monitors(*old(self), *final(self)),
            Database::same_singletons(*old(self), *final(self)),
    {
        self.update_payment(id, preimage, status, fee_msat)
    }

    /// Targeted update of an inbound payment, keyed by payment hash; an
    /// inbound payment carries no routing fee.
    pub fn update_inbound_payment(
        &mut self,
        hash: &Vec<u8>,
        preimage: Option<Vec<u8>>,
        status: PaymentStatus,
    ) -> (r: Result<(), StoreError>)
        requires
            old(self).wf(),
        ensures
            final(self).wf(),
            !old(self).payments_view().contains_key(hash@) ==> r == Err::<(), StoreError>(
                StoreError::NotFound,
            ) && Database::same_payments(*old(self), *final(self)),
            old(self).payments_view().contains_key(hash@) && is_terminal(
                old(self).payments_view()[hash@].status,
            ) ==> r == Err::<(), StoreError>(StoreError::Conflict) && Database::same_payments(
                *old(self),
                *final(self),
            ),
            old(self).payments_view().contains_key(hash@) && !is_terminal(
                old(self).payments_view()[hash@].status,
            ) ==> {
                &&& r == Ok::<(), StoreError>(())
                &&& final(self).payments_view() == old(self).payments_view().insert(
                    hash@,
                    payment_updated(
                        old(self).payments_view()[hash@],
                        view_opt(preimage),
                        status,
                        None,
                    ),
                )
                &&& final(self).payments_list().len() == old(self).payments_list().len()
                &&& forall|j: int| #![trigger final(self).payments_list()[j]]
                    0 <= j < old(self).payments_list().len() ==> {
                        &&& final(self).payments_list()[j].0 == old(self).payments_list()[j].0
                        &&& (old(self).payments_list()[j].0 != hash@
                            ==> final(self).payments_list()[j] == old(self).payments_list()[j])
                        &&& (old(self).payments_list()[j].0 == hash@
                            ==> final(self).payments_list()[j].1 == payment_updated(
                                old(self).payments_view()[hash@],
                                view_opt(preimage),
                                status,
                                None,
                            ))
                    }
            },
            Database::same_peers(*old(self), *final(self)),
            Database::same_monitors(*old(self), *final(self)),
            Database::same_singletons(*old(self), *final(self)),
    {
        self.update_payment(hash, preimage, status, None)
    }

    /// Read the full ledger, in insertion order, for display and
    /// reconciliation.
    pub fn fetch_payments(&self) -> (r: Vec<Payment>)
        requires
            self.wf(),
        ensures
            r@.len() == self.payments_list().len(),
            forall|i: int| #![trigger r@[i]]
                0 <= i < r@.len() ==> r@[i]@ == self.payments_list()[i].1,
    {
        let n = self.payments.len();
        let mut r: Vec<Payment> = Vec::new();
        let mut i: usize = 0;
        while i < n
            invariant
                self.wf(),
                n == self.payments_list().len(),
                i <= n,
                r@.len() == i,
                forall|j: int| #![trigger r@[j]]
                    0 <= j < i ==> r@[j]@ == self.payments_list()[j].1,
            decreases n - i,
        {
            let (_, payment) = self.payments.row(i);
            r.push(payment.duplicate());
            i = i + 1;
        }
        r
    }

    /// Overwrite the graph singleton wholesale: last write wins, which is
    /// correct because the graph is rebuildable from gossip and its loss
    /// affects routing quality, not fund safety.
    pub fn persist_graph(&mut self, bytes: Vec<u8>, last_sync_timestamp: u64)
        requires
            old(self).wf(),
        ensures
            final(self).wf(),
            final(self).graph_view() == Some(
                GraphSnapshotV { bytes: bytes@, last_sync_timestamp },
            ),
            final(self).scorer_view() == old(self).scorer_view(),
            Database::same_peers(*old(self), *final(self)),
            Database::same_payments(*old(self), *final(self)),
            Database::same_monitors(*old(self), *final(self)),
    {
        self.graph = Some(GraphSnapshot { bytes, last_sync_timestamp });
    }

    /// Read the graph singleton; `None` signals a cold start and the caller
    /// initializes an empty graph.
    pub fn fetch_graph(&self) -> (r: Option<GraphSnapshot>)
        requires
            self.wf(),
        ensures
            r is Some <==> self.graph_view() is Some,
            r is Some ==> r->0@ == self.graph_view()->0,
    {
        match &self.graph {
            Some(g) => Some(
                GraphSnapshot {
                    bytes: copy_bytes(&g.bytes),
                    last_sync_timestamp: g.last_sync_timestamp,
                },
            ),
            None => None,
        }
    }

    /// Overwrite the scorer singleton wholesale, stamped with the write
    /// time supplied by the caller's clock.
    pub fn persist_scorer(&mut self, bytes: Vec<u8>, updated_at: u64)
        requires
            old(self).wf(),
        ensures
            final(self).wf(),
            final(self).scorer_view() == Some(ScorerSnapshotV { bytes: bytes@, updated_at }),
            final(self).graph_view() == old(self).graph_view(),
            Database::same_peers(*old(self), *final(self)),
            Database::same_payments(*old(self), *final(self)),
            Database::same_monitors(*old(self), *final(self)),
    {
        self.scorer = Some(ScorerSnapshot { bytes, updated_at });
    }

    /// Read the scorer singleton; reconstructing a usable scorer from the
    /// bytes additionally needs the caller's scoring parameters and current
    /// graph, so only bytes and timestamp are handed out.
    pub fn fetch_scorer(&self) -> (r: Option<ScorerSnapshot>)
        requires
            self.wf(),
        ensures
            r is Some <==> self.scorer_view() is Some,
            r is Some ==> r->0@ == self.scorer_view()->0,
    {
        match &self.scorer {
            Some(s) => Some(
                ScorerSnapshot { bytes: copy_bytes(&s.bytes), updated_at: s.updated_at },
            ),
            None => None,
        }
    }

    /// Exposes how the ordered monitor listing and the monitor map agree.
    pub proof fn lemma_monitors_agree(self)
        requires
            self.wf(),
        ensures
            self.monitors_list().len() == self.monitors_view().len(),
            forall|i: int| #![trigger self.monitors_list()[i]]
                0 <= i < self.monitors_list().len() ==> {
                    &&& self.monitors_view().contains_key(self.monitors_list()[i].0)
                    &&& self.monitors_view()[self.monitors_list()[i].0]
                        == self.monitors_list()[i].1
                },
            forall|k: Seq<u8>| #[trigger] self.monitors_view().contains_key(k)
                ==> exists|i: int|
                    0 <= i < self.monitors_list().len() && self.monitors_list()[i].0 == k,
            forall|i: int, j: int| #![trigger self.monitors_list()[i], self.monitors_list()[j]]
                0 <= i < j < self.monitors_list().len()
                ==> self.monitors_list()[i].0 != self.monitors_list()[j].0,
    {
        self.monitors.lemma_entries_agree();
        assert forall|k: Seq<u8>| #[trigger] self.monitors_view().contains_key(k)
            implies exists|i: int|
                0 <= i < self.monitors_list().len() && self.monitors_list()[i].0 == k by {
            let i = choose|i: int|
                0 <= i < self.monitors.entries().len() && self.monitors.entries()[i].0 == k;
            assert(0 <= i < self.monitors_list().len() && self.monitors_list()[i].0 == k);
        }
    }

    /// Insert the monitor for a newly opened channel at update sequence 0.
    /// The engine guarantees channel ids are unique, so an existing row is a
    /// defect upstream and is refused as a conflict.
    pub fn persist_new_channel(&mut self, channel_id: &Vec<u8>, bytes: Vec<u8>) -> (r: Result<
        (),
        StoreError,
    >)
        requires
            old(self).wf(),
        ensures
            final(self).wf(),
            r is Ok <==> !old(self).monitors_view().contains_key(channel_id@),
            r is Ok ==> {
                &&& final(self).monitors_view() == old(self).monitors_view().insert(
                    channel_id@,
                    ChannelMonitorV { update_seq: 0, bytes: bytes@ },
                )
                &&& final(self).monitors_list() == old(self).monitors_list().push(
                    (channel_id@, ChannelMonitorV { update_seq: 0, bytes: bytes@ }),
                )
            },
            r is Err ==> r == Err::<(), StoreError>(StoreError::Conflict)
                && Database::same_monitors(*old(self), *final(self)),
            Database::same_peers(*old(self), *final(self)),
            Database::same_payments(*old(self), *final(self)),
            Database::same_singletons(*old(self), *final(self)),
    {
        let monitor = ChannelMonitor { update_seq: 0, bytes };
        if self.monitors.insert_new(copy_bytes(channel_id), monitor) {
            Ok(())
        } else {
            Err(StoreError::Conflict)
        }
    }

    /// Upsert the monitor for a channel on a state change.  This is the
    /// write routed through the sync bridge; it is idempotent, and the
    /// engine issues update sequences non-decreasingly per channel, which is
    /// the precondition here.
    pub fn update_persisted_channel(&mut self, channel_id: &Vec<u8>, update_seq: u64, bytes: Vec<u8>)
        requires
            old(self).wf(),
            old(self).monitors_view().contains_key(channel_id@)
                ==> old(self).monitors_view()[channel_id@].update_seq <= update_seq,
        ensures
            final(self).wf(),
            final(self).monitors_view() == old(self).monitors_view().insert(
                channel_id@,
                ChannelMonitorV { update_seq, bytes: bytes@ },
            ),
            old(self).monitors_view().contains_key(channel_id@) ==> {
                &&& final(self).monitors_list().len() == old(self).monitors_list().len()
                &&& forall|j: int| #![trigger final(self).monitors_list()[j]]
                    0 <= j < old(self).monitors_list().len() ==> {
                        &&& final(self).monitors_list()[j].0 == old(self).monitors_list()[j].0
                        &&& (old(self).monitors_list()[j].0 != channel_id@
                            ==> final(self).monitors_list()[j] == old(self).monitors_list()[j])
                        &&& (old(self).monitors_list()[j].0 == channel_id@
                            ==> final(self).monitors_list()[j].1 == (ChannelMonitorV {
                                update_seq,
                                bytes: bytes@,
                            }))
                    }
            },
            !old(self).monitors_view().contains_key(channel_id@)
                ==> final(self).monitors_list() == old(self).monitors_list().push(
                (channel_id@, ChannelMonitorV { update_seq, bytes: bytes@ }),
            ),
            Database::same_peers(*old(self), *final(self)),
            Database::same_payments(*old(self), *final(self)),
            Database::same_singletons(*old(self), *final(self)),
    {
        proof {
            old(self).monitors.lemma_entries_agree();
        }
        let ghost target = ChannelMonitorV { update_seq, bytes: bytes@ };
        let monitor = ChannelMonitor { update_seq, bytes };
        self.monitors.upsert(copy_bytes(channel_id), monitor);
        proof {
            if old(self).monitors_view().contains_key(channel_id@) {
                let i = choose|i: int|
                    0 <= i < old(self).monitors.entries().len()
                        && old(self).monitors.entries()[i].0 == channel_id@
                        && self.monitors.entries() == old(self).monitors.entries().update(
                        i,
                        (channel_id@, target),
                    );
                assert forall|j: int| 0 <= j < old(self).monitors_list().len() implies {
                    &&& #[trigger] self.monitors_list()[j].0 == old(self).monitors_list()[j].0
                    &&& (old(self).monitors_list()[j].0 != channel_id@
                        ==> self.monitors_list()[j] == old(self).monitors_list()[j])
                    &&& (old(self).monitors_list()[j].0 == channel_id@
                        ==> self.monitors_list()[j].1 == target)
                } by {
                    if j != i {
                        assert(old(self).monitors_list()[j].0 != channel_id@);
                    }
                }
            }
        }
    }

    /// Remove a channel's monitor after the channel is closed; reports
    /// whether a row existed.
    pub fn archive_persisted_channel(&mut self, channel_id: &Vec<u8>) -> (r: bool)
        requires
            old(self).wf(),
        ensures
            final(self).wf(),
            r == old(self).monitors_view().contains_key(channel_id@),
            final(self).monitors_view() == old(self).monitors_view().remove(channel_id@),
            r ==> exists|i: int|
                0 <= i < old(self).monitors_list().len() && old(self).monitors_list()[i].0
                    == channel_id@ && final(self).monitors_list() == old(
                    self,
                ).monitors_list().remove(i),
            !r ==> final(self).monitors_list() == old(self).monitors_list(),
            Database::same_peers(*old(self), *final(self)),
            Database::same_payments(*old(self), *final(self)),
            Database::same_singletons(*old(self), *final(self)),
    {
        let r = self.monitors.remove(channel_id);
        proof {
            if r {
                let i = choose|i: int|
                    0 <= i < old(self).monitors.entries().len()
                        && old(self).monitors.entries()[i].0 == channel_id@
                        && self.monitors.entries() == old(self).monitors.entries().remove(i);
                assert(0 <= i < old(self).monitors_list().len() && old(self).monitors_list()[i].0
                    == channel_id@ && self.monitors_list() == old(self).monitors_list().remove(i));
            }
        }
        r
    }

    /// Read every channel monitor, used only at node startup to reconstruct
    /// in-memory channel state.  Interpreting the stored bytes is the
    /// engine's job; a record that fails to deserialize there must be
    /// treated as fatal, never silently dropped.
    pub fn read_all_channel_monitors(&self) -> (r: Vec<(Vec<u8>, ChannelMonitor)>)
        requires
            self.wf(),
        ensures
            r@.len() == self.monitors_list().len(),
            forall|i: int| #![trigger r@[i]]
                0 <= i < r@.len() ==> (r@[i].0@, r@[i].1@) == self.monitors_list()[i],
    {
        let n = self.monitors.len();
        let mut r: Vec<(Vec<u8>, ChannelMonitor)> = Vec::new();
        let mut i: usize = 0;
        while i < n
            invariant
                self.wf(),
                n == self.monitors_list().len(),
                i <= n,
                r@.len() == i,
                forall|j: int| #![trigger r@[j]]
                    0 <= j < i ==> (r@[j].0@, r@[j].1@) == self.monitors_list()[j],
            decreases n - i,
        {
            let (id, monitor) = self.monitors.row(i);
            r.push((copy_bytes(id), monitor.duplicate()));
            i = i + 1;
        }
        r
    }
}

} // verus!
