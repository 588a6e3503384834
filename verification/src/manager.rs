//! Model of one managed node process in the integration harness: its
//! binary, its derived ports and addresses, and the environment it is
//! started with.  Spawning the process, setting the environment and calling
//! the exporter over HTTP are the harness runtime's job; everything the
//! harness computes is verified here.

use crate::text::{concat_str, dec_str, u64_to_string};
use vstd::prelude::*;
use vstd::string::StringExecFns;

verus! {

/// The loopback address at the given port.
pub open spec fn loopback(port: u16) -> Seq<char> {
    "127.0.0.1:"@ + dec_str(port as nat)
}

/// One managed node process.
pub struct KndManager {
    pid: Option<u32>,
    bin_path: String,
    exporter_address: String,
}

impl KndManager {
    /// The process id of the running node, if it was started.
    pub closed spec fn pid_spec(self) -> Option<u32> {
        self.pid
    }

    /// The path of the node binary.
    pub closed spec fn bin_path_spec(self) -> Seq<char> {
        self.bin_path@
    }

    /// The exporter's listen address.
    pub closed spec fn exporter_address_spec(self) -> Seq<char> {
        self.exporter_address@
    }

    /// The peer port of node number `node_index`: nodes are spaced a
    /// thousand ports apart from 40000 up, leaving room for the sibling
    /// services beside each node.
    pub fn peer_port(node_index: u16) -> (r: u16)
        requires
            node_index <= 25,
        ensures
            r == 40000 + 1000 * node_index,
    {
        40000 + 1000 * node_index
    }

    /// Lay out the manager for test node number `node_index`: the exporter
    /// listens on loopback one port above the node's peer port.
    pub fn test_knd(bin_path: &str, node_index: u16) -> (r: KndManager)
        requires
            node_index <= 25,
        ensures
            r.pid_spec() is None,
            r.bin_path_spec() == bin_path@,
            r.exporter_address_spec() == loopback((40001 + 1000 * node_index) as u16),
    {
        let exporter_port: u16 = KndManager::peer_port(node_index) + 1;
        let exporter_address = concat_str("127.0.0.1:", u64_to_string(exporter_port as u64).as_str());
        KndManager { pid: None, bin_path: bin_path.to_owned(), exporter_address }
    }

    /// The process id, `None` while the node is not running.
    pub fn pid(&self) -> (r: Option<u32>)
        ensures
            r == self.pid_spec(),
    {
        self.pid
    }

    /// The node binary's path, for the runtime that spawns it.
    pub fn bin_path(&self) -> (r: &str)
        ensures
            r@ == self.bin_path_spec(),
    {
        self.bin_path.as_str()
    }

    /// Record the process id of the spawned node.
    pub fn mark_started(&mut self, pid: u32)
        ensures
            final(self).pid_spec() == Some(pid),
            final(self).bin_path_spec() == old(self).bin_path_spec(),
            final(self).exporter_address_spec() == old(self).exporter_address_spec(),
    {
        self.pid = Some(pid);
    }

    /// Record that the node process is gone.
    pub fn mark_stopped(&mut self)
        ensures
            final(self).pid_spec() is None,
            final(self).bin_path_spec() == old(self).bin_path_spec(),
            final(self).exporter_address_spec() == old(self).exporter_address_spec(),
    {
        self.pid = None;
    }

    /// The URL of one exporter method, for the caller that issues the HTTP
    /// request.
    pub fn exporter_url(&self, method: &str) -> (r: String)
        ensures
            r@ == "http://"@ + self.exporter_address_spec() + "/"@ + method@,
    {
        let mut s = "http://".to_owned();
        s.append(self.exporter_address.as_str());
        s.append("/");
        s.append(method);
        s
    }

    /// The URL the harness polls to decide the node is healthy.
    pub fn health_url(&self) -> (r: String)
        ensures
            r@ == "http://"@ + self.exporter_address_spec() + "/health"@,
    {
        let r = self.exporter_url("health");
        proof {
            reveal_strlit("/");
            reveal_strlit("health");
            reveal_strlit("/health");
            assert("/"@ + "health"@ =~= "/health"@);
        }
        r
    }

    /// The environment the node is started with, as name/value pairs in a
    /// fixed order: storage, ports, exporter and the bitcoin and database
    /// endpoints.
    pub fn environment(
        &self,
        storage_dir: &str,
        peer_port: u16,
        bitcoin_network: &str,
        bitcoin_cookie_path: &str,
        bitcoin_rpc_port: u16,
        database_port: u16,
    ) -> (r: Vec<(String, String)>)
        ensures
            r@.len() == 8,
            r@[0].0@ == "KND_STORAGE_DIR"@ && r@[0].1@ == storage_dir@,
            r@[1].0@ == "KND_PEER_PORT"@ && r@[1].1@ == dec_str(peer_port as nat),
            r@[2].0@ == "KND_EXPORTER_ADDRESS"@ && r@[2].1@ == self.exporter_address_spec(),
            r@[3].0@ == "KND_BITCOIN_NETWORK"@ && r@[3].1@ == bitcoin_network@,
            r@[4].0@ == "KND_BITCOIN_COOKIE_PATH"@ && r@[4].1@ == bitcoin_cookie_path@,
            r@[5].0@ == "KND_BITCOIN_RPC_HOST"@ && r@[5].1@ == "127.0.0.1"@,
            r@[6].0@ == "KND_BITCOIN_RPC_PORT"@ && r@[6].1@ == dec_str(bitcoin_rpc_port as nat),
            r@[7].0@ == "KND_DATABASE_PORT"@ && r@[7].1@ == dec_str(database_port as nat),
    {
        let mut r: Vec<(String, String)> = Vec::new();
        r.push(("KND_STORAGE_DIR".to_owned(), storage_dir.to_owned()));
        r.push(("KND_PEER_PORT".to_owned(), u64_to_string(peer_port as u64)));
        r.push(("KND_EXPORTER_ADDRESS".to_owned(), self.exporter_address.clone()));
        r.push(("KND_BITCOIN_NETWORK".to_owned(), bitcoin_network.to_owned()));
        r.push(("KND_BITCOIN_COOKIE_PATH".to_owned(), bitcoin_cookie_path.to_owned()));
        r.push(("KND_BITCOIN_RPC_HOST".to_owned(), "127.0.0.1".to_owned()));
        r.push(("KND_BITCOIN_RPC_PORT".to_owned(), u64_to_string(bitcoin_rpc_port as u64)));
        r.push(("KND_DATABASE_PORT".to_owned(), u64_to_string(database_port as u64)));
        r
    }
}

} // verus!
