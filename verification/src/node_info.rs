//! Assembly of the read-only node information record served to API
//! consumers, including the parsing of listen addresses.
//!
//! The surrounding HTTP transport and authentication are plain I/O and stay
//! outside; what is verified is everything computed: which addresses parse,
//! what each field of the record holds.

use vstd::prelude::*;
use vstd::seq_lib::*;

verus! {

/// The networks a node can run on, named as their conventional lowercase
/// identifiers.
#[derive(Clone, Copy, PartialEq, Eq, Structural, Debug)]
pub enum Network {
    Bitcoin,
    Testnet,
    Signet,
    Regtest,
}

/// The conventional name of a network.
pub open spec fn network_name_spec(n: Network) -> Seq<char> {
    match n {
        Network::Bitcoin => "bitcoin"@,
        Network::Testnet => "testnet"@,
        Network::Signet => "signet"@,
        Network::Regtest => "regtest"@,
    }
}

/// Render a network's conventional name.
pub fn network_name(n: Network) -> (r: String)
    ensures
        r@ == network_name_spec(n),
{
    match n {
        Network::Bitcoin => "bitcoin".to_owned(),
        Network::Testnet => "testnet".to_owned(),
        Network::Signet => "signet".to_owned(),
        Network::Regtest => "regtest".to_owned(),
    }
}

/// An ASCII decimal digit.
pub open spec fn is_ascii_digit(b: u8) -> bool {
    48 <= b && b <= 57
}

/// Every byte is a decimal digit.
pub open spec fn all_digits(s: Seq<u8>) -> bool {
    forall|i: int| 0 <= i < s.len() ==> is_ascii_digit(#[trigger] s[i])
}

/// The value of an ASCII decimal numeral.
pub open spec fn dec_val(s: Seq<u8>) -> nat
    decreases s.len(),
{
    if s.len() == 0 {
        0
    } else {
        dec_val(s.drop_last()) * 10 + ((s.last() - 48) as nat)
    }
}

/// The port denoted by a byte string: its decimal value when it is a
/// non-empty all-digit numeral no greater than 65535, otherwise 0 — a
/// malformed port falls back to the default, it does not fail the record.
pub open spec fn port_of(s: Seq<u8>) -> u16 {
    if s.len() > 0 && all_digits(s) && dec_val(s) <= 65535 {
        dec_val(s) as u16
    } else {
        0
    }
}

/// Parse a port, with 0 as the fallback for anything malformed.
pub fn parse_port(s: &Vec<u8>) -> (r: u16)
    ensures
        r == port_of(s@),
{
    if s.len() == 0 {
        return 0;
    }
    let n = s.len();
    let mut i: usize = 0;
    while i < n
        invariant
            n == s@.len(),
            i <= n,
            forall|j: int| 0 <= j < i ==> is_ascii_digit(#[trigger] s@[j]),
        decreases n - i,
    {
        let b = s[i];
        if b < 48 || b > 57 {
            return 0;
        }
        i = i + 1;
    }
    assert(all_digits(s@));
    let mut acc: u32 = 0;
    let mut i: usize = 0;
    while i < n
        invariant
            n == s@.len(),
            all_digits(s@),
            i <= n,
            acc <= 100000,
            dec_val(s@.subrange(0, i as int)) <= 65535 ==> acc == dec_val(
                s@.subrange(0, i as int),
            ),
            dec_val(s@.subrange(0, i as int)) > 65535 ==> acc > 65535,
        decreases n - i,
    {
        let d = (s[i] - 48) as u32;
        let grown: u32 = acc * 10 + d;
        let next: u32 = if grown > 100000 {
            100000
        } else {
            grown
        };
        proof {
            let pre = s@.subrange(0, i as int);
            let ext = s@.subrange(0, i + 1 as int);
            assert(ext.drop_last() =~= pre);
            assert(ext.last() == s@[i as int]);
            assert(dec_val(ext) == dec_val(pre) * 10 + ((s@[i as int] - 48) as nat));
        }
        acc = next;
        i = i + 1;
    }
    proof {
        assert(s@.subrange(0, n as int) =~= s@);
    }
    if acc <= 65535 {
        acc as u16
    } else {
        0
    }
}

/// A listen address: host and port, tagged with the address family label
/// the record carries.
pub struct SocketAddress {
    pub address_type: String,
    pub host: Vec<u8>,
    pub port: u16,
}

/// Mathematical view of a `SocketAddress`.
pub struct SocketAddressV {
    pub address_type: Seq<char>,
    pub host: Seq<u8>,
    pub port: u16,
}

impl View for SocketAddress {
    type V = SocketAddressV;

    open spec fn view(&self) -> SocketAddressV {
        SocketAddressV { address_type: self.address_type@, host: self.host@, port: self.port }
    }
}

/// The socket denoted by a raw listen address: split at the first colon,
/// host before it, port after it; an address without a colon is skipped.
pub open spec fn socket_of(a: Seq<u8>) -> Option<SocketAddressV> {
    match a.index_of_first(58u8) {
        Some(i) => Some(
            SocketAddressV {
                address_type: "ipv4"@,
                host: a.subrange(0, i),
                port: port_of(a.subrange(i + 1, a.len() as int)),
            },
        ),
        None => None,
    }
}

/// The sockets denoted by a list of raw addresses, in order, the malformed
/// ones skipped.
pub open spec fn sockets_of(s: Seq<Seq<u8>>) -> Seq<SocketAddressV>
    decreases s.len(),
{
    if s.len() == 0 {
        Seq::empty()
    } else {
        sockets_of(s.drop_last()) + match socket_of(s.last()) {
            Some(v) => seq![v],
            None => Seq::empty(),
        }
    }
}

/// The views of raw addresses.
pub open spec fn bytes_views(s: Seq<Vec<u8>>) -> Seq<Seq<u8>> {
    s.map_values(|v: Vec<u8>| v@)
}

/// The views of parsed sockets.
pub open spec fn socket_views(s: Seq<SocketAddress>) -> Seq<SocketAddressV> {
    s.map_values(|v: SocketAddress| v@)
}

/// The position of the first colon, if any.
fn find_colon(s: &Vec<u8>) -> (r: Option<usize>)
    ensures
        match r {
            Some(i) => i < s@.len() && s@.index_of_first(58u8) == Some(i as int),
            None => s@.index_of_first(58u8) is None,
        },
{
    let n = s.len();
    let mut i: usize = 0;
    while i < n
        invariant
            n == s@.len(),
            i <= n,
            forall|j: int| 0 <= j < i ==> s@[j] != 58u8,
        decreases n - i,
    {
        if s[i] == 58 {
            proof {
                s@.index_of_first_ensures(58u8);
                assert(s@.contains(58u8)) by {
                    assert((i as int) < s@.len() && s@[i as int] == 58u8);
                }
                let idx = s@.index_of_first(58u8)->0;
                if idx < i as int {
                    assert(s@[idx] != 58u8);
                }
                if (i as int) < idx {
                    assert(s@[i as int] != 58u8);
                }
                assert(idx == i as int);
            }
            return Some(i);
        }
        i = i + 1;
    }
    proof {
        s@.index_of_first_ensures(58u8);
        if s@.contains(58u8) {
            let w = choose|w: int| 0 <= w < s@.len() && s@[w] == 58u8;
            assert(s@[w] != 58u8);
        }
        assert(!s@.contains(58u8));
    }
    None
}

/// Parse one raw listen address.
pub fn parse_address(a: &Vec<u8>) -> (r: Option<SocketAddress>)
    ensures
        r is Some <==> socket_of(a@) is Some,
        r is Some ==> r->0@ == socket_of(a@)->0,
{
    proof {
        a@.index_of_first_ensures(58u8);
    }
    match find_colon(a) {
        None => None,
        Some(i) => {
            let n = a.len();
            proof {
                assert(i < n);
            }
            let mut host: Vec<u8> = Vec::new();
            let mut j: usize = 0;
            while j < i
                invariant
                    i < a@.len(),
                    j <= i,
                    host@ =~= a@.subrange(0, j as int),
                decreases i - j,
            {
                host.push(a[j]);
                j = j + 1;
            }
            let mut port_bytes: Vec<u8> = Vec::new();
            let mut j: usize = i + 1;
            while j < n
                invariant
                    n == a@.len(),
                    i + 1 <= j <= n,
                    port_bytes@ =~= a@.subrange(i + 1, j as int),
                decreases n - j,
            {
                port_bytes.push(a[j]);
                j = j + 1;
            }
            let port = parse_port(&port_bytes);
            proof {
                assert(host@ =~= a@.subrange(0, i as int));
                assert(port_bytes@ =~= a@.subrange(i + 1, a@.len() as int));
            }
            Some(SocketAddress { address_type: "ipv4".to_owned(), host, port })
        }
    }
}

/// Parse every raw listen address, keeping order and skipping entries
/// without a colon.
pub fn parse_listen_addresses(addrs: &Vec<Vec<u8>>) -> (r: Vec<SocketAddress>)
    ensures
        socket_views(r@) == sockets_of(bytes_views(addrs@)),
{
    let n = addrs.len();
    let mut r: Vec<SocketAddress> = Vec::new();
    let mut i: usize = 0;
    while i < n
        invariant
            n == addrs@.len(),
            i <= n,
            socket_views(r@) =~= sockets_of(bytes_views(addrs@).subrange(0, i as int)),
        decreases n - i,
    {
        let ghost before = socket_views(r@);
        match parse_address(&addrs[i]) {
            Some(sock) => {
                r.push(sock);
            }
            None => {}
        }
        proof {
            let av = bytes_views(addrs@);
            assert(av.subrange(0, i + 1 as int).drop_last() =~= av.subrange(0, i as int));
            assert(av.subrange(0, i + 1 as int).last() == av[i as int]);
            match socket_of(av[i as int]) {
                Some(v) => {
                    assert(socket_views(r@) =~= before + seq![v]);
                }
                None => {
                    assert(socket_views(r@) =~= before);
                }
            }
        }
        i = i + 1;
    }
    proof {
        assert(bytes_views(addrs@).subrange(0, n as int) =~= bytes_views(addrs@));
    }
    r
}

/// One chain entry of the node record.
pub struct Chain {
    pub chain: String,
    pub network: String,
}

/// The read-only information record describing this node.
pub struct GetInfo {
    pub id: String,
    pub alias: String,
    pub color: String,
    pub version: String,
    pub api_version: String,
    pub network: String,
    pub testnet: bool,
    pub synced_to_chain: bool,
    pub num_pending_channels: u64,
    pub num_active_channels: u64,
    pub num_inactive_channels: u64,
    pub num_peers: u64,
    pub block_height: u64,
    pub chains: Vec<Chain>,
    pub address: Vec<SocketAddress>,
}

/// Assemble the node record from plain readings of the engine.
///
/// Every field is pinned: identity and counters are carried through, the
/// chain list holds the single bitcoin entry for the node's network, the
/// node is testnet whenever the network is not the main one, and the
/// addresses are the parsed listen addresses.
pub fn build_get_info(
    id: String,
    alias: String,
    version: String,
    network: Network,
    num_pending_channels: u64,
    num_active_channels: u64,
    num_inactive_channels: u64,
    num_peers: u64,
    block_height: u64,
    addresses: &Vec<Vec<u8>>,
) -> (r: GetInfo)
    ensures
        r.id@ == id@,
        r.alias@ == alias@,
        r.color@ == ""@,
        r.version@ == version@,
        r.api_version@ == "0.9.0"@,
        r.network@ == network_name_spec(network),
        r.testnet == (network != Network::Bitcoin),
        r.synced_to_chain == true,
        r.num_pending_channels == num_pending_channels,
        r.num_active_channels == num_active_channels,
        r.num_inactive_channels == num_inactive_channels,
        r.num_peers == num_peers,
        r.block_height == block_height,
        r.chains@.len() == 1,
        r.chains@[0].chain@ == "bitcoin"@,
        r.chains@[0].network@ == network_name_spec(network),
        socket_views(r.address@) == sockets_of(bytes_views(addresses@)),
{
    let mut chains: Vec<Chain> = Vec::new();
    chains.push(Chain { chain: "bitcoin".to_owned(), network: network_name(network) });
    GetInfo {
        id,
        alias,
        color: "".to_owned(),
        version,
        api_version: "0.9.0".to_owned(),
        network: network_name(network),
        testnet: network != Network::Bitcoin,
        synced_to_chain: true,
        num_pending_channels,
        num_active_channels,
        num_inactive_channels,
        num_peers,
        block_height,
        chains,
        address: parse_listen_addresses(addresses),
    }
}

} // verus!
