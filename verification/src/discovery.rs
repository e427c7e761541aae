//! Decision logic of the peer discovery service.

use vstd::prelude::*;
use crate::bytes::bytes_clone;
use crate::hexcodec::{decode_node_id, encode_node_id, hex_decoding, hex_encoding, is_hex};
use crate::ranking::{nearest_order, rank_nearest};

verus! {

/// Number of leading bits on which the byte strings `a` and `b` agree, counted
/// from position `i` on and looking only at positions both strings have.
pub open spec fn prefix_bits_from(a: Seq<u8>, b: Seq<u8>, i: int) -> int
    decreases a.len() - i,
{
    if i < 0 || i >= a.len() || i >= b.len() {
        0
    } else if a[i] != b[i] {
        (a[i] ^ b[i]).leading_zeros() as int
    } else {
        8 + prefix_bits_from(a, b, i + 1)
    }
}

/// Length in bits of the longest common prefix of `a` and `b`.
pub open spec fn prefix_bits(a: Seq<u8>, b: Seq<u8>) -> int {
    prefix_bits_from(a, b, 0)
}

/// Length of the shorter of two byte strings.
pub open spec fn shorter_len(a: Seq<u8>, b: Seq<u8>) -> int {
    if a.len() <= b.len() {
        a.len() as int
    } else {
        b.len() as int
    }
}

/// The common prefix, in bits, never exceeds the positions both strings have.
pub proof fn lemma_prefix_bits_from_bounds(a: Seq<u8>, b: Seq<u8>, i: int)
    requires
        0 <= i <= shorter_len(a, b),
    ensures
        0 <= prefix_bits_from(a, b, i) <= 8 * (shorter_len(a, b) - i),
    decreases a.len() - i,
{
    if i < a.len() && i < b.len() {
        if a[i] != b[i] {
            vstd::std_specs::bits::axiom_u8_leading_zeros(a[i] ^ b[i]);
        } else {
            lemma_prefix_bits_from_bounds(a, b, i + 1);
        }
    }
}

/// Bit `k` of a byte string, counted from the most significant bit of its
/// first byte.
pub open spec fn bit_at(s: Seq<u8>, k: int) -> bool {
    (s[k / 8] >> ((7 - k % 8) as u8)) & 1u8 == 1u8
}

/// Two bytes agree at a bit exactly where their exclusive or has a zero.
proof fn lemma_xor_bit(x: u8, y: u8, j: u8)
    requires
        j < 8,
    ensures
        (((x ^ y) >> j) & 1u8 == 0u8) <==> ((x >> j) & 1u8 == 1u8) == ((y >> j) & 1u8 == 1u8),
{
    assert((((x ^ y) >> j) & 1u8 == 0u8) <==> ((x >> j) & 1u8 == 1u8) == ((y >> j) & 1u8 == 1u8))
        by (bit_vector)
        requires
            j < 8,
    ;
}

/// From byte `i` on, the strings agree on every bit that the common prefix
/// covers, and differ at the bit after it unless the shorter string ends
/// there.
pub proof fn lemma_prefix_bits_from_meaning(a: Seq<u8>, b: Seq<u8>, i: int)
    requires
        0 <= i <= shorter_len(a, b),
    ensures
        forall|k: int|
            8 * i <= k < 8 * i + prefix_bits_from(a, b, i) ==> bit_at(a, k) == bit_at(b, k),
        8 * i + prefix_bits_from(a, b, i) < 8 * shorter_len(a, b) ==> bit_at(
            a,
            8 * i + prefix_bits_from(a, b, i),
        ) != bit_at(b, 8 * i + prefix_bits_from(a, b, i)),
    decreases a.len() - i,
{
    lemma_prefix_bits_from_bounds(a, b, i);
    if i < a.len() && i < b.len() {
        if a[i] != b[i] {
            let p = a[i];
            let q = b[i];
            let x = p ^ q;
            let z = x.leading_zeros();
            vstd::std_specs::bits::axiom_u8_leading_zeros(x);
            assert(x != 0) by (bit_vector)
                requires
                    x == p ^ q,
                    p != q,
            ;
            assert forall|k: int| 8 * i <= k < 8 * i + z implies bit_at(a, k) == bit_at(b, k) by {
                let j = (7 - k % 8) as u8;
                assert(k / 8 == i);
                assert(8 - z <= j < 8);
                assert((x >> j) & 1u8 == 0u8);
                lemma_xor_bit(a[i], b[i], j);
            }
            let n = 8 * i + z;
            let j = (7 - z) as u8;
            assert(n / 8 == i);
            assert(n % 8 == z);
            assert((x >> j) & 1u8 != 0u8);
            lemma_xor_bit(a[i], b[i], j);
        } else {
            lemma_prefix_bits_from_meaning(a, b, i + 1);
            assert forall|k: int| 8 * i <= k < 8 * i + prefix_bits_from(a, b, i) implies bit_at(
                a,
                k,
            ) == bit_at(b, k) by {
                if k < 8 * i + 8 {
                    assert(k / 8 == i);
                }
            }
        }
    }
}

/// What the length of the common prefix means: the two strings agree on
/// every bit before it, and differ at the bit that follows unless the
/// shorter string is used up.
pub proof fn lemma_prefix_bits_meaning(a: Seq<u8>, b: Seq<u8>)
    ensures
        0 <= prefix_bits(a, b) <= 8 * shorter_len(a, b),
        forall|k: int| 0 <= k < prefix_bits(a, b) ==> bit_at(a, k) == bit_at(b, k),
        prefix_bits(a, b) < 8 * shorter_len(a, b) ==> bit_at(a, prefix_bits(a, b)) != bit_at(
            b,
            prefix_bits(a, b),
        ),
{
    lemma_prefix_bits_from_bounds(a, b, 0);
    lemma_prefix_bits_from_meaning(a, b, 0);
}

/// Counts the leading bits that `a` and `b` have in common, the measure of
/// closeness between node identifiers.
pub fn common_prefix_bits(a: &[u8], b: &[u8]) -> (bits: u32)
    requires
        8 * shorter_len(a@, b@) <= u32::MAX,
    ensures
        bits == prefix_bits(a@, b@),
{
    let n: usize = if a.len() <= b.len() { a.len() } else { b.len() };
    let mut acc: u32 = 0;
    let mut i: usize = 0;
    while i < n
        invariant
            n == shorter_len(a@, b@),
            8 * n <= u32::MAX,
            i <= n,
            acc == 8 * i,
            prefix_bits(a@, b@) == acc + prefix_bits_from(a@, b@, i as int),
        decreases n - i,
    {
        let lhs: u8 = a[i];
        let rhs: u8 = b[i];
        if lhs != rhs {
            proof {
                vstd::std_specs::bits::axiom_u8_leading_zeros(lhs ^ rhs);
            }
            return acc + (lhs ^ rhs).leading_zeros();
        } else {
            acc += 8;
        }
        i += 1;
    }
    acc
}

/// Where a node can be reached and who it is.
#[derive(Clone, Debug)]
pub struct Endpoint {
    pub address: String,
    pub port: i32,
    pub node_id: Vec<u8>,
}

/// What an endpoint is, as a mathematical value.
pub struct EndpointView {
    pub address: Seq<char>,
    pub port: i32,
    pub node_id: Seq<u8>,
}

impl View for Endpoint {
    type V = EndpointView;

    open spec fn view(&self) -> EndpointView {
        EndpointView { address: self.address@, port: self.port, node_id: self.node_id@ }
    }
}

impl Endpoint {
    /// A copy of this endpoint.
    pub fn duplicate(&self) -> (copy: Endpoint)
        ensures
            copy@ == self@,
    {
        Endpoint {
            address: self.address.clone(),
            port: self.port,
            node_id: bytes_clone(&self.node_id),
        }
    }
}

/// The view of an endpoint that may be missing.
pub open spec fn endpoint_option_view(e: Option<Endpoint>) -> Option<EndpointView> {
    match e {
        Some(e) => Some(e@),
        None => None,
    }
}

/// A copy of an endpoint that may be missing.
pub fn duplicate_endpoint_option(e: &Option<Endpoint>) -> (copy: Option<Endpoint>)
    ensures
        endpoint_option_view(copy) == endpoint_option_view(*e),
{
    match e {
        Some(e) => Some(e.duplicate()),
        None => None,
    }
}

/// A node that answered a ping: the identity it claims and the address its
/// answer came from.
#[derive(Clone, Debug, PartialEq, Eq, Hash)]
pub struct Peer {
    pub id: String,
    pub version: i32,
    pub advertised_ip: String,
    pub advertised_port: u16,
    pub received_ip: String,
    pub received_port: u16,
}

/// What a peer record is, as a mathematical value.
pub struct PeerView {
    pub id: Seq<char>,
    pub version: i32,
    pub advertised_ip: Seq<char>,
    pub advertised_port: u16,
    pub received_ip: Seq<char>,
    pub received_port: u16,
}

impl View for Peer {
    type V = PeerView;

    open spec fn view(&self) -> PeerView {
        PeerView {
            id: self.id@,
            version: self.version,
            advertised_ip: self.advertised_ip@,
            advertised_port: self.advertised_port,
            received_ip: self.received_ip@,
            received_port: self.received_port,
        }
    }
}

impl PeerView {
    /// The endpoint under which the peer is handed on to others: its
    /// advertised address and the node identifier that its hexadecimal `id`
    /// stands for.
    pub open spec fn endpoint(self) -> EndpointView {
        EndpointView {
            address: self.advertised_ip,
            port: self.advertised_port as i32,
            node_id: hex_decoding(self.id),
        }
    }
}

impl Peer {
    /// Tells whether two peer records are the same in every field.
    pub fn same_as(&self, other: &Peer) -> (same: bool)
        ensures
            same == (self@ == other@),
    {
        self.id == other.id && self.version == other.version && self.advertised_ip
            == other.advertised_ip && self.advertised_port == other.advertised_port
            && self.received_ip == other.received_ip && self.received_port == other.received_port
    }

    /// The endpoint under which this peer is handed on to others; `None`
    /// where its `id` is not hexadecimal.
    pub fn to_endpoint(&self) -> (endpoint: Option<Endpoint>)
        ensures
            endpoint is Some <==> is_hex(self@.id),
            endpoint is Some ==> endpoint->Some_0@ == self@.endpoint(),
    {
        match decode_node_id(&self.id) {
            Some(node_id) => Some(
                Endpoint {
                    address: self.advertised_ip.clone(),
                    port: self.advertised_port as i32,
                    node_id,
                },
            ),
            None => None,
        }
    }
}

/// The peers that are known, each at most once and each with a hexadecimal
/// identifier, in the order in which they became known.
#[derive(Debug)]
pub struct PeerDb {
    peers: Vec<Peer>,
}

/// Whether the records of a peer list are pairwise different and all have
/// hexadecimal identifiers.
pub open spec fn peers_well_formed(peers: Seq<PeerView>) -> bool {
    &&& forall|i: int| 0 <= i < peers.len() ==> is_hex(#[trigger] peers[i].id)
    &&& forall|i: int, j: int| 0 <= i < j < peers.len() ==> peers[i] != peers[j]
}

impl View for PeerDb {
    type V = Seq<PeerView>;

    closed spec fn view(&self) -> Seq<PeerView> {
        Seq::new(self.peers@.len(), |i: int| self.peers@[i]@)
    }
}

/// What became of a peer handed to the database.
#[derive(Clone, Copy, Debug, PartialEq, Eq, Structural)]
pub enum Inserted {
    /// The peer was not known and is now.
    Added,
    /// The peer was known already.
    Known,
    /// The peer's identifier is not hexadecimal; it was turned down.
    Rejected,
}

impl PeerDb {
    /// Whether the database is as it must be: no peer twice, every
    /// identifier hexadecimal.
    pub open spec fn wf(&self) -> bool {
        peers_well_formed(self@)
    }

    /// A database that knows no peer.
    pub fn new() -> (db: PeerDb)
        ensures
            db.wf(),
            db@ == Seq::<PeerView>::empty(),
    {
        let db = PeerDb { peers: Vec::new() };
        assert(db@ =~= Seq::<PeerView>::empty());
        db
    }

    /// Number of known peers.
    pub fn len(&self) -> (n: usize)
        ensures
            n == self@.len(),
    {
        self.peers.len()
    }

    /// The known peer at position `i`.
    pub fn get(&self, i: usize) -> (peer: &Peer)
        requires
            i < self@.len(),
        ensures
            peer@ == self@[i as int],
    {
        &self.peers[i]
    }

    /// Tells whether the peer is known.
    pub fn contains(&self, peer: &Peer) -> (known: bool)
        ensures
            known == self@.contains(peer@),
    {
        let mut i: usize = 0;
        while i < self.peers.len()
            invariant
                i <= self.peers.len(),
                forall|j: int| 0 <= j < i ==> self@[j] != peer@,
            decreases self.peers.len() - i,
        {
            if self.peers[i].same_as(peer) {
                assert(self@[i as int] == peer@);
                return true;
            }
            i += 1;
        }
        false
    }

    /// Makes the peer known unless it is known already or its identifier is
    /// not hexadecimal. Only `Added` changes the database, by one record at
    /// the end.
    pub fn insert(&mut self, peer: Peer) -> (outcome: Inserted)
        requires
            old(self).wf(),
        ensures
            final(self).wf(),
            outcome == (if !is_hex(peer@.id) {
                Inserted::Rejected
            } else if old(self)@.contains(peer@) {
                Inserted::Known
            } else {
                Inserted::Added
            }),
            outcome == Inserted::Added ==> final(self)@ == old(self)@.push(peer@),
            outcome != Inserted::Added ==> final(self)@ == old(self)@,
    {
        if decode_node_id(&peer.id).is_none() {
            return Inserted::Rejected;
        }
        if self.contains(&peer) {
            return Inserted::Known;
        }
        self.peers.push(peer);
        assert(self@ =~= old(self)@.push(peer@));
        Inserted::Added
    }
}

/// How close each known peer is to `target`: the length in bits of the
/// prefix that its node identifier shares with `target`.
pub open spec fn closeness(peers: Seq<PeerView>, target: Seq<u8>) -> Seq<u32> {
    Seq::new(peers.len(), |i: int| prefix_bits(hex_decoding(peers[i].id), target) as u32)
}

/// The views of a list of endpoints.
pub open spec fn endpoint_views(endpoints: Seq<Endpoint>) -> Seq<EndpointView> {
    Seq::new(endpoints.len(), |i: int| endpoints[i]@)
}

/// The endpoints of the ten known peers closest to `target`, closest first
/// and, among equally close ones, in the order in which they became known.
pub open spec fn spec_nearest_peers(peers: Seq<PeerView>, target: Seq<u8>) -> Seq<EndpointView> {
    let order = nearest_order(closeness(peers, target), 10);
    Seq::new(order.len(), |k: int| peers[order[k]].endpoint())
}

impl PeerDb {
    /// The endpoints of the ten known peers whose node identifiers share the
    /// longest prefix with `target`.
    pub fn nearest_peers(&self, target: &Vec<u8>) -> (nearest: Vec<Endpoint>)
        requires
            self.wf(),
            8 * target@.len() <= u32::MAX,
        ensures
            endpoint_views(nearest@) == spec_nearest_peers(self@, target@),
            nearest@.len() == (if self@.len() <= 10 {
                self@.len() as int
            } else {
                10
            }),
    {
        let mut scores: Vec<u32> = Vec::new();
        let mut i: usize = 0;
        while i < self.peers.len()
            invariant
                self.wf(),
                8 * target@.len() <= u32::MAX,
                i <= self.peers.len(),
                scores@.len() == i,
                forall|k: int| 0 <= k < i ==> scores@[k] == closeness(self@, target@)[k],
            decreases self.peers.len() - i,
        {
            assert(is_hex(self@[i as int].id));
            let score: u32 = match decode_node_id(&self.peers[i].id) {
                Some(id) => common_prefix_bits(id.as_slice(), target.as_slice()),
                None => 0,
            };
            proof {
                lemma_prefix_bits_from_bounds(hex_decoding(self@[i as int].id), target@, 0);
            }
            scores.push(score);
            i += 1;
        }
        assert(scores@ =~= closeness(self@, target@));
        let order = rank_nearest(&scores, 10);
        let mut nearest: Vec<Endpoint> = Vec::new();
        let mut k: usize = 0;
        while k < order.len()
            invariant
                self.wf(),
                k <= order@.len(),
                order@.len() == nearest_order(scores@, 10).len(),
                forall|m: int| 0 <= m < order@.len() ==> order@[m] == nearest_order(scores@, 10)[m],
                forall|m: int| 0 <= m < order@.len() ==> order@[m] < scores@.len(),
                scores@.len() == self@.len(),
                nearest@.len() == k,
                forall|m: int| 0 <= m < k ==> nearest@[m]@ == self@[order@[m] as int].endpoint(),
            decreases order@.len() - k,
        {
            let p: usize = order[k];
            assert(is_hex(self@[p as int].id));
            match self.peers[p].to_endpoint() {
                Some(endpoint) => {
                    nearest.push(endpoint);
                },
                None => {
                    // every known peer has a hexadecimal identifier
                    assert(false);
                },
            }
            k += 1;
        }
        assert(endpoint_views(nearest@) =~= spec_nearest_peers(self@, target@));
        nearest
    }
}

/// A request for a sign of life.
#[derive(Clone, Debug)]
pub struct Ping {
    pub from: Option<Endpoint>,
    pub to: Option<Endpoint>,
    pub version: i32,
    pub timestamp: i64,
}

/// The answer to a ping.
#[derive(Clone, Debug)]
pub struct Pong {
    pub from: Option<Endpoint>,
    pub echo_version: i32,
    pub timestamp: i64,
}

/// A request for the peers closest to a target identifier.
#[derive(Clone, Debug)]
pub struct FindPeers {
    pub from: Option<Endpoint>,
    pub target_id: Vec<u8>,
    pub timestamp: i64,
}

/// The answer to a request for peers.
#[derive(Clone, Debug)]
pub struct Peers {
    pub from: Option<Endpoint>,
    pub peers: Vec<Endpoint>,
    pub timestamp: i64,
}

/// A message of the discovery protocol.
#[derive(Clone, Debug)]
pub enum DiscoveryMessage {
    Ping(Ping),
    Pong(Pong),
    FindPeers(FindPeers),
    Peers(Peers),
}

/// What a discovery message is, as a mathematical value.
pub enum MessageView {
    Ping { from: Option<EndpointView>, to: Option<EndpointView>, version: i32, timestamp: i64 },
    Pong { from: Option<EndpointView>, echo_version: i32, timestamp: i64 },
    FindPeers { from: Option<EndpointView>, target_id: Seq<u8>, timestamp: i64 },
    Peers { from: Option<EndpointView>, peers: Seq<EndpointView>, timestamp: i64 },
}

impl View for DiscoveryMessage {
    type V = MessageView;

    open spec fn view(&self) -> MessageView {
        match *self {
            DiscoveryMessage::Ping(m) => MessageView::Ping {
                from: endpoint_option_view(m.from),
                to: endpoint_option_view(m.to),
                version: m.version,
                timestamp: m.timestamp,
            },
            DiscoveryMessage::Pong(m) => MessageView::Pong {
                from: endpoint_option_view(m.from),
                echo_version: m.echo_version,
                timestamp: m.timestamp,
            },
            DiscoveryMessage::FindPeers(m) => MessageView::FindPeers {
                from: endpoint_option_view(m.from),
                target_id: m.target_id@,
                timestamp: m.timestamp,
            },
            DiscoveryMessage::Peers(m) => MessageView::Peers {
                from: endpoint_option_view(m.from),
                peers: endpoint_views(m.peers@),
                timestamp: m.timestamp,
            },
        }
    }
}

/// Where a message is to be sent.
#[derive(Clone, Debug)]
pub enum Target {
    /// Back to where the message being answered came from.
    Sender,
    /// To the address that `host` and `port` name.
    Address { host: String, port: i32 },
}

/// What a target is, as a mathematical value.
pub enum TargetView {
    Sender,
    Address { host: Seq<char>, port: i32 },
}

impl View for Target {
    type V = TargetView;

    open spec fn view(&self) -> TargetView {
        match *self {
            Target::Sender => TargetView::Sender,
            Target::Address { host, port } => TargetView::Address { host: host@, port },
        }
    }
}

/// A message to send and where to send it.
#[derive(Clone, Debug)]
pub struct Outgoing {
    pub message: DiscoveryMessage,
    pub to: Target,
}

/// What an outgoing message is, as a mathematical value.
pub struct OutgoingView {
    pub message: MessageView,
    pub to: TargetView,
}

impl View for Outgoing {
    type V = OutgoingView;

    open spec fn view(&self) -> OutgoingView {
        OutgoingView { message: self.message@, to: self.to@ }
    }
}

/// The views of a list of outgoing messages.
pub open spec fn outgoing_views(list: Seq<Outgoing>) -> Seq<OutgoingView> {
    Seq::new(list.len(), |i: int| list[i]@)
}

/// What this node tells others about itself, and what it expects of them.
#[derive(Clone, Debug)]
pub struct NodeInfo {
    /// The endpoint this node advertises.
    pub endpoint: Endpoint,
    /// The address under which this node sees itself from outside.
    pub ip: String,
    /// The protocol version this node speaks.
    pub p2p_version: i32,
}

/// The node identifier put into a ping whose recipient is not known yet.
pub open spec fn unknown_node_id() -> Seq<u8> {
    Seq::new(64, |i: int| 63u8)
}

/// Whether an address is one that this node does not talk to: the loopback
/// address, its own address, and the usual address of a home router.
pub open spec fn spec_is_ignored(address: Seq<char>, own: Seq<char>) -> bool {
    address == "127.0.0.1"@ || address == own || address == "192.168.1.1"@
}

/// The ping that this node sends to the endpoint `to` at time `now`.
pub open spec fn spec_ping(node: NodeInfo, to: Option<EndpointView>, now: i64) -> MessageView {
    MessageView::Ping { from: Some(node.endpoint@), to, version: node.p2p_version, timestamp: now }
}

/// What this node sends on receiving `ping` from `sender`: nothing where the
/// ping speaks another protocol version; else a pong and, unless the sender's
/// address is ignored, a request for the peers closest to `target_id`.
pub open spec fn spec_ping_replies(
    node: NodeInfo,
    ping: Ping,
    sender: Seq<char>,
    pong_time: i64,
    target_id: Seq<u8>,
    find_time: i64,
) -> Seq<OutgoingView> {
    let pong = OutgoingView {
        message: MessageView::Pong {
            from: Some(node.endpoint@),
            echo_version: node.p2p_version,
            timestamp: pong_time,
        },
        to: TargetView::Sender,
    };
    let find = OutgoingView {
        message: MessageView::FindPeers {
            from: Some(node.endpoint@),
            target_id,
            timestamp: find_time,
        },
        to: TargetView::Sender,
    };
    if ping.version != node.p2p_version {
        Seq::empty()
    } else if spec_is_ignored(sender, node.ip@) {
        seq![pong]
    } else {
        seq![pong, find]
    }
}

/// What this node sends on receiving `find`: the ten known peers closest to
/// the target, and a ping addressed to the endpoint that asked.
pub open spec fn spec_find_peers_replies(
    node: NodeInfo,
    known: Seq<PeerView>,
    find: FindPeers,
    peers_time: i64,
    ping_time: i64,
) -> Seq<OutgoingView> {
    seq![
        OutgoingView {
            message: MessageView::Peers {
                from: Some(node.endpoint@),
                peers: spec_nearest_peers(known, find.target_id@),
                timestamp: peers_time,
            },
            to: TargetView::Sender,
        },
        OutgoingView {
            message: spec_ping(node, endpoint_option_view(find.from), ping_time),
            to: TargetView::Sender,
        },
    ]
}

/// The ping that this node sends to a peer it was told of, at the address
/// the peer is said to have; none where that address is ignored.
pub open spec fn spec_peer_ping(node: NodeInfo, peer: EndpointView, now: i64) -> Option<OutgoingView> {
    if spec_is_ignored(peer.address, node.ip@) {
        None
    } else {
        Some(
            OutgoingView {
                message: spec_ping(
                    node,
                    Some(
                        EndpointView {
                            address: peer.address,
                            port: peer.port,
                            node_id: unknown_node_id(),
                        },
                    ),
                    now,
                ),
                to: TargetView::Address { host: peer.address, port: peer.port },
            },
        )
    }
}

/// The peer record made from a pong that came from `ip` and `port`; none
/// where the pong does not say who sent it.
pub open spec fn spec_peer_from_pong(pong: Pong, ip: Seq<char>, port: u16) -> Option<PeerView> {
    match pong.from {
        None => None,
        Some(from) => Some(
            PeerView {
                id: hex_encoding(from.node_id@),
                version: pong.echo_version,
                advertised_ip: from.address@,
                advertised_port: from.port as u16,
                received_ip: ip,
                received_port: port,
            },
        ),
    }
}

/// The endpoint that this node advertises: the advertised address where one
/// is configured and well formed, else the outbound address with the port it
/// listens on, or 18888 where that is not known either.
pub open spec fn spec_advertised_endpoint(
    advertised: Option<(String, u16)>,
    outbound_ip: Seq<char>,
    listen_port: Option<u16>,
    node_id: Seq<u8>,
) -> EndpointView {
    match advertised {
        Some((address, port)) => EndpointView { address: address@, port: port as i32, node_id },
        None => EndpointView {
            address: outbound_ip,
            port: match listen_port {
                Some(port) => port as i32,
                None => 18888,
            },
            node_id,
        },
    }
}

/// A node identifier for a recipient that is not known yet.
pub fn placeholder_node_id() -> (id: Vec<u8>)
    ensures
        id@ == unknown_node_id(),
{
    let mut id: Vec<u8> = Vec::new();
    let mut i: usize = 0;
    while i < 64
        invariant
            i <= 64,
            id@.len() == i,
            forall|k: int| 0 <= k < i ==> id@[k] == 63u8,
        decreases 64 - i,
    {
        id.push(63u8);
        i += 1;
    }
    assert(id@ =~= unknown_node_id());
    id
}

/// Tells whether this node refrains from talking to `address`.
pub fn is_ignored(address: &String, own: &String) -> (ignored: bool)
    ensures
        ignored == spec_is_ignored(address@, own@),
{
    let loopback: String = "127.0.0.1".to_owned();
    let router: String = "192.168.1.1".to_owned();
    *address == loopback || *address == *own || *address == router
}

impl NodeInfo {
    /// Picks the endpoint to advertise from what the configuration gave.
    pub fn advertised_endpoint(
        advertised: Option<(String, u16)>,
        outbound_ip: &String,
        listen_port: Option<u16>,
        node_id: &Vec<u8>,
    ) -> (endpoint: Endpoint)
        ensures
            endpoint@ == spec_advertised_endpoint(advertised, outbound_ip@, listen_port, node_id@),
    {
        match advertised {
            Some((address, port)) => Endpoint {
                address,
                port: port as i32,
                node_id: bytes_clone(node_id),
            },
            None => Endpoint {
                address: outbound_ip.clone(),
                port: match listen_port {
                    Some(port) => port as i32,
                    None => 18888,
                },
                node_id: bytes_clone(node_id),
            },
        }
    }

    /// The ping to send to the endpoint `to` at time `now`.
    pub fn ping(&self, to: Option<Endpoint>, now: i64) -> (message: DiscoveryMessage)
        ensures
            message@ == spec_ping(*self, endpoint_option_view(to), now),
    {
        DiscoveryMessage::Ping(
            Ping {
                from: Some(self.endpoint.duplicate()),
                to,
                version: self.p2p_version,
                timestamp: now,
            },
        )
    }

    /// The ping that greets the seed node at `address` and `port`.
    pub fn seed_ping(&self, address: &String, port: u16, now: i64) -> (message: DiscoveryMessage)
        ensures
            message@ == spec_ping(
                *self,
                Some(
                    EndpointView { address: address@, port: port as i32, node_id: unknown_node_id() },
                ),
                now,
            ),
    {
        let to = Endpoint {
            address: address.clone(),
            port: port as i32,
            node_id: placeholder_node_id(),
        };
        self.ping(Some(to), now)
    }

    /// What to send on receiving `ping` from the address `sender`, given the
    /// times to stamp the answers with and the target to ask about.
    pub fn ping_replies(
        &self,
        ping: &Ping,
        sender: &String,
        pong_time: i64,
        target_id: Vec<u8>,
        find_time: i64,
    ) -> (replies: Vec<Outgoing>)
        ensures
            outgoing_views(replies@) == spec_ping_replies(
                *self,
                *ping,
                sender@,
                pong_time,
                target_id@,
                find_time,
            ),
    {
        let mut replies: Vec<Outgoing> = Vec::new();
        if ping.version != self.p2p_version {
            assert(outgoing_views(replies@) =~= Seq::empty());
            return replies;
        }
        replies.push(
            Outgoing {
                message: DiscoveryMessage::Pong(
                    Pong {
                        from: Some(self.endpoint.duplicate()),
                        echo_version: self.p2p_version,
                        timestamp: pong_time,
                    },
                ),
                to: Target::Sender,
            },
        );
        if !is_ignored(sender, &self.ip) {
            replies.push(
                Outgoing {
                    message: DiscoveryMessage::FindPeers(
                        FindPeers {
                            from: Some(self.endpoint.duplicate()),
                            target_id,
                            timestamp: find_time,
                        },
                    ),
                    to: Target::Sender,
                },
            );
        }
        assert(outgoing_views(replies@) =~= spec_ping_replies(
            *self,
            *ping,
            sender@,
            pong_time,
            target_id@,
            find_time,
        ));
        replies
    }

    /// What to send on receiving `find`, given the known peers and the times
    /// to stamp the answers with.
    pub fn find_peers_replies(&self, known: &PeerDb, find: &FindPeers, peers_time: i64, ping_time: i64) -> (replies:
        Vec<Outgoing>)
        requires
            known.wf(),
            8 * find.target_id@.len() <= u32::MAX,
        ensures
            outgoing_views(replies@) == spec_find_peers_replies(
                *self,
                known@,
                *find,
                peers_time,
                ping_time,
            ),
    {
        let nearest = known.nearest_peers(&find.target_id);
        let mut replies: Vec<Outgoing> = Vec::new();
        replies.push(
            Outgoing {
                message: DiscoveryMessage::Peers(
                    Peers {
                        from: Some(self.endpoint.duplicate()),
                        peers: nearest,
                        timestamp: peers_time,
                    },
                ),
                to: Target::Sender,
            },
        );
        replies.push(
            Outgoing {
                message: self.ping(duplicate_endpoint_option(&find.from), ping_time),
                to: Target::Sender,
            },
        );
        assert(outgoing_views(replies@) =~= spec_find_peers_replies(
            *self,
            known@,
            *find,
            peers_time,
            ping_time,
        ));
        replies
    }

    /// The ping to send to a peer this node was told of, unless its address
    /// is ignored.
    pub fn peer_ping(&self, peer: &Endpoint, now: i64) -> (outgoing: Option<Outgoing>)
        ensures
            outgoing is Some <==> spec_peer_ping(*self, peer@, now) is Some,
            outgoing is Some ==> outgoing->Some_0@ == spec_peer_ping(*self, peer@, now)->Some_0,
    {
        if is_ignored(&peer.address, &self.ip) {
            return None;
        }
        let to = Endpoint {
            address: peer.address.clone(),
            port: peer.port,
            node_id: placeholder_node_id(),
        };
        Some(
            Outgoing {
                message: self.ping(Some(to), now),
                to: Target::Address { host: peer.address.clone(), port: peer.port },
            },
        )
    }
}

/// Makes the record of the peer that sent `pong` from the address `ip` and
/// `port`; `None` where the pong does not say who sent it.
pub fn peer_from_pong(pong: &Pong, ip: &String, port: u16) -> (peer: Option<Peer>)
    ensures
        peer is Some <==> spec_peer_from_pong(*pong, ip@, port) is Some,
        peer is Some ==> peer->Some_0@ == spec_peer_from_pong(*pong, ip@, port)->Some_0,
        peer is Some ==> is_hex(peer->Some_0@.id),
{
    match &pong.from {
        None => None,
        Some(from) => Some(
            Peer {
                id: encode_node_id(&from.node_id),
                version: pong.echo_version,
                advertised_ip: from.address.clone(),
                advertised_port: #[verifier::truncate]
                (from.port as u16),
                received_ip: ip.clone(),
                received_port: port,
            },
        ),
    }
}

} // verus!
