//! The discovery service's reaction to each message it receives. The caller
//! owns the socket: it hands in what arrived and sends what comes back.

use vstd::prelude::*;
use crate::discovery::{
    outgoing_views, peer_from_pong, spec_find_peers_replies, spec_peer_from_pong, spec_peer_ping,
    endpoint_views, spec_ping_replies, DiscoveryMessage, EndpointView, FindPeers, Inserted,
    NodeInfo, Outgoing, OutgoingView, PeerDb, Peers, Ping, Pong,
};

verus! {

/// `chrono::Utc::now` followed by `DateTime::timestamp_millis`: the time of
/// the system clock, in milliseconds since the Unix epoch. Nothing is claimed
/// of the value. The call fails where the clock stands before the epoch.
#[verifier::external_body]
pub(crate) fn now_millis() -> (now: i64) {
    chrono::Utc::now().timestamp_millis()
}

/// `rand::Rng::fill` on `rand::thread_rng`: the bytes of the buffer are
/// overwritten with random ones; the buffer keeps its length, and nothing
/// else is claimed of what it holds.
#[verifier::external_body]
pub(crate) fn fill_random(buffer: &mut Vec<u8>)
    ensures
        final(buffer)@.len() == old(buffer)@.len(),
{
    rand::Rng::fill(&mut rand::thread_rng(), &mut buffer[..]);
}

/// A fresh random target identifier of 32 bytes.
pub fn random_target() -> (target: Vec<u8>)
    ensures
        target@.len() == 32,
{
    let mut target: Vec<u8> = Vec::new();
    let mut i: usize = 0;
    while i < 32
        invariant
            i <= 32,
            target@.len() == i,
        decreases 32 - i,
    {
        target.push(0u8);
        i += 1;
    }
    fill_random(&mut target);
    target
}

/// The pings that go out to the first `n` of the peers this node was told
/// of, the ping to the peer at position `i` stamped with `times[i]`. Peers
/// at ignored addresses get none.
pub open spec fn spec_peer_pings(node: NodeInfo, peers: Seq<EndpointView>, times: Seq<i64>, n: int) -> Seq<
    OutgoingView,
>
    decreases n,
{
    if n <= 0 {
        Seq::empty()
    } else {
        let before = spec_peer_pings(node, peers, times, n - 1);
        match spec_peer_ping(node, peers[n - 1], times[n - 1]) {
            Some(outgoing) => before.push(outgoing),
            None => before,
        }
    }
}

/// The pings to the first `n` peers depend on the first `n` times alone.
pub proof fn lemma_peer_pings_prefix(
    node: NodeInfo,
    peers: Seq<EndpointView>,
    times: Seq<i64>,
    more: Seq<i64>,
    n: int,
)
    requires
        0 <= n <= times.len() <= more.len(),
        forall|i: int| 0 <= i < n ==> times[i] == more[i],
    ensures
        spec_peer_pings(node, peers, times, n) == spec_peer_pings(node, peers, more, n),
    decreases n,
{
    if n > 0 {
        lemma_peer_pings_prefix(node, peers, times, more, n - 1);
    }
}

/// What the service does about a message.
#[derive(Debug)]
pub struct Reaction {
    /// The messages to send, in this order.
    pub outgoing: Vec<Outgoing>,
    /// Whether the known peers changed and are to be stored again.
    pub peers_changed: bool,
}

/// Answers a ping: stamps the answers with the time of the clock and asks the
/// sender about a random target.
pub fn on_ping(node: &NodeInfo, ping: &Ping, sender: &String) -> (replies: Vec<Outgoing>)
    ensures
        exists|pong_time: i64, target: Seq<u8>, find_time: i64|
            target.len() == 32 && outgoing_views(replies@) == #[trigger] spec_ping_replies(
                *node,
                *ping,
                sender@,
                pong_time,
                target,
                find_time,
            ),
{
    let pong_time = now_millis();
    let target = random_target();
    let find_time = now_millis();
    let ghost target_view = target@;
    let replies = node.ping_replies(ping, sender, pong_time, target, find_time);
    assert(target_view.len() == 32 && outgoing_views(replies@) == spec_ping_replies(
        *node,
        *ping,
        sender@,
        pong_time,
        target_view,
        find_time,
    ));
    replies
}

/// Answers a request for peers, stamping the answers with the time of the
/// clock.
pub fn on_find_peers(node: &NodeInfo, known: &PeerDb, find: &FindPeers) -> (replies: Vec<Outgoing>)
    requires
        known.wf(),
        8 * find.target_id@.len() <= u32::MAX,
    ensures
        exists|peers_time: i64, ping_time: i64|
            outgoing_views(replies@) == #[trigger] spec_find_peers_replies(
                *node,
                known@,
                *find,
                peers_time,
                ping_time,
            ),
{
    let peers_time = now_millis();
    let ping_time = now_millis();
    let replies = node.find_peers_replies(known, find, peers_time, ping_time);
    assert(outgoing_views(replies@) == spec_find_peers_replies(
        *node,
        known@,
        *find,
        peers_time,
        ping_time,
    ));
    replies
}

/// Pings the peers this node was told of, each ping stamped with the time of
/// the clock when it is made.
pub fn on_peers(node: &NodeInfo, peers: &Peers) -> (pings: Vec<Outgoing>)
    ensures
        exists|times: Seq<i64>|
            times.len() == peers.peers@.len() && outgoing_views(pings@) == #[trigger] spec_peer_pings(
                *node,
                endpoint_views(peers.peers@),
                times,
                peers.peers@.len() as int,
            ),
{
    let mut pings: Vec<Outgoing> = Vec::new();
    let ghost mut times: Seq<i64> = Seq::empty();
    let ghost told = endpoint_views(peers.peers@);
    let mut i: usize = 0;
    assert(outgoing_views(pings@) =~= spec_peer_pings(*node, told, times, 0));
    while i < peers.peers.len()
        invariant
            i <= peers.peers@.len(),
            told == endpoint_views(peers.peers@),
            times.len() == i,
            outgoing_views(pings@) == spec_peer_pings(*node, told, times, i as int),
        decreases peers.peers@.len() - i,
    {
        let now = now_millis();
        let ghost before = times;
        let ghost sent = outgoing_views(pings@);
        proof {
            times = times.push(now);
            lemma_peer_pings_prefix(*node, told, before, times, i as int);
        }
        match node.peer_ping(&peers.peers[i], now) {
            Some(outgoing) => {
                pings.push(outgoing);
                assert(outgoing_views(pings@) =~= sent.push(outgoing@));
            },
            None => {},
        }
        i += 1;
    }
    pings
}

/// Takes note of the peer that answered a ping. Tells whether the known
/// peers changed, which they do where the peer was not known before; a pong
/// that does not say who sent it changes nothing.
pub fn on_pong(known: &mut PeerDb, pong: &Pong, ip: &String, port: u16) -> (changed: bool)
    requires
        old(known).wf(),
    ensures
        final(known).wf(),
        changed == (spec_peer_from_pong(*pong, ip@, port) is Some && !old(known)@.contains(
            spec_peer_from_pong(*pong, ip@, port)->Some_0,
        )),
        changed ==> final(known)@ == old(known)@.push(spec_peer_from_pong(*pong, ip@, port)->Some_0),
        !changed ==> final(known)@ == old(known)@,
{
    match peer_from_pong(pong, ip, port) {
        None => false,
        Some(peer) => match known.insert(peer) {
            Inserted::Added => true,
            _ => false,
        },
    }
}

/// Reacts to one message that arrived from the address `ip` and `port`: says
/// what to send and whether the known peers changed. Only a pong changes
/// them, and a pong is answered by nothing.
pub fn handle_message(
    node: &NodeInfo,
    known: &mut PeerDb,
    message: &DiscoveryMessage,
    ip: &String,
    port: u16,
) -> (reaction: Reaction)
    requires
        old(known).wf(),
        message is FindPeers ==> 8 * message->FindPeers_0.target_id@.len() <= u32::MAX,
    ensures
        final(known).wf(),
        match *message {
            DiscoveryMessage::Ping(ping) => {
                &&& !reaction.peers_changed
                &&& final(known)@ == old(known)@
                &&& exists|pong_time: i64, target: Seq<u8>, find_time: i64|
                    target.len() == 32 && outgoing_views(reaction.outgoing@)
                        == #[trigger] spec_ping_replies(
                        *node,
                        ping,
                        ip@,
                        pong_time,
                        target,
                        find_time,
                    )
            },
            DiscoveryMessage::FindPeers(find) => {
                &&& !reaction.peers_changed
                &&& final(known)@ == old(known)@
                &&& exists|peers_time: i64, ping_time: i64|
                    outgoing_views(reaction.outgoing@) == #[trigger] spec_find_peers_replies(
                        *node,
                        old(known)@,
                        find,
                        peers_time,
                        ping_time,
                    )
            },
            DiscoveryMessage::Peers(peers) => {
                &&& !reaction.peers_changed
                &&& final(known)@ == old(known)@
                &&& exists|times: Seq<i64>|
                    times.len() == peers.peers@.len() && outgoing_views(reaction.outgoing@)
                        == #[trigger] spec_peer_pings(
                        *node,
                        endpoint_views(peers.peers@),
                        times,
                        peers.peers@.len() as int,
                    )
            },
            DiscoveryMessage::Pong(pong) => {
                &&& reaction.outgoing@.len() == 0
                &&& reaction.peers_changed == (spec_peer_from_pong(pong, ip@, port) is Some && !old(
                    known,
                )@.contains(spec_peer_from_pong(pong, ip@, port)->Some_0))
                &&& reaction.peers_changed ==> final(known)@ == old(known)@.push(
                    spec_peer_from_pong(pong, ip@, port)->Some_0,
                )
                &&& !reaction.peers_changed ==> final(known)@ == old(known)@
            },
        },
{
    match message {
        DiscoveryMessage::Ping(ping) => Reaction {
            outgoing: on_ping(node, ping, ip),
            peers_changed: false,
        },
        DiscoveryMessage::FindPeers(find) => Reaction {
            outgoing: on_find_peers(node, known, find),
            peers_changed: false,
        },
        DiscoveryMessage::Peers(peers) => Reaction {
            outgoing: on_peers(node, peers),
            peers_changed: false,
        },
        DiscoveryMessage::Pong(pong) => Reaction {
            outgoing: Vec::new(),
            peers_changed: on_pong(known, pong, ip, port),
        },
    }
}

} // verus!
