use opentron::discovery::{
    common_prefix_bits, is_ignored, peer_from_pong, placeholder_node_id,
    DiscoveryMessage, Endpoint, FindPeers, Inserted, NodeInfo, Outgoing, Peer, PeerDb, Peers, Ping,
    Pong, Target,
};
use opentron::hexcodec::{decode_node_id, encode_node_id};
use opentron::ranking::rank_nearest;
use opentron::service::{handle_message, on_find_peers, on_peers, on_ping, on_pong, random_target};

fn node() -> NodeInfo {
    NodeInfo {
        endpoint: Endpoint { address: "10.0.0.1".to_string(), port: 18888, node_id: vec![0xaa; 64] },
        ip: "10.0.0.1".to_string(),
        p2p_version: 11111,
    }
}

fn peer(id: &[u8], ip: &str) -> Peer {
    Peer {
        id: hex::encode(id),
        version: 11111,
        advertised_ip: ip.to_string(),
        advertised_port: 18888,
        received_ip: ip.to_string(),
        received_port: 40000,
    }
}

fn ping_message(m: &Outgoing) -> &Ping {
    match &m.message {
        DiscoveryMessage::Ping(p) => p,
        other => panic!("not a ping: {:?}", other),
    }
}

#[test]
fn prefix_bits_of_equal_strings_is_their_length() {
    assert_eq!(common_prefix_bits(&[1, 2, 3], &[1, 2, 3]), 24);
    assert_eq!(common_prefix_bits(&[], &[]), 0);
    assert_eq!(common_prefix_bits(&[], &[1]), 0);
}

#[test]
fn prefix_bits_stop_at_the_first_difference() {
    assert_eq!(common_prefix_bits(&[0xff], &[0x7f]), 0);
    assert_eq!(common_prefix_bits(&[0xff], &[0xfe]), 7);
    assert_eq!(common_prefix_bits(&[0xab, 0xcd], &[0xab, 0xcc]), 15);
    assert_eq!(common_prefix_bits(&[0xab, 0x0f, 9], &[0xab, 0x1f, 9]), 11);
    assert_eq!(common_prefix_bits(&[0x00, 0x80], &[0x00, 0x00]), 8);
}

#[test]
fn prefix_bits_look_at_the_shorter_string_only() {
    assert_eq!(common_prefix_bits(&[1, 2], &[1, 2, 3, 4]), 16);
    assert_eq!(common_prefix_bits(&[1, 2, 3, 4], &[1]), 8);
}

#[test]
fn prefix_bits_are_symmetric_on_samples() {
    let samples: [&[u8]; 4] = [&[0x12, 0x34], &[0x12, 0x35, 7], &[0x92], &[]];
    for a in samples.iter() {
        for b in samples.iter() {
            assert_eq!(common_prefix_bits(a, b), common_prefix_bits(b, a));
        }
    }
}

#[test]
fn node_ids_are_written_in_lower_case_hex() {
    assert_eq!(encode_node_id(&vec![1, 2, 3, 15, 16]), "0102030f10");
    assert_eq!(encode_node_id(&vec![0xf9, 0xb4, 0xca]), "f9b4ca");
    assert_eq!(encode_node_id(&Vec::new()), "");
}

#[test]
fn node_ids_are_read_from_hex_of_either_case() {
    assert_eq!(decode_node_id(&"f9b4ca".to_string()), Some(vec![0xf9, 0xb4, 0xca]));
    assert_eq!(decode_node_id(&"F9B4Ca".to_string()), Some(vec![0xf9, 0xb4, 0xca]));
    assert_eq!(decode_node_id(&"".to_string()), Some(Vec::new()));
    assert_eq!(decode_node_id(&"123".to_string()), None);
    assert_eq!(decode_node_id(&"fo".to_string()), None);
    assert_eq!(decode_node_id(&"0g".to_string()), None);
    assert_eq!(decode_node_id(&"é".to_string()), None);
    assert_eq!(decode_node_id(&"éé".to_string()), None);
}

#[test]
fn hex_round_trip_on_every_byte() {
    let all: Vec<u8> = (0..=255u8).collect();
    let text = encode_node_id(&all);
    assert_eq!(text.len(), 512);
    assert_eq!(decode_node_id(&text), Some(all));
}

#[test]
fn ranking_is_by_score_then_by_position() {
    assert_eq!(rank_nearest(&vec![3, 9, 3, 1, 9], 10), vec![1, 4, 0, 2, 3]);
    assert_eq!(rank_nearest(&vec![3, 9, 3, 1, 9], 2), vec![1, 4]);
    assert_eq!(rank_nearest(&vec![3, 9, 3, 1, 9], 0), Vec::<usize>::new());
    assert_eq!(rank_nearest(&Vec::new(), 10), Vec::<usize>::new());
    assert_eq!(rank_nearest(&vec![5, 5, 5], 10), vec![0, 1, 2]);
}

#[test]
fn ranking_agrees_with_a_stable_sort() {
    let scores: Vec<u32> = vec![7, 0, 12, 7, 256, 3, 12, 12, 0, 255, 1, 7, 64];
    let mut expected: Vec<usize> = (0..scores.len()).collect();
    expected.sort_by(|a, b| scores[*b].cmp(&scores[*a]));
    expected.truncate(10);
    assert_eq!(rank_nearest(&scores, 10), expected);
}

#[test]
fn peer_database_keeps_each_peer_once() {
    let mut db = PeerDb::new();
    assert_eq!(db.len(), 0);
    assert_eq!(db.insert(peer(&[1, 2], "1.1.1.1")), Inserted::Added);
    assert_eq!(db.insert(peer(&[1, 2], "1.1.1.1")), Inserted::Known);
    assert_eq!(db.insert(peer(&[1, 2], "1.1.1.2")), Inserted::Added);
    assert_eq!(db.len(), 2);
    assert!(db.contains(&peer(&[1, 2], "1.1.1.2")));
    assert!(!db.contains(&peer(&[1, 3], "1.1.1.2")));
    assert_eq!(db.get(1).received_ip, "1.1.1.2");
}

#[test]
fn peer_database_turns_down_bad_identifiers() {
    let mut db = PeerDb::new();
    let mut bad = peer(&[1, 2], "1.1.1.1");
    bad.id = "xyz".to_string();
    assert_eq!(db.insert(bad), Inserted::Rejected);
    assert_eq!(db.len(), 0);
}

#[test]
fn nearest_peers_come_closest_first() {
    let mut db = PeerDb::new();
    db.insert(peer(&[0x00, 0x00], "1.0.0.1"));
    db.insert(peer(&[0xff, 0x00], "1.0.0.2"));
    db.insert(peer(&[0xff, 0xf0], "1.0.0.3"));
    db.insert(peer(&[0xff, 0xff], "1.0.0.4"));
    db.insert(peer(&[0xfe, 0xff], "1.0.0.5"));
    let nearest = db.nearest_peers(&vec![0xff, 0xff]);
    let addresses: Vec<&str> = nearest.iter().map(|e| e.address.as_str()).collect();
    assert_eq!(addresses, vec!["1.0.0.4", "1.0.0.3", "1.0.0.2", "1.0.0.5", "1.0.0.1"]);
    assert_eq!(nearest[0].node_id, vec![0xff, 0xff]);
    assert_eq!(nearest[0].port, 18888);
    assert_eq!(nearest[4].node_id, vec![0x00, 0x00]);
}

#[test]
fn nearest_peers_are_at_most_ten() {
    let mut db = PeerDb::new();
    for i in 0..25u8 {
        db.insert(peer(&[i], "1.0.0.1"));
    }
    let nearest = db.nearest_peers(&vec![24]);
    assert_eq!(nearest.len(), 10);
    assert_eq!(nearest[0].node_id, vec![24]);
    assert_eq!(nearest[1].node_id, vec![16]);
    assert_eq!(nearest[8].node_id, vec![23]);
    assert_eq!(nearest[9].node_id, vec![0]);
    let empty = PeerDb::new().nearest_peers(&vec![1]);
    assert!(empty.is_empty());
}

#[test]
fn ignored_addresses() {
    let own = "10.0.0.1".to_string();
    assert!(is_ignored(&"127.0.0.1".to_string(), &own));
    assert!(is_ignored(&"192.168.1.1".to_string(), &own));
    assert!(is_ignored(&"10.0.0.1".to_string(), &own));
    assert!(!is_ignored(&"10.0.0.2".to_string(), &own));
    assert!(!is_ignored(&"".to_string(), &own));
}

#[test]
fn placeholder_id_is_sixty_four_question_marks() {
    assert_eq!(placeholder_node_id(), vec![63u8; 64]);
}

#[test]
fn advertised_endpoint_prefers_the_configured_address() {
    let id = vec![5u8; 64];
    let own = "10.0.0.1".to_string();
    let e = NodeInfo::advertised_endpoint(Some(("8.8.8.8".to_string(), 1234)), &own, Some(99), &id);
    assert_eq!((e.address.as_str(), e.port), ("8.8.8.8", 1234));
    assert_eq!(e.node_id, id);
    let e = NodeInfo::advertised_endpoint(None, &own, Some(99), &id);
    assert_eq!((e.address.as_str(), e.port), ("10.0.0.1", 99));
    let e = NodeInfo::advertised_endpoint(None, &own, None, &id);
    assert_eq!((e.address.as_str(), e.port), ("10.0.0.1", 18888));
}

#[test]
fn seed_ping_names_the_seed_with_a_placeholder_id() {
    let m = node().seed_ping(&"3.3.3.3".to_string(), 18888, 42);
    match m {
        DiscoveryMessage::Ping(p) => {
            assert_eq!(p.timestamp, 42);
            assert_eq!(p.version, 11111);
            assert_eq!(p.from.unwrap().address, "10.0.0.1");
            let to = p.to.unwrap();
            assert_eq!(to.address, "3.3.3.3");
            assert_eq!(to.port, 18888);
            assert_eq!(to.node_id, vec![63u8; 64]);
        }
        other => panic!("not a ping: {:?}", other),
    }
}

#[test]
fn ping_of_another_version_gets_no_answer() {
    let ping = Ping { from: None, to: None, version: 1, timestamp: 0 };
    let replies = node().ping_replies(&ping, &"5.5.5.5".to_string(), 1, vec![0; 32], 2);
    assert!(replies.is_empty());
    assert!(on_ping(&node(), &ping, &"5.5.5.5".to_string()).is_empty());
}

#[test]
fn ping_is_answered_by_pong_and_find_peers() {
    let ping = Ping { from: None, to: None, version: 11111, timestamp: 0 };
    let replies = node().ping_replies(&ping, &"5.5.5.5".to_string(), 100, vec![9; 32], 200);
    assert_eq!(replies.len(), 2);
    match &replies[0].message {
        DiscoveryMessage::Pong(p) => {
            assert_eq!(p.timestamp, 100);
            assert_eq!(p.echo_version, 11111);
            assert_eq!(p.from.as_ref().unwrap().node_id, vec![0xaa; 64]);
        }
        other => panic!("not a pong: {:?}", other),
    }
    assert!(matches!(replies[0].to, Target::Sender));
    match &replies[1].message {
        DiscoveryMessage::FindPeers(f) => {
            assert_eq!(f.timestamp, 200);
            assert_eq!(f.target_id, vec![9; 32]);
            assert_eq!(f.from.as_ref().unwrap().port, 18888);
        }
        other => panic!("not a find: {:?}", other),
    }
    assert!(matches!(replies[1].to, Target::Sender));
}

#[test]
fn ping_from_an_ignored_address_gets_a_pong_only() {
    let ping = Ping { from: None, to: None, version: 11111, timestamp: 0 };
    for ip in ["127.0.0.1", "10.0.0.1", "192.168.1.1"] {
        let replies = node().ping_replies(&ping, &ip.to_string(), 100, vec![9; 32], 200);
        assert_eq!(replies.len(), 1);
        assert!(matches!(replies[0].message, DiscoveryMessage::Pong(_)));
    }
}

#[test]
fn on_ping_stamps_with_the_clock_and_asks_about_a_random_target() {
    let ping = Ping { from: None, to: None, version: 11111, timestamp: 0 };
    let replies = on_ping(&node(), &ping, &"5.5.5.5".to_string());
    assert_eq!(replies.len(), 2);
    match (&replies[0].message, &replies[1].message) {
        (DiscoveryMessage::Pong(p), DiscoveryMessage::FindPeers(f)) => {
            assert!(p.timestamp > 1_500_000_000_000);
            assert!(f.timestamp >= p.timestamp);
            assert_eq!(f.target_id.len(), 32);
        }
        other => panic!("unexpected replies: {:?}", other),
    }
}

#[test]
fn random_targets_have_thirty_two_bytes_and_differ() {
    let a = random_target();
    let b = random_target();
    assert_eq!(a.len(), 32);
    assert_eq!(b.len(), 32);
    assert_ne!(a, vec![0u8; 32]);
    assert_ne!(a, b);
}

#[test]
fn find_peers_is_answered_by_peers_and_a_ping() {
    let mut db = PeerDb::new();
    db.insert(peer(&[0x10], "1.0.0.1"));
    db.insert(peer(&[0x80], "1.0.0.2"));
    let asker = Endpoint { address: "6.6.6.6".to_string(), port: 7, node_id: vec![1] };
    let find = FindPeers { from: Some(asker), target_id: vec![0x81], timestamp: 0 };
    let replies = node().find_peers_replies(&db, &find, 10, 20);
    assert_eq!(replies.len(), 2);
    match &replies[0].message {
        DiscoveryMessage::Peers(p) => {
            assert_eq!(p.timestamp, 10);
            assert_eq!(p.peers.len(), 2);
            assert_eq!(p.peers[0].address, "1.0.0.2");
            assert_eq!(p.peers[0].node_id, vec![0x80]);
            assert_eq!(p.peers[1].address, "1.0.0.1");
        }
        other => panic!("not peers: {:?}", other),
    }
    let ping = ping_message(&replies[1]);
    assert_eq!(ping.timestamp, 20);
    assert_eq!(ping.to.as_ref().unwrap().address, "6.6.6.6");
    assert_eq!(ping.to.as_ref().unwrap().node_id, vec![1]);
    assert_eq!(on_find_peers(&node(), &db, &find).len(), 2);
}

#[test]
fn told_peers_are_pinged_unless_ignored() {
    let told = Peers {
        from: None,
        peers: vec![
            Endpoint { address: "127.0.0.1".to_string(), port: 1, node_id: vec![1] },
            Endpoint { address: "7.7.7.7".to_string(), port: 2, node_id: vec![2] },
            Endpoint { address: "10.0.0.1".to_string(), port: 3, node_id: vec![3] },
            Endpoint { address: "8.8.8.8".to_string(), port: 4, node_id: vec![4] },
        ],
        timestamp: 0,
    };
    assert!(node().peer_ping(&told.peers[0], 5).is_none());
    let one = node().peer_ping(&told.peers[1], 5).unwrap();
    assert_eq!(ping_message(&one).timestamp, 5);
    let pings = on_peers(&node(), &told);
    assert_eq!(pings.len(), 2);
    match &pings[0].to {
        Target::Address { host, port } => assert_eq!((host.as_str(), *port), ("7.7.7.7", 2)),
        other => panic!("unexpected target {:?}", other),
    }
    match &pings[1].to {
        Target::Address { host, port } => assert_eq!((host.as_str(), *port), ("8.8.8.8", 4)),
        other => panic!("unexpected target {:?}", other),
    }
    let to = ping_message(&pings[1]).to.as_ref().unwrap();
    assert_eq!(to.address, "8.8.8.8");
    assert_eq!(to.port, 4);
    assert_eq!(to.node_id, vec![63u8; 64]);
}

#[test]
fn pong_makes_a_peer_known_once() {
    let from = Endpoint { address: "9.9.9.9".to_string(), port: 70000, node_id: vec![0xde, 0xad] };
    let pong = Pong { from: Some(from), echo_version: 3, timestamp: 0 };
    let made = peer_from_pong(&pong, &"4.4.4.4".to_string(), 555).unwrap();
    assert_eq!(made.id, "dead");
    assert_eq!(made.version, 3);
    assert_eq!(made.advertised_ip, "9.9.9.9");
    assert_eq!(made.advertised_port, 70000i32 as u16);
    assert_eq!(made.received_ip, "4.4.4.4");
    assert_eq!(made.received_port, 555);

    let mut db = PeerDb::new();
    assert!(on_pong(&mut db, &pong, &"4.4.4.4".to_string(), 555));
    assert!(!on_pong(&mut db, &pong, &"4.4.4.4".to_string(), 555));
    assert!(on_pong(&mut db, &pong, &"4.4.4.4".to_string(), 556));
    assert_eq!(db.len(), 2);
    assert_eq!(db.get(0).to_endpoint().unwrap().node_id, vec![0xde, 0xad]);
}

#[test]
fn pong_without_sender_changes_nothing() {
    let pong = Pong { from: None, echo_version: 3, timestamp: 0 };
    assert!(peer_from_pong(&pong, &"4.4.4.4".to_string(), 555).is_none());
    let mut db = PeerDb::new();
    assert!(!on_pong(&mut db, &pong, &"4.4.4.4".to_string(), 555));
    assert_eq!(db.len(), 0);
}

#[test]
fn messages_are_dispatched_by_kind() {
    let mut db = PeerDb::new();
    let ip = "5.5.5.5".to_string();
    let from = Endpoint { address: "5.5.5.5".to_string(), port: 1, node_id: vec![0x42] };

    let pong = DiscoveryMessage::Pong(Pong { from: Some(from.clone()), echo_version: 1, timestamp: 0 });
    let r = handle_message(&node(), &mut db, &pong, &ip, 9);
    assert!(r.peers_changed);
    assert!(r.outgoing.is_empty());
    let r = handle_message(&node(), &mut db, &pong, &ip, 9);
    assert!(!r.peers_changed);

    let ping = DiscoveryMessage::Ping(Ping { from: None, to: None, version: 11111, timestamp: 0 });
    let r = handle_message(&node(), &mut db, &ping, &ip, 9);
    assert!(!r.peers_changed);
    assert_eq!(r.outgoing.len(), 2);

    let find = DiscoveryMessage::FindPeers(FindPeers { from: Some(from.clone()), target_id: vec![0x42], timestamp: 0 });
    let r = handle_message(&node(), &mut db, &find, &ip, 9);
    assert_eq!(r.outgoing.len(), 2);
    match &r.outgoing[0].message {
        DiscoveryMessage::Peers(p) => assert_eq!(p.peers.len(), 1),
        other => panic!("not peers: {:?}", other),
    }

    let peers = DiscoveryMessage::Peers(Peers { from: None, peers: vec![from], timestamp: 0 });
    let r = handle_message(&node(), &mut db, &peers, &ip, 9);
    assert_eq!(r.outgoing.len(), 1);
    assert_eq!(db.len(), 1);
}
