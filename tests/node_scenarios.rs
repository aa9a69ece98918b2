use p2p_chat::address::{parse_address, AddressError};
use p2p_chat::node::{ChatNode, NodeAction, Strategy};
use p2p_chat::validation::ValidationMode;

fn peer_a() -> Vec<u8> {
    vec![0xa1, 0x00, 0xa2]
}

fn peer_b() -> Vec<u8> {
    vec![0xb1, 0xb2]
}

#[test]
fn not_an_address_is_rejected() {
    assert_eq!(parse_address("not-an-address").err(), Some(AddressError::Malformed));
    let node = ChatNode::new(peer_a(), ValidationMode::Permissive, 16);
    match node.dial_request("not-an-address".to_string()) {
        NodeAction::DialRejected { text } => assert_eq!(text, "not-an-address"),
        other => panic!("unexpected action {:?}", other),
    }
}

#[test]
fn well_formed_address_is_dialled() {
    let node = ChatNode::new(peer_a(), ValidationMode::Permissive, 16);
    match node.dial_request("/ip4/127.0.0.1/tcp/4001/ws".to_string()) {
        NodeAction::Dial { address } => {
            assert_eq!(address.to_string(), "/ip4/127.0.0.1/tcp/4001/ws")
        }
        other => panic!("unexpected action {:?}", other),
    }
    assert!(parse_address("/ip4/999.0.0.1/tcp/1").is_err());
    assert!(parse_address("/ip4/10.0.0.1/tcp/99999").is_err());
}

#[test]
fn outgoing_message_is_published_unchanged() {
    let node = ChatNode::new(peer_a(), ValidationMode::Permissive, 16);
    match node.outgoing_message(String::new()) {
        NodeAction::Publish { text } => assert_eq!(text, ""),
        other => panic!("unexpected action {:?}", other),
    }
    match node.outgoing_message("hi there".to_string()) {
        NodeAction::Publish { text } => assert_eq!(text, "hi there"),
        other => panic!("unexpected action {:?}", other),
    }
}

#[test]
fn established_peer_joins_views_once() {
    let mut node = ChatNode::new(peer_a(), ValidationMode::Permissive, 16);
    assert!(matches!(node.connection_established(peer_b()), NodeAction::AddPeer { .. }));
    assert!(matches!(node.connection_established(peer_b()), NodeAction::AddPeer { .. }));
    assert!(node.in_flood_view(&peer_b()));
    assert!(node.is_explicit_peer(&peer_b()));
    assert!(node.is_connected(&peer_b()));
    assert_eq!(node.flood_targets(), vec![peer_b()]);
    assert_eq!(node.connected_peers(), vec![peer_b()]);
}

#[test]
fn closed_peer_leaves_every_view() {
    let mut node = ChatNode::new(peer_a(), ValidationMode::Permissive, 16);
    node.connection_established(peer_b());
    assert!(matches!(node.connection_closed(peer_b(), 1), NodeAction::Ignore));
    assert!(node.in_flood_view(&peer_b()));
    match node.connection_closed(peer_b(), 0) {
        NodeAction::RemovePeer { peer } => assert_eq!(peer, peer_b()),
        other => panic!("unexpected action {:?}", other),
    }
    assert!(!node.in_flood_view(&peer_b()));
    assert!(!node.is_explicit_peer(&peer_b()));
    assert!(!node.is_connected(&peer_b()));
    assert!(node.flood_targets().is_empty());
}

#[test]
fn flood_round_trip_delivers_once() {
    let mut a = ChatNode::new(peer_a(), ValidationMode::Permissive, 16);
    let mut b = ChatNode::new(peer_b(), ValidationMode::Permissive, 16);
    a.connection_established(peer_b());
    b.connection_established(peer_a());
    assert_eq!(a.flood_targets(), vec![peer_b()]);
    let text = match a.outgoing_message("x".to_string()) {
        NodeAction::Publish { text } => text,
        other => panic!("unexpected action {:?}", other),
    };
    let seq = vec![0, 0, 0, 1];
    match b.flood_message(a.local_peer().clone(), seq.clone(), text.clone().into_bytes()) {
        NodeAction::Deliver { strategy, source, data } => {
            assert_eq!(strategy, Strategy::Flood);
            assert_eq!(source, peer_a());
            assert_eq!(data, b"x".to_vec());
        }
        other => panic!("unexpected action {:?}", other),
    }
    assert!(matches!(
        b.flood_message(peer_a(), seq.clone(), text.into_bytes()),
        NodeAction::Ignore
    ));
    assert!(matches!(
        b.flood_message(peer_a(), vec![0, 0, 0, 2], b"x".to_vec()),
        NodeAction::Deliver { .. }
    ));
}

#[test]
fn gossip_duplicate_is_not_redelivered() {
    let mut b = ChatNode::new(peer_b(), ValidationMode::Strict, 16);
    let id = vec![42, 0, 1];
    assert!(matches!(
        b.gossip_message(peer_a(), id.clone(), b"m".to_vec(), true),
        NodeAction::Deliver { strategy: Strategy::Gossip, .. }
    ));
    for _ in 0..5 {
        assert!(matches!(
            b.gossip_message(peer_a(), id.clone(), b"m".to_vec(), true),
            NodeAction::Ignore
        ));
    }
}

#[test]
fn strict_mode_drops_unsigned_gossip() {
    let mut strict = ChatNode::new(peer_b(), ValidationMode::Strict, 16);
    let id = vec![9];
    assert_eq!(strict.mode(), ValidationMode::Strict);
    assert!(matches!(
        strict.gossip_message(peer_a(), id.clone(), b"forged".to_vec(), false),
        NodeAction::Ignore
    ));
    // nothing was recorded: the signed message still gets through
    assert!(matches!(
        strict.gossip_message(peer_a(), id.clone(), b"real".to_vec(), true),
        NodeAction::Deliver { .. }
    ));

    let mut permissive = ChatNode::new(peer_b(), ValidationMode::Permissive, 16);
    match permissive.gossip_message(peer_a(), id, b"forged".to_vec(), false) {
        NodeAction::Deliver { data, .. } => assert_eq!(data, b"forged".to_vec()),
        other => panic!("unexpected action {:?}", other),
    }
}

#[test]
fn gossip_hello_then_close() {
    let mut a = ChatNode::new(peer_a(), ValidationMode::Permissive, 16);
    let mut b = ChatNode::new(peer_b(), ValidationMode::Permissive, 16);
    assert!(matches!(
        a.dial_request("/ip4/127.0.0.1/tcp/4001/ws".to_string()),
        NodeAction::Dial { .. }
    ));
    a.connection_established(peer_b());
    b.connection_established(peer_a());
    assert!(a.is_explicit_peer(&peer_b()));
    let text = match a.outgoing_message("hello".to_string()) {
        NodeAction::Publish { text } => text,
        other => panic!("unexpected action {:?}", other),
    };
    let mut deliveries = 0;
    for _ in 0..3 {
        if let NodeAction::Deliver { source, data, .. } =
            b.gossip_message(peer_a(), vec![1, 2, 3], text.clone().into_bytes(), true)
        {
            assert_eq!(source, peer_a());
            assert_eq!(String::from_utf8(data).unwrap(), "hello");
            deliveries += 1;
        }
    }
    assert_eq!(deliveries, 1);
    b.connection_closed(peer_a(), 0);
    a.connection_closed(peer_b(), 0);
    assert!(!a.is_explicit_peer(&peer_b()));
    assert!(!a.in_flood_view(&peer_b()));
    assert!(!a.is_connected(&peer_b()));
}
