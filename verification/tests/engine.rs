use bytes::Bytes;
use sentinel::engine::{
    envelope_frame, Action, SentinelNode, GOSSIP_INTERVAL_SECS, PEER_SERVER_NAME, SERVICE_HOST,
    SERVICE_TYPE,
};
use sentinel::error::ProtocolError;
use sentinel::frame::MAX_FRAME_SIZE;
use sentinel::identity::NodeIdentity;
use sentinel::messages::{MessageContent, PeerInfo, SentinelMessage};

fn node(seed: u8) -> SentinelNode {
    SentinelNode::new(NodeIdentity::from_key_bytes(&[seed; 32]).unwrap())
}

fn chat(id: u128, sender: &str, timestamp: u64, text: &str) -> SentinelMessage {
    SentinelMessage::with_id(
        id,
        sender.to_string(),
        timestamp,
        MessageContent::Chat(text.to_string()),
    )
}

fn peer(node_id: &str, address: &str) -> PeerInfo {
    PeerInfo {
        node_id: node_id.to_string(),
        address: address.to_string(),
        node_name: "n".to_string(),
        last_seen: 1,
    }
}

#[test]
fn chat_is_shown_and_stored() {
    let mut b = node(2);
    let actions =
        b.handle_incoming_message(chat(1, "alice", 1700000000, "hi"), "10.0.0.1:8443".to_string());
    assert_eq!(actions.len(), 2);
    assert!(matches!(
        &actions[0],
        Action::Notify { sender, text } if sender == "alice" && text == "hi"
    ));
    match &actions[1] {
        Action::Persist { key, message } => {
            assert_eq!(key, "1700000000:alice");
            assert_eq!(message.id, 1);
            assert_eq!(message.sender, "alice");
            assert_eq!(message.timestamp, 1700000000);
            assert!(matches!(&message.content, MessageContent::Chat(t) if t == "hi"));
        }
        _ => panic!("the second action must store the message"),
    }
}

#[test]
fn same_id_over_two_links_is_acted_on_once() {
    let mut b = node(2);
    b.peer_connected("10.0.0.1:8443".to_string(), 1);
    b.peer_connected("10.0.0.2:8443".to_string(), 2);
    let first =
        b.handle_incoming_message(chat(77, "alice", 5, "once"), "10.0.0.1:8443".to_string());
    let second =
        b.handle_incoming_message(chat(77, "alice", 5, "once"), "10.0.0.2:8443".to_string());
    let stored = first
        .iter()
        .chain(second.iter())
        .filter(|a| matches!(a, Action::Persist { .. }))
        .count();
    let shown = first
        .iter()
        .chain(second.iter())
        .filter(|a| matches!(a, Action::Notify { .. }))
        .count();
    assert_eq!(stored, 1);
    assert_eq!(shown, 1);
    assert!(second.is_empty());
    // a third time too, and whatever the content now claims
    let third = b.handle_incoming_message(
        SentinelMessage::with_id(77, "mallory".to_string(), 9, MessageContent::Ping),
        "10.0.0.2:8443".to_string(),
    );
    assert!(third.is_empty());
    // another id is another message
    let other =
        b.handle_incoming_message(chat(78, "alice", 5, "once"), "10.0.0.2:8443".to_string());
    assert_eq!(other.len(), 2);
}

#[test]
fn ping_is_answered_with_pong_on_the_same_link() {
    let mut b = node(2);
    b.peer_connected("10.0.0.1:8443".to_string(), 4);
    let actions = b.handle_incoming_message(
        SentinelMessage::with_id(3, "alice".to_string(), 1, MessageContent::Ping),
        "10.0.0.1:8443".to_string(),
    );
    assert_eq!(actions.len(), 1);
    match &actions[0] {
        Action::SendNew { address, content } => {
            assert_eq!(address, "10.0.0.1:8443");
            assert!(matches!(content, MessageContent::Pong));
            let (link, envelope) = b.send_to_peer(address, content.clone()).unwrap();
            assert_eq!(link, 4);
            assert_eq!(envelope.sender, b.identity.node_id());
            assert!(matches!(envelope.content, MessageContent::Pong));
        }
        _ => panic!("a ping asks for a pong"),
    }
}

#[test]
fn pong_and_handshake_ask_for_nothing() {
    let mut b = node(2);
    let pong = b.handle_incoming_message(
        SentinelMessage::with_id(1, "a".to_string(), 1, MessageContent::Pong),
        "x:1".to_string(),
    );
    assert!(pong.is_empty());
    let handshake = b.handle_incoming_message(
        SentinelMessage::with_id(
            2,
            "a".to_string(),
            1,
            MessageContent::Handshake { public_key: vec![9; 32], node_name: "a".to_string() },
        ),
        "x:1".to_string(),
    );
    assert!(handshake.is_empty());
    // both were noted as seen
    assert!(b.seen_messages.contains(1));
    assert!(b.seen_messages.contains(2));
}

#[test]
fn gossip_yields_dials_but_not_to_self_nor_to_linked_peers() {
    let mut b = node(2);
    let own = b.identity.node_id();
    b.peer_connected("10.0.0.1:8443".to_string(), 1);
    let list = vec![
        peer("other-1", "10.0.0.9:8443"),
        peer(&own, "10.0.0.2:8443"),
        peer("other-2", "10.0.0.1:8443"),
        peer("unknown", "10.0.0.7:8443"),
    ];
    let actions = b.handle_incoming_message(
        SentinelMessage::with_id(1, "alice".to_string(), 1, MessageContent::PeerDiscovery(list)),
        "10.0.0.1:8443".to_string(),
    );
    let dials: Vec<&str> = actions
        .iter()
        .map(|a| match a {
            Action::Dial { address } => address.as_str(),
            _ => panic!("a peer list asks for dials only"),
        })
        .collect();
    assert_eq!(dials, vec!["10.0.0.9:8443", "10.0.0.7:8443"]);
    // the table is as it was
    assert_eq!(b.peers.addresses(), vec!["10.0.0.1:8443".to_string()]);
}

#[test]
fn empty_peer_list_asks_for_nothing() {
    let mut b = node(2);
    let actions = b.handle_incoming_message(
        SentinelMessage::with_id(1, "a".to_string(), 1, MessageContent::PeerDiscovery(vec![])),
        "x:1".to_string(),
    );
    assert!(actions.is_empty());
}

#[test]
fn closed_link_leaves_the_table_and_others_stay() {
    let mut a = node(1);
    a.peer_connected("10.0.0.2:8443".to_string(), 1);
    a.peer_connected("10.0.0.3:8443".to_string(), 2);
    assert_eq!(a.peer_disconnected("10.0.0.2:8443"), Some(1));
    assert!(a.send_to_peer("10.0.0.2:8443", MessageContent::Ping).is_none());
    let (link, message) = a.send_to_peer("10.0.0.3:8443", MessageContent::Ping).unwrap();
    assert_eq!(link, 2);
    assert!(matches!(message.content, MessageContent::Ping));
    // a second notice of the same closure changes nothing
    assert_eq!(a.peer_disconnected("10.0.0.2:8443"), None);
    assert!(a.peers.contains("10.0.0.3:8443"));
    let (_, round) = a.gossip_round();
    assert_eq!(round.len(), 1);
}

#[test]
fn send_to_unknown_peer_is_none() {
    let a = node(1);
    assert!(a.send_to_peer("nowhere:1", MessageContent::Ping).is_none());
}

#[test]
fn gossip_round_with_no_peer_sends_nothing() {
    let a = node(1);
    let (addresses, actions) = a.gossip_round();
    assert!(addresses.is_empty());
    assert!(actions.is_empty());
}

#[test]
fn gossip_round_sends_the_whole_list_to_every_peer() {
    let mut a = node(1);
    a.peer_connected("10.0.0.2:8443".to_string(), 1);
    a.peer_connected("10.0.0.3:8443".to_string(), 2);
    a.peer_connected("10.0.0.4:8443".to_string(), 3);
    let (addresses, actions) = a.gossip_round();
    let mut sorted = addresses.clone();
    sorted.sort();
    assert_eq!(sorted, vec!["10.0.0.2:8443", "10.0.0.3:8443", "10.0.0.4:8443"]);
    assert_eq!(actions.len(), 3);
    for (i, action) in actions.iter().enumerate() {
        match action {
            Action::SendNew { address, content: MessageContent::PeerDiscovery(list) } => {
                assert_eq!(address, &addresses[i]);
                assert_eq!(list.len(), 3);
                for (j, info) in list.iter().enumerate() {
                    assert_eq!(info.address, addresses[j]);
                    assert_eq!(info.node_id, "unknown");
                    assert_eq!(info.node_name, "mesh-node");
                    assert_eq!(info.last_seen, 0);
                }
            }
            _ => panic!("gossip sends peer lists only"),
        }
    }
    assert_eq!(GOSSIP_INTERVAL_SECS, 30);
}

#[test]
fn a_dials_b_chats_and_hears_of_itself_in_gossip() {
    let mut a = node(1);
    let mut b = node(2);
    let a_id = a.identity.node_id();
    let a_addr = "10.0.0.1:40000".to_string();
    let b_addr = "10.0.0.2:8443".to_string();

    // A dials B: A greets, both register the link
    let greeting = a.dial_greeting();
    assert_eq!(greeting.sender, a_id);
    match &greeting.content {
        MessageContent::Handshake { public_key, node_name } => {
            assert_eq!(public_key, &a.identity.public_key().to_bytes().to_vec());
            assert_eq!(node_name, &a_id);
        }
        _ => panic!("a dialer greets with a handshake"),
    }
    assert_eq!(a.peer_connected(b_addr.clone(), 1), None);
    // B has accepted: A's first message enters A in B's table
    assert!(!b.peers.contains(&a_addr));
    let on_greeting = b.link_received(a_addr.clone(), 1, greeting);
    assert!(on_greeting.is_empty());
    assert_eq!(b.peers.link(&a_addr), Some(1));

    // A sends Chat("hi")
    let (hi, _, out) = a.local_chat("hi".to_string());
    assert_eq!(out.len(), 2);
    assert!(matches!(&out[0], Action::Persist { message, .. } if message.id == hi.id));
    let delivered = match &out[1] {
        Action::Forward { address, message } => {
            assert_eq!(address, &b_addr);
            message.clone()
        }
        _ => panic!("the chat line must go to the peer"),
    };
    assert_eq!(delivered.id, hi.id);

    // B stores one record keyed "<ts>:<A's id>" with content "hi"
    let at_b = b.handle_incoming_message(delivered, a_addr.clone());
    let records: Vec<(&String, &SentinelMessage)> = at_b
        .iter()
        .filter_map(|x| match x {
            Action::Persist { key, message } => Some((key, message)),
            _ => None,
        })
        .collect();
    assert_eq!(records.len(), 1);
    assert_eq!(records[0].0, &format!("{}:{}", hi.timestamp, a_id));
    assert!(matches!(&records[0].1.content, MessageContent::Chat(t) if t == "hi"));

    // B's next gossip tick tells A of A's address
    let (_, round) = b.gossip_round();
    assert_eq!(round.len(), 1);
    match &round[0] {
        Action::SendNew { address, content: MessageContent::PeerDiscovery(list) } => {
            assert_eq!(address, &a_addr);
            assert!(list.iter().any(|p| p.address == a_addr));
        }
        _ => panic!("gossip sends peer lists only"),
    }
}

#[test]
fn local_chat_goes_to_every_peer_as_one_message() {
    let mut a = node(1);
    a.peer_connected("p:1".to_string(), 1);
    a.peer_connected("q:2".to_string(), 2);
    let (message, addresses, actions) = a.local_chat("hello all".to_string());
    assert_eq!(message.sender, a.identity.node_id());
    assert!(matches!(&message.content, MessageContent::Chat(t) if t == "hello all"));
    assert_eq!(addresses.len(), 2);
    assert_eq!(actions.len(), 3);
    match &actions[0] {
        Action::Persist { key, message: stored } => {
            assert_eq!(key, &format!("{}:{}", message.timestamp, message.sender));
            assert_eq!(stored.id, message.id);
        }
        _ => panic!("the line is stored first"),
    }
    for (i, action) in actions[1..].iter().enumerate() {
        match action {
            Action::Forward { address, message: sent } => {
                assert_eq!(address, &addresses[i]);
                assert_eq!(sent.id, message.id);
                assert_eq!(sent.timestamp, message.timestamp);
            }
            _ => panic!("then it goes to the peers"),
        }
    }
}

#[test]
fn local_chat_without_peers_is_stored_only() {
    let a = node(1);
    let (_, addresses, actions) = a.local_chat("alone".to_string());
    assert!(addresses.is_empty());
    assert_eq!(actions.len(), 1);
    assert!(matches!(&actions[0], Action::Persist { .. }));
}

#[test]
fn discovery_skips_self_and_linked_addresses() {
    let mut a = node(1);
    let own = a.identity.node_id();
    let own_name = format!("{}.sentinel._sentinel._tcp.local.", own);
    assert_eq!(a.instance_name(), format!("{}.sentinel", own));
    assert_eq!(a.discovery_target(&own_name, Some("10.0.0.1"), 8443), None);
    let other = "ffff.sentinel._sentinel._tcp.local.";
    assert_eq!(
        a.discovery_target(other, Some("10.0.0.2"), 8443),
        Some("10.0.0.2:8443".to_string())
    );
    assert_eq!(a.discovery_target(other, Some("10.0.0.2"), 0), Some("10.0.0.2:0".to_string()));
    assert_eq!(
        a.discovery_target(other, Some("fe80::1"), 65535),
        Some("fe80::1:65535".to_string())
    );
    assert_eq!(a.discovery_target(other, None, 8443), None);
    a.peer_connected("10.0.0.2:8443".to_string(), 1);
    assert_eq!(a.discovery_target(other, Some("10.0.0.2"), 8443), None);
    assert_eq!(
        a.discovery_target(other, Some("10.0.0.2"), 8444),
        Some("10.0.0.2:8444".to_string())
    );
    assert_eq!(SERVICE_TYPE, "_sentinel._tcp.local.");
    assert_eq!(SERVICE_HOST, "sentinel-node.local.");
    assert_eq!(PEER_SERVER_NAME, "sentinel-node.local");
}

#[test]
fn envelope_frame_has_no_flags() {
    let frame = envelope_frame(Bytes::from("envelope")).unwrap();
    assert_eq!(frame.version(), 1);
    assert_eq!(frame.flags(), 0);
    assert_eq!(&frame.payload()[..], b"envelope");
    assert!(matches!(
        envelope_frame(Bytes::from(vec![0u8; MAX_FRAME_SIZE + 1])),
        Err(ProtocolError::FrameTooLarge)
    ));
}

#[test]
fn a_forgotten_id_is_acted_on_again() {
    let mut b = node(2);
    assert_eq!(b.handle_incoming_message(chat(0, "a", 1, "first"), "x:1".to_string()).len(), 2);
    for id in 1..=1000u128 {
        b.handle_incoming_message(
            SentinelMessage::with_id(id, "a".to_string(), 1, MessageContent::Pong),
            "x:1".to_string(),
        );
    }
    assert!(!b.seen_messages.contains(0));
    assert_eq!(b.handle_incoming_message(chat(0, "a", 1, "first"), "x:1".to_string()).len(), 2);
}

#[test]
fn first_message_registers_an_accepted_link() {
    let mut b = node(2);
    assert!(!b.peers.contains("10.0.0.1:40000"));
    let actions = b.link_received(
        "10.0.0.1:40000".to_string(),
        7,
        SentinelMessage::with_id(1, "alice".to_string(), 1, MessageContent::Ping),
    );
    assert_eq!(b.peers.link("10.0.0.1:40000"), Some(7));
    assert_eq!(actions.len(), 1);
    let (link, pong) = b.send_to_peer("10.0.0.1:40000", MessageContent::Pong).unwrap();
    assert_eq!(link, 7);
    assert!(matches!(pong.content, MessageContent::Pong));
    // a later message over another link leaves the entry as it is
    b.link_received(
        "10.0.0.1:40000".to_string(),
        8,
        SentinelMessage::with_id(2, "alice".to_string(), 1, MessageContent::Ping),
    );
    assert_eq!(b.peers.link("10.0.0.1:40000"), Some(7));
    // a repeated message registers the link all the same, and asks for nothing
    let again = b.link_received(
        "10.0.0.9:1".to_string(),
        9,
        SentinelMessage::with_id(2, "alice".to_string(), 1, MessageContent::Ping),
    );
    assert!(again.is_empty());
    assert_eq!(b.peers.link("10.0.0.9:1"), Some(9));
}

#[test]
fn a_gossiped_address_of_the_sender_is_no_dial_candidate() {
    let mut b = node(2);
    let list = vec![peer("alice", "10.0.0.1:40000"), peer("carol", "10.0.0.3:8443")];
    let actions = b.link_received(
        "10.0.0.1:40000".to_string(),
        1,
        SentinelMessage::with_id(1, "alice".to_string(), 1, MessageContent::PeerDiscovery(list)),
    );
    assert_eq!(actions.len(), 1);
    assert!(matches!(&actions[0], Action::Dial { address } if address == "10.0.0.3:8443"));
}

#[test]
fn closing_removes_only_the_links_own_entry() {
    let mut a = node(1);
    a.peer_connected("p:1".to_string(), 1);
    a.peer_connected("q:2".to_string(), 2);
    // the entry under p:1 now belongs to a newer link
    assert_eq!(a.peer_connected("p:1".to_string(), 3), Some(1));
    assert!(!a.link_closed("p:1", 1));
    assert_eq!(a.peers.link("p:1"), Some(3));
    assert!(a.link_closed("p:1", 3));
    assert!(!a.peers.contains("p:1"));
    assert!(!a.link_closed("p:1", 3));
    assert!(!a.link_closed("nobody:0", 3));
    assert_eq!(a.peers.link("q:2"), Some(2));
    assert!(a.send_to_peer("p:1", MessageContent::Ping).is_none());
    assert!(a.send_to_peer("q:2", MessageContent::Ping).is_some());
}

#[test]
fn greeting_bears_the_public_key_and_is_neither_shown_nor_stored() {
    let a = SentinelNode::new(
        NodeIdentity::from_key_bytes(
            &hex::decode("9d61b19deffd5a60ba844af492ec2cc44449c5697b326919703bac031cae7f60")
                .unwrap(),
        )
        .unwrap(),
    );
    let greeting = a.dial_greeting();
    let name = "d75a980182b10ab7d54bfed3c964073a0ee172f3daa62325af021a68f707511a";
    assert_eq!(greeting.sender, name);
    match &greeting.content {
        MessageContent::Handshake { public_key, node_name } => {
            assert_eq!(hex::encode(public_key), name);
            assert_eq!(public_key.len(), 32);
            assert_eq!(node_name, name);
        }
        _ => panic!("a dialer greets with a handshake"),
    }
    assert_eq!(a.identity.public_bytes().to_vec(), hex::decode(name).unwrap());
    let other = a.dial_greeting();
    assert_ne!(other.id, greeting.id);
    let mut b = node(2);
    assert!(b.handle_incoming_message(greeting, "10.0.0.1:40000".to_string()).is_empty());
}

#[test]
fn a_fresh_node_remembers_exactly_one_thousand_ids() {
    let mut b = node(2);
    for id in 0..=1000u128 {
        let actions = b.handle_incoming_message(
            SentinelMessage::with_id(id, "a".to_string(), 1, MessageContent::Ping),
            "x:1".to_string(),
        );
        assert_eq!(actions.len(), 1);
    }
    // the first id gave way to the last; the thousand after it are remembered
    assert!(!b.seen_messages.contains(0));
    for id in 1..=1000u128 {
        assert!(b.seen_messages.contains(id));
    }
    for id in 1..=1000u128 {
        let again = b.handle_incoming_message(
            SentinelMessage::with_id(id, "a".to_string(), 1, MessageContent::Ping),
            "x:1".to_string(),
        );
        assert!(again.is_empty());
    }
    let first_again = b.handle_incoming_message(
        SentinelMessage::with_id(0, "a".to_string(), 1, MessageContent::Ping),
        "x:1".to_string(),
    );
    assert_eq!(first_again.len(), 1);
}
