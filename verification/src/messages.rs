//! The message envelope: what nodes say to each other inside a frame.

use vstd::prelude::*;
use uuid::Uuid;
use crate::clock::unix_seconds_now;

verus! {

/// What one node tells another about a third.
#[derive(Debug)]
pub struct PeerInfo {
    pub node_id: String,
    /// The peer's network address, as text: `host:port`.
    pub address: String,
    pub node_name: String,
    pub last_seen: u64,
}

/// A `PeerInfo` as plain values.
pub struct PeerInfoView {
    pub node_id: Seq<char>,
    pub address: Seq<char>,
    pub node_name: Seq<char>,
    pub last_seen: u64,
}

impl View for PeerInfo {
    type V = PeerInfoView;

    open spec fn view(&self) -> PeerInfoView {
        PeerInfoView {
            node_id: self.node_id@,
            address: self.address@,
            node_name: self.node_name@,
            last_seen: self.last_seen,
        }
    }
}

impl Clone for PeerInfo {
    fn clone(&self) -> (c: Self)
        ensures
            c@ == self@,
    {
        PeerInfo {
            node_id: self.node_id.clone(),
            address: self.address.clone(),
            node_name: self.node_name.clone(),
            last_seen: self.last_seen,
        }
    }
}

/// The views of a list of peers, in order.
pub open spec fn peer_views(peers: Seq<PeerInfo>) -> Seq<PeerInfoView> {
    Seq::new(peers.len(), |i: int| peers[i]@)
}

/// A copy of a list of peers.
pub fn clone_peers(peers: &Vec<PeerInfo>) -> (copy: Vec<PeerInfo>)
    ensures
        peer_views(copy@) == peer_views(peers@),
{
    let mut copy: Vec<PeerInfo> = Vec::new();
    let mut i: usize = 0;
    while i < peers.len()
        invariant
            0 <= i <= peers.len(),
            copy.len() == i,
            forall|j: int| 0 <= j < i ==> copy[j]@ == peers[j]@,
        decreases peers.len() - i,
    {
        copy.push(peers[i].clone());
        i += 1;
    }
    assert(peer_views(copy@) =~= peer_views(peers@));
    copy
}

/// What a message carries.
#[derive(Debug)]
pub enum MessageContent {
    Chat(String),
    Handshake { public_key: Vec<u8>, node_name: String },
    PeerDiscovery(Vec<PeerInfo>),
    Ping,
    Pong,
}

/// A `MessageContent` as plain values.
pub enum ContentView {
    Chat(Seq<char>),
    Handshake { public_key: Seq<u8>, node_name: Seq<char> },
    PeerDiscovery(Seq<PeerInfoView>),
    Ping,
    Pong,
}

impl View for MessageContent {
    type V = ContentView;

    open spec fn view(&self) -> ContentView {
        match self {
            MessageContent::Chat(text) => ContentView::Chat(text@),
            MessageContent::Handshake { public_key, node_name } => ContentView::Handshake {
                public_key: public_key@,
                node_name: node_name@,
            },
            MessageContent::PeerDiscovery(peers) => ContentView::PeerDiscovery(
                peer_views(peers@),
            ),
            MessageContent::Ping => ContentView::Ping,
            MessageContent::Pong => ContentView::Pong,
        }
    }
}

impl Clone for MessageContent {
    fn clone(&self) -> (c: Self)
        ensures
            c@ == self@,
    {
        match self {
            MessageContent::Chat(text) => MessageContent::Chat(text.clone()),
            MessageContent::Handshake { public_key, node_name } => MessageContent::Handshake {
                public_key: public_key.clone(),
                node_name: node_name.clone(),
            },
            MessageContent::PeerDiscovery(peers) => MessageContent::PeerDiscovery(
                clone_peers(peers),
            ),
            MessageContent::Ping => MessageContent::Ping,
            MessageContent::Pong => MessageContent::Pong,
        }
    }
}

/// One message: who sent it, when, and what it says. The id tells one
/// message from every other, however often it arrives.
#[derive(Debug)]
pub struct SentinelMessage {
    pub id: u128,
    pub sender: String,
    pub timestamp: u64,
    pub content: MessageContent,
}

/// A `SentinelMessage` as plain values.
pub struct MessageView {
    pub id: u128,
    pub sender: Seq<char>,
    pub timestamp: u64,
    pub content: ContentView,
}

impl View for SentinelMessage {
    type V = MessageView;

    open spec fn view(&self) -> MessageView {
        MessageView {
            id: self.id,
            sender: self.sender@,
            timestamp: self.timestamp,
            content: self.content@,
        }
    }
}

impl Clone for SentinelMessage {
    fn clone(&self) -> (c: Self)
        ensures
            c@ == self@,
    {
        SentinelMessage {
            id: self.id,
            sender: self.sender.clone(),
            timestamp: self.timestamp,
            content: self.content.clone(),
        }
    }
}

/// `Uuid::new_v4` draws a random identifier, handed on as its 128 bits.
/// Chance decides: nothing is promised of the number.
#[verifier::external_body]
fn random_message_id() -> u128 {
    Uuid::new_v4().as_u128()
}

impl SentinelMessage {
    /// A new message from `sender`, with a fresh random id and the time of
    /// the system clock.
    pub fn new(sender: String, content: MessageContent) -> (m: Self)
        ensures
            m@.sender == sender@,
            m@.content == content@,
    {
        let id = random_message_id();
        let timestamp = unix_seconds_now();
        Self::with_id(id, sender, timestamp, content)
    }

    /// The message with exactly these four parts.
    pub fn with_id(id: u128, sender: String, timestamp: u64, content: MessageContent) -> (m: Self)
        ensures
            m@ == (MessageView { id, sender: sender@, timestamp, content: content@ }),
    {
        SentinelMessage { id, sender, timestamp, content }
    }
}

} // verus!
