//! The mesh engine: what a node does with each thing that happens to it.
//!
//! The engine owns the node's identity, its table of live links and its
//! deduplication cache. It performs no input or output. Each event is
//! handed to one of its methods, which updates the node's state and
//! returns the [`Action`]s that the caller has to carry out: records to
//! store, lines to show, addresses to dial, messages to queue.

use vstd::prelude::*;
use vstd::slice::slice_to_vec;
use vstd::string::StringExecFns;
use bytes::Bytes;
use crate::buffer::bytes_contents;
use crate::dedup::{after_first_sight, DedupCache, DEDUP_CAPACITY};
use crate::error::ProtocolError;
use crate::frame::{Frame, FrameView, MAX_FRAME_SIZE, SUPPORTED_VERSION};
use crate::history::{history_key, history_key_text, push_decimal, decimal};
use crate::identity::{ed25519_public_key, node_id_of, NodeIdentity};
use crate::messages::{
    ContentView, MessageContent, MessageView, PeerInfo, PeerInfoView, SentinelMessage, peer_views,
};
use crate::peers::{lists_keys, texts, PeerTable};

verus! {

/// The time between two rounds of gossip, in seconds.
pub const GOSSIP_INTERVAL_SECS: u64 = 30;

/// The service type under which nodes announce themselves on the local
/// network.
pub const SERVICE_TYPE: &'static str = "_sentinel._tcp.local.";

/// The host name that a node announces.
pub const SERVICE_HOST: &'static str = "sentinel-node.local.";

/// The name that a dialer asks the accepting node's certificate to bear.
pub const PEER_SERVER_NAME: &'static str = "sentinel-node.local";

/// Something for the caller to carry out.
#[derive(Debug)]
pub enum Action {
    /// Show a chat line to the local user.
    Notify { sender: String, text: String },
    /// Store `message` in the history under `key`.
    Persist { key: String, message: SentinelMessage },
    /// Try to connect to the node at `address`.
    Dial { address: String },
    /// Send `content` to the peer at `address`, in a new envelope.
    SendNew { address: String, content: MessageContent },
    /// Send this very message to the peer at `address`.
    Forward { address: String, message: SentinelMessage },
}

/// An `Action` as plain values.
pub enum ActionView {
    Notify { sender: Seq<char>, text: Seq<char> },
    Persist { key: Seq<char>, message: MessageView },
    Dial { address: Seq<char> },
    SendNew { address: Seq<char>, content: ContentView },
    Forward { address: Seq<char>, message: MessageView },
}

impl View for Action {
    type V = ActionView;

    open spec fn view(&self) -> ActionView {
        match self {
            Action::Notify { sender, text } => ActionView::Notify { sender: sender@, text: text@ },
            Action::Persist { key, message } => ActionView::Persist {
                key: key@,
                message: message@,
            },
            Action::Dial { address } => ActionView::Dial { address: address@ },
            Action::SendNew { address, content } => ActionView::SendNew {
                address: address@,
                content: content@,
            },
            Action::Forward { address, message } => ActionView::Forward {
                address: address@,
                message: message@,
            },
        }
    }
}

/// The views of a list of actions, in order.
pub open spec fn action_views(actions: Seq<Action>) -> Seq<ActionView> {
    Seq::new(actions.len(), |i: int| actions[i]@)
}

/// Whether a peer that gossip tells of is worth dialing: it is not this
/// node, and no link stands under its address.
pub open spec fn is_dial_candidate(
    peer: PeerInfoView,
    local_id: Seq<char>,
    links: Map<Seq<char>, u64>,
) -> bool {
    peer.node_id != local_id && !links.contains_key(peer.address)
}

/// The dials that a list of peers asks for, in the list's order.
pub open spec fn dial_candidates(
    list: Seq<PeerInfoView>,
    local_id: Seq<char>,
    links: Map<Seq<char>, u64>,
) -> Seq<ActionView>
    decreases list.len(),
{
    if list.len() == 0 {
        Seq::empty()
    } else {
        let earlier = dial_candidates(list.drop_last(), local_id, links);
        if is_dial_candidate(list.last(), local_id, links) {
            earlier.push(ActionView::Dial { address: list.last().address })
        } else {
            earlier
        }
    }
}

/// What a message that was not seen before asks for, when it comes in
/// from the peer at `from`.
///
/// A chat line is shown and stored. A list of peers yields the dials
/// worth trying. A ping is answered with a pong to where it came from.
/// A pong or a handshake shows that the peer is alive and asks for no
/// more.
pub open spec fn reaction(
    message: MessageView,
    from: Seq<char>,
    local_id: Seq<char>,
    links: Map<Seq<char>, u64>,
) -> Seq<ActionView> {
    match message.content {
        ContentView::Chat(text) => seq![
            ActionView::Notify { sender: message.sender, text },
            ActionView::Persist {
                key: history_key_text(message.timestamp, message.sender),
                message,
            },
        ],
        ContentView::PeerDiscovery(list) => dial_candidates(list, local_id, links),
        ContentView::Ping => seq![
            ActionView::SendNew { address: from, content: ContentView::Pong },
        ],
        ContentView::Pong => Seq::empty(),
        ContentView::Handshake { .. } => Seq::empty(),
    }
}

/// What a delivery asks for, given the ids seen so far: nothing if the
/// message's id is among them, its [`reaction`] if not.
pub open spec fn delivery(
    seen: Seq<u128>,
    message: MessageView,
    from: Seq<char>,
    local_id: Seq<char>,
    links: Map<Seq<char>, u64>,
) -> Seq<ActionView> {
    if seen.contains(message.id) {
        Seq::empty()
    } else {
        reaction(message, from, local_id, links)
    }
}

/// The ids seen after a delivery of the message with `id`.
pub open spec fn seen_after(seen: Seq<u128>, capacity: nat, id: u128) -> Seq<u128> {
    if seen.contains(id) {
        seen
    } else {
        after_first_sight(seen, capacity, id)
    }
}

/// What gossip tells of the peer at `address`. The table knows a peer by
/// its address only, so the other parts are fixed: every peer goes under
/// the node id `unknown`. A node that is told of itself in this way
/// cannot tell, and takes its own address for a dial candidate unless a
/// link stands under it.
pub open spec fn gossip_entry(address: Seq<char>) -> PeerInfoView {
    PeerInfoView {
        node_id: "unknown"@,
        address,
        node_name: "mesh-node"@,
        last_seen: 0,
    }
}

/// The list of peers that a round of gossip carries: an entry for each
/// address, in the order of the addresses.
pub open spec fn gossip_list(addresses: Seq<Seq<char>>) -> Seq<PeerInfoView> {
    Seq::new(addresses.len(), |j: int| gossip_entry(addresses[j]))
}

/// A round of gossip over the peers at `addresses`: each of them is sent
/// the whole list, in a new envelope.
pub open spec fn gossip_actions(addresses: Seq<Seq<char>>) -> Seq<ActionView> {
    Seq::new(
        addresses.len(),
        |i: int|
            ActionView::SendNew {
                address: addresses[i],
                content: ContentView::PeerDiscovery(gossip_list(addresses)),
            },
    )
}

/// A chat line of the local user goes out to the peers at `addresses`
/// as one and the same message, after it is stored.
pub open spec fn chat_actions(message: MessageView, addresses: Seq<Seq<char>>) -> Seq<ActionView> {
    seq![
        ActionView::Persist {
            key: history_key_text(message.timestamp, message.sender),
            message,
        },
    ] + Seq::new(
        addresses.len(),
        |i: int| ActionView::Forward { address: addresses[i], message },
    )
}

/// The text `host:port`.
pub open spec fn address_text(host: Seq<char>, port: u16) -> Seq<char> {
    host + seq![':'] + decimal(port as nat)
}

/// Whether `needle` occurs in `text` as a run of characters.
pub open spec fn occurs_in(needle: Seq<char>, text: Seq<char>) -> bool {
    exists|i: int|
        0 <= i && i + needle.len() <= text.len() && #[trigger] text.subrange(
            i,
            i + needle.len(),
        ) == needle
}

/// `str::contains` with a string as the pattern tells whether the pattern
/// occurs in the text.
#[verifier::external_body]
fn text_contains(text: &str, pattern: &str) -> (found: bool)
    ensures
        found == occurs_in(pattern@, text@),
{
    text.contains(pattern)
}

/// A node of the mesh, as far as it decides.
pub struct SentinelNode {
    pub identity: NodeIdentity,
    pub peers: PeerTable,
    pub seen_messages: DedupCache,
}

impl SentinelNode {
    /// The name of this node.
    pub open spec fn local_id(&self) -> Seq<char> {
        node_id_of(self.identity.seed())
    }

    /// A node with the given identity, no links and nothing seen. It
    /// remembers the last [`DEDUP_CAPACITY`] message ids.
    pub fn new(identity: NodeIdentity) -> (node: Self)
        ensures
            node.identity == identity,
            node.peers@.dom() == Set::<Seq<char>>::empty(),
            node.seen_messages@ == Seq::<u128>::empty(),
            node.seen_messages.capacity() == DEDUP_CAPACITY,
    {
        SentinelNode { identity, peers: PeerTable::new(), seen_messages: DedupCache::new() }
    }

    /// Takes in a message that arrived from the peer at `addr`.
    ///
    /// A message whose id was seen already is dropped: nothing changes and
    /// nothing is asked for. Otherwise the id is remembered and the
    /// message's [`reaction`] is returned. The links stay as they are.
    pub fn handle_incoming_message(&mut self, msg: SentinelMessage, addr: String) -> (actions:
        Vec<Action>)
        ensures
            action_views(actions@) == delivery(
                old(self).seen_messages@,
                msg@,
                addr@,
                old(self).local_id(),
                old(self).peers@,
            ),
            final(self).seen_messages@ == seen_after(
                old(self).seen_messages@,
                old(self).seen_messages.capacity(),
                msg.id,
            ),
            final(self).seen_messages.capacity() == old(self).seen_messages.capacity(),
            final(self).seen_messages@.contains(msg.id),
            final(self).peers@ == old(self).peers@,
            final(self).identity == old(self).identity,
    {
        let mut actions: Vec<Action> = Vec::new();
        if !self.seen_messages.first_sight(msg.id) {
            assert(action_views(actions@) =~= Seq::<ActionView>::empty());
            return actions;
        }
        let ghost expected = reaction(msg@, addr@, self.local_id(), self.peers@);
        match &msg.content {
            MessageContent::Chat(text) => {
                actions.push(Action::Notify { sender: msg.sender.clone(), text: text.clone() });
                let key = history_key(msg.timestamp, msg.sender.as_str());
                actions.push(Action::Persist { key, message: msg.clone() });
                assert(action_views(actions@) =~= expected);
            },
            MessageContent::PeerDiscovery(new_peers) => {
                let local_id = self.identity.node_id();
                let ghost list = peer_views(new_peers@);
                let mut i: usize = 0;
                assert(list.take(0) =~= Seq::<PeerInfoView>::empty());
                while i < new_peers.len()
                    invariant
                        0 <= i <= new_peers.len(),
                        list == peer_views(new_peers@),
                        local_id@ == self.local_id(),
                        action_views(actions@) == dial_candidates(
                            list.take(i as int),
                            self.local_id(),
                            self.peers@,
                        ),
                    decreases new_peers.len() - i,
                {
                    let peer = &new_peers[i];
                    let ghost before = action_views(actions@);
                    assert(list.take(i + 1).drop_last() =~= list.take(i as int));
                    assert(list.take(i + 1).last() == peer@);
                    if !(peer.node_id == local_id) && !self.peers.contains(peer.address.as_str()) {
                        actions.push(Action::Dial { address: peer.address.clone() });
                        assert(action_views(actions@) =~= before.push(
                            ActionView::Dial { address: peer@.address },
                        ));
                    }
                    i += 1;
                }
                assert(list.take(i as int) =~= list);
            },
            MessageContent::Ping => {
                actions.push(Action::SendNew { address: addr, content: MessageContent::Pong });
                assert(action_views(actions@) =~= expected);
            },
            MessageContent::Pong => {
                assert(action_views(actions@) =~= expected);
            },
            MessageContent::Handshake { .. } => {
                assert(action_views(actions@) =~= expected);
            },
        }
        actions
    }

    /// The envelope for `content` to the peer at `addr`, with the number
    /// of the link to queue it on; `None` if no link stands under `addr`.
    /// The envelope is new: it bears this node's name, a fresh id and the
    /// time of the clock.
    pub fn send_to_peer(&self, addr: &str, content: MessageContent) -> (out: Option<
        (u64, SentinelMessage),
    >)
        ensures
            out is Some <==> self.peers@.contains_key(addr@),
            out matches Some((link, message)) ==> {
                &&& link == self.peers@[addr@]
                &&& message@.sender == self.local_id()
                &&& message@.content == content@
            },
    {
        match self.peers.link(addr) {
            Some(link) => Some((link, SentinelMessage::new(self.identity.node_id(), content))),
            None => None,
        }
    }

    /// One round of gossip: every peer is sent the list of all peers. With
    /// no peer there is nothing to send. The peers come in the order in
    /// which the table lists them, which the first part of the result
    /// records.
    pub fn gossip_round(&self) -> (round: (Vec<String>, Vec<Action>))
        ensures
            lists_keys(texts(round.0@), self.peers@),
            action_views(round.1@) == gossip_actions(texts(round.0@)),
    {
        let addresses = self.peers.addresses();
        let mut peer_list: Vec<PeerInfo> = Vec::new();
        let mut i: usize = 0;
        while i < addresses.len()
            invariant
                0 <= i <= addresses.len(),
                peer_list.len() == i,
                forall|j: int| 0 <= j < i ==> peer_list[j]@ == gossip_entry(addresses[j]@),
            decreases addresses.len() - i,
        {
            peer_list.push(
                PeerInfo {
                    node_id: String::from_str("unknown"),
                    address: addresses[i].clone(),
                    node_name: String::from_str("mesh-node"),
                    last_seen: 0,
                },
            );
            i += 1;
        }
        let ghost list = Seq::new(
            addresses.len() as nat,
            |j: int| gossip_entry(texts(addresses@)[j]),
        );
        assert(peer_views(peer_list@) =~= list);
        let content = MessageContent::PeerDiscovery(peer_list);
        let mut actions: Vec<Action> = Vec::new();
        let mut k: usize = 0;
        while k < addresses.len()
            invariant
                0 <= k <= addresses.len(),
                actions.len() == k,
                content@ == ContentView::PeerDiscovery(list),
                forall|j: int|
                    0 <= j < k ==> actions[j]@ == (ActionView::SendNew {
                        address: addresses[j]@,
                        content: ContentView::PeerDiscovery(list),
                    }),
            decreases addresses.len() - k,
        {
            actions.push(Action::SendNew { address: addresses[k].clone(), content: content.clone() });
            k += 1;
        }
        assert(action_views(actions@) =~= gossip_actions(texts(addresses@)));
        (addresses, actions)
    }

    /// A chat line of the local user: the message that carries it, and
    /// what is to be done with it. The message is stored first and then
    /// goes, as it is, to every peer. It is new: it bears this node's
    /// name, a fresh id and the time of the clock.
    pub fn local_chat(&self, line: String) -> (out: (SentinelMessage, Vec<String>, Vec<Action>))
        ensures
            out.0@.sender == self.local_id(),
            out.0@.content == ContentView::Chat(line@),
            lists_keys(texts(out.1@), self.peers@),
            action_views(out.2@) == chat_actions(out.0@, texts(out.1@)),
    {
        let message = SentinelMessage::new(self.identity.node_id(), MessageContent::Chat(line));
        let addresses = self.peers.addresses();
        let mut actions: Vec<Action> = Vec::new();
        let key = history_key(message.timestamp, message.sender.as_str());
        actions.push(Action::Persist { key, message: message.clone() });
        let mut k: usize = 0;
        while k < addresses.len()
            invariant
                0 <= k <= addresses.len(),
                actions.len() == k + 1,
                actions[0]@ == (ActionView::Persist {
                    key: history_key_text(message@.timestamp, message@.sender),
                    message: message@,
                }),
                forall|j: int|
                    0 <= j < k ==> actions[j + 1]@ == (ActionView::Forward {
                        address: addresses[j]@,
                        message: message@,
                    }),
            decreases addresses.len() - k,
        {
            actions.push(Action::Forward { address: addresses[k].clone(), message: message.clone() });
            k += 1;
        }
        assert(action_views(actions@) =~= chat_actions(message@, texts(addresses@)));
        (message, addresses, actions)
    }

    /// What a dialer's first message says: the node's public key, and its
    /// id as its name.
    pub open spec fn greeting(&self) -> ContentView {
        ContentView::Handshake {
            public_key: ed25519_public_key(self.identity.seed()),
            node_name: self.local_id(),
        }
    }

    /// The first message on a link that this node has dialed: a handshake
    /// that bears the node's public key and name. The node that takes it
    /// in learns who dialed; it neither shows nor stores it.
    pub fn dial_greeting(&self) -> (message: SentinelMessage)
        ensures
            message@.sender == self.local_id(),
            message@.content == self.greeting(),
    {
        let public = self.identity.public_bytes();
        let public_key = slice_to_vec(public.as_slice());
        let node_name = self.identity.node_id();
        SentinelMessage::new(
            self.identity.node_id(),
            MessageContent::Handshake { public_key, node_name },
        )
    }

    /// A link to the peer at `addr` is up: it is entered in the table, in
    /// place of any link that stood under that address, which is returned.
    pub fn peer_connected(&mut self, addr: String, link: u64) -> (replaced: Option<u64>)
        ensures
            final(self).peers@ == old(self).peers@.insert(addr@, link),
            replaced == if old(self).peers@.contains_key(addr@) {
                Some(old(self).peers@[addr@])
            } else {
                None
            },
            final(self).seen_messages@ == old(self).seen_messages@,
            final(self).identity == old(self).identity,
    {
        self.peers.register(addr, link)
    }

    /// The link to the peer at `addr` is down, in either direction: its
    /// entry leaves the table at once and is returned. Every other entry
    /// stays.
    pub fn peer_disconnected(&mut self, addr: &str) -> (removed: Option<u64>)
        ensures
            final(self).peers@ == old(self).peers@.remove(addr@),
            removed == if old(self).peers@.contains_key(addr@) {
                Some(old(self).peers@[addr@])
            } else {
                None
            },
            final(self).seen_messages@ == old(self).seen_messages@,
            final(self).identity == old(self).identity,
    {
        self.peers.remove(addr)
    }

    /// The links after a message has come in over the link `link` from
    /// the peer at `addr`: a peer that is heard of for the first time is
    /// entered under its address; a peer that has an entry keeps it.
    pub open spec fn links_after_message(
        links: Map<Seq<char>, u64>,
        addr: Seq<char>,
        link: u64,
    ) -> Map<Seq<char>, u64> {
        if links.contains_key(addr) {
            links
        } else {
            links.insert(addr, link)
        }
    }

    /// Takes in a message that arrived over the link `link` from the peer
    /// at `addr`. The first message of a peer without an entry in the
    /// table registers the link under the peer's address; then the
    /// message is handled as [`SentinelNode::handle_incoming_message`]
    /// handles it.
    pub fn link_received(&mut self, addr: String, link: u64, msg: SentinelMessage) -> (actions:
        Vec<Action>)
        ensures
            final(self).peers@ == Self::links_after_message(old(self).peers@, addr@, link),
            final(self).peers@.contains_key(addr@),
            action_views(actions@) == delivery(
                old(self).seen_messages@,
                msg@,
                addr@,
                old(self).local_id(),
                final(self).peers@,
            ),
            final(self).seen_messages@ == seen_after(
                old(self).seen_messages@,
                old(self).seen_messages.capacity(),
                msg.id,
            ),
            final(self).seen_messages.capacity() == old(self).seen_messages.capacity(),
            final(self).identity == old(self).identity,
    {
        if !self.peers.contains(addr.as_str()) {
            let _ = self.peers.register(addr.clone(), link);
        }
        self.handle_incoming_message(msg, addr)
    }

    /// The links after the link `link` to the peer at `addr` has gone
    /// down: the peer's entry leaves the table if it is that link's. The
    /// entry of a newer link to the same address stays.
    pub open spec fn links_after_close(
        links: Map<Seq<char>, u64>,
        addr: Seq<char>,
        link: u64,
    ) -> Map<Seq<char>, u64> {
        if links.contains_key(addr) && links[addr] == link {
            links.remove(addr)
        } else {
            links
        }
    }

    /// One direction of the link `link` to the peer at `addr` has ended,
    /// so the link is dead: its entry leaves the table at once. Tells
    /// whether there was such an entry.
    pub fn link_closed(&mut self, addr: &str, link: u64) -> (removed: bool)
        ensures
            final(self).peers@ == Self::links_after_close(old(self).peers@, addr@, link),
            removed == (old(self).peers@.contains_key(addr@) && old(self).peers@[addr@] == link),
            final(self).seen_messages@ == old(self).seen_messages@,
            final(self).identity == old(self).identity,
    {
        match self.peers.link(addr) {
            Some(current) => {
                if current == link {
                    let _ = self.peers.remove(addr);
                    true
                } else {
                    false
                }
            },
            None => false,
        }
    }

    /// The name under which this node announces itself on the local
    /// network: its id, then `.sentinel`.
    pub fn instance_name(&self) -> (name: String)
        ensures
            name@ == self.local_id() + ".sentinel"@,
    {
        let mut name = self.identity.node_id();
        name.append(".sentinel");
        name
    }

    /// The address to dial for a node that discovery has resolved, if it
    /// is to be dialed: `host:port`. A node whose full name holds this
    /// node's id is this node and is skipped; so is one under whose
    /// address a link stands already, and one that came with no host.
    pub fn discovery_target(&self, fullname: &str, host: Option<&str>, port: u16) -> (target:
        Option<String>)
        ensures
            target is Some <==> {
                &&& !occurs_in(self.local_id(), fullname@)
                &&& host is Some
                &&& !self.peers@.contains_key(address_text(host->Some_0@, port))
            },
            target matches Some(address) ==> address@ == address_text(host->Some_0@, port),
    {
        let node_id = self.identity.node_id();
        if text_contains(fullname, node_id.as_str()) {
            return None;
        }
        match host {
            Some(ip) => {
                let mut address = String::from_str(ip);
                proof {
                    reveal_strlit(":");
                }
                address.append(":");
                push_decimal(&mut address, port as u64);
                assert(address@ =~= address_text(ip@, port));
                if self.peers.contains(address.as_str()) {
                    None
                } else {
                    Some(address)
                }
            },
            None => None,
        }
    }
}

/// A message that is delivered a second time, over whichever link and
/// whatever the table then holds, is dropped: the second delivery asks
/// for nothing and leaves the remembered ids as the first one left them.
pub proof fn lemma_second_delivery_is_dropped(
    seen: Seq<u128>,
    capacity: nat,
    first: MessageView,
    second: MessageView,
    from: Seq<char>,
    local_id: Seq<char>,
    links: Map<Seq<char>, u64>,
)
    requires
        first.id == second.id,
    ensures
        delivery(seen_after(seen, capacity, first.id), second, from, local_id, links)
            == Seq::<ActionView>::empty(),
        seen_after(seen_after(seen, capacity, first.id), capacity, second.id) == seen_after(
            seen,
            capacity,
            first.id,
        ),
{
    let after = seen_after(seen, capacity, first.id);
    if !seen.contains(first.id) {
        assert(after[0] == first.id);
    }
    assert(after.contains(first.id));
}

/// A chat message that comes in twice is stored once and shown once: the
/// first delivery asks for one notification and one record, under the key
/// of its time and sender, and the second for nothing.
pub proof fn lemma_chat_is_stored_once(
    seen: Seq<u128>,
    capacity: nat,
    message: MessageView,
    from_first: Seq<char>,
    from_second: Seq<char>,
    local_id: Seq<char>,
    links: Map<Seq<char>, u64>,
)
    requires
        !seen.contains(message.id),
        message.content is Chat,
    ensures
        delivery(seen, message, from_first, local_id, links) == seq![
            ActionView::Notify { sender: message.sender, text: message.content->Chat_0 },
            ActionView::Persist {
                key: history_key_text(message.timestamp, message.sender),
                message,
            },
        ],
        delivery(seen_after(seen, capacity, message.id), message, from_second, local_id, links)
            == Seq::<ActionView>::empty(),
{
    lemma_second_delivery_is_dropped(
        seen,
        capacity,
        message,
        message,
        from_second,
        local_id,
        links,
    );
}

/// When a link goes down, its entry alone leaves the table: the closed
/// peer is no longer found, and every other peer is found as before,
/// under the same link.
pub proof fn lemma_closed_link_leaves_alone(
    links: Map<Seq<char>, u64>,
    closed: Seq<char>,
    other: Seq<char>,
)
    requires
        other != closed,
    ensures
        !links.remove(closed).contains_key(closed),
        links.remove(closed).contains_key(other) == links.contains_key(other),
        links.contains_key(other) ==> links.remove(closed)[other] == links[other],
{
}

/// A handshake asks for nothing: the node that takes in a dialer's
/// greeting neither shows it nor stores it, whatever it has seen before
/// and whoever it has links to.
pub proof fn lemma_greeting_asks_for_nothing(
    seen: Seq<u128>,
    message: MessageView,
    from: Seq<char>,
    local_id: Seq<char>,
    links: Map<Seq<char>, u64>,
)
    requires
        message.content is Handshake,
    ensures
        delivery(seen, message, from, local_id, links) == Seq::<ActionView>::empty(),
{
}

/// A peer that was heard from over an accepted link has an entry in the
/// table, under the link it was first heard on if it had none before,
/// and the next round of gossip goes to it too: whichever order the
/// table lists its peers in, one of the round's messages is for that
/// peer, and the list it carries names the peer's address.
pub proof fn lemma_heard_peer_is_gossiped_to(
    links: Map<Seq<char>, u64>,
    addr: Seq<char>,
    link: u64,
    addresses: Seq<Seq<char>>,
)
    requires
        lists_keys(addresses, SentinelNode::links_after_message(links, addr, link)),
    ensures
        SentinelNode::links_after_message(links, addr, link).contains_key(addr),
        !links.contains_key(addr) ==> SentinelNode::links_after_message(links, addr, link)[addr]
            == link,
        exists|i: int|
            0 <= i < addresses.len() && addresses[i] == addr && #[trigger] gossip_actions(
                addresses,
            )[i] == (ActionView::SendNew {
                address: addr,
                content: ContentView::PeerDiscovery(gossip_list(addresses)),
            }) && gossip_list(addresses)[i] == gossip_entry(addr),
{
    let after = SentinelNode::links_after_message(links, addr, link);
    assert(after.contains_key(addr));
    assert(addresses.contains(addr));
    let i = choose|i: int| 0 <= i < addresses.len() && addresses[i] == addr;
    assert(gossip_actions(addresses)[i] == (ActionView::SendNew {
        address: addr,
        content: ContentView::PeerDiscovery(gossip_list(addresses)),
    }));
    assert(gossip_list(addresses)[i] == gossip_entry(addr));
}

/// Every dial that a list of peers yields is for an address without a
/// link, and for a peer that the list tells of under a node id other
/// than this node's.
pub proof fn lemma_dials_skip_self_and_linked(
    list: Seq<PeerInfoView>,
    local_id: Seq<char>,
    links: Map<Seq<char>, u64>,
    k: int,
)
    requires
        0 <= k < dial_candidates(list, local_id, links).len(),
    ensures
        dial_candidates(list, local_id, links)[k] is Dial,
        !links.contains_key(dial_candidates(list, local_id, links)[k]->Dial_address),
        exists|i: int|
            0 <= i < list.len() && (#[trigger] list[i]).node_id != local_id && list[i].address
                == dial_candidates(list, local_id, links)[k]->Dial_address,
    decreases list.len(),
{
    let earlier = dial_candidates(list.drop_last(), local_id, links);
    if is_dial_candidate(list.last(), local_id, links) && k == earlier.len() {
        assert(list[list.len() - 1] == list.last());
    } else {
        lemma_dials_skip_self_and_linked(list.drop_last(), local_id, links, k);
        let i = choose|i: int|
            0 <= i < list.drop_last().len() && (#[trigger] list.drop_last()[i]).node_id
                != local_id && list.drop_last()[i].address == earlier[k]->Dial_address;
        assert(list[i] == list.drop_last()[i]);
    }
}

/// The frame that carries a serialized envelope: the supported version,
/// no flags. An envelope over the size limit cannot be framed.
pub fn envelope_frame(payload: Bytes) -> (r: Result<Frame, ProtocolError>)
    ensures
        r is Ok <==> bytes_contents(payload).len() <= MAX_FRAME_SIZE,
        r matches Ok(f) ==> f@ == (FrameView {
            version: SUPPORTED_VERSION,
            flags: 0,
            payload: bytes_contents(payload),
        }),
        r matches Err(e) ==> e == ProtocolError::FrameTooLarge,
{
    Frame::new(SUPPORTED_VERSION, 0, payload)
}

} // verus!
