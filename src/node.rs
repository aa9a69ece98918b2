use vstd::prelude::*;

use crate::address::{multiaddr_text_ok, parse_address};
use crate::bytes::{make_pair_key, pair_key};
use crate::peer_set::PeerSet;
use crate::seen_cache::{after_observe, lemma_dedup_idempotent, SeenCache};
use crate::validation::{admits, admitted, ValidationMode};

verus! {

/// The broadcast strategy a message came by.
#[derive(Debug, Clone, Copy, PartialEq, Eq, Structural)]
pub enum Strategy {
    /// Sent straight to every subscriber the publisher knows.
    Flood,
    /// Spread epidemically through the gossip mesh.
    Gossip,
}

/// What the node's driver is to do in answer to an event.
#[derive(Debug)]
pub enum NodeAction {
    /// Nothing.
    Ignore,
    /// Add `peer` to the flood partial view and to the explicit gossip peers.
    AddPeer { peer: Vec<u8> },
    /// Take `peer` out of every topic view.
    RemovePeer { peer: Vec<u8> },
    /// Hand a message to the local application.
    Deliver { strategy: Strategy, source: Vec<u8>, data: Vec<u8> },
    /// Dial `address`, without waiting for the outcome.
    Dial { address: libp2p::multiaddr::Multiaddr },
    /// The dial request `text` was refused: it is no address.
    DialRejected { text: String },
    /// Publish `text` on the flood topic and on the gossip topic.
    Publish { text: String },
}

/// The state of a chat node that its event loop owns.
pub struct ChatNode {
    local_peer: Vec<u8>,
    mode: ValidationMode,
    flood_view: PeerSet,
    explicit_peers: PeerSet,
    connected: PeerSet,
    flood_seen: SeenCache,
    gossip_seen: SeenCache,
}

/// The key under which a flood message is remembered: its source and its
/// sequence number.
pub open spec fn flood_message_key(source: Seq<u8>, sequence: Seq<u8>) -> Seq<u8> {
    pair_key(source, sequence)
}

/// Whether a gossip message is handed to the application: it passes
/// validation and its id has not been seen.
pub open spec fn gossip_delivers(
    seen: Seq<Seq<u8>>,
    mode: ValidationMode,
    id: Seq<u8>,
    signature_valid: bool,
) -> bool {
    admitted(mode, signature_valid) && !seen.contains(id)
}

/// The gossip ids remembered after a gossip message arrives: only a message
/// that passes validation is recorded.
pub open spec fn gossip_seen_after(
    seen: Seq<Seq<u8>>,
    capacity: nat,
    mode: ValidationMode,
    id: Seq<u8>,
    signature_valid: bool,
) -> Seq<Seq<u8>> {
    if admitted(mode, signature_valid) {
        after_observe(seen, capacity, id)
    } else {
        seen
    }
}

impl ChatNode {
    /// The id of the local peer.
    pub closed spec fn local_peer_spec(&self) -> Seq<u8> {
        self.local_peer@
    }

    /// The validation mode for inbound gossip.
    pub closed spec fn mode_spec(&self) -> ValidationMode {
        self.mode
    }

    /// The peers in the flood topic's partial view.
    pub closed spec fn flood_view_spec(&self) -> Set<Seq<u8>> {
        self.flood_view@
    }

    /// The explicit gossip peers.
    pub closed spec fn explicit_peers_spec(&self) -> Set<Seq<u8>> {
        self.explicit_peers@
    }

    /// The peers with at least one established connection.
    pub closed spec fn connected_spec(&self) -> Set<Seq<u8>> {
        self.connected@
    }

    /// The remembered flood message keys, oldest first.
    pub closed spec fn flood_seen_spec(&self) -> Seq<Seq<u8>> {
        self.flood_seen@
    }

    /// The remembered gossip message ids, oldest first.
    pub closed spec fn gossip_seen_spec(&self) -> Seq<Seq<u8>> {
        self.gossip_seen@
    }

    /// How many message ids each of the two caches holds at most.
    pub closed spec fn seen_capacity_spec(&self) -> nat {
        self.flood_seen.capacity_spec()
    }

    /// Well-formedness of every part, both caches sharing one bound, and
    /// every topic view within the connected peers.
    pub closed spec fn wf(&self) -> bool {
        &&& self.flood_view@.subset_of(self.connected@)
        &&& self.explicit_peers@.subset_of(self.connected@)
        &&& self.flood_view.wf()
        &&& self.explicit_peers.wf()
        &&& self.connected.wf()
        &&& self.flood_seen.wf()
        &&& self.gossip_seen.wf()
        &&& self.gossip_seen.capacity_spec() == self.flood_seen.capacity_spec()
    }

    /// Whether two states agree on the node's identity and configuration.
    pub open spec fn same_config(&self, other: &ChatNode) -> bool {
        &&& self.local_peer_spec() == other.local_peer_spec()
        &&& self.mode_spec() == other.mode_spec()
        &&& self.seen_capacity_spec() == other.seen_capacity_spec()
    }

    /// Whether two states have the same peer views.
    pub open spec fn same_views(&self, other: &ChatNode) -> bool {
        &&& self.flood_view_spec() == other.flood_view_spec()
        &&& self.explicit_peers_spec() == other.explicit_peers_spec()
        &&& self.connected_spec() == other.connected_spec()
    }

    /// Whether two states remember the same message ids.
    pub open spec fn same_seen(&self, other: &ChatNode) -> bool {
        &&& self.flood_seen_spec() == other.flood_seen_spec()
        &&& self.gossip_seen_spec() == other.gossip_seen_spec()
    }

    /// A node with no peers and nothing seen, remembering up to
    /// `seen_capacity` ids per broadcast strategy.
    pub fn new(local_peer: Vec<u8>, mode: ValidationMode, seen_capacity: usize) -> (r: ChatNode)
        requires
            seen_capacity > 0,
        ensures
            r.wf(),
            r.local_peer_spec() == local_peer@,
            r.mode_spec() == mode,
            r.seen_capacity_spec() == seen_capacity,
            r.flood_view_spec() == Set::<Seq<u8>>::empty(),
            r.explicit_peers_spec() == Set::<Seq<u8>>::empty(),
            r.connected_spec() == Set::<Seq<u8>>::empty(),
            r.flood_seen_spec() == Seq::<Seq<u8>>::empty(),
            r.gossip_seen_spec() == Seq::<Seq<u8>>::empty(),
    {
        ChatNode {
            local_peer,
            mode,
            flood_view: PeerSet::new(),
            explicit_peers: PeerSet::new(),
            connected: PeerSet::new(),
            flood_seen: SeenCache::new(seen_capacity),
            gossip_seen: SeenCache::new(seen_capacity),
        }
    }

    /// The id of the local peer.
    pub fn local_peer(&self) -> (r: &Vec<u8>)
        ensures
            r@ == self.local_peer_spec(),
    {
        &self.local_peer
    }

    /// The validation mode for inbound gossip.
    pub fn mode(&self) -> (r: ValidationMode)
        ensures
            r == self.mode_spec(),
    {
        self.mode
    }

    /// Whether `peer` is in the flood topic's partial view.
    pub fn in_flood_view(&self, peer: &Vec<u8>) -> (r: bool)
        requires
            self.wf(),
        ensures
            r == self.flood_view_spec().contains(peer@),
    {
        self.flood_view.contains(peer)
    }

    /// Whether `peer` is an explicit gossip peer.
    pub fn is_explicit_peer(&self, peer: &Vec<u8>) -> (r: bool)
        requires
            self.wf(),
        ensures
            r == self.explicit_peers_spec().contains(peer@),
    {
        self.explicit_peers.contains(peer)
    }

    /// Whether some connection to `peer` is established.
    pub fn is_connected(&self, peer: &Vec<u8>) -> (r: bool)
        requires
            self.wf(),
        ensures
            r == self.connected_spec().contains(peer@),
    {
        self.connected.contains(peer)
    }

    /// The peers a flood publish reaches now.
    pub fn flood_targets(&self) -> (r: Vec<Vec<u8>>)
        requires
            self.wf(),
        ensures
            crate::bytes::key_seq(r@).no_duplicates(),
            crate::bytes::key_seq(r@).to_set() == self.flood_view_spec(),
    {
        self.flood_view.to_vec()
    }

    /// The peers with an established connection.
    pub fn connected_peers(&self) -> (r: Vec<Vec<u8>>)
        requires
            self.wf(),
        ensures
            crate::bytes::key_seq(r@).no_duplicates(),
            crate::bytes::key_seq(r@).to_set() == self.connected_spec(),
    {
        self.connected.to_vec()
    }

    /// A connection to `peer` is established: it joins every view, once.
    pub fn connection_established(&mut self, peer: Vec<u8>) -> (r: NodeAction)
        requires
            old(self).wf(),
        ensures
            final(self).wf(),
            final(self).same_config(old(self)),
            final(self).same_seen(old(self)),
            final(self).flood_view_spec() == old(self).flood_view_spec().insert(peer@),
            final(self).explicit_peers_spec() == old(self).explicit_peers_spec().insert(peer@),
            final(self).connected_spec() == old(self).connected_spec().insert(peer@),
            r == (NodeAction::AddPeer { peer }),
    {
        self.flood_view.insert(&peer);
        self.explicit_peers.insert(&peer);
        self.connected.insert(&peer);
        assert(self.flood_view@.subset_of(self.connected@));
        assert(self.explicit_peers@.subset_of(self.connected@));
        NodeAction::AddPeer { peer }
    }

    /// A connection to `peer` closed with `remaining` others left to it.
    /// When none is left, the peer leaves every view.
    pub fn connection_closed(&mut self, peer: Vec<u8>, remaining: u32) -> (r: NodeAction)
        requires
            old(self).wf(),
        ensures
            final(self).wf(),
            final(self).same_config(old(self)),
            final(self).same_seen(old(self)),
            remaining == 0 ==> {
                &&& final(self).flood_view_spec() == old(self).flood_view_spec().remove(peer@)
                &&& final(self).explicit_peers_spec() == old(self).explicit_peers_spec().remove(
                    peer@,
                )
                &&& final(self).connected_spec() == old(self).connected_spec().remove(peer@)
                &&& r == (NodeAction::RemovePeer { peer })
            },
            remaining > 0 ==> final(self).same_views(old(self)) && r is Ignore,
    {
        if remaining > 0 {
            return NodeAction::Ignore;
        }
        self.flood_view.remove(&peer);
        self.explicit_peers.remove(&peer);
        self.connected.remove(&peer);
        assert(self.flood_view@.subset_of(self.connected@));
        assert(self.explicit_peers@.subset_of(self.connected@));
        NodeAction::RemovePeer { peer }
    }

    /// A flood message arrived: it is delivered unless its source and
    /// sequence number were seen already.
    pub fn flood_message(&mut self, source: Vec<u8>, sequence: Vec<u8>, data: Vec<u8>) -> (r:
        NodeAction)
        requires
            old(self).wf(),
        ensures
            final(self).wf(),
            final(self).same_config(old(self)),
            final(self).same_views(old(self)),
            final(self).gossip_seen_spec() == old(self).gossip_seen_spec(),
            final(self).flood_seen_spec() == after_observe(
                old(self).flood_seen_spec(),
                old(self).seen_capacity_spec(),
                flood_message_key(source@, sequence@),
            ),
            r == if old(self).flood_seen_spec().contains(flood_message_key(source@, sequence@)) {
                NodeAction::Ignore
            } else {
                NodeAction::Deliver { strategy: Strategy::Flood, source, data }
            },
    {
        let key = make_pair_key(&source, &sequence);
        if self.flood_seen.observe(&key) {
            NodeAction::Deliver { strategy: Strategy::Flood, source, data }
        } else {
            NodeAction::Ignore
        }
    }

    /// A gossip message arrived: one that fails validation is dropped and
    /// not recorded; one that passes is delivered unless its id was seen.
    pub fn gossip_message(
        &mut self,
        source: Vec<u8>,
        id: Vec<u8>,
        data: Vec<u8>,
        signature_valid: bool,
    ) -> (r: NodeAction)
        requires
            old(self).wf(),
        ensures
            final(self).wf(),
            final(self).same_config(old(self)),
            final(self).same_views(old(self)),
            final(self).flood_seen_spec() == old(self).flood_seen_spec(),
            final(self).gossip_seen_spec() == gossip_seen_after(
                old(self).gossip_seen_spec(),
                old(self).seen_capacity_spec(),
                old(self).mode_spec(),
                id@,
                signature_valid,
            ),
            r == if gossip_delivers(
                old(self).gossip_seen_spec(),
                old(self).mode_spec(),
                id@,
                signature_valid,
            ) {
                NodeAction::Deliver { strategy: Strategy::Gossip, source, data }
            } else {
                NodeAction::Ignore
            },
    {
        if !admits(self.mode, signature_valid) {
            return NodeAction::Ignore;
        }
        if self.gossip_seen.observe(&id) {
            NodeAction::Deliver { strategy: Strategy::Gossip, source, data }
        } else {
            NodeAction::Ignore
        }
    }

    /// The local user asked to dial `text`: a malformed address is refused
    /// here, before any connection attempt.
    pub fn dial_request(&self, text: String) -> (r: NodeAction)
        ensures
            r is Dial <==> multiaddr_text_ok(text@),
            !multiaddr_text_ok(text@) ==> r == (NodeAction::DialRejected { text }),
    {
        match parse_address(text.as_str()) {
            Ok(address) => NodeAction::Dial { address },
            Err(_) => NodeAction::DialRejected { text },
        }
    }

    /// The local user wrote `text`: it is published as it is on both topics.
    pub fn outgoing_message(&self, text: String) -> (r: NodeAction)
        ensures
            r == (NodeAction::Publish { text }),
    {
        NodeAction::Publish { text }
    }
}

/// However often a message comes back, by flood or by gossip, the
/// application gets it at most once for as long as its id is remembered:
/// of two arrivals in a row of the same id, the second is never delivered.
pub proof fn lemma_delivered_at_most_once(
    flood_seen: Seq<Seq<u8>>,
    gossip_seen: Seq<Seq<u8>>,
    capacity: nat,
    mode: ValidationMode,
    source: Seq<u8>,
    sequence: Seq<u8>,
    id: Seq<u8>,
    first_valid: bool,
    second_valid: bool,
)
    requires
        capacity > 0,
    ensures
        after_observe(flood_seen, capacity, flood_message_key(source, sequence)).contains(
            flood_message_key(source, sequence),
        ),
        !(gossip_delivers(gossip_seen, mode, id, first_valid) && gossip_delivers(
            gossip_seen_after(gossip_seen, capacity, mode, id, first_valid),
            mode,
            id,
            second_valid,
        )),
{
    lemma_dedup_idempotent(flood_seen, capacity, flood_message_key(source, sequence));
    lemma_dedup_idempotent(gossip_seen, capacity, id);
}

/// No topic view ever names a peer without an established connection: a
/// publish never targets a connection that has closed.
pub proof fn lemma_views_within_connected(node: ChatNode)
    requires
        node.wf(),
    ensures
        node.flood_view_spec().subset_of(node.connected_spec()),
        node.explicit_peers_spec().subset_of(node.connected_spec()),
{
}

/// A message that fails its signature check is never delivered in strict
/// mode and leaves no trace; in permissive mode the same message, not seen
/// before, is delivered.
pub proof fn lemma_validation_gating(seen: Seq<Seq<u8>>, capacity: nat, id: Seq<u8>)
    ensures
        !gossip_delivers(seen, ValidationMode::Strict, id, false),
        gossip_seen_after(seen, capacity, ValidationMode::Strict, id, false) == seen,
        !seen.contains(id) ==> gossip_delivers(seen, ValidationMode::Permissive, id, false),
{
}

/// Once a peer's last connection has closed, it is in none of the views: a
/// closing connection undoes whatever earlier events had put there.
pub proof fn lemma_closed_peer_absent(
    flood_view: Set<Seq<u8>>,
    explicit_peers: Set<Seq<u8>>,
    connected: Set<Seq<u8>>,
    peer: Seq<u8>,
)
    ensures
        !flood_view.remove(peer).contains(peer),
        !explicit_peers.remove(peer).contains(peer),
        !connected.remove(peer).contains(peer),
        !flood_view.insert(peer).remove(peer).contains(peer),
{
}

} // verus!
