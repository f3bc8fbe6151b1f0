//! The transport's event buffer.
//!
//! The transport drives several sub-protocols: discovery, liveness and
//! handshake. Whatever one of them completes is translated here into zero or
//! more events and buffered; the events leave the buffer one at a time, in
//! the order in which they were produced.

use crate::envelope::Heartbeat;
use crate::identity::PeerIdentity;
use std::collections::VecDeque;
use vstd::prelude::*;

verus! {

/// A peer was learned at an address.
#[derive(Debug)]
pub struct PeerSeen {
    pub peer_id: PeerIdentity,
    pub address: String,
}

/// A heartbeat was delivered, from the sender if one is known.
#[derive(Debug)]
pub struct WorkerHeartbeat {
    pub peer_id: Option<PeerIdentity>,
    pub heartbeat: Heartbeat,
}

/// How a liveness probe ended.
#[derive(Clone, Copy, Debug, PartialEq, Eq, Structural)]
pub enum PingOutcome {
    /// The peer answered after so many microseconds.
    Success { rtt_micros: u64 },
    /// The peer did not answer in time.
    Timeout,
    /// The peer does not speak the protocol.
    Unsupported,
    /// The probe failed otherwise.
    Failed,
}

/// A liveness probe of a peer ended.
#[derive(Debug)]
pub struct PingEvent {
    pub peer: PeerIdentity,
    pub outcome: PingOutcome,
}

/// What the transport yields.
#[derive(Debug)]
pub enum Event {
    PeerSeen(PeerSeen),
    WorkerHeartbeat(WorkerHeartbeat),
    Ping(PingEvent),
}

/// What discovery completed.
#[derive(Debug)]
pub enum KademliaEvent {
    /// The routing table holds the peer at these addresses now.
    RoutingUpdated { peer: PeerIdentity, addresses: Vec<String> },
    /// A peer could be routed to at an address.
    RoutablePeer { peer: PeerIdentity, address: String },
    /// Anything else.
    Other,
}

/// What a sub-protocol completed.
#[derive(Debug)]
pub enum BehaviourEvent {
    Ping(PingEvent),
    Identify,
    Kademlia(KademliaEvent),
}

/// What the swarm reports.
#[derive(Debug)]
pub enum SwarmEvent {
    /// The node listens on a new address.
    NewListenAddr { address: String },
    /// A sub-protocol completed an operation.
    Behaviour(BehaviourEvent),
    /// Anything else.
    Other,
}

/// The events by which a peer is seen at each of its addresses, in order.
pub open spec fn sightings(peer: PeerIdentity, addresses: Seq<String>) -> Seq<Event> {
    Seq::new(
        addresses.len(),
        |i: int| Event::PeerSeen(PeerSeen { peer_id: peer, address: addresses[i] }),
    )
}

/// The events into which a completed discovery is translated.
pub open spec fn kademlia_events(event: KademliaEvent) -> Seq<Event> {
    match event {
        KademliaEvent::RoutingUpdated { peer, addresses } => sightings(peer, addresses@),
        KademliaEvent::RoutablePeer { peer, address } => seq![
            Event::PeerSeen(PeerSeen { peer_id: peer, address: address }),
        ],
        KademliaEvent::Other => seq![],
    }
}

/// The events into which a completed operation of a sub-protocol is
/// translated.
pub open spec fn behaviour_events(event: BehaviourEvent) -> Seq<Event> {
    match event {
        BehaviourEvent::Ping(ping) => seq![Event::Ping(ping)],
        BehaviourEvent::Identify => seq![],
        BehaviourEvent::Kademlia(kademlia) => kademlia_events(kademlia),
    }
}

/// The events into which a report of the swarm is translated.
pub open spec fn swarm_events(event: SwarmEvent) -> Seq<Event> {
    match event {
        SwarmEvent::NewListenAddr { address } => seq![],
        SwarmEvent::Behaviour(behaviour) => behaviour_events(behaviour),
        SwarmEvent::Other => seq![],
    }
}

/// The events into which a delivered heartbeat is translated: one event
/// where the sender is known, none where it is not.
pub open spec fn heartbeat_events(sender: Option<PeerIdentity>, heartbeat: Heartbeat) -> Seq<Event> {
    match sender {
        Some(_) => seq![Event::WorkerHeartbeat(WorkerHeartbeat { peer_id: sender, heartbeat })],
        None => seq![],
    }
}

/// The buffer of the events that were produced and not yet yielded.
pub struct Transport {
    events: VecDeque<Event>,
}

impl View for Transport {
    type V = Seq<Event>;

    closed spec fn view(&self) -> Seq<Event> {
        self.events@
    }
}

impl Transport {
    /// A transport that has buffered nothing.
    pub fn new() -> (transport: Transport)
        ensures
            transport@ == Seq::<Event>::empty(),
    {
        Transport { events: VecDeque::new() }
    }

    /// Whether no event is buffered.
    pub fn is_empty(&self) -> (empty: bool)
        ensures
            empty == (self@.len() == 0),
    {
        self.events.len() == 0
    }

    /// Yields the oldest buffered event, or nothing where none is buffered:
    /// the swarm has to be driven then until it reports something.
    pub fn poll_event(&mut self) -> (event: Option<Event>)
        ensures
            match event {
                Some(first) => old(self)@.len() > 0 && first == old(self)@[0] && final(self)@
                    == old(self)@.skip(1),
                None => old(self)@.len() == 0 && final(self)@ == old(self)@,
            },
    {
        let event = self.events.pop_front();
        proof {
            if event is Some {
                assert(self@ =~= old(self)@.skip(1));
            }
        }
        event
    }

    /// Translates a report of the swarm and buffers what it yields.
    pub fn on_swarm_event(&mut self, event: SwarmEvent)
        ensures
            final(self)@ == old(self)@ + swarm_events(event),
    {
        match event {
            SwarmEvent::NewListenAddr { address } => {},
            SwarmEvent::Behaviour(behaviour) => match behaviour {
                BehaviourEvent::Ping(ping) => self.on_ping(ping),
                BehaviourEvent::Identify => self.on_identify(),
                BehaviourEvent::Kademlia(kademlia) => self.on_kademlia(kademlia),
            },
            SwarmEvent::Other => {},
        }
        assert(self@ =~= old(self)@ + swarm_events(event));
    }

    /// Buffers the outcome of a liveness probe.
    pub fn on_ping(&mut self, event: PingEvent)
        ensures
            final(self)@ == old(self)@.push(Event::Ping(event)),
    {
        self.events.push_back(Event::Ping(event));
    }

    /// A completed handshake yields no event.
    pub fn on_identify(&mut self)
        ensures
            final(self)@ == old(self)@,
    {
    }

    /// Buffers one sighting for each address at which discovery learned a
    /// peer, in the order of the addresses.
    pub fn on_kademlia(&mut self, event: KademliaEvent)
        ensures
            final(self)@ == old(self)@ + kademlia_events(event),
    {
        match event {
            KademliaEvent::RoutingUpdated { peer, addresses } => {
                let mut i: usize = 0;
                while i < addresses.len()
                    invariant
                        i <= addresses@.len(),
                        self@ == old(self)@ + sightings(peer, addresses@.take(i as int)),
                    decreases addresses@.len() - i,
                {
                    let seen = PeerSeen { peer_id: peer.clone(), address: addresses[i].clone() };
                    self.events.push_back(Event::PeerSeen(seen));
                    assert(self@ =~= old(self)@ + sightings(peer, addresses@.take(i + 1)));
                    i = i + 1;
                }
                assert(addresses@.take(i as int) =~= addresses@);
            },
            KademliaEvent::RoutablePeer { peer, address } => {
                self.events.push_back(Event::PeerSeen(PeerSeen { peer_id: peer, address }));
                assert(self@ =~= old(self)@ + kademlia_events(event));
            },
            KademliaEvent::Other => {
                assert(self@ =~= old(self)@ + kademlia_events(event));
            },
        }
    }

    /// Buffers a delivered heartbeat where its sender is known. Where the
    /// transport could attach no sender nothing is buffered and the answer is
    /// `false`: the message is invalid for want of a sender.
    pub fn on_heartbeat(&mut self, sender: Option<PeerIdentity>, heartbeat: Heartbeat) -> (emitted:
        bool)
        ensures
            final(self)@ == old(self)@ + heartbeat_events(sender, heartbeat),
            emitted == sender is Some,
    {
        match sender {
            Some(peer) => {
                self.events.push_back(
                    Event::WorkerHeartbeat(WorkerHeartbeat { peer_id: Some(peer), heartbeat }),
                );
                assert(self@ =~= old(self)@ + heartbeat_events(sender, heartbeat));
                true
            },
            None => {
                assert(self@ =~= old(self)@ + heartbeat_events(sender, heartbeat));
                false
            },
        }
    }
}

} // verus!
