use network_observer::envelope::Heartbeat;
use network_observer::identity::PeerIdentity;
use network_observer::transport::BehaviourEvent;
use network_observer::transport::Event;
use network_observer::transport::KademliaEvent;
use network_observer::transport::PingEvent;
use network_observer::transport::PingOutcome;
use network_observer::transport::SwarmEvent;
use network_observer::transport::Transport;

const PEER: &str = "12D3KooWD3eckifWpRn9wQpMG9R9hX3sD158z7EqHWmweQAJU5SA";

fn peer() -> PeerIdentity {
    PeerIdentity::parse(PEER).unwrap()
}

fn heartbeat() -> Heartbeat {
    Heartbeat {
        worker_id: PEER.to_string(),
        version: Some("1.0.0".to_string()),
        stored_bytes: None,
        stored_ranges: Vec::new(),
        payload: Vec::new(),
        signature: Vec::new(),
    }
}

fn seen_at(event: Option<Event>) -> String {
    match event {
        Some(Event::PeerSeen(seen)) => {
            assert_eq!(seen.peer_id.to_base58(), PEER);
            seen.address
        }
        _ => panic!("a sighting was expected"),
    }
}

#[test]
fn new_transport_has_buffered_nothing() {
    let mut transport = Transport::new();
    assert!(transport.is_empty());
    assert!(transport.poll_event().is_none());
}

#[test]
fn routing_update_yields_one_sighting_per_address() {
    let mut transport = Transport::new();
    transport.on_kademlia(KademliaEvent::RoutingUpdated {
        peer: peer(),
        addresses: vec!["/ip4/10.0.0.1".to_string(), "/ip4/10.0.0.2".to_string()],
    });
    assert!(!transport.is_empty());
    assert_eq!(seen_at(transport.poll_event()), "/ip4/10.0.0.1");
    assert_eq!(seen_at(transport.poll_event()), "/ip4/10.0.0.2");
    assert!(transport.poll_event().is_none());
}

#[test]
fn routing_update_without_addresses_yields_nothing() {
    let mut transport = Transport::new();
    transport.on_kademlia(KademliaEvent::RoutingUpdated {
        peer: peer(),
        addresses: Vec::new(),
    });
    assert!(transport.is_empty());
}

#[test]
fn routable_peer_yields_one_sighting() {
    let mut transport = Transport::new();
    transport.on_kademlia(KademliaEvent::RoutablePeer {
        peer: peer(),
        address: "/ip4/10.0.0.3".to_string(),
    });
    assert_eq!(seen_at(transport.poll_event()), "/ip4/10.0.0.3");
    assert!(transport.is_empty());
}

#[test]
fn a_peer_seen_again_is_yielded_again() {
    let mut transport = Transport::new();
    for address in ["/ip4/10.0.0.1", "/ip4/10.0.0.1"] {
        transport.on_kademlia(KademliaEvent::RoutablePeer {
            peer: peer(),
            address: address.to_string(),
        });
    }
    assert_eq!(seen_at(transport.poll_event()), "/ip4/10.0.0.1");
    assert_eq!(seen_at(transport.poll_event()), "/ip4/10.0.0.1");
}

#[test]
fn other_discovery_events_yield_nothing() {
    let mut transport = Transport::new();
    transport.on_kademlia(KademliaEvent::Other);
    transport.on_identify();
    transport.on_swarm_event(SwarmEvent::Other);
    transport.on_swarm_event(SwarmEvent::NewListenAddr {
        address: "/ip4/0.0.0.0".to_string(),
    });
    transport.on_swarm_event(SwarmEvent::Behaviour(BehaviourEvent::Identify));
    assert!(transport.is_empty());
}

#[test]
fn events_leave_in_the_order_they_came() {
    let mut transport = Transport::new();
    transport.on_swarm_event(SwarmEvent::Behaviour(BehaviourEvent::Ping(PingEvent {
        peer: peer(),
        outcome: PingOutcome::Success { rtt_micros: 1500 },
    })));
    transport.on_swarm_event(SwarmEvent::Behaviour(BehaviourEvent::Kademlia(
        KademliaEvent::RoutablePeer {
            peer: peer(),
            address: "/ip4/10.0.0.4".to_string(),
        },
    )));
    transport.on_ping(PingEvent {
        peer: peer(),
        outcome: PingOutcome::Timeout,
    });
    match transport.poll_event() {
        Some(Event::Ping(ping)) => {
            assert_eq!(ping.outcome, PingOutcome::Success { rtt_micros: 1500 })
        }
        _ => panic!("the probe came first"),
    }
    assert_eq!(seen_at(transport.poll_event()), "/ip4/10.0.0.4");
    match transport.poll_event() {
        Some(Event::Ping(ping)) => assert_eq!(ping.outcome, PingOutcome::Timeout),
        _ => panic!("the second probe came last"),
    }
    assert!(transport.poll_event().is_none());
}

#[test]
fn heartbeat_with_a_sender_is_buffered() {
    let mut transport = Transport::new();
    assert!(transport.on_heartbeat(Some(peer()), heartbeat()));
    match transport.poll_event() {
        Some(Event::WorkerHeartbeat(delivery)) => {
            assert_eq!(delivery.peer_id.unwrap().to_base58(), PEER);
            assert_eq!(delivery.heartbeat.version, Some("1.0.0".to_string()));
        }
        _ => panic!("the heartbeat was expected"),
    }
}

#[test]
fn heartbeat_without_a_sender_is_not_buffered() {
    let mut transport = Transport::new();
    assert!(!transport.on_heartbeat(None, heartbeat()));
    assert!(transport.is_empty());
}
