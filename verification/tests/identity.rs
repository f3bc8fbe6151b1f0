use libp2p::identity::Keypair;
use network_observer::identity::verify_signature;
use network_observer::identity::PeerIdentity;

fn keypair(seed: u8) -> Keypair {
    Keypair::ed25519_from_bytes([seed; 32]).unwrap()
}

fn peer_text(pair: &Keypair) -> String {
    pair.public().to_peer_id().to_base58()
}

#[test]
fn parse_accepts_a_peer_id() {
    let text = peer_text(&keypair(1));
    let peer = PeerIdentity::parse(&text).unwrap();
    assert_eq!(peer.to_base58(), text);
}

#[test]
fn parse_rejects_what_is_no_peer_id() {
    assert!(PeerIdentity::parse("").is_none());
    assert!(PeerIdentity::parse("not a peer id").is_none());
    assert!(PeerIdentity::parse("0OIl").is_none());
}

#[test]
fn parse_of_a_known_peer_id() {
    let text = "12D3KooWD3eckifWpRn9wQpMG9R9hX3sD158z7EqHWmweQAJU5SA";
    let peer = PeerIdentity::parse(text).unwrap();
    assert_eq!(peer.to_base58(), text);
}

#[test]
fn same_as_tells_peers_apart() {
    let one = PeerIdentity::parse(&peer_text(&keypair(1))).unwrap();
    let again = PeerIdentity::parse(&peer_text(&keypair(1))).unwrap();
    let other = PeerIdentity::parse(&peer_text(&keypair(2))).unwrap();
    assert!(one.same_as(&again));
    assert!(!one.same_as(&other));
    assert!(one.same_as(&one.clone()));
}

#[test]
fn is_named_compares_with_the_base58_text() {
    let pair = keypair(3);
    let peer = PeerIdentity::parse(&peer_text(&pair)).unwrap();
    assert!(peer.is_named(&peer_text(&pair)));
    assert!(!peer.is_named(&peer_text(&keypair(4))));
    assert!(!peer.is_named(&String::new()));
}

#[test]
fn signature_of_the_signer_verifies() {
    let pair = keypair(5);
    let message = b"heartbeat".to_vec();
    let signature = pair.sign(&message).unwrap();
    assert!(verify_signature(&peer_text(&pair), &message, &signature));
}

#[test]
fn signature_under_another_key_fails() {
    let pair = keypair(5);
    let message = b"heartbeat".to_vec();
    let signature = pair.sign(&message).unwrap();
    assert!(!verify_signature(
        &peer_text(&keypair(6)),
        &message,
        &signature
    ));
}

#[test]
fn flipping_a_payload_byte_fails_the_signature() {
    let pair = keypair(7);
    let message = b"stored_bytes=1000".to_vec();
    let signature = pair.sign(&message).unwrap();
    for i in 0..message.len() {
        let mut tampered = message.clone();
        tampered[i] ^= 0x01;
        assert!(!verify_signature(&peer_text(&pair), &tampered, &signature));
    }
}

#[test]
fn flipping_a_signature_byte_fails_the_signature() {
    let pair = keypair(7);
    let message = b"stored_bytes=1000".to_vec();
    let signature = pair.sign(&message).unwrap();
    for i in 0..signature.len() {
        let mut tampered = signature.clone();
        tampered[i] ^= 0x80;
        assert!(!verify_signature(&peer_text(&pair), &message, &tampered));
    }
}

#[test]
fn signature_under_no_peer_fails() {
    let pair = keypair(8);
    let message = b"m".to_vec();
    let signature = pair.sign(&message).unwrap();
    assert!(!verify_signature(
        &"not a peer id".to_string(),
        &message,
        &signature
    ));
    assert!(!verify_signature(&String::new(), &message, &signature));
}

#[test]
fn empty_signature_fails() {
    let pair = keypair(9);
    assert!(!verify_signature(
        &peer_text(&pair),
        &b"m".to_vec(),
        &Vec::new()
    ));
}
