//! Peer identities and the signatures made under them.
//!
//! A peer identity is derived from a public key and written in base 58. The
//! derivation and the signature check are libp2p's; the library names their
//! results and reasons over the names.

use libp2p::identity::PublicKey;
use libp2p::PeerId;
use std::str::FromStr;
use vstd::prelude::*;

verus! {

/// What libp2p reads a text as: the base-58 form of the peer id that the text
/// denotes, or nothing where the text denotes no peer id.
pub uninterp spec fn peer_id_text(text: Seq<char>) -> Option<Seq<char>>;

/// Whether libp2p accepts `signature` as a signature of `message` made with
/// the private key of the peer that `signer` denotes. It is false where
/// `signer` denotes no peer or the peer id embeds no public key.
pub uninterp spec fn signature_verifies(
    signer: Seq<char>,
    message: Seq<u8>,
    signature: Seq<u8>,
) -> bool;

/// Whether a text is the base-58 form of some peer id.
pub open spec fn is_peer_text(text: Seq<char>) -> bool {
    exists|source: Seq<char>| #[trigger] peer_id_text(source) == Some(text)
}

/// `PeerId::from_str` followed by `PeerId::to_base58`: the text is decoded
/// from base 58 and read as a multihash; where both succeed the peer id is
/// written back in base 58.
#[verifier::external_body]
fn canonical_peer_text(text: &str) -> (canonical: Option<String>)
    ensures
        match canonical {
            Some(c) => peer_id_text(text@) == Some(c@),
            None => peer_id_text(text@) is None,
        },
{
    PeerId::from_str(text).ok().map(|peer| peer.to_base58())
}

/// `PublicKey::verify` under the key that the signer's peer id embeds: the
/// text is read with `PeerId::from_str`, the digest of its multihash is
/// decoded with `PublicKey::try_decode_protobuf`, and the key checks the
/// signature. A failure of either step is a failed verification.
#[verifier::external_body]
fn verify_under(signer: &str, message: &Vec<u8>, signature: &Vec<u8>) -> (accepted: bool)
    ensures
        accepted == signature_verifies(signer@, message@, signature@),
{
    match PeerId::from_str(signer) {
        Ok(peer) => match PublicKey::try_decode_protobuf(peer.as_ref().digest()) {
            Ok(key) => key.verify(message, signature),
            Err(_) => false,
        },
        Err(_) => false,
    }
}

/// The identity of a peer: its peer id in base 58.
#[derive(Debug)]
pub struct PeerIdentity {
    text: String,
}

impl View for PeerIdentity {
    type V = Seq<char>;

    closed spec fn view(&self) -> Seq<char> {
        self.text@
    }
}

impl Clone for PeerIdentity {
    fn clone(&self) -> (copy: Self)
        ensures
            copy == *self,
    {
        proof {
            use_type_invariant(self);
        }
        PeerIdentity { text: self.text.clone() }
    }
}

impl PeerIdentity {
    #[verifier::type_invariant]
    spec fn canonical(self) -> bool {
        is_peer_text(self.text@)
    }

    /// Reads a peer id from its text. Succeeds exactly on the texts that
    /// denote a peer id, and yields the peer id in base 58.
    pub fn parse(text: &str) -> (parsed: Option<PeerIdentity>)
        ensures
            match parsed {
                Some(peer) => peer_id_text(text@) == Some(peer@),
                None => peer_id_text(text@) is None,
            },
    {
        match canonical_peer_text(text) {
            Some(canonical) => Some(PeerIdentity { text: canonical }),
            None => None,
        }
    }

    /// The peer id in base 58.
    pub fn to_base58(&self) -> (text: String)
        ensures
            text@ == self@,
            is_peer_text(text@),
    {
        proof {
            use_type_invariant(self);
        }
        self.text.clone()
    }

    /// Whether two identities are the same peer.
    pub fn same_as(&self, other: &PeerIdentity) -> (same: bool)
        ensures
            same == (self@ == other@),
    {
        self.text == other.text
    }

    /// Whether a claimed identity, given as text, is this peer.
    pub fn is_named(&self, claimed: &String) -> (named: bool)
        ensures
            named == (claimed@ == self@),
    {
        *claimed == self.text
    }
}

/// Checks a signature under the key of the peer that `signer` denotes.
pub fn verify_signature(signer: &String, message: &Vec<u8>, signature: &Vec<u8>) -> (accepted:
    bool)
    ensures
        accepted == signature_verifies(signer@, message@, signature@),
{
    verify_under(signer.as_str(), message, signature)
}

} // verus!
