//! The wire schema: a discriminated union over the message kinds the relay
//! and its clients exchange. Exactly one tag is active, and every field
//! belongs to its tag, so a well-typed value is a well-formed frame.
//!
//! A delivery or lookup failure is reported to the requesting client with an
//! explicit `Failure` envelope; the relay never silently drops a request.

use vstd::prelude::*;

use crate::util::copy_bytes;

verus! {

/// Why the relay reports a failure back to a client.
#[derive(Clone, Copy, Debug, PartialEq, Eq, Structural)]
pub enum FailureCode {
    /// A `RequestPublicKey` named an identity that is not registered.
    UnknownPeer,
    /// A `Send` named a recipient that is not registered.
    UnknownRecipient,
}

/// One entry of a membership update: a connection identity with its display
/// name.
pub struct Peer {
    pub id: u64,
    pub name: String,
}

/// The mathematical content of a [`Peer`].
pub struct PeerView {
    pub id: u64,
    pub name: Seq<char>,
}

impl View for Peer {
    type V = PeerView;

    open spec fn view(&self) -> PeerView {
        PeerView { id: self.id, name: self.name@ }
    }
}

/// A frame of the protocol. Identities are relay-assigned handles; message
/// bodies are base64-encoded ciphertext, opaque to the relay.
pub enum Envelope {
    /// Client to relay: bind a display name and a public key to this
    /// connection.
    Register { name: String, public_key: Vec<u8> },
    /// Client to relay: ask for the public key of a registered identity.
    RequestPublicKey { for_client: u64 },
    /// Relay to client: the public key a `RequestPublicKey` asked for.
    PublicKeyResponse { client_id: u64, public_key: Vec<u8> },
    /// Client to relay: forward this ciphertext to `to`.
    Send { to: u64, message: String },
    /// Relay to client: ciphertext from `from` — the relay, not the sender,
    /// sets `from`, which is what prevents sender spoofing.
    Relay { from: u64, message: String },
    /// Relay to every client: the full current membership, retransmitted
    /// whole on every join and leave.
    MembershipUpdate { peers: Vec<Peer> },
    /// Relay to the requesting client: an explicit failure notice.
    Failure { code: FailureCode, about: u64 },
}

/// The mathematical content of an [`Envelope`].
pub enum EnvelopeView {
    Register { name: Seq<char>, public_key: Seq<u8> },
    RequestPublicKey { for_client: u64 },
    PublicKeyResponse { client_id: u64, public_key: Seq<u8> },
    Send { to: u64, message: Seq<char> },
    Relay { from: u64, message: Seq<char> },
    MembershipUpdate { peers: Seq<PeerView> },
    Failure { code: FailureCode, about: u64 },
}

impl View for Envelope {
    type V = EnvelopeView;

    open spec fn view(&self) -> EnvelopeView {
        match self {
            Envelope::Register { name, public_key } => EnvelopeView::Register {
                name: name@,
                public_key: public_key@,
            },
            Envelope::RequestPublicKey { for_client } => EnvelopeView::RequestPublicKey {
                for_client: *for_client,
            },
            Envelope::PublicKeyResponse { client_id, public_key } => EnvelopeView::PublicKeyResponse {
                client_id: *client_id,
                public_key: public_key@,
            },
            Envelope::Send { to, message } => EnvelopeView::Send { to: *to, message: message@ },
            Envelope::Relay { from, message } => EnvelopeView::Relay {
                from: *from,
                message: message@,
            },
            Envelope::MembershipUpdate { peers } => EnvelopeView::MembershipUpdate {
                peers: peers@.map_values(|p: Peer| p@),
            },
            Envelope::Failure { code, about } => EnvelopeView::Failure {
                code: *code,
                about: *about,
            },
        }
    }
}

/// An element-wise copy of a membership list.
pub fn clone_peers(v: &Vec<Peer>) -> (r: Vec<Peer>)
    ensures
        r@.len() == v@.len(),
        forall|i: int| 0 <= i < v@.len() ==> r@[i]@ == v@[i]@,
        r@.map_values(|p: Peer| p@) == v@.map_values(|p: Peer| p@),
{
    let mut out: Vec<Peer> = Vec::new();
    let n = v.len();
    for i in 0..n
        invariant
            n == v@.len(),
            out@.len() == i,
            forall|j: int| 0 <= j < i ==> out@[j]@ == v@[j]@,
    {
        let p = &v[i];
        out.push(Peer { id: p.id, name: p.name.clone() });
    }
    assert(out@.map_values(|p: Peer| p@) =~= v@.map_values(|p: Peer| p@));
    out
}

/// A copy of an envelope with the same content, so one frame can be
/// delivered to several recipients.
pub fn clone_envelope(e: &Envelope) -> (r: Envelope)
    ensures
        r@ == e@,
{
    match e {
        Envelope::Register { name, public_key } => Envelope::Register {
            name: name.clone(),
            public_key: copy_bytes(public_key),
        },
        Envelope::RequestPublicKey { for_client } => Envelope::RequestPublicKey {
            for_client: *for_client,
        },
        Envelope::PublicKeyResponse { client_id, public_key } => Envelope::PublicKeyResponse {
            client_id: *client_id,
            public_key: copy_bytes(public_key),
        },
        Envelope::Send { to, message } => Envelope::Send { to: *to, message: message.clone() },
        Envelope::Relay { from, message } => Envelope::Relay {
            from: *from,
            message: message.clone(),
        },
        Envelope::MembershipUpdate { peers } => Envelope::MembershipUpdate {
            peers: clone_peers(peers),
        },
        Envelope::Failure { code, about } => Envelope::Failure { code: *code, about: *about },
    }
}

} // verus!
