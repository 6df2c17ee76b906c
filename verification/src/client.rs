//! Client-side protocol decisions: what to hand the transport when the user
//! wants to message a peer, and what to make of the envelopes the relay
//! delivers. The surrounding process only moves envelopes; every decision —
//! handshake or send, which key, which error — is taken here.

use vstd::prelude::*;

use crate::cipher;
use crate::cipher::{open_spec, MAX_PLAINTEXT_LEN};
use crate::envelope::{Envelope, EnvelopeView, Peer};
use crate::errors::{ClientError, CryptoError};
use crate::exchange::{derive_symmetric_key, p256_accepts, shared_point, session_key_of, KeyPair};
use crate::session::{SessionStore, SessionView};

verus! {

/// What base64 encoding (standard alphabet, padded) produces for a byte
/// string: a function of the bytes alone.
pub uninterp spec fn b64_of(data: Seq<u8>) -> Seq<char>;

/// What base64 decoding makes of a text: the bytes it encodes, or nothing
/// when it is not valid base64; a function of the text alone.
pub uninterp spec fn b64_parse(text: Seq<char>) -> Option<Seq<u8>>;

/// Relies on base64::encode (standard alphabet, padded): deterministic in
/// the input, and base64::decode recovers exactly the input from it.
#[verifier::external_body]
fn base64_encode(data: &Vec<u8>) -> (r: String)
    ensures
        r@ == b64_of(data@),
        b64_parse(r@) == Some(data@),
{
    base64::encode(data)
}

/// Relies on base64::decode (standard alphabet, padded): deterministic in
/// the input, failing exactly on text that encodes no byte string.
#[verifier::external_body]
fn base64_decode(text: &String) -> (r: Option<Vec<u8>>)
    ensures
        r matches Some(d) ==> b64_parse(text@) == Some(d@),
        r is None ==> b64_parse(text@) is None,
{
    match base64::decode(text.as_bytes()) {
        Ok(d) => Some(d),
        Err(_) => None,
    }
}

/// What the client hands the transport when the user asks to message
/// `peer`: once the handshake with `peer` is complete, a `Send` envelope
/// whose body is the sealed plaintext, base64-encoded; before that, a
/// `RequestPublicKey` envelope, so the handshake can complete first. The
/// caller sees which of the two it got, which is how "handshake not yet
/// complete" stays observable.
pub fn prepare_send(store: &SessionStore, peer: u64, plaintext: &Vec<u8>) -> (r: Result<
    Envelope,
    CryptoError,
>)
    requires
        store.wf(),
        plaintext@.len() <= MAX_PLAINTEXT_LEN,
    ensures
        r matches Ok(env) ==> {
            &&& store@.dom().contains(peer) ==> exists|c: Seq<u8>|
                {
                    &&& env@ == (EnvelopeView::Send { to: peer, message: b64_of(c) })
                    &&& b64_parse(b64_of(c)) == Some(c)
                    &&& open_spec(store@[peer].key, c) == Ok::<Seq<u8>, CryptoError>(plaintext@)
                }
            &&& !store@.dom().contains(peer) ==> env@ == (EnvelopeView::RequestPublicKey {
                for_client: peer,
            })
        },
        r matches Err(e) ==> e == CryptoError::RandomUnavailable && store@.dom().contains(peer),
{
    match store.get(peer) {
        None => Ok(Envelope::RequestPublicKey { for_client: peer }),
        Some(key) => match cipher::seal(&key, plaintext) {
            Ok(sealed) => {
                let message = base64_encode(&sealed);
                proof {
                    assert(open_spec(store@[peer].key, sealed@) == Ok::<Seq<u8>, CryptoError>(
                        plaintext@,
                    ));
                }
                Ok(Envelope::Send { to: peer, message })
            },
            Err(e) => Err(e),
        },
    }
}

/// Complete a handshake: derive the shared secret from our key pair and the
/// peer public key the relay answered with, expand it into the session key,
/// and cache it for `peer` — overwriting any earlier key, which is how
/// re-keying works after the peer reconnects under a new identity. The
/// handshake succeeds exactly when p256 accepts the two encodings; a
/// malformed peer key fails fast and changes nothing.
pub fn accept_public_key_response(
    store: &mut SessionStore,
    kp: &KeyPair,
    peer: u64,
    peer_public: &Vec<u8>,
    now: u64,
) -> (r: Result<(), CryptoError>)
    requires
        old(store).wf(),
    ensures
        final(store).wf(),
        r is Ok <==> p256_accepts(kp.scalar(), peer_public@),
        r is Ok ==> final(store)@ == old(store)@.insert(
            peer,
            (SessionView {
                key: session_key_of(shared_point(kp.spec_public(), peer_public@)),
                derived_at: now,
            }),
        ),
        r matches Err(e) ==> e == CryptoError::InvalidPeerKey && final(store)@ == old(store)@,
{
    match crate::exchange::derive_shared(kp, peer_public) {
        Ok(shared) => {
            let key = derive_symmetric_key(&shared);
            store.put(peer, key, now);
            Ok(())
        },
        Err(e) => Err(e),
    }
}

/// Open a relayed message from `from`: decode the base64 body and decrypt
/// it under the session key cached for that sender. Fails closed, and the
/// caller can tell "handshake not yet complete", "not valid base64", and
/// "decryption failed" apart. When the body is exactly a sealed message
/// under the cached key, success is owed: the plaintext comes back.
pub fn accept_relay(store: &SessionStore, from: u64, message: &String) -> (r: Result<
    Vec<u8>,
    ClientError,
>)
    requires
        store.wf(),
    ensures
        r matches Ok(p) ==> {
            &&& store@.dom().contains(from)
            &&& exists|c: Seq<u8>|
                b64_parse(message@) == Some(c) && open_spec(store@[from].key, c) == Ok::<
                    Seq<u8>,
                    CryptoError,
                >(p@)
        },
        r == Err::<Vec<u8>, ClientError>(ClientError::HandshakeIncomplete) <==> !store@.dom().contains(
            from,
        ),
        r == Err::<Vec<u8>, ClientError>(ClientError::BadEncoding) ==> b64_parse(message@) is None,
        r is Err && r->Err_0 is Crypto ==> exists|c: Seq<u8>|
            b64_parse(message@) == Some(c) && open_spec(store@[from].key, c) == Err::<
                Seq<u8>,
                CryptoError,
            >(r->Err_0->Crypto_0),
        store@.dom().contains(from) && b64_parse(message@) is Some && open_spec(
            store@[from].key,
            b64_parse(message@)->Some_0,
        ) is Ok ==> r is Ok && r->Ok_0@ == open_spec(
            store@[from].key,
            b64_parse(message@)->Some_0,
        )->Ok_0,
{
    match store.get(from) {
        None => Err(ClientError::HandshakeIncomplete),
        Some(key) => match base64_decode(message) {
            None => Err(ClientError::BadEncoding),
            Some(body) => match cipher::open(&key, &body) {
                Ok(p) => Ok(p),
                Err(ce) => {
                    proof {
                        assert(b64_parse(message@) == Some(body@) && open_spec(
                            store@[from].key,
                            body@,
                        ) == Err::<Seq<u8>, CryptoError>(ce));
                    }
                    Err(ClientError::Crypto(ce))
                },
            },
        },
    }
}

/// What the client keeps of a `MembershipUpdate`: the freshest full list of
/// connected peers, replacing the previous one whole.
pub struct Directory {
    peers: Vec<Peer>,
}

impl View for Directory {
    type V = Seq<crate::envelope::PeerView>;

    closed spec fn view(&self) -> Seq<crate::envelope::PeerView> {
        self.peers@.map_values(|p: Peer| p@)
    }
}

impl Directory {
    /// Before the first update: nobody is known.
    pub fn new() -> (r: Directory)
        ensures
            r@ == Seq::<crate::envelope::PeerView>::empty(),
    {
        let r = Directory { peers: Vec::new() };
        proof {
            assert(r@ =~= Seq::<crate::envelope::PeerView>::empty());
        }
        r
    }

    /// Replace the list with the update's — updates are whole snapshots,
    /// not deltas, so nothing of the old list survives.
    pub fn apply_update(&mut self, peers: Vec<Peer>)
        ensures
            final(self)@ == peers@.map_values(|p: Peer| p@),
    {
        self.peers = peers;
    }

    /// The current list of connected peers.
    pub fn list(&self) -> (r: &Vec<Peer>)
        ensures
            r@.map_values(|p: Peer| p@) == self@,
    {
        &self.peers
    }
}

} // verus!
