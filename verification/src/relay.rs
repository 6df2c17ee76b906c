//! The relay router: a per-connection state machine over the client
//! registry.
//!
//! Each connection walks `Connected` (no identity yet) to `Registered`
//! (identity bound by a well-formed `Register` envelope) to `Closed`. No
//! other envelope kind is accepted before registration; a rejected frame is
//! reported as such and the connection survives. The surrounding process
//! performs the returned delivery actions on each recipient's own outbound
//! queue, so deliveries to one recipient stay in order; nothing is promised
//! across recipients.

use vstd::prelude::*;

use crate::envelope::{Envelope, EnvelopeView, FailureCode};
use crate::errors::RelayError;
use crate::registry::{RecordView, Registry};

verus! {

/// One delivery instruction: hand `envelope` to the outbound queue of the
/// connection registered under `to`.
pub struct Action {
    pub to: u64,
    pub envelope: Envelope,
}

/// The mathematical content of an [`Action`].
pub struct ActionView {
    pub to: u64,
    pub envelope: EnvelopeView,
}

impl View for Action {
    type V = ActionView;

    open spec fn view(&self) -> ActionView {
        ActionView { to: self.to, envelope: self.envelope@ }
    }
}

/// The deliveries of a list of actions, content for content.
pub open spec fn acts_view(acts: Seq<Action>) -> Seq<ActionView> {
    acts.map_values(|a: Action| a@)
}

/// The lifecycle of one connection.
#[derive(Clone, Copy, Debug, PartialEq, Eq, Structural)]
pub enum ConnState {
    /// The socket is open but no `Register` has been accepted: no identity
    /// is bound and only `Register` frames are acted on.
    Connected,
    /// An identity is bound; the registry holds this connection's record.
    Registered(u64),
    /// The connection is torn down and takes no further part.
    Closed,
}

/// What a connection's read task reports to the state machine: a parsed
/// frame, or the end of the connection (socket error, peer close, or a
/// malformed frame, which all tear the connection down the same way).
pub enum Event {
    Frame(Envelope),
    Disconnect,
}

/// The result of feeding one event to the state machine: the connection's
/// next state, the deliveries to perform, and whether the event was acted
/// on — a rejected frame is a protocol error to log, not a crash.
pub struct Step {
    pub state: ConnState,
    pub actions: Vec<Action>,
    pub accepted: bool,
}

/// Where a `Send{to, ..}` from `from` goes: to `to` as a `Relay` stamped by
/// the relay itself with the true sender identity when `to` is registered,
/// else back to `from` as an explicit unknown-recipient failure.
pub open spec fn route_spec(reg: Registry, from: u64, to: u64, message: Seq<char>) -> ActionView {
    if reg.spec_contains(to) {
        ActionView { to, envelope: EnvelopeView::Relay { from, message } }
    } else {
        ActionView {
            to: from,
            envelope: EnvelopeView::Failure { code: FailureCode::UnknownRecipient, about: to },
        }
    }
}

/// What a `RequestPublicKey{for_client}` from `requester` is answered with:
/// the registered key, or an explicit unknown-peer failure — never silence,
/// so the requester cannot hang on a peer that is not there.
pub open spec fn key_response_spec(reg: Registry, requester: u64, for_client: u64) -> ActionView {
    if reg.spec_contains(for_client) {
        ActionView {
            to: requester,
            envelope: EnvelopeView::PublicKeyResponse {
                client_id: for_client,
                public_key: reg.spec_record(for_client).public_key,
            },
        }
    } else {
        ActionView {
            to: requester,
            envelope: EnvelopeView::Failure { code: FailureCode::UnknownPeer, about: for_client },
        }
    }
}

/// A membership broadcast: one delivery per registered connection, each
/// carrying the full current membership snapshot.
pub open spec fn broadcast_spec(reg: Registry) -> Seq<ActionView> {
    reg@.map_values(
        |r: RecordView|
            (ActionView {
                to: r.id,
                envelope: EnvelopeView::MembershipUpdate { peers: reg.peers_spec() },
            }),
    )
}

/// The relay: the registry of registered connections, and the counter that
/// hands each connection a fresh identity, never reused while the relay
/// runs.
pub struct Relay {
    registry: Registry,
    next_id: u64,
}

/// The transition relation of the per-connection state machine: what one
/// event from a connection in state `conn` does to the relay (`pre` to
/// `post`) and what the outcome `step` holds.
///
/// - A closed connection takes no further part.
/// - A disconnect closes the connection; a registered one loses its record,
///   exactly once, and the remaining clients get a membership broadcast.
/// - Before registration only a `Register` frame is acted on: it binds the
///   next fresh identity (unless every identity is spent) and broadcasts
///   the grown membership to everyone, the newcomer included.
/// - Once registered: a repeated `Register` overwrites the record and
///   broadcasts; a `Send` is routed with the sender identity stamped by the
///   relay itself; a `RequestPublicKey` is answered, with the key or with
///   an explicit unknown-peer failure; relay-to-client kinds arriving from
///   a client are rejected as protocol errors.
pub open spec fn step_spec(pre: Relay, post: Relay, conn: ConnState, event: Event, step: Step) -> bool {
    match (conn, event) {
        (ConnState::Closed, _) => {
            &&& post == pre
            &&& step.state is Closed
            &&& step.actions@.len() == 0
            &&& !step.accepted
        },
        (ConnState::Connected, Event::Disconnect) => {
            &&& post == pre
            &&& step.state is Closed
            &&& step.actions@.len() == 0
            &&& step.accepted
        },
        (ConnState::Registered(id), Event::Disconnect) => {
            &&& step.state is Closed
            &&& step.accepted
            &&& post.spec_next_id() == pre.spec_next_id()
            &&& !post.spec_registry().spec_contains(id)
            &&& (pre.spec_registry().spec_contains(id) ==> post.spec_registry()@
                == pre.spec_registry()@.remove(pre.spec_registry().spec_index_of(id)))
            &&& (!pre.spec_registry().spec_contains(id) ==> post.spec_registry()@
                == pre.spec_registry()@)
            &&& acts_view(step.actions@) == broadcast_spec(post.spec_registry())
        },
        (ConnState::Connected, Event::Frame(env)) => match env@ {
            EnvelopeView::Register { name, public_key } => if pre.spec_next_id() < u64::MAX {
                &&& step.state == ConnState::Registered(pre.spec_next_id())
                &&& step.accepted
                &&& post.spec_next_id() == pre.spec_next_id() + 1
                &&& post.spec_registry()@ == pre.spec_registry()@.push(
                    (RecordView { id: pre.spec_next_id(), name, public_key }),
                )
                &&& acts_view(step.actions@) == broadcast_spec(post.spec_registry())
            } else {
                &&& post == pre
                &&& step.state is Connected
                &&& step.actions@.len() == 0
                &&& !step.accepted
            },
            _ => {
                &&& post == pre
                &&& step.state is Connected
                &&& step.actions@.len() == 0
                &&& !step.accepted
            },
        },
        (ConnState::Registered(id), Event::Frame(env)) => match env@ {
            EnvelopeView::Register { name, public_key } => if pre.spec_registry().spec_contains(
                id,
            ) {
                &&& step.state == conn
                &&& step.accepted
                &&& post.spec_next_id() == pre.spec_next_id()
                &&& post.spec_registry()@ == pre.spec_registry()@.update(
                    pre.spec_registry().spec_index_of(id),
                    (RecordView { id, name, public_key }),
                )
                &&& acts_view(step.actions@) == broadcast_spec(post.spec_registry())
            } else {
                &&& post == pre
                &&& step.state == conn
                &&& step.actions@.len() == 0
                &&& !step.accepted
            },
            EnvelopeView::Send { to, message } => {
                &&& post == pre
                &&& step.state == conn
                &&& step.accepted
                &&& acts_view(step.actions@) == seq![
                    route_spec(pre.spec_registry(), id, to, message),
                ]
            },
            EnvelopeView::RequestPublicKey { for_client } => {
                &&& post == pre
                &&& step.state == conn
                &&& step.accepted
                &&& acts_view(step.actions@) == seq![
                    key_response_spec(pre.spec_registry(), id, for_client),
                ]
            },
            _ => {
                &&& post == pre
                &&& step.state == conn
                &&& step.actions@.len() == 0
                &&& !step.accepted
            },
        },
    }
}

impl Relay {
    /// The registry, for specifications.
    pub closed spec fn spec_registry(&self) -> Registry {
        self.registry
    }

    /// The next identity to hand out, for specifications.
    pub closed spec fn spec_next_id(&self) -> u64 {
        self.next_id
    }

    /// The registry is well-formed and every registered identity was handed
    /// out below the counter, so a fresh identity collides with nothing.
    pub open spec fn wf(&self) -> bool {
        &&& self.spec_registry().wf()
        &&& forall|i: int|
            0 <= i < self.spec_registry()@.len() ==> self.spec_registry()@[i].id
                < self.spec_next_id()
    }

    /// A relay with no clients.
    pub fn new() -> (r: Relay)
        ensures
            r.wf(),
            r.spec_registry()@ == Seq::<RecordView>::empty(),
            r.spec_next_id() == 0,
    {
        Relay { registry: Registry::new(), next_id: 0 }
    }

    /// How many clients are registered.
    pub fn client_count(&self) -> (r: usize)
        ensures
            r == self.spec_registry()@.len(),
    {
        self.registry.len()
    }

    /// Whether `id` is a registered connection.
    pub fn is_registered(&self, id: u64) -> (r: bool)
        requires
            self.wf(),
        ensures
            r == self.spec_registry().spec_contains(id),
    {
        self.registry.contains(id)
    }

    /// One delivery per registered connection, each carrying the full
    /// current membership snapshot.
    fn broadcast_membership(&self) -> (acts: Vec<Action>)
        ensures
            acts_view(acts@) == broadcast_spec(self.spec_registry()),
    {
        let ids = self.registry.ids();
        let mut acts: Vec<Action> = Vec::new();
        let n = ids.len();
        for i in 0..n
            invariant
                n == ids@.len(),
                ids@ == self.registry.spec_ids(),
                n == self.spec_registry()@.len(),
                acts@.len() == i,
                forall|j: int| 0 <= j < i ==> acts@[j]@ == broadcast_spec(self.spec_registry())[j],
        {
            let peers = self.registry.membership();
            acts.push(Action { to: ids[i], envelope: Envelope::MembershipUpdate { peers } });
        }
        assert(acts_view(acts@) =~= broadcast_spec(self.spec_registry()));
        acts
    }

    /// Accept a `Register` from a connection with no identity yet: bind a
    /// fresh identity, record name and key, and broadcast the new
    /// membership to every registered client — the new one included. Fails
    /// exactly when every identity has been handed out.
    pub fn register(&mut self, name: String, public_key: Vec<u8>) -> (r: Result<
        (u64, Vec<Action>),
        RelayError,
    >)
        requires
            old(self).wf(),
        ensures
            final(self).wf(),
            r matches Ok(pair) ==> {
                &&& pair.0 == old(self).spec_next_id()
                &&& final(self).spec_next_id() == old(self).spec_next_id() + 1
                &&& final(self).spec_registry()@ == old(self).spec_registry()@.push(
                    (RecordView { id: pair.0, name: name@, public_key: public_key@ }),
                )
                &&& acts_view(pair.1@) == broadcast_spec(final(self).spec_registry())
            },
            r matches Err(e) ==> {
                &&& e == RelayError::IdsExhausted
                &&& *final(self) == *old(self)
            },
            r is Ok <==> old(self).spec_next_id() < u64::MAX,
    {
        if self.next_id == u64::MAX {
            return Err(RelayError::IdsExhausted);
        }
        let id = self.next_id;
        self.next_id = id + 1;
        self.registry.upsert(id, name, public_key);
        let acts = self.broadcast_membership();
        Ok((id, acts))
    }

    /// Overwrite the record of an already registered connection (a repeated
    /// `Register` re-keys or renames it) and broadcast the new membership.
    pub fn update_registration(&mut self, id: u64, name: String, public_key: Vec<u8>) -> (acts: Vec<
        Action,
    >)
        requires
            old(self).wf(),
            old(self).spec_registry().spec_contains(id),
        ensures
            final(self).wf(),
            final(self).spec_next_id() == old(self).spec_next_id(),
            final(self).spec_registry()@ == old(self).spec_registry()@.update(
                old(self).spec_registry().spec_index_of(id),
                (RecordView { id, name: name@, public_key: public_key@ }),
            ),
            acts_view(acts@) == broadcast_spec(final(self).spec_registry()),
    {
        self.registry.upsert(id, name, public_key);
        self.broadcast_membership()
    }

    /// Answer a `RequestPublicKey` — with the key, or with an explicit
    /// unknown-peer failure to the requester, so "peer unknown" is
    /// observable rather than a silent drop.
    pub fn request_public_key(&self, requester: u64, for_client: u64) -> (a: Action)
        requires
            self.wf(),
        ensures
            a@ == key_response_spec(self.spec_registry(), requester, for_client),
    {
        match self.registry.lookup_public_key(for_client) {
            Some(public_key) => Action {
                to: requester,
                envelope: Envelope::PublicKeyResponse { client_id: for_client, public_key },
            },
            None => Action {
                to: requester,
                envelope: Envelope::Failure {
                    code: FailureCode::UnknownPeer,
                    about: for_client,
                },
            },
        }
    }

    /// Route a `Send`: exactly one `Relay` to the recipient when it is
    /// registered, with `from` stamped by the relay itself — never taken
    /// from the sender's input, which is what prevents identity spoofing —
    /// else an explicit unknown-recipient failure back to the sender, and
    /// nothing delivered to anyone else.
    pub fn route_send(&self, from: u64, to: u64, message: String) -> (a: Action)
        requires
            self.wf(),
        ensures
            a@ == route_spec(self.spec_registry(), from, to, message@),
    {
        if self.registry.contains(to) {
            Action { to, envelope: Envelope::Relay { from, message } }
        } else {
            Action {
                to: from,
                envelope: Envelope::Failure { code: FailureCode::UnknownRecipient, about: to },
            }
        }
    }

    /// Tear down a registered connection: remove its record (exactly once —
    /// removing an already absent identity changes nothing) and broadcast
    /// the shrunken membership to the remaining clients.
    pub fn disconnect(&mut self, id: u64) -> (acts: Vec<Action>)
        requires
            old(self).wf(),
        ensures
            final(self).wf(),
            final(self).spec_next_id() == old(self).spec_next_id(),
            old(self).spec_registry().spec_contains(id) ==> final(self).spec_registry()@ == old(self).spec_registry()@.remove(old(self).spec_registry().spec_index_of(id)),
            !old(self).spec_registry().spec_contains(id) ==> final(self).spec_registry()@ == old(self).spec_registry()@,
            !final(self).spec_registry().spec_contains(id),
            acts_view(acts@) == broadcast_spec(final(self).spec_registry()),
    {
        self.registry.remove_id(id);
        self.broadcast_membership()
    }

    /// The full per-connection state machine: feed one event from a
    /// connection in state `conn`, get the next state and the deliveries to
    /// perform. Frames that are not valid in the current state are rejected
    /// without touching the registry, and no event crashes the relay. The
    /// outcome is exactly [`step_spec`].
    pub fn handle_event(&mut self, conn: ConnState, event: Event) -> (step: Step)
        requires
            old(self).wf(),
        ensures
            final(self).wf(),
            step_spec(*old(self), *final(self), conn, event, step),
    {
        match conn {
            ConnState::Closed => Step {
                state: ConnState::Closed,
                actions: Vec::new(),
                accepted: false,
            },
            ConnState::Connected => match event {
                Event::Disconnect => Step {
                    state: ConnState::Closed,
                    actions: Vec::new(),
                    accepted: true,
                },
                Event::Frame(env) => match env {
                    Envelope::Register { name, public_key } => match self.register(
                        name,
                        public_key,
                    ) {
                        Ok((id, actions)) => Step {
                            state: ConnState::Registered(id),
                            actions,
                            accepted: true,
                        },
                        Err(_) => Step {
                            state: ConnState::Connected,
                            actions: Vec::new(),
                            accepted: false,
                        },
                    },
                    _ => Step { state: ConnState::Connected, actions: Vec::new(), accepted: false },
                },
            },
            ConnState::Registered(id) => match event {
                Event::Disconnect => {
                    let actions = self.disconnect(id);
                    Step { state: ConnState::Closed, actions, accepted: true }
                },
                Event::Frame(env) => match env {
                    Envelope::Register { name, public_key } => {
                        if self.is_registered(id) {
                            let actions = self.update_registration(id, name, public_key);
                            Step { state: ConnState::Registered(id), actions, accepted: true }
                        } else {
                            Step {
                                state: ConnState::Registered(id),
                                actions: Vec::new(),
                                accepted: false,
                            }
                        }
                    },
                    Envelope::Send { to, message } => {
                        let ghost msg_view = message@;
                        let a = self.route_send(id, to, message);
                        let mut actions: Vec<Action> = Vec::new();
                        actions.push(a);
                        proof {
                            assert(acts_view(actions@) =~= seq![
                                route_spec(self.spec_registry(), id, to, msg_view),
                            ]);
                        }
                        Step { state: ConnState::Registered(id), actions, accepted: true }
                    },
                    Envelope::RequestPublicKey { for_client } => {
                        let a = self.request_public_key(id, for_client);
                        let mut actions: Vec<Action> = Vec::new();
                        actions.push(a);
                        proof {
                            assert(acts_view(actions@) =~= seq![
                                key_response_spec(self.spec_registry(), id, for_client),
                            ]);
                        }
                        Step { state: ConnState::Registered(id), actions, accepted: true }
                    },
                    _ => Step {
                        state: ConnState::Registered(id),
                        actions: Vec::new(),
                        accepted: false,
                    },
                },
            },
        }
    }
}

/// Routing is exact: a registered recipient gets exactly the relayed
/// message, stamped with the true sender; an unregistered one produces an
/// explicit failure to the sender and no delivery to anyone else.
pub proof fn lemma_routing_exact(reg: Registry, from: u64, to: u64, message: Seq<char>)
    ensures
        reg.spec_contains(to) ==> route_spec(reg, from, to, message) == (ActionView {
            to,
            envelope: EnvelopeView::Relay { from, message },
        }),
        !reg.spec_contains(to) ==> route_spec(reg, from, to, message) == (ActionView {
            to: from,
            envelope: EnvelopeView::Failure { code: FailureCode::UnknownRecipient, about: to },
        }),
{
}

/// Membership broadcasts are exact at every step of the state machine:
/// whatever the event, every `MembershipUpdate` among the step's deliveries
/// goes to a connection registered after the step and carries exactly the
/// membership registered after the step — broadcasts are whole snapshots of
/// the current registry, never stale and never partial.
pub proof fn lemma_broadcasts_carry_current_membership(
    pre: Relay,
    post: Relay,
    conn: ConnState,
    event: Event,
    step: Step,
)
    requires
        step_spec(pre, post, conn, event, step),
    ensures
        forall|i: int|
            0 <= i < acts_view(step.actions@).len() && acts_view(step.actions@)[i].envelope is
                MembershipUpdate ==> {
                &&& acts_view(step.actions@)[i].envelope->MembershipUpdate_peers
                    == post.spec_registry().peers_spec()
                &&& post.spec_registry().spec_contains(acts_view(step.actions@)[i].to)
            },
{
    let acts = acts_view(step.actions@);
    let reg = post.spec_registry();
    assert forall|i: int|
        0 <= i < acts.len() && acts[i].envelope is MembershipUpdate implies
        acts[i].envelope->MembershipUpdate_peers == reg.peers_spec() && reg.spec_contains(
            acts[i].to,
        ) by {
        if acts == broadcast_spec(reg) {
            assert(acts[i] == broadcast_spec(reg)[i]);
            assert(acts[i].to == reg@[i].id);
            assert(reg.spec_contains(acts[i].to));
        }
    }
}

/// Every membership broadcast addresses exactly the registered connections,
/// and what it carries lists exactly the registered identities with their
/// names, in registration order.
pub proof fn lemma_broadcast_exact(reg: Registry)
    ensures
        broadcast_spec(reg).len() == reg@.len(),
        forall|i: int| 0 <= i < reg@.len() ==> #[trigger] broadcast_spec(reg)[i].to == reg@[i].id,
        forall|i: int|
            0 <= i < reg@.len() ==> #[trigger] broadcast_spec(reg)[i].envelope
                == (EnvelopeView::MembershipUpdate { peers: reg.peers_spec() }),
        reg.peers_spec().len() == reg@.len(),
        forall|i: int|
            0 <= i < reg@.len() ==> #[trigger] reg.peers_spec()[i].id == reg@[i].id
                && reg.peers_spec()[i].name == reg@[i].name,
        reg.peers_spec().map_values(|p: crate::envelope::PeerView| p.id) == reg.spec_ids(),
{
    reg.lemma_membership_exact();
}

} // verus!
