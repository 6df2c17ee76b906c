use p2p_sparse_messaging::envelope::{Envelope, FailureCode, Peer};
use p2p_sparse_messaging::errors::RelayError;
use p2p_sparse_messaging::relay::{Action, ConnState, Event, Relay};

fn membership_of(envelope: &Envelope) -> Vec<(u64, String)> {
    match envelope {
        Envelope::MembershipUpdate { peers } => {
            peers.iter().map(|p| (p.id, p.name.clone())).collect()
        }
        _ => panic!("expected a MembershipUpdate"),
    }
}

fn register(relay: &mut Relay, name: &str, key: &[u8]) -> (u64, Vec<Action>) {
    relay
        .register(name.to_string(), key.to_vec())
        .expect("identities available")
}

#[test]
fn first_register_broadcasts_to_newcomer() {
    let mut relay = Relay::new();
    let (id, actions) = register(&mut relay, "alice", &[1, 2, 3]);
    assert_eq!(id, 0);
    assert_eq!(actions.len(), 1);
    assert_eq!(actions[0].to, 0);
    assert_eq!(
        membership_of(&actions[0].envelope),
        vec![(0u64, "alice".to_string())]
    );
}

#[test]
fn second_register_broadcasts_full_list_to_everyone() {
    let mut relay = Relay::new();
    let _ = register(&mut relay, "alice", &[1]);
    let (id, actions) = register(&mut relay, "bob", &[2]);
    assert_eq!(id, 1);
    assert_eq!(actions.len(), 2);
    let expected = vec![(0u64, "alice".to_string()), (1u64, "bob".to_string())];
    assert_eq!(actions[0].to, 0);
    assert_eq!(actions[1].to, 1);
    assert_eq!(membership_of(&actions[0].envelope), expected);
    assert_eq!(membership_of(&actions[1].envelope), expected);
}

#[test]
fn disconnect_broadcasts_remaining_membership() {
    let mut relay = Relay::new();
    let _ = register(&mut relay, "alice", &[1]);
    let _ = register(&mut relay, "bob", &[2]);
    let actions = relay.disconnect(0);
    assert_eq!(relay.client_count(), 1);
    assert_eq!(actions.len(), 1);
    assert_eq!(actions[0].to, 1);
    assert_eq!(
        membership_of(&actions[0].envelope),
        vec![(1u64, "bob".to_string())]
    );
}

#[test]
fn membership_tracks_any_register_disconnect_sequence() {
    let mut relay = Relay::new();
    let _ = register(&mut relay, "a", &[1]);
    let _ = register(&mut relay, "b", &[2]);
    let _ = register(&mut relay, "c", &[3]);
    let _ = relay.disconnect(1);
    let (_, actions) = register(&mut relay, "d", &[4]);
    let expected = vec![
        (0u64, "a".to_string()),
        (2u64, "c".to_string()),
        (3u64, "d".to_string()),
    ];
    assert_eq!(actions.len(), 3);
    for action in &actions {
        assert_eq!(membership_of(&action.envelope), expected);
    }
    let recipients: Vec<u64> = actions.iter().map(|a| a.to).collect();
    assert_eq!(recipients, vec![0, 2, 3]);
    let _ = relay.disconnect(0);
    let _ = relay.disconnect(2);
    let actions = relay.disconnect(3);
    assert_eq!(relay.client_count(), 0);
    assert!(actions.is_empty());
}

#[test]
fn disconnect_of_unknown_identity_changes_nothing() {
    let mut relay = Relay::new();
    let _ = register(&mut relay, "alice", &[1]);
    let actions = relay.disconnect(42);
    assert_eq!(relay.client_count(), 1);
    assert_eq!(actions.len(), 1);
    assert_eq!(actions[0].to, 0);
}

#[test]
fn route_send_to_registered_recipient() {
    let mut relay = Relay::new();
    let _ = register(&mut relay, "alice", &[1]);
    let _ = register(&mut relay, "bob", &[2]);
    let action = relay.route_send(0, 1, "ciphertext".to_string());
    assert_eq!(action.to, 1);
    match action.envelope {
        Envelope::Relay { from, message } => {
            assert_eq!(from, 0);
            assert_eq!(message, "ciphertext");
        }
        _ => panic!("expected a Relay envelope"),
    }
}

#[test]
fn route_send_to_unknown_recipient_fails_explicitly() {
    let mut relay = Relay::new();
    let _ = register(&mut relay, "alice", &[1]);
    let action = relay.route_send(0, 99, "ciphertext".to_string());
    assert_eq!(action.to, 0);
    match action.envelope {
        Envelope::Failure { code, about } => {
            assert_eq!(code, FailureCode::UnknownRecipient);
            assert_eq!(about, 99);
        }
        _ => panic!("expected a Failure envelope"),
    }
}

#[test]
fn request_public_key_answers_with_key() {
    let mut relay = Relay::new();
    let _ = register(&mut relay, "alice", &[1]);
    let _ = register(&mut relay, "bob", &[9, 9, 9]);
    let action = relay.request_public_key(0, 1);
    assert_eq!(action.to, 0);
    match action.envelope {
        Envelope::PublicKeyResponse { client_id, public_key } => {
            assert_eq!(client_id, 1);
            assert_eq!(public_key, vec![9, 9, 9]);
        }
        _ => panic!("expected a PublicKeyResponse envelope"),
    }
}

#[test]
fn request_public_key_for_unknown_peer_fails_explicitly() {
    let mut relay = Relay::new();
    let _ = register(&mut relay, "alice", &[1]);
    let action = relay.request_public_key(0, 7);
    assert_eq!(action.to, 0);
    match action.envelope {
        Envelope::Failure { code, about } => {
            assert_eq!(code, FailureCode::UnknownPeer);
            assert_eq!(about, 7);
        }
        _ => panic!("expected a Failure envelope"),
    }
}

#[test]
fn state_machine_register_binds_identity() {
    let mut relay = Relay::new();
    let step = relay.handle_event(
        ConnState::Connected,
        Event::Frame(Envelope::Register {
            name: "alice".to_string(),
            public_key: vec![1],
        }),
    );
    assert!(step.accepted);
    assert_eq!(step.state, ConnState::Registered(0));
    assert_eq!(step.actions.len(), 1);
    assert_eq!(relay.client_count(), 1);
}

#[test]
fn state_machine_rejects_frames_before_registration() {
    let mut relay = Relay::new();
    let step = relay.handle_event(
        ConnState::Connected,
        Event::Frame(Envelope::Send {
            to: 1,
            message: "x".to_string(),
        }),
    );
    assert!(!step.accepted);
    assert_eq!(step.state, ConnState::Connected);
    assert!(step.actions.is_empty());
    assert_eq!(relay.client_count(), 0);
}

#[test]
fn state_machine_rejects_client_bound_kinds_from_clients() {
    let mut relay = Relay::new();
    let _ = register(&mut relay, "alice", &[1]);
    let frames = vec![
        Envelope::PublicKeyResponse { client_id: 0, public_key: vec![1] },
        Envelope::Relay { from: 0, message: "m".to_string() },
        Envelope::MembershipUpdate { peers: vec![Peer { id: 0, name: "x".to_string() }] },
        Envelope::Failure { code: FailureCode::UnknownPeer, about: 0 },
    ];
    for frame in frames {
        let step = relay.handle_event(ConnState::Registered(0), Event::Frame(frame));
        assert!(!step.accepted);
        assert_eq!(step.state, ConnState::Registered(0));
        assert!(step.actions.is_empty());
    }
}

#[test]
fn state_machine_disconnect_cleans_up_once() {
    let mut relay = Relay::new();
    let _ = register(&mut relay, "alice", &[1]);
    let _ = register(&mut relay, "bob", &[2]);
    let step = relay.handle_event(ConnState::Registered(0), Event::Disconnect);
    assert!(step.accepted);
    assert_eq!(step.state, ConnState::Closed);
    assert_eq!(relay.client_count(), 1);
    let step = relay.handle_event(ConnState::Closed, Event::Disconnect);
    assert!(!step.accepted);
    assert_eq!(step.state, ConnState::Closed);
    assert!(step.actions.is_empty());
    assert_eq!(relay.client_count(), 1);
}

#[test]
fn state_machine_reregister_overwrites_record() {
    let mut relay = Relay::new();
    let _ = register(&mut relay, "alice", &[1]);
    let step = relay.handle_event(
        ConnState::Registered(0),
        Event::Frame(Envelope::Register {
            name: "alicia".to_string(),
            public_key: vec![5],
        }),
    );
    assert!(step.accepted);
    assert_eq!(step.state, ConnState::Registered(0));
    assert_eq!(relay.client_count(), 1);
    assert_eq!(step.actions.len(), 1);
    assert_eq!(
        membership_of(&step.actions[0].envelope),
        vec![(0u64, "alicia".to_string())]
    );
    let action = relay.request_public_key(0, 0);
    match action.envelope {
        Envelope::PublicKeyResponse { public_key, .. } => assert_eq!(public_key, vec![5]),
        _ => panic!("expected a PublicKeyResponse envelope"),
    }
}

#[test]
fn state_machine_routes_send_with_relay_stamped_sender() {
    let mut relay = Relay::new();
    let _ = register(&mut relay, "alice", &[1]);
    let _ = register(&mut relay, "bob", &[2]);
    let step = relay.handle_event(
        ConnState::Registered(0),
        Event::Frame(Envelope::Send {
            to: 1,
            message: "body".to_string(),
        }),
    );
    assert!(step.accepted);
    assert_eq!(step.actions.len(), 1);
    assert_eq!(step.actions[0].to, 1);
    match &step.actions[0].envelope {
        Envelope::Relay { from, message } => {
            assert_eq!(*from, 0);
            assert_eq!(message, "body");
        }
        _ => panic!("expected a Relay envelope"),
    }
}

#[test]
fn identities_are_never_reused() {
    let mut relay = Relay::new();
    let (a, _) = register(&mut relay, "a", &[1]);
    let _ = relay.disconnect(a);
    let (b, _) = register(&mut relay, "b", &[2]);
    assert_ne!(a, b);
    assert_eq!(b, 1);
}

#[test]
fn register_reports_exhausted_identities() {
    let mut relay = Relay::new();
    match relay.register("x".to_string(), vec![1]) {
        Ok((id, _)) => assert_eq!(id, 0),
        Err(RelayError::IdsExhausted) => panic!("fresh relay has identities left"),
    }
}
