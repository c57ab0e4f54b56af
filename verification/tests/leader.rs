use mpc_recovery::generate;
use mpc_recovery::leader::{Action, Event, LeaderNode, NodeReply, Phase, Reception, Session};
use mpc_recovery::outcome::{Failure, Outcome};
use mpc_recovery::request::{ClientRequest, IdentityAnswer, SigningRequest};
use mpc_recovery::signer::SignerNode;

fn cluster(n: usize, t: usize) -> (LeaderNode, Vec<SignerNode>) {
    let (keys, secrets) = generate(n, t).unwrap();
    let signers =
        secrets.into_iter().map(|secret| SignerNode::new(secret, keys.copy()).unwrap()).collect();
    (LeaderNode::new(keys, 8), signers)
}

fn sign(payload: &[u8]) -> ClientRequest {
    ClientRequest::Sign { payload: payload.to_vec(), path: "test".to_string(), key_version: 0 }
}

fn account_request(account_id: &str, token: &str) -> ClientRequest {
    ClientRequest::NewAccount {
        account_id: account_id.to_string(),
        identity_token: token.to_string(),
        public_key: "ed25519:key".to_string(),
    }
}

fn admitted(reception: Reception) -> Session {
    match reception {
        Reception::Admitted(session) => session,
        other => panic!("expected an admitted request, got {:?}", other),
    }
}

fn dispatched(action: Action) -> SigningRequest {
    match action {
        Action::Dispatch(request) => request,
        other => panic!("expected a dispatch, got {:?}", other),
    }
}

fn finished(action: Action) -> Outcome {
    match action {
        Action::Finish(outcome) => outcome,
        other => panic!("expected the end, got {:?}", other),
    }
}

fn failure(outcome: Outcome) -> Failure {
    match outcome {
        Outcome::Failed(failure) => failure,
        other => panic!("expected a failure, got {:?}", other),
    }
}

fn reply_of(signer: &SignerNode, request: &SigningRequest, answer: &IdentityAnswer) -> Event {
    let reply = match signer.sign(request, answer) {
        Ok(share) => NodeReply::Share(share.signature),
        Err(_) => NodeReply::Unauthorized,
    };
    Event::Reply { node: signer.index(), reply }
}

/// A session that collects shares for a plain payload.
fn collecting(leader: &LeaderNode, id: u64, payload: &[u8]) -> (Session, SigningRequest) {
    let mut session = admitted(leader.receive(id, sign(payload)));
    let request = dispatched(session.action());
    assert!(matches!(leader.step(&mut session, Event::Dispatched), Action::Collect));
    (session, request)
}

#[test]
fn malformed_requests_are_bad_requests() {
    let (leader, _) = cluster(3, 1);
    assert!(matches!(leader.receive(1, sign(b"")), Reception::Rejected(Failure::BadRequest)));
    assert!(matches!(
        leader.receive(2, account_request("Not An Account", "validToken")),
        Reception::Rejected(Failure::BadRequest)
    ));
    assert!(matches!(
        leader.receive(
            3,
            ClientRequest::AddKey {
                account_id: "a".to_string(),
                identity_token: "validToken".to_string(),
                public_key: "k".to_string()
            }
        ),
        Reception::Rejected(Failure::BadRequest)
    ));
}

#[test]
fn opened_session_is_received_and_awaits_the_leader() {
    let (leader, _) = cluster(3, 1);
    let session = leader.open(4, sign(b"payload"));
    assert_eq!(session.phase(), Phase::Received);
    assert_eq!(session.request_id(), 4);
    assert_eq!(session.verified(), 0);
    assert!(!session.is_terminal());
    assert!(session.outcome().is_none());
    assert!(session.signing().is_none());
    assert!(session.payload().is_empty());
    assert!(matches!(session.action(), Action::Proceed));
    let session = admitted(leader.screen(session));
    assert_eq!(session.phase(), Phase::Dispatching);
    let again = admitted(leader.screen(session));
    assert_eq!(again.phase(), Phase::Dispatching);
}

#[test]
fn plain_signing_goes_straight_to_dispatch() {
    let (leader, _) = cluster(3, 1);
    let session = admitted(leader.receive(5, sign(b"payload")));
    assert_eq!(session.phase(), Phase::Dispatching);
    let request = dispatched(session.action());
    assert_eq!(request.request_id, 5);
    assert_eq!(request.payload, b"payload".to_vec());
    assert_eq!(request.path, Some("test".to_string()));
    assert!(request.binding.is_none());
    assert_eq!(session.payload(), b"payload".to_vec());
}

#[test]
fn account_request_asks_the_identity_verifier_first() {
    let (leader, _) = cluster(3, 1);
    let mut session = admitted(leader.receive(6, account_request("ab.test", "validToken")));
    assert_eq!(session.phase(), Phase::Authorizing);
    match session.action() {
        Action::VerifyIdentity(token) => assert_eq!(token, "validToken"),
        other => panic!("expected the identity check, got {:?}", other),
    }
    let action = leader.step(&mut session, Event::Identity(IdentityAnswer::Subject("alice".into())));
    assert_eq!(session.phase(), Phase::Dispatching);
    let request = dispatched(action);
    let binding = request.binding.as_ref().unwrap();
    assert_eq!(binding.account_id, "ab.test");
    assert_eq!(binding.subject, "alice");
    assert_eq!(binding.public_key, "ed25519:key");
    assert_eq!(request.payload, binding.payload());
    assert_eq!(request.assertion, "validToken");
}

#[test]
fn invalid_identity_fails_as_unauthorized_for_good() {
    let (leader, signers) = cluster(3, 1);
    let mut session = admitted(leader.receive(7, account_request("ab.test", "forged")));
    let action = leader.step(&mut session, Event::Identity(IdentityAnswer::Invalid));
    assert_eq!(failure(finished(action)), Failure::Unauthorized);
    assert_eq!(session.phase(), Phase::Failed);
    assert!(session.is_terminal());
    assert!(session.signing().is_none());
    let plain = SigningRequest {
        request_id: 7,
        payload: vec![1],
        path: None,
        binding: None,
        assertion: String::new(),
    };
    for event in [
        Event::Dispatched,
        reply_of(&signers[0], &plain, &IdentityAnswer::Invalid),
        reply_of(&signers[1], &plain, &IdentityAnswer::Invalid),
        Event::Identity(IdentityAnswer::Subject("alice".into())),
        Event::Deadline,
    ] {
        let action = leader.step(&mut session, event);
        assert_eq!(failure(finished(action)), Failure::Unauthorized);
        assert_eq!(session.phase(), Phase::Failed);
    }
}

#[test]
fn quorum_of_valid_shares_completes() {
    let (leader, signers) = cluster(3, 1);
    let (mut session, request) = collecting(&leader, 8, b"payload");
    let first = leader.step(&mut session, reply_of(&signers[2], &request, &IdentityAnswer::Invalid));
    assert!(matches!(first, Action::Collect));
    assert_eq!(session.verified(), 1);
    assert_eq!(session.phase(), Phase::CollectingShares);
    let second = leader.step(&mut session, reply_of(&signers[0], &request, &IdentityAnswer::Invalid));
    assert_eq!(session.phase(), Phase::Completed);
    assert_eq!(session.verified(), 2);
    match finished(second) {
        Outcome::Completed(signature) => {
            assert!(leader.key_set().verify(&signature.to_bytes(), b"payload"));
        }
        other => panic!("expected completion, got {:?}", other),
    }
    let late = leader.step(&mut session, reply_of(&signers[1], &request, &IdentityAnswer::Invalid));
    assert!(matches!(late, Action::Finish(Outcome::Completed(_))));
    assert_eq!(session.verified(), 2);
}

#[test]
fn collecting_and_combining_are_separate_steps() {
    let (leader, signers) = cluster(2, 1);
    let (mut session, request) = collecting(&leader, 9, b"payload");
    leader.combine(&mut session);
    assert_eq!(session.phase(), Phase::CollectingShares);
    for signer in &signers {
        let share = signer.sign(&request, &IdentityAnswer::Invalid).unwrap();
        leader.collect(&mut session, share.node, NodeReply::Share(share.signature));
    }
    assert_eq!(session.phase(), Phase::Combining);
    assert!(matches!(session.action(), Action::Proceed));
    assert!(matches!(leader.step(&mut session, Event::Deadline), Action::Proceed));
    assert_eq!(session.phase(), Phase::Combining);
    leader.collect(&mut session, 1, NodeReply::Unavailable);
    assert_eq!(session.phase(), Phase::Combining);
    leader.combine(&mut session);
    assert_eq!(session.phase(), Phase::Completed);
    assert!(matches!(session.outcome(), Some(Outcome::Completed(_))));
}

#[test]
fn deadline_without_quorum_is_a_timeout() {
    let (leader, signers) = cluster(4, 2);
    let (mut session, request) = collecting(&leader, 10, b"payload");
    leader.step(&mut session, reply_of(&signers[0], &request, &IdentityAnswer::Invalid));
    leader.step(&mut session, Event::Reply { node: 2, reply: NodeReply::Unavailable });
    leader.step(&mut session, Event::Reply { node: 3, reply: NodeReply::Unauthorized });
    leader.step(&mut session, reply_of(&signers[3], &request, &IdentityAnswer::Invalid));
    assert_eq!(session.verified(), 2);
    assert_eq!(session.phase(), Phase::CollectingShares);
    let action = leader.step(&mut session, Event::Deadline);
    assert_eq!(failure(finished(action)), Failure::QuorumTimeout);
    assert_eq!(session.phase(), Phase::Failed);
    let late = leader.step(&mut session, reply_of(&signers[1], &request, &IdentityAnswer::Invalid));
    assert_eq!(failure(finished(late)), Failure::QuorumTimeout);
    assert_eq!(session.verified(), 2);
}

#[test]
fn deadline_during_dispatch_is_a_timeout() {
    let (leader, _) = cluster(3, 1);
    let mut session = admitted(leader.receive(11, sign(b"payload")));
    let action = leader.step(&mut session, Event::Deadline);
    assert_eq!(failure(finished(action)), Failure::QuorumTimeout);
}

#[test]
fn deadline_does_not_touch_authorizing() {
    let (leader, _) = cluster(3, 1);
    let mut session = admitted(leader.receive(12, account_request("ab.test", "validToken")));
    assert!(matches!(leader.step(&mut session, Event::Deadline), Action::VerifyIdentity(_)));
    assert!(matches!(leader.step(&mut session, Event::Dispatched), Action::VerifyIdentity(_)));
    assert_eq!(session.phase(), Phase::Authorizing);
}

#[test]
fn replies_before_dispatch_ended_are_ignored() {
    let (leader, signers) = cluster(3, 1);
    let mut session = admitted(leader.receive(13, sign(b"payload")));
    let request = dispatched(session.action());
    let action = leader.step(&mut session, reply_of(&signers[0], &request, &IdentityAnswer::Invalid));
    assert!(matches!(action, Action::Dispatch(_)));
    assert_eq!(session.verified(), 0);
}

#[test]
fn wrong_shares_are_discarded_and_the_node_not_asked_again() {
    let (leader, signers) = cluster(3, 1);
    let (mut session, request) = collecting(&leader, 14, b"payload");
    let other = SigningRequest {
        request_id: 14,
        payload: b"another".to_vec(),
        path: None,
        binding: None,
        assertion: String::new(),
    };
    leader.step(&mut session, reply_of(&signers[0], &other, &IdentityAnswer::Invalid));
    assert_eq!(session.verified(), 0);
    leader.step(&mut session, reply_of(&signers[0], &request, &IdentityAnswer::Invalid));
    assert_eq!(session.verified(), 0);
    leader.step(&mut session, Event::Reply { node: 2, reply: NodeReply::Share(vec![1, 2, 3]) });
    assert_eq!(session.verified(), 0);
    let stolen = signers[2].sign(&request, &IdentityAnswer::Invalid).unwrap();
    leader.step(&mut session, Event::Reply { node: 2, reply: NodeReply::Share(stolen.signature) });
    assert_eq!(session.verified(), 0);
    leader.step(&mut session, reply_of(&signers[2], &request, &IdentityAnswer::Invalid));
    assert_eq!(session.verified(), 1);
    assert_eq!(session.phase(), Phase::CollectingShares);
    assert_eq!(failure(finished(leader.step(&mut session, Event::Deadline))), Failure::QuorumTimeout);
}

#[test]
fn a_node_counts_once_and_unknown_nodes_never() {
    let (leader, signers) = cluster(3, 2);
    let (mut session, request) = collecting(&leader, 15, b"payload");
    for _ in 0..3 {
        leader.step(&mut session, reply_of(&signers[0], &request, &IdentityAnswer::Invalid));
    }
    assert_eq!(session.verified(), 1);
    let share = signers[1].sign(&request, &IdentityAnswer::Invalid).unwrap();
    for node in [0usize, 4, 99] {
        let reply = NodeReply::Share(share.signature.clone());
        leader.step(&mut session, Event::Reply { node, reply });
    }
    assert_eq!(session.verified(), 1);
    assert_eq!(session.phase(), Phase::CollectingShares);
}

#[test]
fn order_of_replies_does_not_change_the_state() {
    let (leader, signers) = cluster(4, 2);
    let (mut forward, request) = collecting(&leader, 16, b"payload");
    let (mut backward, _) = collecting(&leader, 16, b"payload");
    leader.step(&mut forward, reply_of(&signers[0], &request, &IdentityAnswer::Invalid));
    leader.step(&mut forward, reply_of(&signers[3], &request, &IdentityAnswer::Invalid));
    leader.step(&mut backward, reply_of(&signers[3], &request, &IdentityAnswer::Invalid));
    leader.step(&mut backward, reply_of(&signers[0], &request, &IdentityAnswer::Invalid));
    assert_eq!(forward.verified(), backward.verified());
    assert_eq!(forward.phase(), backward.phase());
    let a = finished(leader.step(&mut forward, reply_of(&signers[1], &request, &IdentityAnswer::Invalid)));
    let b = finished(leader.step(&mut backward, reply_of(&signers[1], &request, &IdentityAnswer::Invalid)));
    match (a, b) {
        (Outcome::Completed(a), Outcome::Completed(b)) => assert_eq!(a.to_bytes(), b.to_bytes()),
        other => panic!("expected two completions, got {:?}", other),
    }
}

#[test]
fn failures_up_to_the_tolerance_do_not_change_the_outcome() {
    let (leader, signers) = cluster(5, 2);
    let (mut session, request) = collecting(&leader, 17, b"payload");
    leader.step(&mut session, Event::Reply { node: 1, reply: NodeReply::Unavailable });
    leader.step(&mut session, Event::Reply { node: 2, reply: NodeReply::Unavailable });
    for signer in &signers[2..4] {
        leader.step(&mut session, reply_of(signer, &request, &IdentityAnswer::Invalid));
    }
    let action = leader.step(&mut session, reply_of(&signers[4], &request, &IdentityAnswer::Invalid));
    match finished(action) {
        Outcome::Completed(signature) => {
            assert!(leader.key_set().verify(&signature.to_bytes(), b"payload"))
        }
        other => panic!("expected completion, got {:?}", other),
    }
}

#[test]
fn mismatching_identity_never_completes() {
    let (leader, signers) = cluster(3, 1);
    let mut session = admitted(leader.receive(18, account_request("ab.test", "validToken")));
    let action = leader.step(&mut session, Event::Identity(IdentityAnswer::Subject("alice".into())));
    let request = dispatched(action);
    leader.step(&mut session, Event::Dispatched);
    for signer in &signers {
        let seen = IdentityAnswer::Subject("mallory".to_string());
        let action = leader.step(&mut session, reply_of(signer, &request, &seen));
        assert!(matches!(action, Action::Collect));
    }
    assert_eq!(session.verified(), 0);
    assert_eq!(failure(finished(leader.step(&mut session, Event::Deadline))), Failure::QuorumTimeout);
}

#[test]
fn settled_request_is_served_from_the_cache() {
    let (mut leader, signers) = cluster(3, 1);
    let (mut session, request) = collecting(&leader, 19, b"payload");
    leader.step(&mut session, reply_of(&signers[0], &request, &IdentityAnswer::Invalid));
    let outcome =
        finished(leader.step(&mut session, reply_of(&signers[1], &request, &IdentityAnswer::Invalid)));
    let signature = match outcome {
        Outcome::Completed(signature) => signature.to_bytes(),
        other => panic!("expected completion, got {:?}", other),
    };
    leader.settle(&session);
    for _ in 0..2 {
        match leader.receive(19, sign(b"payload")) {
            Reception::Duplicate(Outcome::Completed(again)) => assert_eq!(again.to_bytes(), signature),
            other => panic!("expected the cached outcome, got {:?}", other),
        }
    }
    assert!(matches!(leader.receive(20, sign(b"payload")), Reception::Admitted(_)));
    assert!(matches!(leader.receive(19, sign(b"")), Reception::Rejected(Failure::BadRequest)));
}

#[test]
fn failed_request_is_remembered_too() {
    let (mut leader, _) = cluster(3, 1);
    let (mut session, _) = collecting(&leader, 21, b"payload");
    leader.step(&mut session, Event::Deadline);
    leader.settle(&session);
    assert!(matches!(
        leader.receive(21, sign(b"payload")),
        Reception::Duplicate(Outcome::Failed(Failure::QuorumTimeout))
    ));
}

#[test]
fn request_in_flight_is_not_remembered() {
    let (mut leader, _) = cluster(3, 1);
    let (session, _) = collecting(&leader, 22, b"payload");
    leader.settle(&session);
    assert!(matches!(leader.receive(22, sign(b"payload")), Reception::Admitted(_)));
}

#[test]
fn cache_of_the_leader_is_bounded() {
    let (keys, _) = generate(2, 1).unwrap();
    let mut leader = LeaderNode::new(keys, 2);
    for id in 1..=3u64 {
        let (mut session, _) = collecting(&leader, id, b"payload");
        leader.step(&mut session, Event::Deadline);
        leader.settle(&session);
    }
    assert!(matches!(leader.receive(1, sign(b"payload")), Reception::Admitted(_)));
    assert!(matches!(leader.receive(2, sign(b"payload")), Reception::Duplicate(_)));
    assert!(matches!(leader.receive(3, sign(b"payload")), Reception::Duplicate(_)));
}

#[test]
fn identify_and_collect_wait_for_their_phase() {
    let (leader, signers) = cluster(2, 1);
    let mut session = admitted(leader.receive(23, sign(b"payload")));
    leader.identify(&mut session, &IdentityAnswer::Invalid);
    assert_eq!(session.phase(), Phase::Dispatching);
    let request = dispatched(session.action());
    let share = signers[0].sign(&request, &IdentityAnswer::Invalid).unwrap();
    leader.collect(&mut session, 1, NodeReply::Share(share.signature));
    assert_eq!(session.verified(), 0);
    assert_eq!(session.phase(), Phase::Dispatching);
}

#[test]
fn signature_that_fails_the_cluster_key_is_a_protocol_fault() {
    let (keys, secrets) = generate(3, 1).unwrap();
    let (other, _) = generate(3, 1).unwrap();
    let shares: Vec<Vec<u8>> = (1..=3).map(|k| keys.public_key_share(k).unwrap()).collect();
    let broken = mpc_recovery::keys::ThresholdKeySet::new(1, other.public_key(), shares).unwrap();
    let signers: Vec<SignerNode> =
        secrets.into_iter().map(|secret| SignerNode::new(secret, keys.copy()).unwrap()).collect();
    let mut leader = LeaderNode::new(broken, 8);
    let (mut session, request) = collecting(&leader, 30, b"payload");
    let first = leader.step(&mut session, reply_of(&signers[0], &request, &IdentityAnswer::Invalid));
    assert!(matches!(first, Action::Collect));
    assert_eq!(session.verified(), 1);
    let second = leader.step(&mut session, reply_of(&signers[1], &request, &IdentityAnswer::Invalid));
    assert_eq!(failure(finished(second)), Failure::ProtocolFault);
    assert_eq!(session.phase(), Phase::Failed);
    assert_eq!(session.verified(), 2);
    assert!(Failure::ProtocolFault.is_fatal());
    let late = leader.step(&mut session, reply_of(&signers[2], &request, &IdentityAnswer::Invalid));
    assert_eq!(failure(finished(late)), Failure::ProtocolFault);
    leader.settle(&session);
    assert!(matches!(
        leader.receive(30, sign(b"payload")),
        Reception::Duplicate(Outcome::Failed(Failure::ProtocolFault))
    ));
}

#[test]
fn the_three_operations_receive_their_requests() {
    let (leader, _) = cluster(3, 1);
    let signing = admitted(leader.sign(40, b"payload".to_vec(), "test".to_string(), 0));
    assert_eq!(signing.phase(), Phase::Dispatching);
    assert_eq!(dispatched(signing.action()).payload, b"payload".to_vec());
    let created = admitted(leader.new_account(
        41,
        "ab.test".to_string(),
        "validToken".to_string(),
        "ed25519:key".to_string(),
    ));
    assert_eq!(created.phase(), Phase::Authorizing);
    assert_eq!(created.account_action(), Some(mpc_recovery::request::AccountAction::NewAccount));
    let added = admitted(leader.add_key(
        42,
        "ab.test".to_string(),
        "validToken".to_string(),
        "ed25519:key".to_string(),
    ));
    assert_eq!(added.phase(), Phase::Authorizing);
    assert_eq!(added.account_action(), Some(mpc_recovery::request::AccountAction::AddKey));
    assert!(matches!(
        leader.sign(43, Vec::new(), "test".to_string(), 0),
        Reception::Rejected(Failure::BadRequest)
    ));
    assert!(matches!(
        leader.add_key(44, "x".to_string(), "validToken".to_string(), "k".to_string()),
        Reception::Rejected(Failure::BadRequest)
    ));
}
