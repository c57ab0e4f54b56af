//! The leader node: it takes a client's request through its phases, from the
//! moment it is received to the moment it is completed or has failed.
//!
//! The leader does no outside work itself. Whoever drives it performs the
//! action that a session awaits (asking the identity verifier, sending the
//! signing request to the nodes, waiting for replies under the deadline) and
//! hands back what happened as an event. One routine drives one session;
//! sessions of different requests do not touch one another.

use vstd::prelude::*;
use crate::cache::{IdempotenceCache, Retained};
use crate::guarantees::{
    law_admitted_is_shaped, law_next_keeps_shape, law_next_keeps_soundness, law_opened_is_shaped,
};
use crate::keys::{copy_bytes, KeySet, PartialSignature, Share, ThresholdKeySet};
use crate::outcome::{combination_verdict, verdict_of, Failure, Outcome, Verdict};
use crate::quorum::{gathered, recorded, QuorumState, Slot, SlotView};
use crate::request::{
    authorized, authorizes, AccountAction, Answer, ClientRequest, IdentityAnswer, Request, Signing,
    SigningRequest,
};

verus! {

/// Where a request stands.
#[derive(Clone, Copy, Debug, PartialEq, Eq, Structural)]
pub enum Phase {
    /// The request came in; its shape and its id are yet to be looked at.
    Received,
    /// The identity verifier is asked about the request's assertion.
    Authorizing,
    /// The signing request is being sent to every node.
    Dispatching,
    /// Shares are awaited, verified and counted.
    CollectingShares,
    /// A quorum of shares is there and is being combined.
    Combining,
    /// The request has its signature.
    Completed,
    /// The request failed.
    Failed,
}

/// What came back from a node.
#[derive(Debug, Clone)]
pub enum NodeReply {
    /// The node's signature share.
    Share(Vec<u8>),
    /// The node refused: for it the identity does not authorize the request.
    Unauthorized,
    /// The node did not answer, or answered with an error.
    Unavailable,
}

/// A node's reply as a value.
pub enum Reply {
    Share(Seq<u8>),
    Unauthorized,
    Unavailable,
}

impl View for NodeReply {
    type V = Reply;

    open spec fn view(&self) -> Reply {
        match self {
            NodeReply::Share(signature) => Reply::Share(signature@),
            NodeReply::Unauthorized => Reply::Unauthorized,
            NodeReply::Unavailable => Reply::Unavailable,
        }
    }
}

/// What happened outside while a session waited.
#[derive(Debug)]
pub enum Event {
    /// The identity verifier answered.
    Identity(IdentityAnswer),
    /// The signing request is on its way to every node.
    Dispatched,
    /// The node `node`, counted from 1, replied.
    Reply { node: usize, reply: NodeReply },
    /// The deadline of the request elapsed.
    Deadline,
}

/// An event as a value.
pub enum Occurrence {
    Identity(Answer),
    Dispatched,
    Reply { node: nat, reply: Reply },
    Deadline,
}

impl View for Event {
    type V = Occurrence;

    open spec fn view(&self) -> Occurrence {
        match self {
            Event::Identity(answer) => Occurrence::Identity(answer@),
            Event::Dispatched => Occurrence::Dispatched,
            Event::Reply { node, reply } => Occurrence::Reply { node: *node as nat, reply: reply@ },
            Event::Deadline => Occurrence::Deadline,
        }
    }
}

/// What a session awaits from whoever drives it.
#[derive(Debug)]
pub enum Action {
    /// Nothing outside: the leader itself takes the next step.
    Proceed,
    /// Ask the identity verifier about this assertion.
    VerifyIdentity(String),
    /// Send this request to every node, all at once, under one deadline.
    Dispatch(SigningRequest),
    /// Wait for the next reply or for the deadline.
    Collect,
    /// The request has ended: answer the client.
    Finish(Outcome),
}

/// An action as a value.
pub enum Step {
    Proceed,
    VerifyIdentity(Seq<char>),
    Dispatch(Signing),
    Collect,
    Finish(Verdict),
}

impl View for Action {
    type V = Step;

    open spec fn view(&self) -> Step {
        match self {
            Action::Proceed => Step::Proceed,
            Action::VerifyIdentity(token) => Step::VerifyIdentity(token@),
            Action::Dispatch(request) => Step::Dispatch(request@),
            Action::Collect => Step::Collect,
            Action::Finish(outcome) => Step::Finish(outcome@),
        }
    }
}

/// The state of one request in flight, as a value.
pub struct SessionState {
    pub request_id: u64,
    pub request: Request,
    pub phase: Phase,
    /// What the nodes are asked to sign, once that is settled.
    pub signing: Option<Signing>,
    /// What is known of each node's share; node `k` at position `k - 1`.
    pub slots: Seq<SlotView>,
    /// How the request ended, once it has.
    pub outcome: Option<Verdict>,
}

/// The subject that an answer of the identity verifier speaks for; empty for
/// an assertion that is not good.
pub open spec fn subject_of(answer: Answer) -> Seq<char> {
    match answer {
        Answer::Subject(subject) => subject,
        Answer::Invalid => Seq::empty(),
    }
}

impl SessionState {
    /// The state of a request that just came in, in a cluster of `nodes` nodes.
    pub open spec fn opened(request_id: u64, request: Request, nodes: nat) -> SessionState {
        SessionState {
            request_id,
            request,
            phase: Phase::Received,
            signing: None,
            slots: Seq::new(nodes, |i: int| SlotView::Pending),
            outcome: None,
        }
    }

    /// Whether the request has ended.
    pub open spec fn terminal(self) -> bool {
        self.phase == Phase::Completed || self.phase == Phase::Failed
    }

    /// The payload that the nodes sign; empty before that is settled.
    pub open spec fn payload(self) -> Seq<u8> {
        match self.signing {
            Some(signing) => signing.payload,
            None => Seq::empty(),
        }
    }

    /// The number of verified shares.
    pub open spec fn verified(self) -> nat {
        gathered(self.slots).len()
    }

    /// The state after the request failed for `failure`.
    pub open spec fn failed(self, failure: Failure) -> SessionState {
        SessionState { phase: Phase::Failed, outcome: Some(Verdict::Failed(failure)), ..self }
    }

    /// From `Received`, for a request of good shape whose id is new: a request
    /// made on an identity goes to `Authorizing`, another straight to
    /// `Dispatching` with its payload as given.
    pub open spec fn admitted(self) -> SessionState {
        if self.request.gated() {
            SessionState { phase: Phase::Authorizing, ..self }
        } else {
            SessionState {
                phase: Phase::Dispatching,
                signing: Some(self.request.signing(self.request_id, Seq::empty())),
                ..self
            }
        }
    }

    /// From `Authorizing`, on the identity verifier's answer: the leader's own,
    /// early judgement, by the rule that every node applies again. A good
    /// assertion settles what is signed; to `Dispatching` then, else the
    /// request fails as `Unauthorized`.
    pub open spec fn identified(self, answer: Answer) -> SessionState {
        let signing = self.request.signing(self.request_id, subject_of(answer));
        if authorizes(answer, signing.binding) {
            SessionState { phase: Phase::Dispatching, signing: Some(signing), ..self }
        } else {
            self.failed(Failure::Unauthorized)
        }
    }

    /// The slot that a reply of `node` fills: verified for a share that
    /// verifies on the payload under the node's public key share, discarded
    /// for anything else.
    pub open spec fn slot_for(self, keys: KeySet, node: nat, reply: Reply) -> SlotView {
        match reply {
            Reply::Share(signature) => if keys.share_ok(Share { node, signature }, self.payload()) {
                SlotView::Verified(signature)
            } else {
                SlotView::Discarded
            },
            _ => SlotView::Discarded,
        }
    }

    /// From `CollectingShares`, on a node's reply: the reply fills the node's
    /// slot if that was pending, and with a quorum of verified shares the
    /// request goes to `Combining`.
    pub open spec fn collected(self, keys: KeySet, node: nat, reply: Reply) -> SessionState {
        let slots = recorded(self.slots, node, self.slot_for(keys, node, reply));
        SessionState {
            slots,
            phase: if gathered(slots).len() >= keys.quorum() {
                Phase::Combining
            } else {
                Phase::CollectingShares
            },
            ..self
        }
    }

    /// From `Combining`: the verified shares are interpolated and the result
    /// verified under the public key. With a signature that verifies the
    /// request is `Completed`; anything else is a `ProtocolFault`.
    pub open spec fn concluded(self, keys: KeySet) -> SessionState {
        let verdict = combination_verdict(keys.combination(gathered(self.slots), self.payload()));
        SessionState {
            phase: if verdict is Completed {
                Phase::Completed
            } else {
                Phase::Failed
            },
            outcome: Some(verdict),
            ..self
        }
    }

    /// The state after `event`. An event that the phase does not await
    /// changes nothing: a late reply to a request that has ended is ignored.
    pub open spec fn next(self, keys: KeySet, event: Occurrence) -> SessionState {
        match (self.phase, event) {
            (Phase::Authorizing, Occurrence::Identity(answer)) => self.identified(answer),
            (Phase::Dispatching, Occurrence::Dispatched) => SessionState {
                phase: Phase::CollectingShares,
                ..self
            },
            (Phase::CollectingShares, Occurrence::Reply { node, reply }) => {
                let after = self.collected(keys, node, reply);
                if after.phase == Phase::Combining {
                    after.concluded(keys)
                } else {
                    after
                }
            },
            (Phase::Dispatching, Occurrence::Deadline) => self.failed(Failure::QuorumTimeout),
            (Phase::CollectingShares, Occurrence::Deadline) => self.failed(Failure::QuorumTimeout),
            _ => self,
        }
    }

    /// What the session awaits in its phase.
    pub open spec fn action(self) -> Step {
        match self.phase {
            Phase::Received => Step::Proceed,
            Phase::Authorizing => Step::VerifyIdentity(self.request.token()),
            Phase::Dispatching => match self.signing {
                Some(signing) => Step::Dispatch(signing),
                None => Step::Proceed,
            },
            Phase::CollectingShares => Step::Collect,
            Phase::Combining => Step::Proceed,
            Phase::Completed => match self.outcome {
                Some(verdict) => Step::Finish(verdict),
                None => Step::Proceed,
            },
            Phase::Failed => match self.outcome {
                Some(verdict) => Step::Finish(verdict),
                None => Step::Proceed,
            },
        }
    }

    /// The state after each of `events` in turn.
    pub open spec fn run(self, keys: KeySet, events: Seq<Occurrence>) -> SessionState
        decreases events.len(),
    {
        if events.len() == 0 {
            self
        } else {
            self.run(keys, events.drop_last()).next(keys, events.last())
        }
    }

    /// What holds of every state that a request of a cluster with `keys` goes
    /// through: there is a slot for every node; what the nodes are asked to
    /// sign is what the request wants; nothing is signed for before dispatch;
    /// shares are collected only short of a quorum; a request is combined and
    /// completed with exactly a quorum of verified shares; a request that
    /// ended has its outcome.
    pub open spec fn shaped(self, keys: KeySet) -> bool {
        &&& self.slots.len() == keys.nodes()
        &&& (self.signing matches Some(signing) ==> self.request.carried_by(self.request_id, signing))
        &&& match self.phase {
            Phase::Received => self.signing is None && self.outcome is None && self.verified() == 0,
            Phase::Authorizing => self.signing is None && self.outcome is None && self.verified()
                == 0 && self.request.gated(),
            Phase::Dispatching => self.signing is Some && self.outcome is None && self.verified()
                == 0,
            Phase::CollectingShares => self.signing is Some && self.outcome is None
                && self.verified() < keys.quorum(),
            Phase::Combining => self.signing is Some && self.outcome is None && self.verified()
                == keys.quorum(),
            Phase::Completed => self.signing is Some && self.verified() == keys.quorum() && (
            self.outcome matches Some(Verdict::Completed(_))),
            Phase::Failed => (self.outcome matches Some(Verdict::Failed(_))),
        }
    }

    /// What holds of the signatures in every such state: a share stands in a
    /// slot only if it verifies on the payload under its node's public key
    /// share, and a completed request carries a signature that verifies on
    /// the payload under the cluster's public key.
    pub open spec fn sound(self, keys: KeySet) -> bool {
        &&& forall|k: int|
            0 <= k < self.slots.len() ==> ((#[trigger] self.slots[k]) matches SlotView::Verified(
                signature,
            ) ==> keys.share_ok(Share { node: (k + 1) as nat, signature }, self.payload()))
        &&& self.phase == Phase::Completed ==> (self.outcome matches Some(
            Verdict::Completed(signature),
        ) && keys.signature_ok(signature, self.payload()))
    }
}

/// One request in flight.
#[derive(Debug)]
pub struct Session {
    request_id: u64,
    request: ClientRequest,
    phase: Phase,
    signing: Option<SigningRequest>,
    quorum: QuorumState,
    outcome: Option<Outcome>,
}

impl View for Session {
    type V = SessionState;

    closed spec fn view(&self) -> SessionState {
        SessionState {
            request_id: self.request_id,
            request: self.request@,
            phase: self.phase,
            signing: match self.signing {
                Some(signing) => Some(signing@),
                None => None,
            },
            slots: self.quorum@,
            outcome: verdict_of(self.outcome),
        }
    }
}

impl Session {
    /// The id of the request.
    pub fn request_id(&self) -> (r: u64)
        ensures
            r == self@.request_id,
    {
        self.request_id
    }

    /// Where the request stands.
    pub fn phase(&self) -> (r: Phase)
        ensures
            r == self@.phase,
    {
        self.phase
    }

    /// Whether the request has ended.
    pub fn is_terminal(&self) -> (r: bool)
        ensures
            r == self@.terminal(),
    {
        self.phase == Phase::Completed || self.phase == Phase::Failed
    }

    /// The number of verified shares.
    pub fn verified(&self) -> (r: usize)
        ensures
            r == self@.verified(),
    {
        self.quorum.verified()
    }

    /// The payload that the nodes sign; empty before that is settled.
    pub fn payload(&self) -> (r: Vec<u8>)
        ensures
            r@ == self@.payload(),
    {
        match &self.signing {
            Some(signing) => copy_bytes(&signing.payload),
            None => Vec::new(),
        }
    }

    /// What the nodes are asked to sign, once that is settled.
    pub fn signing(&self) -> (r: Option<SigningRequest>)
        ensures
            r.is_some() == self@.signing.is_some(),
            r matches Some(signing) ==> signing@ == self@.signing.unwrap(),
    {
        match &self.signing {
            Some(signing) => Some(signing.copy()),
            None => None,
        }
    }

    /// What the request does to an account, where it does anything to one.
    pub fn account_action(&self) -> (r: Option<AccountAction>)
        ensures
            r == self@.request.account_action(),
    {
        self.request.account_action()
    }

    /// How the request ended, once it has.
    pub fn outcome(&self) -> (r: Option<Outcome>)
        ensures
            verdict_of(r) == self@.outcome,
    {
        match &self.outcome {
            Some(outcome) => Some(outcome.copy()),
            None => None,
        }
    }

    /// What the session awaits in its phase.
    pub fn action(&self) -> (r: Action)
        ensures
            r@ == self@.action(),
    {
        match self.phase {
            Phase::Received => Action::Proceed,
            Phase::Authorizing => Action::VerifyIdentity(self.request.token()),
            Phase::Dispatching => match &self.signing {
                Some(signing) => Action::Dispatch(signing.copy()),
                None => Action::Proceed,
            },
            Phase::CollectingShares => Action::Collect,
            Phase::Combining => Action::Proceed,
            Phase::Completed => match &self.outcome {
                Some(outcome) => Action::Finish(outcome.copy()),
                None => Action::Proceed,
            },
            Phase::Failed => match &self.outcome {
                Some(outcome) => Action::Finish(outcome.copy()),
                None => Action::Proceed,
            },
        }
    }

    /// Ends the request with `failure`.
    fn fail(&mut self, failure: Failure)
        ensures
            final(self)@ == old(self)@.failed(failure),
    {
        self.phase = Phase::Failed;
        self.outcome = Some(Outcome::Failed(failure));
    }
}

/// What became of a request that came in.
#[derive(Debug)]
pub enum Reception {
    /// The request is malformed.
    Rejected(Failure),
    /// A request of this id ended before: its outcome, as it was then. No
    /// node is asked again.
    Duplicate(Outcome),
    /// The request is in flight.
    Admitted(Session),
}

/// A reception as a value.
pub enum Admission {
    Rejected(Failure),
    Duplicate(Verdict),
    Admitted(SessionState),
}

impl View for Reception {
    type V = Admission;

    open spec fn view(&self) -> Admission {
        match self {
            Reception::Rejected(failure) => Admission::Rejected(*failure),
            Reception::Duplicate(outcome) => Admission::Duplicate(outcome@),
            Reception::Admitted(session) => Admission::Admitted(session@),
        }
    }
}

/// What becomes of a request in `Received`: a malformed one is rejected as a
/// `BadRequest`; one whose id is remembered gets the remembered outcome; any
/// other is admitted.
pub open spec fn admission(cache: Retained, session: SessionState) -> Admission {
    if session.phase != Phase::Received {
        Admission::Admitted(session)
    } else if !session.request.well_shaped() {
        Admission::Rejected(Failure::BadRequest)
    } else {
        match cache.lookup(session.request_id) {
            Some(verdict) => Admission::Duplicate(verdict),
            None => Admission::Admitted(session.admitted()),
        }
    }
}

/// The cache after a session was settled: the outcome of a request that
/// ended is remembered under its id.
pub open spec fn settled(cache: Retained, session: SessionState) -> Retained {
    match session.outcome {
        Some(verdict) => if session.terminal() {
            cache.recorded(session.request_id, verdict)
        } else {
            cache
        },
        None => cache,
    }
}

/// The leader node of a cluster.
#[derive(Debug)]
pub struct LeaderNode {
    keys: ThresholdKeySet,
    cache: IdempotenceCache,
}

impl LeaderNode {
    /// The key set of the cluster.
    pub closed spec fn keys(self) -> KeySet {
        self.keys@
    }

    /// The idempotence cache.
    pub closed spec fn cache(self) -> Retained {
        self.cache@
    }

    /// The leader of the cluster with `keys`, which remembers the outcomes of
    /// up to `retention` requests.
    pub fn new(keys: ThresholdKeySet, retention: usize) -> (r: LeaderNode)
        ensures
            r.keys() == keys@,
            r.cache() == (Retained { capacity: retention as nat, entries: Seq::empty() }),
    {
        LeaderNode { keys, cache: IdempotenceCache::new(retention) }
    }

    /// The key set of the cluster.
    pub fn key_set(&self) -> (r: &ThresholdKeySet)
        ensures
            r@ == self.keys(),
    {
        &self.keys
    }

    /// A session for a request that just came in.
    pub fn open(&self, request_id: u64, request: ClientRequest) -> (r: Session)
        ensures
            r@ == SessionState::opened(request_id, request@, self.keys().nodes()),
            r@.shaped(self.keys()),
            r@.sound(self.keys()),
    {
        proof {
            law_opened_is_shaped(self.keys(), request_id, request@);
        }
        Session {
            request_id,
            request,
            phase: Phase::Received,
            signing: None,
            quorum: QuorumState::new(self.keys.nodes()),
            outcome: None,
        }
    }

    /// Looks at a request in `Received`: at its shape, then at its id.
    pub fn screen(&self, session: Session) -> (r: Reception)
        ensures
            r@ == admission(self.cache(), session@),
            session@.shaped(self.keys()) && session@.sound(self.keys()) ==> (r matches Reception::Admitted(
                admitted,
            ) ==> admitted@.shaped(self.keys()) && admitted@.sound(self.keys())),
    {
        proof {
            if session@.shaped(self.keys()) && session@.sound(self.keys()) && session@.phase
                == Phase::Received {
                law_admitted_is_shaped(self.keys(), session@);
            }
        }
        let mut session = session;
        if session.phase != Phase::Received {
            return Reception::Admitted(session);
        }
        if !session.request.is_well_shaped() {
            return Reception::Rejected(Failure::BadRequest);
        }
        match self.cache.lookup(session.request_id) {
            Some(outcome) => Reception::Duplicate(outcome),
            None => {
                if session.request.is_gated() {
                    session.phase = Phase::Authorizing;
                } else {
                    let empty = String::new();
                    session.signing = Some(session.request.signing(session.request_id, empty.as_str()));
                    session.phase = Phase::Dispatching;
                }
                Reception::Admitted(session)
            },
        }
    }

    /// Receives a client's request under the id `request_id`.
    pub fn receive(&self, request_id: u64, request: ClientRequest) -> (r: Reception)
        ensures
            r@ == admission(
                self.cache(),
                SessionState::opened(request_id, request@, self.keys().nodes()),
            ),
            r matches Reception::Admitted(admitted) ==> admitted@.shaped(self.keys())
                && admitted@.sound(self.keys()),
    {
        let session = self.open(request_id, request);
        self.screen(session)
    }

    /// Receives a request to sign an opaque payload.
    pub fn sign(&self, request_id: u64, payload: Vec<u8>, path: String, key_version: u32) -> (r:
        Reception)
        ensures
            r@ == admission(
                self.cache(),
                SessionState::opened(
                    request_id,
                    Request::Sign { payload: payload@, path: path@, key_version },
                    self.keys().nodes(),
                ),
            ),
            r matches Reception::Admitted(admitted) ==> admitted@.shaped(self.keys())
                && admitted@.sound(self.keys()),
    {
        self.receive(request_id, ClientRequest::Sign { payload, path, key_version })
    }

    /// Receives a request to create an account bound to a public key.
    pub fn new_account(
        &self,
        request_id: u64,
        account_id: String,
        identity_token: String,
        public_key: String,
    ) -> (r: Reception)
        ensures
            r@ == admission(
                self.cache(),
                SessionState::opened(
                    request_id,
                    Request::NewAccount {
                        account_id: account_id@,
                        identity_token: identity_token@,
                        public_key: public_key@,
                    },
                    self.keys().nodes(),
                ),
            ),
            r matches Reception::Admitted(admitted) ==> admitted@.shaped(self.keys())
                && admitted@.sound(self.keys()),
    {
        self.receive(request_id, ClientRequest::NewAccount { account_id, identity_token, public_key })
    }

    /// Receives a request to bind one more public key to an account.
    pub fn add_key(
        &self,
        request_id: u64,
        account_id: String,
        identity_token: String,
        public_key: String,
    ) -> (r: Reception)
        ensures
            r@ == admission(
                self.cache(),
                SessionState::opened(
                    request_id,
                    Request::AddKey {
                        account_id: account_id@,
                        identity_token: identity_token@,
                        public_key: public_key@,
                    },
                    self.keys().nodes(),
                ),
            ),
            r matches Reception::Admitted(admitted) ==> admitted@.shaped(self.keys())
                && admitted@.sound(self.keys()),
    {
        self.receive(request_id, ClientRequest::AddKey { account_id, identity_token, public_key })
    }

    /// Takes the identity verifier's answer for a request in `Authorizing`.
    pub fn identify(&self, session: &mut Session, answer: &IdentityAnswer)
        ensures
            final(session)@ == (if old(session)@.phase == Phase::Authorizing {
                old(session)@.identified(answer@)
            } else {
                old(session)@
            }),
    {
        if session.phase != Phase::Authorizing {
            return ;
        }
        let subject = match answer {
            IdentityAnswer::Subject(subject) => subject.clone(),
            IdentityAnswer::Invalid => String::new(),
        };
        let signing = session.request.signing(session.request_id, subject.as_str());
        if authorized(answer, &signing.binding) {
            session.signing = Some(signing);
            session.phase = Phase::Dispatching;
        } else {
            session.fail(Failure::Unauthorized);
        }
    }

    /// Takes a node's reply for a request in `CollectingShares`.
    pub fn collect(&self, session: &mut Session, node: usize, reply: NodeReply)
        ensures
            final(session)@ == (if old(session)@.phase == Phase::CollectingShares {
                old(session)@.collected(self.keys(), node as nat, reply@)
            } else {
                old(session)@
            }),
    {
        if session.phase != Phase::CollectingShares {
            return ;
        }
        let slot = match reply {
            NodeReply::Share(signature) => {
                let share = PartialSignature { node, signature };
                let payload = session.payload();
                if self.keys.verify_share(&share, payload.as_slice()) {
                    Slot::Verified(share.signature)
                } else {
                    Slot::Discarded
                }
            },
            _ => Slot::Discarded,
        };
        session.quorum.record(node, slot);
        if session.quorum.verified() >= self.keys.quorum() {
            session.phase = Phase::Combining;
        }
    }

    /// Combines the verified shares of a request in `Combining`.
    pub fn combine(&self, session: &mut Session)
        ensures
            final(session)@ == (if old(session)@.phase == Phase::Combining {
                old(session)@.concluded(self.keys())
            } else {
                old(session)@
            }),
    {
        if session.phase != Phase::Combining {
            return ;
        }
        let shares = session.quorum.shares();
        let payload = session.payload();
        let outcome = Outcome::of_combination(self.keys.combine(&shares, payload.as_slice()));
        session.phase = if outcome.is_completed() {
            Phase::Completed
        } else {
            Phase::Failed
        };
        session.outcome = Some(outcome);
    }

    /// Takes what happened outside and says what the session awaits next. A
    /// session that the leader opened stays as every request's is: if it is
    /// completed, then with a quorum of verified shares and a signature that
    /// verifies under the cluster's public key.
    pub fn step(&self, session: &mut Session, event: Event) -> (r: Action)
        ensures
            final(session)@ == old(session)@.next(self.keys(), event@),
            r@ == final(session)@.action(),
            old(session)@.shaped(self.keys()) ==> final(session)@.shaped(self.keys()),
            old(session)@.shaped(self.keys()) && old(session)@.sound(self.keys())
                ==> final(session)@.sound(self.keys()),
    {
        proof {
            if session@.shaped(self.keys()) {
                law_next_keeps_shape(self.keys(), session@, event@);
                if session@.sound(self.keys()) {
                    law_next_keeps_soundness(self.keys(), session@, event@);
                }
            }
        }
        match event {
            Event::Identity(answer) => {
                self.identify(session, &answer);
            },
            Event::Dispatched => {
                if session.phase == Phase::Dispatching {
                    session.phase = Phase::CollectingShares;
                }
            },
            Event::Reply { node, reply } => {
                if session.phase == Phase::CollectingShares {
                    self.collect(session, node, reply);
                    self.combine(session);
                }
            },
            Event::Deadline => {
                if session.phase == Phase::Dispatching || session.phase == Phase::CollectingShares {
                    session.fail(Failure::QuorumTimeout);
                }
            },
        }
        session.action()
    }

    /// Remembers the outcome of a request that ended, under the request's id.
    /// A failure is remembered as a signature is: a caller that tries again
    /// after a timeout sends the request under a new id.
    pub fn settle(&mut self, session: &Session)
        ensures
            final(self).keys() == old(self).keys(),
            final(self).cache() == settled(old(self).cache(), session@),
    {
        if session.is_terminal() {
            match &session.outcome {
                Some(outcome) => {
                    self.cache.record(session.request_id, outcome.copy());
                },
                None => {},
            }
        }
    }
}

} // verus!
