//! Handing an authorized binding to the relayer.
//!
//! Only a request that completed gives an authorization. The relayer is
//! outside: whoever drives the job sends the submission and hands back what
//! the relayer said. A submission that the relayer refused can be sent
//! again as it is; nothing is signed a second time.

use vstd::prelude::*;
use crate::keys::CombinedSignature;
use crate::leader::{Phase, Session, SessionState};
use crate::outcome::{Outcome, Verdict};
use crate::request::{AccountAction, Binding, KeyBinding};

verus! {

/// A binding that a quorum signed.
#[derive(Debug)]
pub struct Authorization {
    request_id: u64,
    action: AccountAction,
    binding: KeyBinding,
    signature: CombinedSignature,
}

/// An authorization as a value.
pub struct Authorized {
    pub request_id: u64,
    pub action: AccountAction,
    pub binding: Binding,
    pub signature: Seq<u8>,
}

impl View for Authorization {
    type V = Authorized;

    closed spec fn view(&self) -> Authorized {
        Authorized {
            request_id: self.request_id,
            action: self.action,
            binding: self.binding@,
            signature: self.signature.bytes(),
        }
    }
}

/// The authorization that a request gives: none before the request is
/// completed, and none for a request that binds no key.
pub open spec fn authorization_of(state: SessionState) -> Option<Authorized> {
    if state.phase != Phase::Completed {
        None
    } else {
        match (state.request.account_action(), state.signing, state.outcome) {
            (Some(action), Some(signing), Some(Verdict::Completed(signature))) => match signing.binding {
                Some(binding) => Some(
                    Authorized { request_id: state.request_id, action, binding, signature },
                ),
                None => None,
            },
            _ => None,
        }
    }
}

/// The authorization of one that may be absent, as a value.
pub open spec fn authorized_view(a: Option<Authorization>) -> Option<Authorized> {
    match a {
        Some(a) => Some(a@),
        None => None,
    }
}

/// What is handed to the relayer.
#[derive(Debug, Clone)]
pub struct Submission {
    /// The account that is created or gets the key.
    pub account_id: String,
    /// What is done to the account.
    pub action: AccountAction,
    /// The public key that is bound to the account.
    pub public_key: String,
    /// The subject that was verified for the account.
    pub subject: String,
    /// The cluster's signature on the binding.
    pub signature: Vec<u8>,
    /// The id of the request: the relayer submits one id once.
    pub request_id: u64,
}

impl Submission {
    /// Whether the submission carries exactly what `authorized` holds.
    pub open spec fn carries(self, authorized: Authorized) -> bool {
        &&& self.account_id@ == authorized.binding.account_id
        &&& self.action == authorized.action
        &&& self.public_key@ == authorized.binding.public_key
        &&& self.subject@ == authorized.binding.subject
        &&& self.signature@ == authorized.signature
        &&& self.request_id == authorized.request_id
    }
}

impl Authorization {
    /// The authorization that the request of `session` gives.
    pub fn of_session(session: &Session) -> (r: Option<Authorization>)
        ensures
            authorized_view(r) == authorization_of(session@),
    {
        if session.phase() != Phase::Completed {
            return None;
        }
        match (session.account_action(), session.signing(), session.outcome()) {
            (Some(action), Some(signing), Some(Outcome::Completed(signature))) => match signing.binding {
                Some(binding) => Some(
                    Authorization { request_id: session.request_id(), action, binding, signature },
                ),
                None => None,
            },
            _ => None,
        }
    }

    /// What is handed to the relayer for this authorization.
    pub fn submission(&self) -> (r: Submission)
        ensures
            r.carries(self@),
    {
        Submission {
            account_id: self.binding.account_id.clone(),
            action: self.action,
            public_key: self.binding.public_key.clone(),
            subject: self.binding.subject.clone(),
            signature: self.signature.to_bytes(),
            request_id: self.request_id,
        }
    }
}

/// What the relayer said of a submission.
#[derive(Debug)]
pub enum RelayResult {
    /// The relayer submitted the action: the transaction's hash.
    Accepted(String),
    /// The relayer failed.
    Refused,
}

/// Where a relay job stands.
#[derive(Debug)]
pub enum RelayStatus {
    /// The relayer has not answered yet.
    Pending,
    /// The action is on the chain: the transaction's hash.
    Submitted(String),
    /// The relayer failed: a relay failure, apart from how the signing went.
    /// The submission may be sent again.
    RelayFailure,
}

/// A relay status as a value.
pub enum Relayed {
    Pending,
    Submitted(Seq<char>),
    RelayFailure,
}

impl View for RelayStatus {
    type V = Relayed;

    open spec fn view(&self) -> Relayed {
        match self {
            RelayStatus::Pending => Relayed::Pending,
            RelayStatus::Submitted(hash) => Relayed::Submitted(hash@),
            RelayStatus::RelayFailure => Relayed::RelayFailure,
        }
    }
}

/// The status after the relayer's answer: an action that is on the chain
/// stays there; otherwise the answer decides.
pub open spec fn relayed(status: Relayed, accepted: Option<Seq<char>>) -> Relayed {
    match status {
        Relayed::Submitted(_) => status,
        _ => match accepted {
            Some(hash) => Relayed::Submitted(hash),
            None => Relayed::RelayFailure,
        },
    }
}

/// The relaying of one authorization.
#[derive(Debug)]
pub struct RelayJob {
    authorization: Authorization,
    status: RelayStatus,
}

impl RelayJob {
    /// The authorization that is relayed.
    pub closed spec fn authorization(self) -> Authorized {
        self.authorization@
    }

    /// Where the job stands.
    pub closed spec fn status(self) -> Relayed {
        self.status@
    }

    /// A job for `authorization`, the relayer not yet asked.
    pub fn new(authorization: Authorization) -> (r: RelayJob)
        ensures
            r.authorization() == authorization@,
            r.status() is Pending,
    {
        RelayJob { authorization, status: RelayStatus::Pending }
    }

    /// What to hand to the relayer, now or again: the same submission as
    /// long as the action is not on the chain, and nothing once it is.
    pub fn submission(&self) -> (r: Option<Submission>)
        ensures
            r.is_some() == !(self.status() is Submitted),
            r matches Some(s) ==> s.carries(self.authorization()),
    {
        match &self.status {
            RelayStatus::Submitted(_) => None,
            _ => Some(self.authorization.submission()),
        }
    }

    /// Takes the relayer's answer. The authorization stays as it is.
    pub fn on_result(&mut self, result: RelayResult)
        ensures
            final(self).authorization() == old(self).authorization(),
            final(self).status() == relayed(
                old(self).status(),
                match result {
                    RelayResult::Accepted(hash) => Some(hash@),
                    RelayResult::Refused => None,
                },
            ),
    {
        match &self.status {
            RelayStatus::Submitted(_) => {},
            _ => {
                self.status = match result {
                    RelayResult::Accepted(hash) => RelayStatus::Submitted(hash),
                    RelayResult::Refused => RelayStatus::RelayFailure,
                };
            },
        }
    }

    /// The hash of the transaction, once the action is on the chain.
    pub fn transaction(&self) -> (r: Option<String>)
        ensures
            self.status() == (match r {
                Some(hash) => Relayed::Submitted(hash@),
                None => self.status(),
            }),
            r.is_some() == (self.status() is Submitted),
    {
        match &self.status {
            RelayStatus::Submitted(hash) => Some(hash.clone()),
            _ => None,
        }
    }

    /// Whether the relayer failed on the last submission.
    pub fn has_failed(&self) -> (r: bool)
        ensures
            r == (self.status() is RelayFailure),
    {
        match &self.status {
            RelayStatus::RelayFailure => true,
            _ => false,
        }
    }
}

} // verus!
