//! How a request ends: with the cluster's signature, or with the reason for
//! which it failed.

use vstd::prelude::*;
use crate::keys::{signature_result, CombineError, CombinedSignature};

verus! {

/// Why a request did not complete.
#[derive(Clone, Copy, Debug, PartialEq, Eq, Structural)]
pub enum Failure {
    /// The request was malformed; it is not retried.
    BadRequest,
    /// The identity assertion was invalid or did not match the request.
    Unauthorized,
    /// Fewer valid shares than the quorum arrived before the deadline.
    QuorumTimeout,
    /// The combined signature did not verify although every share did.
    ProtocolFault,
}

impl Failure {
    /// Whether a caller may submit the whole request again.
    pub open spec fn retryable(self) -> bool {
        self == Failure::QuorumTimeout
    }

    /// Whether a caller may submit the whole request again.
    pub fn is_retryable(&self) -> (r: bool)
        ensures
            r == self.retryable(),
    {
        match self {
            Failure::QuorumTimeout => true,
            _ => false,
        }
    }

    /// The failure must stop the work on the request for good: no retry can
    /// mend what it signals.
    pub open spec fn fatal(self) -> bool {
        self == Failure::ProtocolFault
    }

    /// Whether the failure must stop the work on the request for good.
    pub fn is_fatal(&self) -> (r: bool)
        ensures
            r == self.fatal(),
    {
        match self {
            Failure::ProtocolFault => true,
            _ => false,
        }
    }
}

/// How a request ended.
#[derive(Debug)]
pub enum Outcome {
    /// A quorum signed: the signature that verified under the public key.
    Completed(CombinedSignature),
    /// The request failed.
    Failed(Failure),
}

/// An outcome as a value.
pub enum Verdict {
    Completed(Seq<u8>),
    Failed(Failure),
}

impl View for Outcome {
    type V = Verdict;

    open spec fn view(&self) -> Verdict {
        match self {
            Outcome::Completed(signature) => Verdict::Completed(signature.bytes()),
            Outcome::Failed(failure) => Verdict::Failed(*failure),
        }
    }
}

/// The value of an outcome that may be absent.
pub open spec fn verdict_of(outcome: Option<Outcome>) -> Option<Verdict> {
    match outcome {
        Some(o) => Some(o@),
        None => None,
    }
}

/// How a request ends whose shares were combined with this result: completed
/// with a signature that verified, failed with a protocol fault otherwise.
pub open spec fn combination_verdict(result: Result<Seq<u8>, CombineError>) -> Verdict {
    match result {
        Ok(signature) => Verdict::Completed(signature),
        Err(_) => Verdict::Failed(Failure::ProtocolFault),
    }
}

impl Outcome {
    /// How a request ends whose shares were combined with this result. No
    /// failure to combine verified shares is passing: each is a protocol
    /// fault.
    pub fn of_combination(result: Result<CombinedSignature, CombineError>) -> (r: Outcome)
        ensures
            r@ == combination_verdict(signature_result(result)),
    {
        match result {
            Ok(signature) => Outcome::Completed(signature),
            Err(_) => Outcome::Failed(Failure::ProtocolFault),
        }
    }

    /// A copy of the outcome.
    pub fn copy(&self) -> (r: Outcome)
        ensures
            r@ == self@,
    {
        match self {
            Outcome::Completed(signature) => Outcome::Completed(signature.copy()),
            Outcome::Failed(failure) => Outcome::Failed(*failure),
        }
    }

    /// Whether the request completed.
    pub fn is_completed(&self) -> (r: bool)
        ensures
            r == (self@ is Completed),
    {
        match self {
            Outcome::Completed(_) => true,
            Outcome::Failed(_) => false,
        }
    }
}

} // verus!
