//! A signer node: it holds one secret key share and signs what an identity
//! authorizes, judging the identity for itself.

use vstd::prelude::*;
use crate::crypto::share_signature;
use crate::keys::{PartialSignature, SecretKeyShare, Share, ThresholdKeySet};
use crate::request::{authorized, authorizes, Answer, IdentityAnswer, Signing, SigningRequest};

verus! {

/// Why a node gave no partial signature.
#[derive(Clone, Copy, Debug, PartialEq, Eq, Structural)]
pub enum SignError {
    /// The identity assertion does not authorize what is to be signed.
    Unauthorized,
    /// The node's secret encodes no key share.
    KeyUnusable,
}

/// What a node answers once it has judged the identity and tried to sign.
pub open spec fn answered(authorized: bool, signature: Option<Share>) -> Result<Share, SignError> {
    if !authorized {
        Err(SignError::Unauthorized)
    } else {
        match signature {
            Some(share) => Ok(share),
            None => Err(SignError::KeyUnusable),
        }
    }
}

/// What the node `node` that holds `secret` answers to `request`, the
/// identity verifier having said `answer` of the request's assertion.
pub open spec fn signing_outcome(node: nat, secret: Seq<u8>, request: Signing, answer: Answer) -> Result<
    Share,
    SignError,
> {
    answered(
        authorizes(answer, request.binding),
        match share_signature(secret, request.payload) {
            Some(signature) => Some(Share { node, signature }),
            None => None,
        },
    )
}

/// The share of a result that holds a partial signature.
pub open spec fn share_result(r: Result<PartialSignature, SignError>) -> Result<Share, SignError> {
    match r {
        Ok(p) => Ok(p@),
        Err(e) => Err(e),
    }
}

/// The share of a partial signature that may be absent.
pub open spec fn share_of(p: Option<PartialSignature>) -> Option<Share> {
    match p {
        Some(p) => Some(p@),
        None => None,
    }
}

/// What a node answers once it has judged the identity and tried to sign:
/// `Unauthorized` whatever the signature, where the identity does not
/// authorize the request.
pub fn answer(authorized: bool, signature: Option<PartialSignature>) -> (r: Result<
    PartialSignature,
    SignError,
>)
    ensures
        share_result(r) == answered(authorized, share_of(signature)),
{
    if !authorized {
        Err(SignError::Unauthorized)
    } else {
        match signature {
            Some(share) => Ok(share),
            None => Err(SignError::KeyUnusable),
        }
    }
}

/// A signer node.
pub struct SignerNode {
    share: SecretKeyShare,
    keys: ThresholdKeySet,
}

impl SignerNode {
    /// The node's number, counted from 1.
    pub closed spec fn node(self) -> nat {
        self.share.node()
    }

    /// The node's secret.
    pub closed spec fn secret(self) -> Seq<u8> {
        self.share.secret()
    }

    /// The public parts of the cluster's key set.
    pub closed spec fn keys(self) -> ThresholdKeySet {
        self.keys
    }

    /// The node that owns `share` in the cluster of `keys`; `None` where the
    /// cluster has no node of the share's number.
    pub fn new(share: SecretKeyShare, keys: ThresholdKeySet) -> (r: Option<SignerNode>)
        ensures
            r.is_some() == (1 <= share.node() <= keys@.nodes()),
            r matches Some(node) ==> node.node() == share.node() && node.secret() == share.secret()
                && node.keys() == keys,
    {
        let number = share.index();
        if 1 <= number && number <= keys.nodes() {
            Some(SignerNode { share, keys })
        } else {
            None
        }
    }

    /// The node's number, counted from 1.
    pub fn index(&self) -> (r: usize)
        ensures
            r == self.node(),
    {
        self.share.index()
    }

    /// The public parts of the cluster's key set.
    pub fn key_set(&self) -> (r: &ThresholdKeySet)
        ensures
            *r == self.keys(),
    {
        &self.keys
    }

    /// Signs the request's payload with the node's share, if the identity
    /// verifier's answer authorizes the request: the node judges that for
    /// itself, whatever the leader found. Nothing of the node changes.
    pub fn sign(&self, request: &SigningRequest, answer: &IdentityAnswer) -> (r: Result<
        PartialSignature,
        SignError,
    >)
        ensures
            share_result(r) == signing_outcome(self.node(), self.secret(), request@, answer@),
    {
        if !authorized(answer, &request.binding) {
            return Err(SignError::Unauthorized);
        }
        self::answer(true, self.share.sign(request.payload.as_slice()))
    }
}

/// An identity that does not authorize a request gets no signature from any
/// node, whatever share the node holds.
pub proof fn law_unauthorized_everywhere(request: Signing, answer: Answer)
    requires
        !authorizes(answer, request.binding),
    ensures
        forall|node: nat, secret: Seq<u8>| #[trigger]
            signing_outcome(node, secret, request, answer) == Err::<Share, SignError>(
                SignError::Unauthorized,
            ),
{
}

} // verus!
