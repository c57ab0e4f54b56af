//! The threshold key set, the key shares and the signatures made with them.
//!
//! A key set of threshold `t` for `n` nodes holds one public key for the
//! cluster and one public key share for each node. Node `k`, counted from 1,
//! owns the key share that is the secret polynomial's value at `k`. A
//! signature needs the shares of `t + 1` nodes.

use vstd::prelude::*;
use crate::crypto::{
    aggregate_key, interpolate, interpolated, key_share, public_share_of, random_key_set, rows,
    bytes_of, share_signature, share_valid, sign_share, signature_valid, verify_share,
    verify_signature, PUBLIC_KEY_LEN, SIGNATURE_LEN,
};

verus! {

/// Why no key set was generated.
#[derive(Clone, Copy, Debug, PartialEq, Eq, Structural)]
pub enum KeyError {
    /// There is no node, or the threshold is not below the number of nodes.
    InvalidParameters,
}

/// Why signature shares did not combine to a signature.
#[derive(Clone, Copy, Debug, PartialEq, Eq, Structural)]
pub enum CombineError {
    /// There are no more shares than the threshold.
    NotEnoughShares,
    /// A share names a node that the key set does not have.
    UnknownNode,
    /// Two shares name the same node.
    DuplicateNode,
    /// The scheme refused the shares.
    Refused,
    /// The interpolated signature does not verify under the public key.
    Mismatch,
}

/// One node's secret key share. It stays with the node that owns it.
pub struct SecretKeyShare {
    node: usize,
    secret: Vec<u8>,
}

/// One node's signature on a payload.
#[derive(Debug, Clone)]
pub struct PartialSignature {
    /// The node that signed, counted from 1.
    pub node: usize,
    /// The 96 bytes of the signature share.
    pub signature: Vec<u8>,
}

/// A signature of the cluster that verified under its public key.
#[derive(Debug)]
pub struct CombinedSignature {
    bytes: Vec<u8>,
}

/// The public key of a cluster and the public key share of each of its nodes.
#[derive(Debug)]
pub struct ThresholdKeySet {
    threshold: usize,
    aggregate: Vec<u8>,
    shares: Vec<Vec<u8>>,
}

/// A signature share as a value: the node that signed and the share's bytes.
pub struct Share {
    pub node: nat,
    pub signature: Seq<u8>,
}

impl View for PartialSignature {
    type V = Share;

    open spec fn view(&self) -> Share {
        Share { node: self.node as nat, signature: self.signature@ }
    }
}

/// The shares of a list, each as a value.
pub open spec fn share_views(list: Seq<PartialSignature>) -> Seq<Share> {
    Seq::new(list.len(), |i: int| list[i]@)
}

/// A key set as a value.
pub struct KeySet {
    /// The degree of the secret polynomial: one less than the quorum.
    pub threshold: nat,
    /// The public key of the cluster.
    pub aggregate: Seq<u8>,
    /// The public key share of node `k` at position `k - 1`.
    pub shares: Seq<Seq<u8>>,
}

impl View for ThresholdKeySet {
    type V = KeySet;

    closed spec fn view(&self) -> KeySet {
        KeySet { threshold: self.threshold as nat, aggregate: self.aggregate@, shares: rows(self.shares@) }
    }
}

/// The key share numbers of a list of shares: a node's number less one.
pub open spec fn indices_of(shares: Seq<Share>) -> Seq<u64> {
    Seq::new(shares.len(), |i: int| (shares[i].node - 1) as u64)
}

/// The signature bytes of a list of shares.
pub open spec fn signatures_of(shares: Seq<Share>) -> Seq<Seq<u8>> {
    Seq::new(shares.len(), |i: int| shares[i].signature)
}

/// Whether no two shares of the list name the same node.
pub open spec fn distinct_nodes(shares: Seq<Share>) -> bool {
    forall|i: int, j: int| 0 <= i < j < shares.len() ==> shares[i].node != shares[j].node
}

/// What is made of an interpolated signature: it is surfaced only where
/// there is one and it verifies.
pub open spec fn judged(candidate: Option<Seq<u8>>, verifies: bool) -> Result<Seq<u8>, CombineError> {
    match candidate {
        None => Err(CombineError::Refused),
        Some(signature) => if verifies {
            Ok(signature)
        } else {
            Err(CombineError::Mismatch)
        },
    }
}

impl KeySet {
    /// The number of nodes.
    pub open spec fn nodes(self) -> nat {
        self.shares.len()
    }

    /// The number of shares that a signature needs.
    pub open spec fn quorum(self) -> nat {
        self.threshold + 1
    }

    /// The threshold is below the number of nodes, and every key has a key's
    /// length.
    pub open spec fn wf(self) -> bool {
        &&& self.threshold < self.nodes()
        &&& self.aggregate.len() == PUBLIC_KEY_LEN
        &&& forall|k: int| 0 <= k < self.shares.len() ==> (#[trigger] self.shares[k]).len() == PUBLIC_KEY_LEN
    }

    /// Whether every share of the list names a node of the set.
    pub open spec fn known(self, shares: Seq<Share>) -> bool {
        forall|i: int| 0 <= i < shares.len() ==> 1 <= (#[trigger] shares[i]).node <= self.nodes()
    }

    /// Whether `share` is a share of one of the set's nodes that verifies on
    /// `message` under that node's public key share.
    pub open spec fn share_ok(self, share: Share, message: Seq<u8>) -> bool {
        1 <= share.node <= self.nodes() && share_valid(
            self.shares[share.node - 1],
            share.signature,
            message,
        )
    }

    /// Whether `signature` verifies on `message` under the set's public key.
    pub open spec fn signature_ok(self, signature: Seq<u8>, message: Seq<u8>) -> bool {
        signature_valid(self.aggregate, signature, message)
    }

    /// What combining `shares` on `message` gives: a signature that verifies
    /// under the public key, or the first reason that stands in its way.
    pub open spec fn combination(self, shares: Seq<Share>, message: Seq<u8>) -> Result<
        Seq<u8>,
        CombineError,
    > {
        if shares.len() <= self.threshold {
            Err(CombineError::NotEnoughShares)
        } else if !self.known(shares) {
            Err(CombineError::UnknownNode)
        } else if !distinct_nodes(shares) {
            Err(CombineError::DuplicateNode)
        } else {
            let candidate = interpolated(self.threshold, indices_of(shares), signatures_of(shares));
            judged(
                candidate,
                candidate matches Some(signature) && self.signature_ok(signature, message),
            )
        }
    }
}

/// A copy of `bytes`.
pub fn copy_bytes(bytes: &Vec<u8>) -> (r: Vec<u8>)
    ensures
        r@ == bytes@,
{
    let mut out: Vec<u8> = Vec::new();
    let mut i: usize = 0;
    while i < bytes.len()
        invariant
            i <= bytes.len(),
            out@ == bytes@.take(i as int),
        decreases bytes.len() - i,
    {
        out.push(bytes[i]);
        assert(bytes@.take(i + 1) == bytes@.take(i as int).push(bytes@[i as int]));
        i = i + 1;
    }
    assert(bytes@.take(bytes@.len() as int) == bytes@);
    out
}

impl SecretKeyShare {
    /// The node that owns the share, counted from 1.
    pub closed spec fn node(self) -> nat {
        self.node as nat
    }

    /// The secret, as the JSON text of its field element.
    pub closed spec fn secret(self) -> Seq<u8> {
        self.secret@
    }

    /// The key share of node `node` from its stored form.
    pub fn from_parts(node: usize, secret: Vec<u8>) -> (r: SecretKeyShare)
        ensures
            r.node() == node,
            r.secret() == secret@,
    {
        SecretKeyShare { node, secret }
    }

    /// The node that owns the share, counted from 1.
    pub fn index(&self) -> (r: usize)
        ensures
            r == self.node(),
    {
        self.node
    }

    /// The secret in the form in which it is stored at rest.
    pub fn to_stored(&self) -> (r: Vec<u8>)
        ensures
            r@ == self.secret(),
    {
        copy_bytes(&self.secret)
    }

    /// Signs `message` with this share: the signature share that the scheme
    /// gives, or `None` where the secret encodes no key share.
    pub fn sign(&self, message: &[u8]) -> (r: Option<PartialSignature>)
        ensures
            r.is_some() == share_signature(self.secret(), message@).is_some(),
            r matches Some(p) ==> p.node == self.node() && p.signature@ == share_signature(
                self.secret(),
                message@,
            ).unwrap() && p.signature@.len() == SIGNATURE_LEN,
    {
        match sign_share(self.secret.as_slice(), message) {
            Some(signature) => Some(PartialSignature { node: self.node, signature }),
            None => None,
        }
    }
}

impl CombinedSignature {
    /// The bytes of the signature.
    pub closed spec fn bytes(self) -> Seq<u8> {
        self.bytes@
    }

    /// The bytes of the signature.
    pub fn to_bytes(&self) -> (r: Vec<u8>)
        ensures
            r@ == self.bytes(),
    {
        copy_bytes(&self.bytes)
    }

    /// A copy of the signature.
    pub fn copy(&self) -> (r: CombinedSignature)
        ensures
            r.bytes() == self.bytes(),
    {
        CombinedSignature { bytes: copy_bytes(&self.bytes) }
    }
}

/// What is made of an interpolated signature and of its verification: the
/// signature is surfaced only where there is one and it verified.
pub fn judge(candidate: Option<Vec<u8>>, verifies: bool) -> (r: Result<Vec<u8>, CombineError>)
    ensures
        bytes_result(r) == judged(bytes_of(candidate), verifies),
{
    match candidate {
        None => Err(CombineError::Refused),
        Some(signature) => if verifies {
            Ok(signature)
        } else {
            Err(CombineError::Mismatch)
        },
    }
}

/// The bytes of a result that holds a byte string.
pub open spec fn bytes_result(r: Result<Vec<u8>, CombineError>) -> Result<Seq<u8>, CombineError> {
    match r {
        Ok(bytes) => Ok(bytes@),
        Err(e) => Err(e),
    }
}

/// The bytes of a result that holds a signature.
pub open spec fn signature_result(r: Result<CombinedSignature, CombineError>) -> Result<
    Seq<u8>,
    CombineError,
> {
    match r {
        Ok(signature) => Ok(signature.bytes()),
        Err(e) => Err(e),
    }
}

impl ThresholdKeySet {
    /// Every key set that exists is well formed.
    #[verifier::type_invariant]
    pub open spec fn inv(&self) -> bool {
        self@.wf()
    }

    /// The key set of the given parts, where they are well formed: the
    /// threshold below the number of shares, every key 48 bytes long.
    pub fn new(threshold: usize, aggregate: Vec<u8>, shares: Vec<Vec<u8>>) -> (r: Result<
        ThresholdKeySet,
        KeyError,
    >)
        ensures
            r.is_ok() == (KeySet { threshold: threshold as nat, aggregate: aggregate@, shares: rows(shares@) }).wf(),
            r matches Ok(keys) ==> keys@ == (KeySet {
                threshold: threshold as nat,
                aggregate: aggregate@,
                shares: rows(shares@),
            }),
            r matches Err(e) ==> e == KeyError::InvalidParameters,
    {
        if threshold >= shares.len() || aggregate.len() != PUBLIC_KEY_LEN {
            return Err(KeyError::InvalidParameters);
        }
        let mut k: usize = 0;
        while k < shares.len()
            invariant
                k <= shares.len(),
                forall|j: int| 0 <= j < k ==> (#[trigger] shares@[j])@.len() == PUBLIC_KEY_LEN,
            decreases shares.len() - k,
        {
            if shares[k].len() != PUBLIC_KEY_LEN {
                assert(rows(shares@)[k as int].len() != PUBLIC_KEY_LEN);
                return Err(KeyError::InvalidParameters);
            }
            k = k + 1;
        }
        assert forall|j: int| 0 <= j < shares@.len() implies (#[trigger] rows(shares@)[j]).len()
            == PUBLIC_KEY_LEN by {
            assert(shares@[j]@.len() == PUBLIC_KEY_LEN);
        }
        Ok(ThresholdKeySet { threshold, aggregate, shares })
    }

    /// A copy of the key set, as every node of the cluster holds one.
    pub fn copy(&self) -> (r: ThresholdKeySet)
        ensures
            r@ == self@,
    {
        proof {
            use_type_invariant(self);
        }
        let mut shares: Vec<Vec<u8>> = Vec::new();
        let mut k: usize = 0;
        while k < self.shares.len()
            invariant
                k <= self.shares.len(),
                shares@.len() == k,
                forall|j: int| 0 <= j < k ==> (#[trigger] shares@[j])@ == self.shares@[j]@,
            decreases self.shares.len() - k,
        {
            shares.push(copy_bytes(&self.shares[k]));
            k = k + 1;
        }
        assert(rows(shares@) == rows(self.shares@));
        ThresholdKeySet { threshold: self.threshold, aggregate: copy_bytes(&self.aggregate), shares }
    }

    /// The degree of the secret polynomial: one less than the quorum.
    pub fn threshold(&self) -> (r: usize)
        ensures
            r == self@.threshold,
            self@.wf(),
    {
        proof {
            use_type_invariant(self);
        }
        self.threshold
    }

    /// The number of nodes.
    pub fn nodes(&self) -> (r: usize)
        ensures
            r == self@.nodes(),
            self@.wf(),
    {
        proof {
            use_type_invariant(self);
        }
        self.shares.len()
    }

    /// The number of shares that a signature needs.
    pub fn quorum(&self) -> (r: usize)
        ensures
            r == self@.quorum(),
            self@.wf(),
    {
        proof {
            use_type_invariant(self);
        }
        let nodes = self.shares.len();
        assert(self.threshold < nodes);
        self.threshold + 1
    }

    /// The public key of the cluster.
    pub fn public_key(&self) -> (r: Vec<u8>)
        ensures
            r@ == self@.aggregate,
    {
        copy_bytes(&self.aggregate)
    }

    /// The public key share of node `node`, counted from 1; `None` for a node
    /// that the set does not have.
    pub fn public_key_share(&self, node: usize) -> (r: Option<Vec<u8>>)
        ensures
            r.is_some() == (1 <= node <= self@.nodes()),
            r matches Some(key) ==> key@ == self@.shares[node - 1],
    {
        if 1 <= node && node <= self.shares.len() {
            Some(copy_bytes(&self.shares[node - 1]))
        } else {
            None
        }
    }

    /// Whether `share` is a share of one of the set's nodes that verifies on
    /// `message` under that node's public key share.
    pub fn verify_share(&self, share: &PartialSignature, message: &[u8]) -> (r: bool)
        ensures
            r == self@.share_ok(share@, message@),
    {
        if 1 <= share.node && share.node <= self.shares.len() {
            verify_share(self.shares[share.node - 1].as_slice(), share.signature.as_slice(), message)
        } else {
            false
        }
    }

    /// Whether `signature` verifies on `message` under the set's public key.
    pub fn verify(&self, signature: &[u8], message: &[u8]) -> (r: bool)
        ensures
            r == self@.signature_ok(signature@, message@),
    {
        verify_signature(self.aggregate.as_slice(), signature, message)
    }

    /// Whether every share of the list names a node of the set.
    fn all_known(&self, shares: &Vec<PartialSignature>) -> (r: bool)
        ensures
            r == self@.known(share_views(shares@)),
    {
        let mut i: usize = 0;
        while i < shares.len()
            invariant
                i <= shares.len(),
                forall|j: int| 0 <= j < i ==> 1 <= (#[trigger] share_views(shares@)[j]).node <= self@.nodes(),
            decreases shares.len() - i,
        {
            if shares[i].node < 1 || shares[i].node > self.shares.len() {
                assert(!(1 <= share_views(shares@)[i as int].node <= self@.nodes()));
                return false;
            }
            i = i + 1;
        }
        true
    }

    /// Interpolates `shares` into one signature and verifies it on `message`
    /// under the public key. The shares themselves are not verified here:
    /// only a signature that verifies is handed out.
    pub fn combine(&self, shares: &Vec<PartialSignature>, message: &[u8]) -> (r: Result<
        CombinedSignature,
        CombineError,
    >)
        ensures
            signature_result(r) == self@.combination(share_views(shares@), message@),
            r matches Ok(signature) ==> signature.bytes().len() == SIGNATURE_LEN,
    {
        if shares.len() <= self.threshold {
            return Err(CombineError::NotEnoughShares);
        }
        if !self.all_known(shares) {
            return Err(CombineError::UnknownNode);
        }
        if !all_distinct(shares) {
            return Err(CombineError::DuplicateNode);
        }
        let ghost views = share_views(shares@);
        let mut indices: Vec<u64> = Vec::new();
        let mut signatures: Vec<Vec<u8>> = Vec::new();
        let mut i: usize = 0;
        while i < shares.len()
            invariant
                i <= shares.len(),
                views == share_views(shares@),
                self@.known(views),
                indices@ == indices_of(views).take(i as int),
                signatures@.len() == i,
                forall|j: int| 0 <= j < i ==> (#[trigger] signatures@[j])@ == views[j].signature,
            decreases shares.len() - i,
        {
            assert(1 <= views[i as int].node <= self@.nodes());
            indices.push((shares[i].node - 1) as u64);
            signatures.push(copy_bytes(&shares[i].signature));
            assert(indices@ == indices_of(views).take(i + 1));
            i = i + 1;
        }
        assert(indices_of(views).take(shares@.len() as int) == indices_of(views));
        assert(rows(signatures@) == signatures_of(views));
        let candidate = interpolate(self.threshold, &indices, &signatures);
        let verifies = match &candidate {
            Some(signature) => self.verify(signature.as_slice(), message),
            None => false,
        };
        match judge(candidate, verifies) {
            Ok(bytes) => Ok(CombinedSignature { bytes }),
            Err(e) => Err(e),
        }
    }
}

/// Whether no two shares of the list name the same node.
fn all_distinct(shares: &Vec<PartialSignature>) -> (r: bool)
    ensures
        r == distinct_nodes(share_views(shares@)),
{
    let ghost views = share_views(shares@);
    let mut j: usize = 0;
    while j < shares.len()
        invariant
            j <= shares.len(),
            views == share_views(shares@),
            forall|a: int, b: int| 0 <= a < b < j ==> views[a].node != views[b].node,
        decreases shares.len() - j,
    {
        let mut i: usize = 0;
        while i < j
            invariant
                i <= j < shares.len(),
                views == share_views(shares@),
                forall|a: int| 0 <= a < i ==> views[a].node != views[j as int].node,
            decreases j - i,
        {
            if shares[i].node == shares[j].node {
                assert(views[i as int].node == views[j as int].node);
                return false;
            }
            i = i + 1;
        }
        j = j + 1;
    }
    true
}

/// Generates the key set of threshold `t` for `n` nodes and the secret key
/// share of each node: a random secret polynomial of degree `t` is drawn, node
/// `k` gets its value at `k`, and the public keys are derived from it: the
/// public key share of a node is the one that belongs to its secret. Any
/// `t + 1` of the nodes can sign together.
pub fn generate(n: usize, t: usize) -> (r: Result<(ThresholdKeySet, Vec<SecretKeyShare>), KeyError>)
    ensures
        r.is_ok() == (n != 0 && t < n),
        r matches Err(e) ==> e == KeyError::InvalidParameters,
        r matches Ok((keys, secrets)) ==> {
            &&& keys@.wf()
            &&& keys@.threshold == t
            &&& keys@.nodes() == n
            &&& secrets@.len() == n
            &&& forall|k: int| 0 <= k < n ==> (#[trigger] secrets@[k]).node() == k + 1
            &&& forall|k: int|
                0 <= k < n ==> public_share_of((#[trigger] secrets@[k]).secret()) == Some(
                    keys@.shares[k],
                )
        },
{
    if n == 0 || t >= n {
        return Err(KeyError::InvalidParameters);
    }
    let set = random_key_set(t);
    let aggregate = aggregate_key(&set);
    let mut shares: Vec<Vec<u8>> = Vec::new();
    let mut secrets: Vec<SecretKeyShare> = Vec::new();
    let mut k: usize = 0;
    while k < n
        invariant
            k <= n,
            shares@.len() == k,
            secrets@.len() == k,
            forall|j: int| 0 <= j < k ==> (#[trigger] shares@[j])@.len() == PUBLIC_KEY_LEN,
            forall|j: int| 0 <= j < k ==> (#[trigger] secrets@[j]).node() == j + 1,
            forall|j: int|
                0 <= j < k ==> public_share_of((#[trigger] secrets@[j]).secret()) == Some(
                    shares@[j]@,
                ),
        decreases n - k,
    {
        let (secret, key) = key_share(&set, k);
        shares.push(key);
        secrets.push(SecretKeyShare { node: k + 1, secret });
        k = k + 1;
    }
    assert forall|j: int| 0 <= j < shares@.len() implies (#[trigger] rows(shares@)[j]).len()
        == PUBLIC_KEY_LEN by {
        assert(shares@[j]@.len() == PUBLIC_KEY_LEN);
    }
    let keys = ThresholdKeySet { threshold: t, aggregate, shares };
    Ok((keys, secrets))
}

} // verus!
