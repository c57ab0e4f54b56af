//! The pairing-based threshold scheme, as `threshold_crypto` provides it.
//!
//! Keys and signatures cross this boundary as bytes: a public key or key share
//! in its 48-byte compressed form, a signature or signature share in its
//! 96-byte compressed form, a secret key share as the JSON text of its field
//! element. What the scheme computes is named here, not described: each name
//! stands for the result of one function of `threshold_crypto` on the same
//! bytes.

use vstd::prelude::*;

verus! {

/// The length of a public key or public key share.
pub const PUBLIC_KEY_LEN: usize = 48;

/// The length of a signature or signature share.
pub const SIGNATURE_LEN: usize = 96;

/// The secret polynomial behind a key set, as `threshold_crypto` holds it.
#[verifier::external_type_specification]
#[verifier::external_body]
pub struct ExSecretKeySet(threshold_crypto::SecretKeySet);

/// The byte strings of a list, each as a sequence.
pub open spec fn rows(list: Seq<Vec<u8>>) -> Seq<Seq<u8>> {
    Seq::new(list.len(), |i: int| list[i]@)
}

/// The bytes of a byte string that may be absent.
pub open spec fn bytes_of(bytes: Option<Vec<u8>>) -> Option<Seq<u8>> {
    match bytes {
        Some(b) => Some(b@),
        None => None,
    }
}

/// The public key share that belongs to the secret key share `secret`; `None`
/// where `secret` does not encode a key share.
pub uninterp spec fn public_share_of(secret: Seq<u8>) -> Option<Seq<u8>>;

/// The signature share that the secret key share `secret` gives for `message`;
/// `None` where `secret` does not encode a key share.
pub uninterp spec fn share_signature(secret: Seq<u8>, message: Seq<u8>) -> Option<Seq<u8>>;

/// Whether `signature` is a signature share on `message` that verifies under
/// the public key share `public_share`.
pub uninterp spec fn share_valid(public_share: Seq<u8>, signature: Seq<u8>, message: Seq<u8>) -> bool;

/// Whether `signature` is a signature on `message` that verifies under the
/// public key `public_key`.
pub uninterp spec fn signature_valid(public_key: Seq<u8>, signature: Seq<u8>, message: Seq<u8>) -> bool;

/// The signature interpolated from the signature shares `shares`, the share at
/// position `i` belonging to key share number `indices[i]`, for a key set of
/// the given threshold; `None` where the scheme refuses the shares.
pub uninterp spec fn interpolated(threshold: nat, indices: Seq<u64>, shares: Seq<Seq<u8>>) -> Option<
    Seq<u8>,
>;

/// Draws a secret polynomial of degree `threshold` with
/// `SecretKeySet::random`, from the thread's random number generator. Nothing
/// is promised of the polynomial drawn. The degree `usize::MAX`, on which the
/// call panics, is left out.
#[verifier::external_body]
pub(crate) fn random_key_set(threshold: usize) -> (set: threshold_crypto::SecretKeySet)
    requires
        threshold < usize::MAX,
{
    threshold_crypto::SecretKeySet::random(threshold, &mut rand::thread_rng())
}

/// The public key of the set, from `PublicKeySet::public_key`, in the 48 bytes
/// of `PublicKey::to_bytes`.
#[verifier::external_body]
pub(crate) fn aggregate_key(set: &threshold_crypto::SecretKeySet) -> (key: Vec<u8>)
    ensures
        key@.len() == PUBLIC_KEY_LEN,
{
    set.public_keys().public_key().to_bytes().to_vec()
}

/// The key share number `index` of the set, from
/// `SecretKeySet::secret_key_share`: the secret as the JSON text that
/// `SerdeSecret` serialises it to, and its public key share, from
/// `SecretKeyShare::public_key_share`, in the 48 bytes of
/// `PublicKeyShare::to_bytes`. Nothing is promised of the secret drawn but
/// that the text reads back as the share with this public key share.
#[verifier::external_body]
pub(crate) fn key_share(set: &threshold_crypto::SecretKeySet, index: usize) -> (pair: (
    Vec<u8>,
    Vec<u8>,
))
    ensures
        public_share_of(pair.0@) == Some(pair.1@),
        pair.1@.len() == PUBLIC_KEY_LEN,
{
    let share = set.secret_key_share(index);
    let public = share.public_key_share().to_bytes().to_vec();
    let secret = threshold_crypto::serde_impl::SerdeSecret(share);
    (serde_json::to_vec(&secret).unwrap_or_default(), public)
}

/// Signs `message` with `SecretKeyShare::sign`, the key share read from its
/// JSON text. The contract names the result: the same key share and message
/// give the same signature share, in the 96 bytes of
/// `SignatureShare::to_bytes`.
#[verifier::external_body]
pub(crate) fn sign_share(secret: &[u8], message: &[u8]) -> (signature: Option<Vec<u8>>)
    ensures
        bytes_of(signature) == share_signature(secret@, message@),
        signature matches Some(bytes) ==> bytes@.len() == SIGNATURE_LEN,
{
    let key: threshold_crypto::SecretKeyShare = serde_json::from_slice(secret).ok()?;
    Some(key.sign(message).to_bytes().to_vec())
}

/// Verifies a signature share with `PublicKeyShare::verify`. Bytes of another
/// length than a key's or a signature's, or that `from_bytes` refuses, do not
/// verify.
#[verifier::external_body]
pub(crate) fn verify_share(public_share: &[u8], signature: &[u8], message: &[u8]) -> (valid: bool)
    ensures
        valid == share_valid(public_share@, signature@, message@),
{
    let key = match <[u8; 48]>::try_from(public_share) {
        Ok(bytes) => threshold_crypto::PublicKeyShare::from_bytes(bytes),
        Err(_) => return false,
    };
    let share = match <[u8; 96]>::try_from(signature) {
        Ok(bytes) => threshold_crypto::SignatureShare::from_bytes(bytes),
        Err(_) => return false,
    };
    match (key, share) {
        (Ok(key), Ok(share)) => key.verify(&share, message),
        _ => false,
    }
}

/// Verifies a signature with `PublicKey::verify`. Bytes of another length
/// than a key's or a signature's, or that `from_bytes` refuses, do not verify.
#[verifier::external_body]
pub(crate) fn verify_signature(public_key: &[u8], signature: &[u8], message: &[u8]) -> (valid: bool)
    ensures
        valid == signature_valid(public_key@, signature@, message@),
{
    let key = match <[u8; 48]>::try_from(public_key) {
        Ok(bytes) => threshold_crypto::PublicKey::from_bytes(bytes),
        Err(_) => return false,
    };
    let full = match <[u8; 96]>::try_from(signature) {
        Ok(bytes) => threshold_crypto::Signature::from_bytes(bytes),
        Err(_) => return false,
    };
    match (key, full) {
        (Ok(key), Ok(full)) => key.verify(&full, message),
        _ => false,
    }
}

/// Interpolates signature shares with `PublicKeySet::combine_signatures`.
/// That function reads of its key set only the degree, so it is called on
/// the commitment of a monomial of degree `threshold`. Shares that
/// `from_bytes` refuses, and shares that the call refuses, give `None`; a
/// signature comes in the 96 bytes of `Signature::to_bytes`. The threshold
/// `usize::MAX`, on which the call overflows, is left out.
#[verifier::external_body]
pub(crate) fn interpolate(threshold: usize, indices: &Vec<u64>, shares: &Vec<Vec<u8>>) -> (signature:
    Option<Vec<u8>>)
    requires
        threshold < usize::MAX,
    ensures
        bytes_of(signature) == interpolated(threshold as nat, indices@, rows(shares@)),
        signature matches Some(bytes) ==> bytes@.len() == SIGNATURE_LEN,
{
    let mut parsed = Vec::new();
    for share in shares {
        let bytes = <[u8; 96]>::try_from(share.as_slice()).ok()?;
        parsed.push(threshold_crypto::SignatureShare::from_bytes(bytes).ok()?);
    }
    let degree = threshold_crypto::poly::Poly::monomial(threshold).commitment();
    let keys = threshold_crypto::PublicKeySet::from(degree);
    let combined = keys.combine_signatures(indices.iter().zip(parsed.iter())).ok()?;
    Some(combined.to_bytes().to_vec())
}

} // verus!
