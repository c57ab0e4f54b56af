//! What holds of every request, whatever happens outside: proved of the
//! leader's transitions, of the cache and of the combination of shares.

use vstd::prelude::*;
use crate::cache::{law_recorded_is_found, Retained};
use crate::keys::{indices_of, signatures_of, CombineError, KeySet, Share};
use crate::crypto::interpolated;
use crate::leader::{admission, settled, Admission, Occurrence, Phase, Reply, SessionState};
use crate::relay::authorization_of;
use crate::request::{be64, binding_payload, framed, Binding, Signing};
use vstd::utf8::{encode_utf8, encode_utf8_decode_utf8};
use crate::signer::{law_unauthorized_everywhere, signing_outcome, SignError};
use crate::outcome::{Failure, Verdict};
use crate::quorum::{
    gathered, lemma_gathered_nodes, lemma_gathered_pending, lemma_gathered_update, recorded, SlotView,
};
use crate::request::{authorizes, Answer, Request};

verus! {

/// No more shares than the threshold never combine: the combination fails
/// before anything is interpolated.
pub proof fn law_too_few_shares(keys: KeySet, shares: Seq<Share>, message: Seq<u8>)
    requires
        shares.len() <= keys.threshold,
    ensures
        keys.combination(shares, message) == Err::<Seq<u8>, CombineError>(
            CombineError::NotEnoughShares,
        ),
{
}

/// A combination that succeeds was made of more shares than the threshold,
/// of distinct nodes of the cluster, and its signature verifies on the
/// message under the cluster's public key, whichever shares they were.
pub proof fn law_combination_verifies(keys: KeySet, shares: Seq<Share>, message: Seq<u8>)
    ensures
        keys.combination(shares, message) matches Ok(signature) ==> {
            &&& shares.len() > keys.threshold
            &&& keys.known(shares)
            &&& crate::keys::distinct_nodes(shares)
            &&& keys.signature_ok(signature, message)
        },
{
}

/// A slot that holds a verified share is among the gathered shares.
pub proof fn lemma_verified_is_gathered(slots: Seq<SlotView>, k: int)
    requires
        0 <= k < slots.len(),
        slots[k] is Verified,
    ensures
        gathered(slots).len() > 0,
    decreases slots.len(),
{
    if k < slots.len() - 1 {
        lemma_verified_is_gathered(slots.drop_last(), k);
    }
}

/// A request that just came in is in a state as every request's is.
pub proof fn law_opened_is_shaped(keys: KeySet, request_id: u64, request: Request)
    ensures
        SessionState::opened(request_id, request, keys.nodes()).shaped(keys),
        SessionState::opened(request_id, request, keys.nodes()).sound(keys),
{
    lemma_gathered_pending(keys.nodes());
}

/// Admitting a request keeps its state as every request's is.
pub proof fn law_admitted_is_shaped(keys: KeySet, state: SessionState)
    requires
        state.shaped(keys),
        state.sound(keys),
        state.phase == Phase::Received,
    ensures
        state.admitted().shaped(keys),
        state.admitted().sound(keys),
{
    assert forall|k: int| 0 <= k < state.slots.len() implies !(#[trigger] state.slots[k] is Verified) by {
        if state.slots[k] is Verified {
            lemma_verified_is_gathered(state.slots, k);
        }
    }
}

/// A reply adds at most one verified share, and only a reply that carries a
/// share adds one.
pub proof fn lemma_collected_count(keys: KeySet, state: SessionState, node: nat, reply: Reply)
    ensures
        state.collected(keys, node, reply).slots.len() == state.slots.len(),
        state.collected(keys, node, reply).verified() <= state.verified() + 1,
        !(reply is Share) ==> state.collected(keys, node, reply).verified() == state.verified(),
{
    let slot = state.slot_for(keys, node, reply);
    if 1 <= node <= state.slots.len() && state.slots[node - 1] is Pending {
        lemma_gathered_update(state.slots, node - 1, slot);
    }
}

/// Every event keeps the state of a request as every request's is.
pub proof fn law_next_keeps_shape(keys: KeySet, state: SessionState, event: Occurrence)
    requires
        state.shaped(keys),
    ensures
        state.next(keys, event).shaped(keys),
{
    match (state.phase, event) {
        (Phase::CollectingShares, Occurrence::Reply { node, reply }) => {
            lemma_collected_count(keys, state, node, reply);
        },
        _ => {},
    }
}

/// Every event keeps the signatures of a request as they have to be: no share
/// stands verified that does not verify, and no request completes with a
/// signature that does not verify under the cluster's public key.
pub proof fn law_next_keeps_soundness(keys: KeySet, state: SessionState, event: Occurrence)
    requires
        state.shaped(keys),
        state.sound(keys),
    ensures
        state.next(keys, event).sound(keys),
{
    let after = state.next(keys, event);
    match (state.phase, event) {
        (Phase::Authorizing, Occurrence::Identity(answer)) => {
            assert forall|k: int| 0 <= k < state.slots.len() implies !(
            #[trigger] state.slots[k] is Verified) by {
                if state.slots[k] is Verified {
                    lemma_verified_is_gathered(state.slots, k);
                }
            }
        },
        (Phase::CollectingShares, Occurrence::Reply { node, reply }) => {
            let mid = state.collected(keys, node, reply);
            assert(mid.payload() == state.payload());
            assert(after.payload() == state.payload());
            assert(after.slots == mid.slots);
            assert forall|k: int| 0 <= k < mid.slots.len() implies ((
            #[trigger] mid.slots[k]) matches SlotView::Verified(signature) ==> keys.share_ok(
                Share { node: (k + 1) as nat, signature },
                state.payload(),
            )) by {
                if 1 <= node <= state.slots.len() && state.slots[node - 1] is Pending && k == node
                    - 1 {
                } else {
                    assert(mid.slots[k] == state.slots[k]);
                }
            }
        },
        _ => {},
    }
}

/// Whatever happens, the state of a request stays as every request's is, and
/// so do its signatures: if the request completes, then with a signature that
/// verifies on its payload under the cluster's public key, whichever nodes'
/// shares were collected and in whichever order they came.
pub proof fn law_run_keeps_invariants(keys: KeySet, state: SessionState, events: Seq<Occurrence>)
    requires
        state.shaped(keys),
        state.sound(keys),
    ensures
        state.run(keys, events).shaped(keys),
        state.run(keys, events).sound(keys),
        state.run(keys, events).phase == Phase::Completed ==> (state.run(
            keys,
            events,
        ).outcome matches Some(Verdict::Completed(signature)) && keys.signature_ok(
            signature,
            state.run(keys, events).payload(),
        )),
    decreases events.len(),
{
    if events.len() > 0 {
        law_run_keeps_invariants(keys, state, events.drop_last());
        let before = state.run(keys, events.drop_last());
        law_next_keeps_shape(keys, before, events.last());
        law_next_keeps_soundness(keys, before, events.last());
    }
}

/// A request that has ended stays as it is, whatever comes after.
pub proof fn law_terminal_absorbs(keys: KeySet, state: SessionState, events: Seq<Occurrence>)
    requires
        state.terminal(),
    ensures
        state.run(keys, events) == state,
    decreases events.len(),
{
    if events.len() > 0 {
        law_terminal_absorbs(keys, state, events.drop_last());
    }
}

/// The number of replies among `events` that carry a share.
pub open spec fn share_replies(events: Seq<Occurrence>) -> nat
    decreases events.len(),
{
    if events.len() == 0 {
        0
    } else {
        share_replies(events.drop_last()) + (if events.last() matches Occurrence::Reply {
            reply: Reply::Share(_),
            ..
        } {
            1nat
        } else {
            0nat
        })
    }
}

/// A request gains no more verified shares than replies with a share came.
pub proof fn lemma_run_count(keys: KeySet, state: SessionState, events: Seq<Occurrence>)
    requires
        state.shaped(keys),
    ensures
        state.run(keys, events).shaped(keys),
        state.run(keys, events).verified() <= state.verified() + share_replies(events),
    decreases events.len(),
{
    if events.len() > 0 {
        lemma_run_count(keys, state, events.drop_last());
        let before = state.run(keys, events.drop_last());
        law_next_keeps_shape(keys, before, events.last());
        match (before.phase, events.last()) {
            (Phase::CollectingShares, Occurrence::Reply { node, reply }) => {
                lemma_collected_count(keys, before, node, reply);
            },
            _ => {},
        }
    }
}

/// Without a quorum there is no signature: while fewer nodes answer with a
/// share than the quorum still lacks, the request does not complete,
/// whatever else happens.
pub proof fn law_no_quorum_no_completion(keys: KeySet, state: SessionState, events: Seq<Occurrence>)
    requires
        state.shaped(keys),
        state.verified() + share_replies(events) < keys.quorum(),
    ensures
        state.run(keys, events).phase != Phase::Completed,
        state.run(keys, events).phase != Phase::Combining,
{
    lemma_run_count(keys, state, events);
}

/// Whether the request still waits for shares or has timed out.
pub open spec fn waiting_or_timed_out(state: SessionState) -> bool {
    ||| state.phase == Phase::Dispatching
    ||| state.phase == Phase::CollectingShares
    ||| (state.phase == Phase::Failed && state.outcome == Some(
        Verdict::Failed(Failure::QuorumTimeout),
    ))
}

/// A dispatched request that lacks a quorum does nothing but wait or time
/// out.
pub proof fn lemma_waits_without_quorum(keys: KeySet, state: SessionState, events: Seq<Occurrence>)
    requires
        state.shaped(keys),
        state.phase == Phase::Dispatching || state.phase == Phase::CollectingShares,
        state.verified() + share_replies(events) < keys.quorum(),
    ensures
        waiting_or_timed_out(state.run(keys, events)),
    decreases events.len(),
{
    if events.len() > 0 {
        lemma_waits_without_quorum(keys, state, events.drop_last());
        lemma_run_count(keys, state, events.drop_last());
        lemma_run_count(keys, state, events);
        let before = state.run(keys, events.drop_last());
        match (before.phase, events.last()) {
            (Phase::CollectingShares, Occurrence::Reply { node, reply }) => {
                lemma_collected_count(keys, before, node, reply);
            },
            _ => {},
        }
    }
}

/// With too few nodes in reach the request times out: a dispatched request
/// to which fewer nodes answer with a share than the quorum still lacks has
/// failed as `QuorumTimeout` once the deadline elapsed, and has no signature.
pub proof fn law_deadline_without_quorum(keys: KeySet, state: SessionState, events: Seq<Occurrence>)
    requires
        state.shaped(keys),
        state.phase == Phase::Dispatching || state.phase == Phase::CollectingShares,
        state.verified() + share_replies(events) < keys.quorum(),
    ensures
        state.run(keys, events.push(Occurrence::Deadline)).phase == Phase::Failed,
        state.run(keys, events.push(Occurrence::Deadline)).outcome == Some(
            Verdict::Failed(Failure::QuorumTimeout),
        ),
{
    lemma_waits_without_quorum(keys, state, events);
    let all = events.push(Occurrence::Deadline);
    assert(all.drop_last() == events);
    assert(all.last() == Occurrence::Deadline);
}

/// An identity that does not authorize a request ends it: the leader fails
/// the request as `Unauthorized` on the verifier's answer, and nothing that
/// comes after completes it.
pub proof fn law_unauthorized_never_completes(
    keys: KeySet,
    state: SessionState,
    answer: Answer,
    events: Seq<Occurrence>,
)
    requires
        state.phase == Phase::Authorizing,
        !authorizes(answer, state.request.signing(state.request_id, crate::leader::subject_of(answer)).binding),
    ensures
        state.next(keys, Occurrence::Identity(answer)).run(keys, events).phase == Phase::Failed,
        state.next(keys, Occurrence::Identity(answer)).run(keys, events).outcome == Some(
            Verdict::Failed(Failure::Unauthorized),
        ),
{
    law_terminal_absorbs(keys, state.next(keys, Occurrence::Identity(answer)), events);
}

/// For a request made on an identity, an assertion that is not good
/// authorizes nothing.
pub proof fn law_invalid_identity_unauthorized(request: Request, request_id: u64)
    requires
        request.gated(),
    ensures
        !authorizes(Answer::Invalid, request.signing(request_id, Seq::empty()).binding),
{
}

/// A request that ended is answered from the cache when it comes again: once
/// settled with a leader that retains anything, a request of good shape
/// under the same id gets the outcome remembered for the id (the one just
/// settled, unless the id had one before), and no session: no node is asked.
pub proof fn law_resubmission_is_served(
    cache: Retained,
    ended: SessionState,
    verdict: Verdict,
    again: Request,
    nodes: nat,
)
    requires
        cache.capacity > 0,
        ended.terminal(),
        ended.outcome == Some(verdict),
        again.well_shaped(),
    ensures
        admission(settled(cache, ended), SessionState::opened(ended.request_id, again, nodes))
            == Admission::Duplicate(
            match cache.lookup(ended.request_id) {
                Some(before) => before,
                None => verdict,
            },
        ),
{
    law_recorded_is_found(cache, ended.request_id, verdict);
}

/// The order of two nodes' replies does not matter: where neither reply
/// brings the quorum about, both orders leave the request in the same state.
pub proof fn law_reply_order(
    keys: KeySet,
    state: SessionState,
    first: nat,
    first_reply: Reply,
    second: nat,
    second_reply: Reply,
)
    requires
        state.phase == Phase::CollectingShares,
        first != second,
        state.collected(keys, first, first_reply).phase == Phase::CollectingShares,
        state.collected(keys, second, second_reply).phase == Phase::CollectingShares,
    ensures
        state.collected(keys, first, first_reply).collected(keys, second, second_reply)
            == state.collected(keys, second, second_reply).collected(keys, first, first_reply),
{
    let one = state.collected(keys, first, first_reply);
    let other = state.collected(keys, second, second_reply);
    assert(one.payload() == state.payload() && other.payload() == state.payload());
    assert(one.collected(keys, second, second_reply).slots =~= other.collected(
        keys,
        first,
        first_reply,
    ).slots);
}

/// The share that brings the quorum about ends the request at once, and not
/// with a timeout: the verified shares are interpolated, and the request is
/// completed with the signature if there is one and it verifies under the
/// cluster's public key; anything else is a protocol fault.
pub proof fn law_quorum_concludes(keys: KeySet, state: SessionState, node: nat, signature: Seq<u8>)
    requires
        state.shaped(keys),
        state.phase == Phase::CollectingShares,
        1 <= node <= keys.nodes(),
        state.slots[node - 1] is Pending,
        keys.share_ok(Share { node, signature }, state.payload()),
        state.verified() + 1 == keys.quorum(),
    ensures
        ({
            let event = Occurrence::Reply { node, reply: Reply::Share(signature) };
            let shares = gathered(recorded(state.slots, node, SlotView::Verified(signature)));
            let after = state.next(keys, event);
            &&& shares.len() == keys.quorum()
            &&& after.terminal()
            &&& after.outcome == Some(
                match interpolated(keys.threshold, indices_of(shares), signatures_of(shares)) {
                    Some(combined) => if keys.signature_ok(combined, state.payload()) {
                        Verdict::Completed(combined)
                    } else {
                        Verdict::Failed(Failure::ProtocolFault)
                    },
                    None => Verdict::Failed(Failure::ProtocolFault),
                },
            )
        }),
{
    let slots = recorded(state.slots, node, SlotView::Verified(signature));
    lemma_gathered_update(state.slots, node - 1, SlotView::Verified(signature));
    lemma_gathered_nodes(slots);
    let shares = gathered(slots);
    assert(keys.known(shares));
    let mid = state.collected(keys, node, Reply::Share(signature));
    assert(mid.slots == slots);
    assert(mid.payload() == state.payload());
}

/// What the leader hears from an honest node: the node's share, its refusal,
/// or nothing of use.
pub open spec fn honest_reply(node: nat, secret: Seq<u8>, request: Signing, answer: Answer) -> Reply {
    match signing_outcome(node, secret, request, answer) {
        Ok(share) => Reply::Share(share.signature),
        Err(SignError::Unauthorized) => Reply::Unauthorized,
        Err(SignError::KeyUnusable) => Reply::Unavailable,
    }
}

/// Whether every reply among `events` is what an honest node gives to
/// `request`, the identity verifier saying `answer` to each of them.
pub open spec fn from_honest_nodes(events: Seq<Occurrence>, request: Signing, answer: Answer) -> bool {
    forall|i: int|
        0 <= i < events.len() ==> ((#[trigger] events[i]) matches Occurrence::Reply { node, reply }
            ==> exists|secret: Seq<u8>| reply == honest_reply(node, secret, request, answer))
}

/// Honest nodes give no share to a request that the identity does not
/// authorize.
pub proof fn lemma_honest_nodes_refuse(events: Seq<Occurrence>, request: Signing, answer: Answer)
    requires
        !authorizes(answer, request.binding),
        from_honest_nodes(events, request, answer),
    ensures
        share_replies(events) == 0,
    decreases events.len(),
{
    if events.len() > 0 {
        assert forall|i: int| 0 <= i < events.drop_last().len() implies ((
        #[trigger] events.drop_last()[i]) matches Occurrence::Reply { node, reply }
            ==> exists|secret: Seq<u8>| reply == honest_reply(node, secret, request, answer)) by {
            assert(events.drop_last()[i] == events[i]);
        }
        lemma_honest_nodes_refuse(events.drop_last(), request, answer);
        law_unauthorized_everywhere(request, answer);
        let last = events[events.len() - 1];
        assert(last == events.last());
        if let Occurrence::Reply { node, reply } = last {
            let secret = choose|secret: Seq<u8>| reply == honest_reply(node, secret, request, answer);
            assert(signing_outcome(node, secret, request, answer) is Err);
        }
    }
}

/// A request that the identity does not authorize is never completed by
/// honest nodes, whatever the leader was made to believe: each of them
/// refuses, so that no quorum comes about.
pub proof fn law_unauthorized_gets_no_quorum(
    keys: KeySet,
    state: SessionState,
    answer: Answer,
    events: Seq<Occurrence>,
)
    requires
        state.shaped(keys),
        state.phase == Phase::Dispatching || state.phase == Phase::CollectingShares,
        state.signing matches Some(request) && !authorizes(answer, request.binding)
            && from_honest_nodes(events, request, answer),
    ensures
        state.run(keys, events).phase != Phase::Completed,
        state.run(keys, events.push(Occurrence::Deadline)).outcome == Some(
            Verdict::Failed(Failure::QuorumTimeout),
        ),
{
    lemma_honest_nodes_refuse(events, state.signing.unwrap(), answer);
    law_no_quorum_no_completion(keys, state, events);
    law_deadline_without_quorum(keys, state, events);
}

/// Nothing is handed to the relayer but what a quorum signed: a request gives
/// an authorization only once it is completed, for the account and the
/// public key that the request names, and with a signature that verifies
/// under the cluster's public key on the payload that stands for the binding.
pub proof fn law_authorization_is_signed(keys: KeySet, state: SessionState)
    requires
        state.shaped(keys),
        state.sound(keys),
    ensures
        authorization_of(state) matches Some(authorized) ==> {
            &&& state.phase == Phase::Completed
            &&& authorized.request_id == state.request_id
            &&& state.request.binding(authorized.binding.subject) == Some(authorized.binding)
            &&& keys.signature_ok(authorized.signature, binding_payload(authorized.binding))
        },
{
}

/// A number below 2^64 is the sum of its eight bytes, each at its place.
proof fn lemma_bytes_make_the_number(x: u64)
    ensures
        x == ((x / 0x100_0000_0000_0000) % 256) * 0x100_0000_0000_0000 + ((x / 0x1_0000_0000_0000)
            % 256) * 0x1_0000_0000_0000 + ((x / 0x100_0000_0000) % 256) * 0x100_0000_0000 + ((x
            / 0x1_0000_0000) % 256) * 0x1_0000_0000 + ((x / 0x100_0000) % 256) * 0x100_0000 + ((x
            / 0x1_0000) % 256) * 0x1_0000 + ((x / 0x100) % 256) * 0x100 + (x % 256),
{
    assert(x == ((x / 0x100_0000_0000_0000) % 256) * 0x100_0000_0000_0000 + ((x
        / 0x1_0000_0000_0000) % 256) * 0x1_0000_0000_0000 + ((x / 0x100_0000_0000) % 256)
        * 0x100_0000_0000 + ((x / 0x1_0000_0000) % 256) * 0x1_0000_0000 + ((x / 0x100_0000) % 256)
        * 0x100_0000 + ((x / 0x1_0000) % 256) * 0x1_0000 + ((x / 0x100) % 256) * 0x100 + (x % 256))
        by (bit_vector);
}

/// Eight bytes stand for one number below 2^64 only.
pub proof fn lemma_be64_injective(n: nat, m: nat)
    requires
        n <= u64::MAX,
        m <= u64::MAX,
        be64(n) == be64(m),
    ensures
        n == m,
{
    let a = be64(n);
    let b = be64(m);
    assert(a[0] == b[0] && a[1] == b[1] && a[2] == b[2] && a[3] == b[3] && a[4] == b[4] && a[5]
        == b[5] && a[6] == b[6] && a[7] == b[7]);
    lemma_bytes_make_the_number(n as u64);
    lemma_bytes_make_the_number(m as u64);
}

/// A framed text at the head of a byte string is read back in one way only:
/// two byte strings that are equal and begin with a framed text each begin
/// with the same text and go on with the same bytes.
pub proof fn lemma_framed_head(first: Seq<char>, rest: Seq<u8>, other: Seq<char>, other_rest: Seq<u8>)
    requires
        encode_utf8(first).len() <= u64::MAX,
        encode_utf8(other).len() <= u64::MAX,
        framed(first) + rest == framed(other) + other_rest,
    ensures
        first == other,
        rest == other_rest,
{
    let a = encode_utf8(first);
    let b = encode_utf8(other);
    let left = framed(first) + rest;
    let right = framed(other) + other_rest;
    assert(left.subrange(0, 8) == be64(a.len()));
    assert(right.subrange(0, 8) == be64(b.len()));
    lemma_be64_injective(a.len(), b.len());
    assert(left.subrange(8, 8 + a.len() as int) == a);
    assert(right.subrange(8, 8 + b.len() as int) == b);
    assert(left.subrange(8 + a.len() as int, left.len() as int) == rest);
    assert(right.subrange(8 + b.len() as int, right.len() as int) == other_rest);
    encode_utf8_decode_utf8(first);
    encode_utf8_decode_utf8(other);
}

/// Whether the texts of a binding are of a length that eight bytes can hold,
/// as every text in memory is.
pub open spec fn framable(binding: Binding) -> bool {
    &&& encode_utf8(binding.account_id).len() <= u64::MAX
    &&& encode_utf8(binding.subject).len() <= u64::MAX
    &&& encode_utf8(binding.public_key).len() <= u64::MAX
}

/// A payload stands for one binding only: a signature on it authorizes this
/// account, this subject and this public key, and no others.
pub proof fn law_payload_names_one_binding(one: Binding, other: Binding)
    requires
        framable(one),
        framable(other),
        binding_payload(one) == binding_payload(other),
    ensures
        one == other,
{
    let empty = Seq::<u8>::empty();
    assert(binding_payload(one) == framed(one.account_id) + (framed(one.subject) + (framed(
        one.public_key,
    ) + empty)));
    assert(binding_payload(other) == framed(other.account_id) + (framed(other.subject) + (framed(
        other.public_key,
    ) + empty)));
    lemma_framed_head(
        one.account_id,
        framed(one.subject) + (framed(one.public_key) + empty),
        other.account_id,
        framed(other.subject) + (framed(other.public_key) + empty),
    );
    lemma_framed_head(
        one.subject,
        framed(one.public_key) + empty,
        other.subject,
        framed(other.public_key) + empty,
    );
    lemma_framed_head(one.public_key, empty, other.public_key, empty);
}

} // verus!
