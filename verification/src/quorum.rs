//! The shares collected for one request: for every node whether its share
//! is still awaited, was verified, or was discarded, and how many were
//! verified.

use vstd::prelude::*;
use crate::keys::{copy_bytes, distinct_nodes, share_views, PartialSignature, Share};

verus! {

/// What is known of one node's share.
#[derive(Debug)]
pub enum Slot {
    /// Nothing came from the node yet.
    Pending,
    /// The node's share came and verified under its public key share.
    Verified(Vec<u8>),
    /// The node failed, refused, or sent a share that did not verify. It is
    /// not asked again for this request.
    Discarded,
}

/// A slot as a value.
pub enum SlotView {
    Pending,
    Verified(Seq<u8>),
    Discarded,
}

impl View for Slot {
    type V = SlotView;

    open spec fn view(&self) -> SlotView {
        match self {
            Slot::Pending => SlotView::Pending,
            Slot::Verified(signature) => SlotView::Verified(signature@),
            Slot::Discarded => SlotView::Discarded,
        }
    }
}

/// The slots of a list, each as a value.
pub open spec fn slot_views(list: Seq<Slot>) -> Seq<SlotView> {
    Seq::new(list.len(), |i: int| list[i]@)
}

/// The verified shares among the slots, in the order of their nodes; the slot
/// at position `k` belongs to node `k + 1`.
pub open spec fn gathered(slots: Seq<SlotView>) -> Seq<Share>
    decreases slots.len(),
{
    if slots.len() == 0 {
        Seq::empty()
    } else {
        let before = gathered(slots.drop_last());
        match slots.last() {
            SlotView::Verified(signature) => before.push(Share { node: slots.len(), signature }),
            _ => before,
        }
    }
}

/// The slots after `slot` was recorded for `node`: only a node of the
/// cluster whose slot is pending gets one; whatever else comes is ignored.
pub open spec fn recorded(slots: Seq<SlotView>, node: nat, slot: SlotView) -> Seq<SlotView> {
    if 1 <= node <= slots.len() && slots[node - 1] is Pending {
        slots.update(node - 1, slot)
    } else {
        slots
    }
}

/// The gathered shares name nodes of the cluster, in rising order, and each
/// is the share in its node's slot.
pub proof fn lemma_gathered_nodes(slots: Seq<SlotView>)
    ensures
        gathered(slots).len() <= slots.len(),
        forall|i: int|
            0 <= i < gathered(slots).len() ==> 1 <= (#[trigger] gathered(slots)[i]).node <= slots.len()
                && slots[gathered(slots)[i].node - 1] == SlotView::Verified(gathered(slots)[i].signature),
        forall|i: int, j: int|
            0 <= i < j < gathered(slots).len() ==> gathered(slots)[i].node < gathered(slots)[j].node,
        distinct_nodes(gathered(slots)),
    decreases slots.len(),
{
    if slots.len() > 0 {
        lemma_gathered_nodes(slots.drop_last());
        let before = gathered(slots.drop_last());
        assert forall|i: int| 0 <= i < before.len() implies slots[before[i].node - 1]
            == SlotView::Verified(before[i].signature) by {
            assert(slots.drop_last()[before[i].node - 1] == slots[before[i].node - 1]);
        }
    }
}

/// Recording a slot for a node whose slot is pending: a discarded slot leaves
/// the gathered shares as they were, a verified one adds one share.
pub proof fn lemma_gathered_update(slots: Seq<SlotView>, k: int, slot: SlotView)
    requires
        0 <= k < slots.len(),
        slots[k] is Pending,
    ensures
        !(slot is Verified) ==> gathered(slots.update(k, slot)) == gathered(slots),
        slot is Verified ==> gathered(slots.update(k, slot)).len() == gathered(slots).len() + 1,
    decreases slots.len(),
{
    let after = slots.update(k, slot);
    if k == slots.len() - 1 {
        assert(after.drop_last() == slots.drop_last());
    } else {
        lemma_gathered_update(slots.drop_last(), k, slot);
        assert(after.drop_last() == slots.drop_last().update(k, slot));
        assert(after.last() == slots.last());
    }
}

/// With every slot pending, nothing is gathered.
pub proof fn lemma_gathered_pending(nodes: nat)
    ensures
        gathered(Seq::new(nodes, |i: int| SlotView::Pending)).len() == 0,
    decreases nodes,
{
    let slots = Seq::new(nodes, |i: int| SlotView::Pending);
    if nodes > 0 {
        lemma_gathered_pending((nodes - 1) as nat);
        assert(slots.drop_last() == Seq::new((nodes - 1) as nat, |i: int| SlotView::Pending));
    }
}

/// The quorum state of one request in flight.
#[derive(Debug)]
pub struct QuorumState {
    slots: Vec<Slot>,
    verified: usize,
}

impl View for QuorumState {
    type V = Seq<SlotView>;

    closed spec fn view(&self) -> Seq<SlotView> {
        slot_views(self.slots@)
    }
}

impl QuorumState {
    /// The running count is the number of verified slots.
    #[verifier::type_invariant]
    pub closed spec fn inv(&self) -> bool {
        self.verified == gathered(slot_views(self.slots@)).len()
    }

    /// The state before anything came: every node's slot is pending.
    pub fn new(nodes: usize) -> (r: QuorumState)
        ensures
            r@ == Seq::new(nodes as nat, |i: int| SlotView::Pending),
    {
        let mut slots: Vec<Slot> = Vec::new();
        let mut k: usize = 0;
        while k < nodes
            invariant
                k <= nodes,
                slots@.len() == k,
                forall|j: int| 0 <= j < k ==> (#[trigger] slots@[j]) is Pending,
            decreases nodes - k,
        {
            slots.push(Slot::Pending);
            k = k + 1;
        }
        proof {
            assert(slot_views(slots@) == Seq::new(nodes as nat, |i: int| SlotView::Pending));
            lemma_gathered_pending(nodes as nat);
        }
        QuorumState { slots, verified: 0 }
    }

    /// The number of nodes.
    pub fn nodes(&self) -> (r: usize)
        ensures
            r == self@.len(),
    {
        self.slots.len()
    }

    /// The number of verified shares.
    pub fn verified(&self) -> (r: usize)
        ensures
            r == gathered(self@).len(),
    {
        proof {
            use_type_invariant(self);
        }
        self.verified
    }

    /// Whether `node` is a node of the cluster whose share is still awaited.
    pub fn awaits(&self, node: usize) -> (r: bool)
        ensures
            r == (1 <= node <= self@.len() && self@[node - 1] is Pending),
    {
        if 1 <= node && node <= self.slots.len() {
            match &self.slots[node - 1] {
                Slot::Pending => true,
                _ => false,
            }
        } else {
            false
        }
    }

    /// Records `slot` for `node`, where `node` is a node of the cluster whose
    /// share is still awaited; ignores it otherwise.
    pub fn record(&mut self, node: usize, slot: Slot)
        ensures
            final(self)@ == recorded(old(self)@, node as nat, slot@),
    {
        if !self.awaits(node) {
            return ;
        }
        proof {
            use_type_invariant(&*self);
            lemma_gathered_update(self@, node - 1, slot@);
            lemma_gathered_nodes(self@.update(node - 1, slot@));
            assert(slot_views(self.slots@.update(node - 1, slot)) == self@.update(node - 1, slot@));
        }
        // The slots and their count change together: the state is taken out
        // whole and put back whole.
        let mut taken = QuorumState { slots: Vec::new(), verified: 0 };
        core::mem::swap(self, &mut taken);
        let QuorumState { mut slots, verified } = taken;
        assert(slot is Verified ==> verified + 1 <= slots.len());
        let verified = match &slot {
            Slot::Verified(_) => verified + 1,
            _ => verified,
        };
        slots.set(node - 1, slot);
        *self = QuorumState { slots, verified };
    }

    /// The verified shares, in the order of their nodes.
    pub fn shares(&self) -> (r: Vec<PartialSignature>)
        ensures
            share_views(r@) == gathered(self@),
    {
        let mut out: Vec<PartialSignature> = Vec::new();
        let mut k: usize = 0;
        while k < self.slots.len()
            invariant
                k <= self.slots.len(),
                share_views(out@) == gathered(self@.take(k as int)),
            decreases self.slots.len() - k,
        {
            proof {
                assert(self@.take(k + 1).drop_last() == self@.take(k as int));
                assert(self@.take(k + 1).last() == self.slots@[k as int]@);
            }
            match &self.slots[k] {
                Slot::Verified(signature) => {
                    out.push(PartialSignature { node: k + 1, signature: copy_bytes(signature) });
                    assert(share_views(out@) == gathered(self@.take(k + 1)));
                },
                _ => {},
            }
            k = k + 1;
        }
        assert(self@.take(self.slots@.len() as int) == self@);
        out
    }
}

} // verus!
