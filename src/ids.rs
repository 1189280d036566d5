use vstd::prelude::*;

verus! {

/// An independent rendering pipeline: a namespace and a serial within it.
#[derive(Clone, Copy, Debug, PartialEq, Eq, Structural)]
pub struct PipelineId(pub u32, pub u32);

/// Version tag of a committed scene.
#[derive(Clone, Copy, Debug, PartialEq, Eq, Structural)]
pub struct Epoch(pub u32);

impl Epoch {
    /// The epoch that follows this one.
    pub fn next(&self) -> (r: Epoch)
        requires
            self.0 < u32::MAX,
        ensures
            r.0 == self.0 + 1,
    {
        Epoch(self.0 + 1)
    }
}

/// Identifier of a stacking context, unique within one session.
#[derive(Clone, Copy, Debug, PartialEq, Eq, Structural)]
pub struct StackingContextId(pub u64);

/// Identifier of a registered display list, unique within one session.
#[derive(Clone, Copy, Debug, PartialEq, Eq, Structural)]
pub struct DisplayListId(pub u64);

/// Depth marker of the layer tree that scroll layers of a frame belong to.
pub const SCROLL_LAYER_TREE_DEPTH: u32 = 0;

/// A scrollable region: the pipeline it lives in, the layer-tree depth and
/// a serial drawn from one frame builder.
#[derive(Clone, Copy, Debug, PartialEq, Eq, Structural)]
pub struct ScrollLayerId {
    pub pipeline_id: PipelineId,
    pub depth: u32,
    pub serial: u64,
}

/// The scroll layer id that a frame builder of pipeline `p` hands out as its
/// `serial`-th one (counting from zero).
pub open spec fn scroll_layer_id_for(p: PipelineId, serial: nat) -> ScrollLayerId {
    ScrollLayerId { pipeline_id: p, depth: SCROLL_LAYER_TREE_DEPTH, serial: serial as u64 }
}

/// Distinct serials below `u64::MAX + 1` give distinct scroll layer ids.
pub proof fn lemma_scroll_layer_ids_distinct(p: PipelineId, a: nat, b: nat)
    requires
        a <= u64::MAX,
        b <= u64::MAX,
        a != b,
    ensures
        scroll_layer_id_for(p, a) != scroll_layer_id_for(p, b),
{
    assert(scroll_layer_id_for(p, a).serial != scroll_layer_id_for(p, b).serial);
}

/// The first `n` scroll layer ids of a frame builder are pairwise distinct.
pub proof fn lemma_first_scroll_layer_ids_distinct(p: PipelineId, n: nat)
    requires
        n <= u64::MAX + 1,
    ensures
        forall|i: nat, j: nat|
            i < n && j < n && i != j ==> #[trigger] scroll_layer_id_for(p, i)
                != #[trigger] scroll_layer_id_for(p, j),
{
    assert forall|i: nat, j: nat|
        i < n && j < n && i != j implies #[trigger] scroll_layer_id_for(p, i)
            != #[trigger] scroll_layer_id_for(p, j) by {
        lemma_scroll_layer_ids_distinct(p, i, j);
    }
}

/// Issues stacking-context and display-list identifiers for one session.
/// Each counter holds the value of the next identifier; identifiers are
/// never reused.
#[derive(Clone, Copy, Debug)]
pub struct IdAllocator {
    next_stacking_context: u64,
    next_display_list: u64,
}

impl IdAllocator {
    /// The value that the next stacking-context identifier will carry.
    pub closed spec fn next_sc(&self) -> nat {
        self.next_stacking_context as nat
    }

    /// The value that the next display-list identifier will carry.
    pub closed spec fn next_dl(&self) -> nat {
        self.next_display_list as nat
    }

    pub fn new() -> (r: IdAllocator)
        ensures
            r.next_sc() == 0,
            r.next_dl() == 0,
    {
        IdAllocator { next_stacking_context: 0, next_display_list: 0 }
    }

    pub fn next_stacking_context_id(&mut self) -> (r: StackingContextId)
        requires
            old(self).next_sc() < u64::MAX,
        ensures
            r.0 == old(self).next_sc(),
            final(self).next_sc() == old(self).next_sc() + 1,
            final(self).next_dl() == old(self).next_dl(),
    {
        let id = StackingContextId(self.next_stacking_context);
        self.next_stacking_context = self.next_stacking_context + 1;
        id
    }

    pub fn next_display_list_id(&mut self) -> (r: DisplayListId)
        requires
            old(self).next_dl() < u64::MAX,
        ensures
            r.0 == old(self).next_dl(),
            final(self).next_dl() == old(self).next_dl() + 1,
            final(self).next_sc() == old(self).next_sc(),
    {
        let id = DisplayListId(self.next_display_list);
        self.next_display_list = self.next_display_list + 1;
        id
    }

    /// Whether both allocators stand at the same counters.
    pub fn same_as(&self, other: &IdAllocator) -> (r: bool)
        ensures
            r == (self.next_sc() == other.next_sc() && self.next_dl() == other.next_dl()),
    {
        self.next_stacking_context == other.next_stacking_context
            && self.next_display_list == other.next_display_list
    }

    /// Whether another stacking-context identifier can be issued.
    pub fn can_issue_stacking_context_id(&self) -> (r: bool)
        ensures
            r == (self.next_sc() < u64::MAX),
    {
        self.next_stacking_context < u64::MAX
    }

    /// Whether another display-list identifier can be issued.
    pub fn can_issue_display_list_id(&self) -> (r: bool)
        ensures
            r == (self.next_dl() < u64::MAX),
    {
        self.next_display_list < u64::MAX
    }
}

} // verus!
