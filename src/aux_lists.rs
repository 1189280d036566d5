use vstd::prelude::*;

use crate::display_list::BuilderError;

verus! {

/// A filter that a stacking context applies to its contents. Amounts are
/// percentages, the blur radius is in pixels.
#[derive(Clone, Copy, Debug, PartialEq, Eq, Structural)]
pub enum FilterOp {
    Blur(u32),
    Brightness(u32),
    Contrast(u32),
    Grayscale(u32),
    HueRotate(u32),
    Invert(u32),
    Opacity(u32),
    Saturate(u32),
    Sepia(u32),
}

/// A run of entries in a side table: `length` entries from `start` on.
#[derive(Clone, Copy, Debug, PartialEq, Eq, Structural)]
pub struct ItemRange {
    pub start: usize,
    pub length: usize,
}

/// The finalized side tables of one scene.
#[derive(Debug)]
pub struct AuxiliaryLists {
    filters: Vec<FilterOp>,
}

impl View for AuxiliaryLists {
    type V = Seq<FilterOp>;

    closed spec fn view(&self) -> Seq<FilterOp> {
        self.filters@
    }
}

impl AuxiliaryLists {
    /// Side tables with no entries.
    pub fn empty() -> (r: AuxiliaryLists)
        ensures
            r@.len() == 0,
    {
        AuxiliaryLists { filters: Vec::new() }
    }

    pub fn filter_count(&self) -> (r: usize)
        ensures
            r == self@.len(),
    {
        self.filters.len()
    }

    pub fn filter(&self, i: usize) -> (r: FilterOp)
        requires
            i < self@.len(),
        ensures
            r == self@[i as int],
    {
        self.filters[i]
    }
}

/// Collects the side tables of one frame; finalized once, after which it
/// refuses every change.
#[derive(Debug)]
pub struct AuxiliaryListsBuilder {
    filters: Vec<FilterOp>,
    finalized: bool,
}

impl AuxiliaryListsBuilder {
    /// The filters added so far.
    pub closed spec fn filters(&self) -> Seq<FilterOp> {
        self.filters@
    }

    pub closed spec fn is_finalized(&self) -> bool {
        self.finalized
    }

    pub fn new() -> (r: AuxiliaryListsBuilder)
        ensures
            r.filters() == Seq::<FilterOp>::empty(),
            !r.is_finalized(),
    {
        AuxiliaryListsBuilder { filters: Vec::new(), finalized: false }
    }

    /// Appends a filter list and returns where it stands in the table.
    pub fn add_filters(&mut self, filters: &Vec<FilterOp>) -> (r: Result<ItemRange, BuilderError>)
        ensures
            old(self).is_finalized() ==> r == Err::<ItemRange, BuilderError>(
                BuilderError::InvalidState,
            ) && *final(self) == *old(self),
            !old(self).is_finalized() ==> r is Ok && r->Ok_0.start == old(self).filters().len()
                && r->Ok_0.length == filters@.len() && final(self).filters() == old(self).filters() + filters@
                && !final(self).is_finalized(),
    {
        if self.finalized {
            return Err(BuilderError::InvalidState);
        }
        let start = self.filters.len();
        let mut i: usize = 0;
        while i < filters.len()
            invariant
                !self.finalized,
                i <= filters@.len(),
                start == old(self).filters@.len(),
                self.filters@ == old(self).filters@ + filters@.subrange(0, i as int),
            decreases filters@.len() - i,
        {
            self.filters.push(filters[i]);
            i = i + 1;
            assert(filters@.subrange(0, i as int) == filters@.subrange(0, i - 1 as int).push(
                filters@[i - 1],
            ));
        }
        assert(filters@.subrange(0, filters@.len() as int) == filters@);
        Ok(ItemRange { start, length: filters.len() })
    }

    /// Hands out the tables and closes the builder; a second call is refused.
    pub fn finalize(&mut self) -> (r: Result<AuxiliaryLists, BuilderError>)
        ensures
            old(self).is_finalized() ==> r == Err::<AuxiliaryLists, BuilderError>(
                BuilderError::InvalidState,
            ) && *final(self) == *old(self),
            !old(self).is_finalized() ==> r is Ok && r->Ok_0@ == old(self).filters()
                && final(self).is_finalized() && final(self).filters() == Seq::<
                FilterOp,
            >::empty(),
    {
        if self.finalized {
            return Err(BuilderError::InvalidState);
        }
        let mut filters: Vec<FilterOp> = Vec::new();
        core::mem::swap(&mut filters, &mut self.filters);
        self.finalized = true;
        Ok(AuxiliaryLists { filters })
    }
}

} // verus!
