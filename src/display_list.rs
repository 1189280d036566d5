use vstd::prelude::*;

use crate::geometry::{ClipRegion, ColorU, Rect, green};

verus! {

/// One entry of a display list.
#[derive(Clone, Copy, Debug, PartialEq, Eq, Structural)]
pub enum DisplayItem {
    /// A filled rectangle.
    Rectangle { bounds: Rect, clip: ClipRegion, color: ColorU },
    /// Opens a nested stacking context that covers `bounds`.
    PushStackingContext { bounds: Rect, z_index: i32 },
    /// Closes the innermost open stacking context.
    PopStackingContext,
}

/// Misuse of a builder that has already been finalized.
#[derive(Clone, Copy, Debug, PartialEq, Eq, Structural)]
pub enum BuilderError {
    InvalidState,
}

/// An immutable, ordered sequence of display items.
#[derive(Debug)]
pub struct DisplayList {
    items: Vec<DisplayItem>,
}

impl View for DisplayList {
    type V = Seq<DisplayItem>;

    closed spec fn view(&self) -> Seq<DisplayItem> {
        self.items@
    }
}

impl DisplayList {
    pub fn len(&self) -> (r: usize)
        ensures
            r == self@.len(),
    {
        self.items.len()
    }

    pub fn item(&self, i: usize) -> (r: DisplayItem)
        requires
            i < self@.len(),
        ensures
            r == self@[i as int],
    {
        self.items[i]
    }
}

/// Appends display items in emission order until it is finalized; after
/// that it refuses every change until it is reset.
#[derive(Debug)]
pub struct DisplayListBuilder {
    items: Vec<DisplayItem>,
    finalized: bool,
}

impl DisplayListBuilder {
    /// The items appended since the builder was made or last reset.
    pub closed spec fn items(&self) -> Seq<DisplayItem> {
        self.items@
    }

    pub closed spec fn is_finalized(&self) -> bool {
        self.finalized
    }

    pub fn new() -> (r: DisplayListBuilder)
        ensures
            r.items() == Seq::<DisplayItem>::empty(),
            !r.is_finalized(),
    {
        DisplayListBuilder { items: Vec::new(), finalized: false }
    }

    /// Appends one item; refused once the builder is finalized.
    pub fn push_item(&mut self, item: DisplayItem) -> (r: Result<(), BuilderError>)
        ensures
            old(self).is_finalized() ==> r == Err::<(), BuilderError>(BuilderError::InvalidState)
                && *final(self) == *old(self),
            !old(self).is_finalized() ==> r is Ok && final(self).items() == old(self).items().push(
                item,
            ) && !final(self).is_finalized(),
    {
        if self.finalized {
            return Err(BuilderError::InvalidState);
        }
        self.items.push(item);
        Ok(())
    }

    /// Appends a filled rectangle.
    pub fn push_rect(&mut self, bounds: Rect, clip: ClipRegion, color: ColorU) -> (r: Result<
        (),
        BuilderError,
    >)
        ensures
            old(self).is_finalized() ==> r == Err::<(), BuilderError>(BuilderError::InvalidState)
                && *final(self) == *old(self),
            !old(self).is_finalized() ==> r is Ok && final(self).items() == old(self).items().push(
                DisplayItem::Rectangle { bounds, clip, color },
            ) && !final(self).is_finalized(),
    {
        self.push_item(DisplayItem::Rectangle { bounds, clip, color })
    }

    /// Opens a nested stacking context.
    pub fn push_stacking_context(&mut self, bounds: Rect, z_index: i32) -> (r: Result<
        (),
        BuilderError,
    >)
        ensures
            old(self).is_finalized() ==> r == Err::<(), BuilderError>(BuilderError::InvalidState)
                && *final(self) == *old(self),
            !old(self).is_finalized() ==> r is Ok && final(self).items() == old(self).items().push(
                DisplayItem::PushStackingContext { bounds, z_index },
            ) && !final(self).is_finalized(),
    {
        self.push_item(DisplayItem::PushStackingContext { bounds, z_index })
    }

    /// Closes the innermost open stacking context.
    pub fn pop_stacking_context(&mut self) -> (r: Result<(), BuilderError>)
        ensures
            old(self).is_finalized() ==> r == Err::<(), BuilderError>(BuilderError::InvalidState)
                && *final(self) == *old(self),
            !old(self).is_finalized() ==> r is Ok && final(self).items() == old(self).items().push(
                DisplayItem::PopStackingContext,
            ) && !final(self).is_finalized(),
    {
        self.push_item(DisplayItem::PopStackingContext)
    }

    /// Hands out every item appended so far, in emission order, and closes
    /// the builder; a second call is refused.
    pub fn finalize(&mut self) -> (r: Result<DisplayList, BuilderError>)
        ensures
            old(self).is_finalized() ==> r == Err::<DisplayList, BuilderError>(
                BuilderError::InvalidState,
            ) && *final(self) == *old(self),
            !old(self).is_finalized() ==> r is Ok && r->Ok_0@ == old(self).items()
                && final(self).is_finalized() && final(self).items() == Seq::<
                DisplayItem,
            >::empty(),
    {
        if self.finalized {
            return Err(BuilderError::InvalidState);
        }
        let mut items: Vec<DisplayItem> = Vec::new();
        core::mem::swap(&mut items, &mut self.items);
        self.finalized = true;
        Ok(DisplayList { items })
    }

    /// Makes the builder empty and open again.
    pub fn reset(&mut self)
        ensures
            final(self).items() == Seq::<DisplayItem>::empty(),
            !final(self).is_finalized(),
    {
        self.items = Vec::new();
        self.finalized = false;
    }
}

/// A drawable: emits its display items into a builder, clipped to `clip`.
pub trait AsDisplayItem {
    /// The items that this drawable emits for the given clip region.
    spec fn display_items(&self, clip: ClipRegion) -> Seq<DisplayItem>;

    /// A finalized builder refuses the items and is left as it was.
    fn as_display_item(&self, clip: ClipRegion, builder: &mut DisplayListBuilder)
        ensures
            old(builder).is_finalized() ==> *final(builder) == *old(builder),
            !old(builder).is_finalized() ==> !final(builder).is_finalized()
                && final(builder).items() == old(builder).items() + self.display_items(clip),
    ;
}

impl AsDisplayItem for Rect {
    /// A rectangle draws itself as one green filled rectangle.
    open spec fn display_items(&self, clip: ClipRegion) -> Seq<DisplayItem> {
        seq![DisplayItem::Rectangle { bounds: *self, clip, color: green() }]
    }

    fn as_display_item(&self, clip: ClipRegion, builder: &mut DisplayListBuilder) {
        let _ = builder.push_rect(*self, clip, ColorU { r: 0, g: 255, b: 0, a: 255 });
        assert(!old(builder).is_finalized() ==> builder.items() == old(builder).items()
            + self.display_items(clip));
    }
}

} // verus!
