use vstd::prelude::*;

use crate::aux_lists::{AuxiliaryLists, AuxiliaryListsBuilder, FilterOp, ItemRange};
use crate::display_list::{DisplayItem, DisplayList};
use crate::geometry::{ColorU, Matrix4, Rect, Size};
use crate::ids::{
    scroll_layer_id_for, DisplayListId, Epoch, IdAllocator, PipelineId, ScrollLayerId,
    StackingContextId, SCROLL_LAYER_TREE_DEPTH,
};

verus! {

#[derive(Clone, Copy, Debug, PartialEq, Eq, Structural)]
pub enum ScrollPolicy {
    Scrollable,
    Fixed,
}

#[derive(Clone, Copy, Debug, PartialEq, Eq, Structural)]
pub enum MixBlendMode {
    Normal,
    Multiply,
    Screen,
    Overlay,
    Darken,
    Lighten,
    ColorDodge,
    ColorBurn,
    HardLight,
    SoftLight,
    Difference,
    Exclusion,
    Hue,
    Saturation,
    Color,
    Luminosity,
}

/// Why a frame builder refused a registration.
#[derive(Clone, Copy, Debug, PartialEq, Eq, Structural)]
pub enum SceneError {
    /// The stacking context was registered under another pipeline than the root.
    PipelineMismatch,
    /// The stacking context names a display list that this builder does not hold.
    UnregisteredDisplayList,
}

/// A node of the scene tree. Its child display lists are only ever added by
/// `FrameBuilder::add_display_list`.
#[derive(Debug)]
pub struct StackingContext {
    pub scroll_layer_id: Option<ScrollLayerId>,
    pub scroll_policy: ScrollPolicy,
    pub bounds: Rect,
    pub overflow: Rect,
    pub z_index: i32,
    pub transform: Matrix4,
    pub perspective: Matrix4,
    pub mix_blend_mode: MixBlendMode,
    pub filters: ItemRange,
    display_lists: Vec<DisplayListId>,
}

impl StackingContext {
    /// The ids of the display lists added to this context, in order.
    pub closed spec fn children(&self) -> Seq<DisplayListId> {
        self.display_lists@
    }

    /// Everything about the context but its children.
    pub closed spec fn attributes(&self) -> (
        Option<ScrollLayerId>,
        ScrollPolicy,
        Rect,
        Rect,
        i32,
        Matrix4,
        Matrix4,
        MixBlendMode,
        ItemRange,
    ) {
        (
            self.scroll_layer_id,
            self.scroll_policy,
            self.bounds,
            self.overflow,
            self.z_index,
            self.transform,
            self.perspective,
            self.mix_blend_mode,
            self.filters,
        )
    }

    pub fn display_lists(&self) -> (r: &Vec<DisplayListId>)
        ensures
            r@ == self.children(),
    {
        &self.display_lists
    }
}

/// Pairs of ids and display lists, each list seen as its items.
pub open spec fn list_views(v: Seq<(DisplayListId, DisplayList)>) -> Seq<
    (DisplayListId, Seq<DisplayItem>),
> {
    v.map_values(|p: (DisplayListId, DisplayList)| (p.0, p.1@))
}

/// Whether `id` names one of the listed display lists.
pub open spec fn holds_list(lists: Seq<(DisplayListId, Seq<DisplayItem>)>, id: DisplayListId) -> bool {
    exists|i: int| 0 <= i < lists.len() && #[trigger] lists[i].0 == id
}

/// Display-list ids strictly increase along the sequence.
pub open spec fn ids_increasing(lists: Seq<(DisplayListId, Seq<DisplayItem>)>) -> bool {
    forall|i: int, j: int| 0 <= i < j < lists.len() ==> (#[trigger] lists[i].0).0 < (#[trigger] lists[j].0).0
}

/// Every child of every context names one of the display lists.
pub open spec fn children_held(
    contexts: Seq<(StackingContextId, StackingContext)>,
    lists: Seq<(DisplayListId, Seq<DisplayItem>)>,
) -> bool {
    forall|i: int, k: int|
        0 <= i < contexts.len() && 0 <= k < contexts[i].1.children().len() ==> holds_list(
            lists,
            #[trigger] contexts[i].1.children()[k],
        )
}

/// The items of the first listed display list with id `id`; none if no
/// list has that id.
pub open spec fn items_of(lists: Seq<(DisplayListId, Seq<DisplayItem>)>, id: DisplayListId) -> Seq<
    DisplayItem,
>
    decreases lists.len(),
{
    if lists.len() == 0 {
        Seq::empty()
    } else if lists[0].0 == id {
        lists[0].1
    } else {
        items_of(lists.drop_first(), id)
    }
}

/// The items of the given child lists, one after the other.
pub open spec fn children_items(
    lists: Seq<(DisplayListId, Seq<DisplayItem>)>,
    children: Seq<DisplayListId>,
) -> Seq<DisplayItem>
    decreases children.len(),
{
    if children.len() == 0 {
        Seq::empty()
    } else {
        children_items(lists, children.drop_last()) + items_of(lists, children.last())
    }
}

/// A scene as one sequence of items: each stacking context in order, as a
/// push marker with its bounds and z-index, the items of its children, and
/// a pop marker.
pub open spec fn flatten(
    contexts: Seq<(StackingContextId, StackingContext)>,
    lists: Seq<(DisplayListId, Seq<DisplayItem>)>,
) -> Seq<DisplayItem>
    decreases contexts.len(),
{
    if contexts.len() == 0 {
        Seq::empty()
    } else {
        let c = contexts.last().1;
        flatten(contexts.drop_last(), lists) + seq![
            DisplayItem::PushStackingContext { bounds: c.attributes().2, z_index: c.attributes().4 },
        ] + children_items(lists, c.children()) + seq![DisplayItem::PopStackingContext]
    }
}

/// The first list with a given id is the one `items_of` picks.
proof fn lemma_items_of_first(lists: Seq<(DisplayListId, Seq<DisplayItem>)>, id: DisplayListId, j: int)
    requires
        0 <= j < lists.len(),
        lists[j].0 == id,
        forall|k: int| 0 <= k < j ==> (#[trigger] lists[k]).0 != id,
    ensures
        items_of(lists, id) == lists[j].1,
    decreases j,
{
    if j > 0 {
        assert forall|k: int| 0 <= k < j - 1 implies (#[trigger] lists.drop_first()[k]).0 != id by {
            assert(lists.drop_first()[k] == lists[k + 1]);
        }
        lemma_items_of_first(lists.drop_first(), id, j - 1);
    }
}

/// With no list of id `id`, `items_of` gives nothing.
proof fn lemma_items_of_missing(lists: Seq<(DisplayListId, Seq<DisplayItem>)>, id: DisplayListId)
    requires
        !holds_list(lists, id),
    ensures
        items_of(lists, id) == Seq::<DisplayItem>::empty(),
    decreases lists.len(),
{
    if lists.len() > 0 {
        assert(lists[0].0 != id);
        assert forall|k: int| 0 <= k < lists.drop_first().len() implies (
        #[trigger] lists.drop_first()[k]).0 != id by {
            assert(lists.drop_first()[k] == lists[k + 1]);
        }
        lemma_items_of_missing(lists.drop_first(), id);
    }
}

/// Assembles one scene: its stacking contexts, its display lists, its side
/// tables and the serials of its scroll layers.
pub struct FrameBuilder {
    root_pipeline_id: PipelineId,
    origin: IdAllocator,
    ids: IdAllocator,
    stacking_contexts: Vec<(StackingContextId, StackingContext)>,
    display_lists: Vec<(DisplayListId, DisplayList)>,
    auxiliary_lists_builder: AuxiliaryListsBuilder,
    next_scroll_layer_serial: u64,
}

impl FrameBuilder {
    pub closed spec fn root(&self) -> PipelineId {
        self.root_pipeline_id
    }

    /// The identifier allocator as it stood when the builder was made.
    pub closed spec fn origin(&self) -> IdAllocator {
        self.origin
    }

    /// The identifier allocator as it stands now.
    pub closed spec fn allocator(&self) -> IdAllocator {
        self.ids
    }

    pub closed spec fn contexts(&self) -> Seq<(StackingContextId, StackingContext)> {
        self.stacking_contexts@
    }

    pub closed spec fn lists(&self) -> Seq<(DisplayListId, Seq<DisplayItem>)> {
        list_views(self.display_lists@)
    }

    pub closed spec fn filters(&self) -> Seq<FilterOp> {
        self.auxiliary_lists_builder.filters()
    }

    /// The serial of the next scroll layer id.
    pub closed spec fn scroll_serial(&self) -> nat {
        self.next_scroll_layer_serial as nat
    }

    /// Display lists are held in the order of their strictly increasing ids,
    /// each drawn from the allocator since the builder was made; every child of a registered
    /// context is a held display list; the side tables are still open.
    pub closed spec fn wf(&self) -> bool {
        &&& ids_increasing(self.lists())
        &&& forall|i: int|
            0 <= i < self.lists().len() ==> self.origin.next_dl() <= (#[trigger] self.lists()[i].0).0
                < self.ids.next_dl()
        &&& self.origin.next_sc() <= self.ids.next_sc()
        &&& self.origin.next_dl() <= self.ids.next_dl()
        &&& children_held(self.contexts(), self.lists())
        &&& !self.auxiliary_lists_builder.is_finalized()
    }

    pub fn new(root_pipeline_id: PipelineId, ids: IdAllocator) -> (r: FrameBuilder)
        ensures
            r.wf(),
            r.root() == root_pipeline_id,
            r.allocator() == ids,
            r.origin() == ids,
            r.contexts().len() == 0,
            r.lists().len() == 0,
            r.filters().len() == 0,
            r.scroll_serial() == 0,
    {
        let r = FrameBuilder {
            root_pipeline_id,
            origin: ids,
            ids,
            stacking_contexts: Vec::new(),
            display_lists: Vec::new(),
            auxiliary_lists_builder: AuxiliaryListsBuilder::new(),
            next_scroll_layer_serial: 0,
        };
        assert(r.lists().len() == 0);
        r
    }

    /// Whether another stacking context, display list and scroll layer can
    /// each still get an id.
    pub fn has_room(&self) -> (r: bool)
        ensures
            r == (self.allocator().next_sc() < u64::MAX && self.allocator().next_dl() < u64::MAX
                && self.scroll_serial() < u64::MAX),
    {
        self.ids.can_issue_stacking_context_id() && self.ids.can_issue_display_list_id()
            && self.next_scroll_layer_serial < u64::MAX
    }

    /// Whether the builder was made from an allocator at `ids`' counters.
    pub fn began_at(&self, ids: &IdAllocator) -> (r: bool)
        ensures
            r == (self.origin().next_sc() == ids.next_sc() && self.origin().next_dl()
                == ids.next_dl()),
    {
        self.origin.same_as(ids)
    }

    pub fn root_pipeline_id(&self) -> (r: PipelineId)
        ensures
            r == self.root(),
    {
        self.root_pipeline_id
    }

    /// Makes a stacking context with no children; its filters go to this
    /// frame's side tables.
    pub fn new_stacking_context(
        &mut self,
        scroll_policy: ScrollPolicy,
        bounds: Rect,
        overflow: Rect,
        z_index: i32,
        transform: &Matrix4,
        perspective: &Matrix4,
        mix_blend_mode: MixBlendMode,
        filters: Vec<FilterOp>,
    ) -> (r: StackingContext)
        requires
            old(self).wf(),
        ensures
            final(self).wf(),
            r.children().len() == 0,
            r.attributes() == (
                None::<ScrollLayerId>,
                scroll_policy,
                bounds,
                overflow,
                z_index,
                *transform,
                *perspective,
                mix_blend_mode,
                ItemRange {
                    start: old(self).filters().len() as usize,
                    length: filters@.len() as usize,
                },
            ),
            final(self).filters() == old(self).filters() + filters@,
            final(self).root() == old(self).root(),
            final(self).origin() == old(self).origin(),
            final(self).allocator() == old(self).allocator(),
            final(self).contexts() == old(self).contexts(),
            final(self).lists() == old(self).lists(),
            final(self).scroll_serial() == old(self).scroll_serial(),
    {
        let range = match self.auxiliary_lists_builder.add_filters(&filters) {
            Ok(range) => range,
            Err(_) => ItemRange { start: 0, length: 0 },
        };
        StackingContext {
            scroll_layer_id: None,
            scroll_policy,
            bounds,
            overflow,
            z_index,
            transform: *transform,
            perspective: *perspective,
            mix_blend_mode,
            filters: range,
            display_lists: Vec::new(),
        }
    }

    /// Registers a finished display list under a fresh id and adds that id
    /// to the children of `stacking_context`, which is not registered yet.
    pub fn add_display_list(
        &mut self,
        display_list: DisplayList,
        stacking_context: &mut StackingContext,
    ) -> (r: DisplayListId)
        requires
            old(self).wf(),
            old(self).allocator().next_dl() < u64::MAX,
        ensures
            final(self).wf(),
            r.0 == old(self).allocator().next_dl(),
            forall|i: int|
                0 <= i < old(self).lists().len() ==> (#[trigger] old(self).lists()[i].0).0 < r.0,
            final(self).allocator().next_dl() == old(self).allocator().next_dl() + 1,
            final(self).allocator().next_sc() == old(self).allocator().next_sc(),
            final(self).lists() == old(self).lists().push((r, display_list@)),
            final(stacking_context).children() == old(stacking_context).children().push(r),
            final(stacking_context).attributes() == old(stacking_context).attributes(),
            final(self).root() == old(self).root(),
            final(self).origin() == old(self).origin(),
            final(self).contexts() == old(self).contexts(),
            final(self).filters() == old(self).filters(),
            final(self).scroll_serial() == old(self).scroll_serial(),
    {
        let ghost old_lists = self.lists();
        let id = self.ids.next_display_list_id();
        stacking_context.display_lists.push(id);
        self.display_lists.push((id, display_list));
        assert(self.lists() == old_lists.push((id, display_list@)));
        assert forall|i: int, k: int|
            0 <= i < self.contexts().len() && 0 <= k < self.contexts()[i].1.children().len()
            implies holds_list(self.lists(), #[trigger] self.contexts()[i].1.children()[k]) by {
            let c = self.contexts()[i].1.children()[k];
            assert(holds_list(old_lists, c));
            let j = choose|j: int| 0 <= j < old_lists.len() && #[trigger] old_lists[j].0 == c;
            assert(self.lists()[j].0 == c);
        }
        id
    }

    /// Whether `id` names a display list of this builder.
    fn holds_display_list(&self, id: DisplayListId) -> (r: bool)
        ensures
            r == holds_list(self.lists(), id),
    {
        let mut i: usize = 0;
        while i < self.display_lists.len()
            invariant
                i <= self.display_lists@.len(),
                forall|j: int| 0 <= j < i ==> (#[trigger] self.lists()[j]).0 != id,
            decreases self.display_lists@.len() - i,
        {
            if self.display_lists[i].0 == id {
                assert(self.lists()[i as int].0 == id);
                return true;
            }
            i = i + 1;
        }
        false
    }

    /// Registers a stacking context of the root pipeline whose children
    /// are all held by this builder, under a fresh id.
    pub fn add_stacking_context(
        &mut self,
        pipeline_id: PipelineId,
        stacking_context: StackingContext,
    ) -> (r: Result<StackingContextId, SceneError>)
        requires
            old(self).wf(),
            old(self).allocator().next_sc() < u64::MAX,
        ensures
            final(self).wf(),
            pipeline_id != old(self).root() ==> r == Err::<StackingContextId, SceneError>(
                SceneError::PipelineMismatch,
            ),
            (pipeline_id == old(self).root() && exists|k: int|
                0 <= k < stacking_context.children().len() && !holds_list(
                    old(self).lists(),
                    #[trigger] stacking_context.children()[k],
                )) ==> r == Err::<StackingContextId, SceneError>(SceneError::UnregisteredDisplayList),
            (pipeline_id == old(self).root() && forall|k: int|
                0 <= k < stacking_context.children().len() ==> holds_list(
                    old(self).lists(),
                    #[trigger] stacking_context.children()[k],
                )) ==> r is Ok,
            r is Err ==> final(self).contexts() == old(self).contexts() && final(self).allocator()
                == old(self).allocator(),
            r is Ok ==> r->Ok_0.0 == old(self).allocator().next_sc()
                && final(self).contexts() == old(self).contexts().push((r->Ok_0, stacking_context))
                && final(self).allocator().next_sc() == old(self).allocator().next_sc() + 1
                && final(self).allocator().next_dl() == old(self).allocator().next_dl(),
            final(self).root() == old(self).root(),
            final(self).origin() == old(self).origin(),
            final(self).lists() == old(self).lists(),
            final(self).filters() == old(self).filters(),
            final(self).scroll_serial() == old(self).scroll_serial(),
    {
        if pipeline_id != self.root_pipeline_id {
            return Err(SceneError::PipelineMismatch);
        }
        let mut k: usize = 0;
        while k < stacking_context.display_lists.len()
            invariant
                *self == *old(self),
                self.wf(),
                pipeline_id == self.root_pipeline_id,
                k <= stacking_context.children().len(),
                forall|m: int|
                    0 <= m < k ==> holds_list(self.lists(), #[trigger] stacking_context.children()[m]),
            decreases stacking_context.children().len() - k,
        {
            if !self.holds_display_list(stacking_context.display_lists[k]) {
                return Err(SceneError::UnregisteredDisplayList);
            }
            k = k + 1;
        }
        let id = self.ids.next_stacking_context_id();
        self.stacking_contexts.push((id, stacking_context));
        Ok(id)
    }

    /// Closes the frame: finalizes its side tables and bundles everything
    /// into one scene tagged with `epoch`. The allocator comes back so that
    /// the next frame of the session goes on with it.
    pub fn commit(self, epoch: Epoch, background_color: ColorU, viewport_size: Size) -> (r: (
        Scene,
        IdAllocator,
    ))
        requires
            self.wf(),
        ensures
            commits_to(self, epoch, background_color, viewport_size, r.0, r.1),
    {
        let FrameBuilder {
            root_pipeline_id,
            origin: _,
            ids,
            stacking_contexts,
            display_lists,
            auxiliary_lists_builder,
            next_scroll_layer_serial: _,
        } = self;
        let mut aux = auxiliary_lists_builder;
        let auxiliary_lists = match aux.finalize() {
            Ok(lists) => lists,
            Err(_) => AuxiliaryLists::empty(),
        };
        let scene = Scene {
            pipeline_id: root_pipeline_id,
            epoch,
            background_color,
            viewport_size,
            stacking_contexts,
            display_lists,
            auxiliary_lists,
        };
        (scene, ids)
    }

    /// Hands out the next scroll layer id of the root pipeline.
    pub fn next_scroll_layer_id(&mut self) -> (r: ScrollLayerId)
        requires
            old(self).scroll_serial() < u64::MAX,
        ensures
            r == scroll_layer_id_for(old(self).root(), old(self).scroll_serial()),
            final(self).scroll_serial() == old(self).scroll_serial() + 1,
            final(self).wf() == old(self).wf(),
            final(self).root() == old(self).root(),
            final(self).origin() == old(self).origin(),
            final(self).allocator() == old(self).allocator(),
            final(self).contexts() == old(self).contexts(),
            final(self).lists() == old(self).lists(),
            final(self).filters() == old(self).filters(),
    {
        let serial = self.next_scroll_layer_serial;
        self.next_scroll_layer_serial = serial + 1;
        ScrollLayerId {
            pipeline_id: self.root_pipeline_id,
            depth: SCROLL_LAYER_TREE_DEPTH,
            serial,
        }
    }
}

/// What a committed scene holds: the frame's contexts, display lists and
/// side tables as they stood, under its root pipeline and the given epoch,
/// background and viewport; `ids` is the frame's allocator.
pub open spec fn commits_to(
    frame: FrameBuilder,
    epoch: Epoch,
    background_color: ColorU,
    viewport_size: Size,
    scene: Scene,
    ids: IdAllocator,
) -> bool {
    &&& scene.pipeline() == frame.root()
    &&& scene.tag() == epoch
    &&& scene.background() == background_color
    &&& scene.viewport() == viewport_size
    &&& scene.contexts() == frame.contexts()
    &&& scene.lists() == frame.lists()
    &&& scene.filters() == frame.filters()
    &&& ids == frame.allocator()
}

/// A complete, epoch-tagged scene, ready to be handed to a backend.
pub struct Scene {
    pipeline_id: PipelineId,
    epoch: Epoch,
    background_color: ColorU,
    viewport_size: Size,
    stacking_contexts: Vec<(StackingContextId, StackingContext)>,
    display_lists: Vec<(DisplayListId, DisplayList)>,
    auxiliary_lists: AuxiliaryLists,
}

impl Scene {
    pub closed spec fn pipeline(&self) -> PipelineId {
        self.pipeline_id
    }

    /// The epoch that the scene is tagged with.
    pub closed spec fn tag(&self) -> Epoch {
        self.epoch
    }

    pub closed spec fn background(&self) -> ColorU {
        self.background_color
    }

    pub closed spec fn viewport(&self) -> Size {
        self.viewport_size
    }

    pub closed spec fn contexts(&self) -> Seq<(StackingContextId, StackingContext)> {
        self.stacking_contexts@
    }

    pub closed spec fn lists(&self) -> Seq<(DisplayListId, Seq<DisplayItem>)> {
        list_views(self.display_lists@)
    }

    pub closed spec fn filters(&self) -> Seq<FilterOp> {
        self.auxiliary_lists@
    }

    pub fn pipeline_id(&self) -> (r: PipelineId)
        ensures
            r == self.pipeline(),
    {
        self.pipeline_id
    }

    pub fn epoch(&self) -> (r: Epoch)
        ensures
            r == self.tag(),
    {
        self.epoch
    }

    pub fn background_color(&self) -> (r: ColorU)
        ensures
            r == self.background(),
    {
        self.background_color
    }

    pub fn viewport_size(&self) -> (r: Size)
        ensures
            r == self.viewport(),
    {
        self.viewport_size
    }

    pub fn stacking_context_count(&self) -> (r: usize)
        ensures
            r == self.contexts().len(),
    {
        self.stacking_contexts.len()
    }

    pub fn stacking_context_id(&self, i: usize) -> (r: StackingContextId)
        requires
            i < self.contexts().len(),
        ensures
            r == self.contexts()[i as int].0,
    {
        self.stacking_contexts[i].0
    }

    pub fn stacking_context(&self, i: usize) -> (r: &StackingContext)
        requires
            i < self.contexts().len(),
        ensures
            *r == self.contexts()[i as int].1,
    {
        &self.stacking_contexts[i].1
    }

    pub fn display_list_count(&self) -> (r: usize)
        ensures
            r == self.lists().len(),
    {
        self.display_lists.len()
    }

    pub fn display_list_id(&self, i: usize) -> (r: DisplayListId)
        requires
            i < self.lists().len(),
        ensures
            r == self.lists()[i as int].0,
    {
        self.display_lists[i].0
    }

    pub fn display_list(&self, i: usize) -> (r: &DisplayList)
        requires
            i < self.lists().len(),
        ensures
            r@ == self.lists()[i as int].1,
    {
        &self.display_lists[i].1
    }

    /// Where the display list with id `id` stands, if the scene holds it.
    pub fn find_display_list(&self, id: DisplayListId) -> (r: Option<usize>)
        ensures
            r is Some ==> r->0 < self.lists().len() && self.lists()[r->0 as int].0 == id
                && forall|k: int| 0 <= k < r->0 ==> (#[trigger] self.lists()[k]).0 != id,
            r is None ==> !holds_list(self.lists(), id),
    {
        let mut i: usize = 0;
        while i < self.display_lists.len()
            invariant
                i <= self.display_lists@.len(),
                forall|j: int| 0 <= j < i ==> (#[trigger] self.lists()[j]).0 != id,
            decreases self.display_lists@.len() - i,
        {
            if self.display_lists[i].0 == id {
                return Some(i);
            }
            i = i + 1;
        }
        None
    }

    /// The whole scene as one sequence of items, in drawing order.
    pub fn flattened_items(&self) -> (r: Vec<DisplayItem>)
        ensures
            r@ == flatten(self.contexts(), self.lists()),
    {
        let mut out: Vec<DisplayItem> = Vec::new();
        let mut i: usize = 0;
        while i < self.stacking_contexts.len()
            invariant
                i <= self.contexts().len(),
                out@ == flatten(self.contexts().subrange(0, i as int), self.lists()),
            decreases self.contexts().len() - i,
        {
            let context = &self.stacking_contexts[i].1;
            let ghost before = out@;
            out.push(
                DisplayItem::PushStackingContext { bounds: context.bounds, z_index: context.z_index },
            );
            let mut k: usize = 0;
            while k < context.display_lists.len()
                invariant
                    k <= context.children().len(),
                    out@ == before + seq![
                        DisplayItem::PushStackingContext {
                            bounds: context.attributes().2,
                            z_index: context.attributes().4,
                        },
                    ] + children_items(self.lists(), context.children().subrange(0, k as int)),
                decreases context.children().len() - k,
            {
                let id = context.display_lists[k];
                let ghost mid = out@;
                match self.find_display_list(id) {
                    Some(j) => {
                        proof {
                            lemma_items_of_first(self.lists(), id, j as int);
                        }
                        let list = &self.display_lists[j].1;
                        let mut m: usize = 0;
                        while m < list.len()
                            invariant
                                m <= list@.len(),
                                out@ == mid + list@.subrange(0, m as int),
                            decreases list@.len() - m,
                        {
                            out.push(list.item(m));
                            m = m + 1;
                            assert(list@.subrange(0, m as int) == list@.subrange(0, m - 1 as int).push(
                                list@[m - 1],
                            ));
                        }
                        assert(list@.subrange(0, list@.len() as int) =~= list@);
                    },
                    None => {
                        proof {
                            lemma_items_of_missing(self.lists(), id);
                        }
                        assert(out@ =~= mid + items_of(self.lists(), id));
                    },
                }
                k = k + 1;
                assert(context.children().subrange(0, k as int).drop_last() =~= context.children().subrange(0, k - 1 as int));
            }
            assert(context.children().subrange(0, k as int) =~= context.children());
            out.push(DisplayItem::PopStackingContext);
            i = i + 1;
            assert(self.contexts().subrange(0, i as int).drop_last() =~= self.contexts().subrange(0, i - 1 as int));
        }
        assert(self.contexts().subrange(0, i as int) =~= self.contexts());
        out
    }

    pub fn auxiliary_lists(&self) -> (r: &AuxiliaryLists)
        ensures
            r@ == self.filters(),
    {
        &self.auxiliary_lists
    }
}

/// The display lists of a frame builder carry strictly increasing ids, all
/// drawn from its allocator since the builder was made: no id is handed out
/// twice.
pub proof fn lemma_display_list_ids_increase(frame: FrameBuilder)
    requires
        frame.wf(),
    ensures
        ids_increasing(frame.lists()),
        forall|i: int|
            0 <= i < frame.lists().len() ==> frame.origin().next_dl() <= (
            #[trigger] frame.lists()[i].0).0 < frame.allocator().next_dl(),
        forall|i: int, j: int|
            0 <= i < frame.lists().len() && 0 <= j < frame.lists().len() && i != j ==> (
            #[trigger] frame.lists()[i].0) != (#[trigger] frame.lists()[j].0),
{
    assert forall|i: int, j: int|
        0 <= i < frame.lists().len() && 0 <= j < frame.lists().len() && i != j implies (
        #[trigger] frame.lists()[i].0) != (#[trigger] frame.lists()[j].0) by {
        if i < j {
            assert(frame.lists()[i].0.0 < frame.lists()[j].0.0);
        } else {
            assert(frame.lists()[j].0.0 < frame.lists()[i].0.0);
        }
    }
}

/// After a commit every stacking context keeps exactly the children it was
/// registered with, and each child names exactly one display list of the
/// committed scene: none is dropped and none is duplicated.
pub proof fn lemma_commit_keeps_children(
    frame: FrameBuilder,
    epoch: Epoch,
    background_color: ColorU,
    viewport_size: Size,
    scene: Scene,
    ids: IdAllocator,
    i: int,
    k: int,
)
    requires
        frame.wf(),
        commits_to(frame, epoch, background_color, viewport_size, scene, ids),
        0 <= i < frame.contexts().len(),
        0 <= k < frame.contexts()[i].1.children().len(),
    ensures
        scene.contexts()[i] == frame.contexts()[i],
        scene.contexts()[i].1.children() == frame.contexts()[i].1.children(),
        exists|j: int|
            0 <= j < scene.lists().len() && scene.lists()[j].0
                == scene.contexts()[i].1.children()[k],
        forall|j1: int, j2: int|
            0 <= j1 < scene.lists().len() && 0 <= j2 < scene.lists().len() && scene.lists()[j1].0
                == scene.contexts()[i].1.children()[k] && scene.lists()[j2].0
                == scene.contexts()[i].1.children()[k] ==> j1 == j2,
{
    lemma_display_list_ids_increase(frame);
    let c = frame.contexts()[i].1.children()[k];
    assert(holds_list(frame.lists(), c));
}

} // verus!
