use vstd::prelude::*;

use crate::display_list::{AsDisplayItem, DisplayItem, DisplayListBuilder};
use crate::geometry::{bounds_of, is_identity, ClipRegion, ColorU, Matrix4, Size};
use crate::ids::{Epoch, IdAllocator, PipelineId, ScrollLayerId};
use crate::scene::{commits_to, holds_list, FrameBuilder, MixBlendMode, Scene, ScrollPolicy};
use crate::aux_lists::{FilterOp, ItemRange};

verus! {

/// Why a session refused to commit a frame.
#[derive(Clone, Copy, Debug, PartialEq, Eq, Structural)]
pub enum SessionError {
    /// The frame was begun from identifiers that the session has since
    /// handed out again through another committed frame.
    StaleFrame,
    /// The frame belongs to another pipeline than the session's root.
    PipelineMismatch,
    /// Identifiers or epochs of the session are used up.
    Exhausted,
}

/// One rendering session: its root pipeline, the identifiers handed out so
/// far and the epoch of the next committed scene.
pub struct Session {
    root_pipeline_id: PipelineId,
    ids: IdAllocator,
    next_epoch: Epoch,
}

/// What one successful commit does to a session: the scene carries the
/// session's next epoch, which then moves on by one, and the session takes
/// over the frame's allocator.
pub open spec fn commit_step(before: Session, frame: FrameBuilder, after: Session, scene: Scene) -> bool {
    &&& scene.tag() == before.epoch()
    &&& after.epoch().0 == before.epoch().0 + 1
    &&& after.root() == before.root()
    &&& after.allocator() == frame.allocator()
    &&& frame.origin().next_sc() == before.allocator().next_sc()
    &&& frame.origin().next_dl() == before.allocator().next_dl()
}

impl Session {
    pub closed spec fn root(&self) -> PipelineId {
        self.root_pipeline_id
    }

    pub closed spec fn allocator(&self) -> IdAllocator {
        self.ids
    }

    /// The epoch that the next committed scene will carry.
    pub closed spec fn epoch(&self) -> Epoch {
        self.next_epoch
    }

    pub fn new(root_pipeline_id: PipelineId) -> (r: Session)
        ensures
            r.root() == root_pipeline_id,
            r.allocator().next_sc() == 0,
            r.allocator().next_dl() == 0,
            r.epoch() == Epoch(0),
    {
        Session { root_pipeline_id, ids: IdAllocator::new(), next_epoch: Epoch(0) }
    }

    pub fn root_pipeline_id(&self) -> (r: PipelineId)
        ensures
            r == self.root(),
    {
        self.root_pipeline_id
    }

    pub fn next_epoch(&self) -> (r: Epoch)
        ensures
            r == self.epoch(),
    {
        self.next_epoch
    }

    /// A fresh frame builder of the root pipeline that goes on with the
    /// session's identifiers.
    pub fn begin_frame(&self) -> (r: FrameBuilder)
        ensures
            r.wf(),
            r.root() == self.root(),
            r.allocator() == self.allocator(),
            r.origin() == self.allocator(),
            r.contexts().len() == 0,
            r.lists().len() == 0,
            r.filters().len() == 0,
            r.scroll_serial() == 0,
    {
        FrameBuilder::new(self.root_pipeline_id, self.ids)
    }

    /// Commits a frame begun from this session as its next scene. A frame of
    /// another pipeline is refused, and so is one whose starting identifiers
    /// are no longer the session's: its ids could clash with committed ones.
    pub fn commit_frame(&mut self, frame: FrameBuilder, background_color: ColorU, viewport_size: Size) -> (r:
        Result<Scene, SessionError>)
        requires
            frame.wf(),
        ensures
            frame.root() != old(self).root() ==> r == Err::<Scene, SessionError>(
                SessionError::PipelineMismatch,
            ),
            frame.root() == old(self).root() && !(frame.origin().next_sc()
                == old(self).allocator().next_sc() && frame.origin().next_dl()
                == old(self).allocator().next_dl()) ==> r == Err::<Scene, SessionError>(
                SessionError::StaleFrame,
            ),
            frame.root() == old(self).root() && frame.origin().next_sc()
                == old(self).allocator().next_sc() && frame.origin().next_dl()
                == old(self).allocator().next_dl() && old(self).epoch().0 == u32::MAX ==> r
                == Err::<Scene, SessionError>(SessionError::Exhausted),
            frame.root() == old(self).root() && frame.origin().next_sc()
                == old(self).allocator().next_sc() && frame.origin().next_dl()
                == old(self).allocator().next_dl() && old(self).epoch().0 < u32::MAX ==> r is Ok,
            r is Err ==> *final(self) == *old(self),
            r is Ok ==> commit_step(*old(self), frame, *final(self), r->Ok_0) && commits_to(
                frame,
                old(self).epoch(),
                background_color,
                viewport_size,
                r->Ok_0,
                final(self).allocator(),
            ),
    {
        if frame.root_pipeline_id() != self.root_pipeline_id {
            return Err(SessionError::PipelineMismatch);
        }
        if !frame.began_at(&self.ids) {
            return Err(SessionError::StaleFrame);
        }
        if self.next_epoch.0 == u32::MAX {
            return Err(SessionError::Exhausted);
        }
        let epoch = self.next_epoch;
        let (scene, ids) = frame.commit(epoch, background_color, viewport_size);
        self.ids = ids;
        self.next_epoch = epoch.next();
        Ok(scene)
    }

    /// Whether the session can still issue the identifiers and the epoch
    /// of a frame with one stacking context and one display list.
    pub fn has_room_for_root_scene(&self) -> (r: bool)
        ensures
            r == (self.allocator().next_sc() < u64::MAX && self.allocator().next_dl() < u64::MAX
                && self.epoch().0 < u32::MAX),
    {
        self.ids.can_issue_stacking_context_id() && self.ids.can_issue_display_list_id()
            && self.next_epoch.0 < u32::MAX
    }

    /// Commits the root scene of a window of `viewport_size`: one scrollable
    /// stacking context covering the viewport, whose one display list holds
    /// what `item` draws, clipped to the viewport.
    pub fn build_root_scene<T: AsDisplayItem>(
        &mut self,
        item: &T,
        background_color: ColorU,
        viewport_size: Size,
    ) -> (r: Result<Scene, SessionError>)
        ensures
            !(old(self).allocator().next_sc() < u64::MAX && old(self).allocator().next_dl()
                < u64::MAX && old(self).epoch().0 < u32::MAX) ==> r == Err::<Scene, SessionError>(
                SessionError::Exhausted,
            ) && *final(self) == *old(self),
            old(self).allocator().next_sc() < u64::MAX && old(self).allocator().next_dl()
                < u64::MAX && old(self).epoch().0 < u32::MAX ==> r is Ok,
            r is Ok ==> root_scene_of(
                r->Ok_0,
                *old(self),
                *final(self),
                item.display_items(ClipRegion { main: bounds_of(viewport_size) }),
                background_color,
                viewport_size,
            ),
    {
        if !self.has_room_for_root_scene() {
            return Err(SessionError::Exhausted);
        }
        let mut frame = self.begin_frame();
        let bounds = viewport_size.bounds();
        let mut builder = DisplayListBuilder::new();
        item.as_display_item(ClipRegion::simple(&bounds), &mut builder);
        assert(builder.items() =~= item.display_items(ClipRegion { main: bounds_of(viewport_size) }));
        let display_list = match builder.finalize() {
            Ok(list) => list,
            Err(_) => {
                return Err(SessionError::Exhausted);
            },
        };
        let identity = Matrix4::identity();
        let mut context = frame.new_stacking_context(
            ScrollPolicy::Scrollable,
            bounds,
            bounds,
            0,
            &identity,
            &identity,
            MixBlendMode::Normal,
            Vec::new(),
        );
        assert(frame.filters() =~= Seq::<FilterOp>::empty());
        let list_id = frame.add_display_list(display_list, &mut context);
        assert(frame.lists()[0].0 == list_id);
        assert(context.children()[0] == list_id);
        assert(holds_list(frame.lists(), list_id));
        let root = self.root_pipeline_id;
        match frame.add_stacking_context(root, context) {
            Ok(_) => {},
            Err(_) => {
                return Err(SessionError::Exhausted);
            },
        }
        let ghost committed = frame;
        let r = self.commit_frame(frame, background_color, viewport_size);
        assert(r is Ok);
        assert(committed.contexts()[0].1.children() =~= seq![committed.lists()[0].0]);
        r
    }
}

/// Epochs of successive commits of one session strictly increase.
pub proof fn lemma_epochs_increase(
    s0: Session,
    f1: FrameBuilder,
    s1: Session,
    a: Scene,
    f2: FrameBuilder,
    s2: Session,
    b: Scene,
)
    requires
        commit_step(s0, f1, s1, a),
        commit_step(s1, f2, s2, b),
    ensures
        a.tag().0 < b.tag().0,
        s0.epoch().0 < s2.epoch().0,
{
}

/// Display-list ids of two successive frames of one session never meet:
/// every id of the later frame is above every id of the earlier one.
pub proof fn lemma_frames_share_no_display_list_id(
    s0: Session,
    f1: FrameBuilder,
    s1: Session,
    a: Scene,
    f2: FrameBuilder,
    s2: Session,
    b: Scene,
    i: int,
    j: int,
)
    requires
        f1.wf(),
        f2.wf(),
        commit_step(s0, f1, s1, a),
        commit_step(s1, f2, s2, b),
        0 <= i < f1.lists().len(),
        0 <= j < f2.lists().len(),
    ensures
        f1.lists()[i].0.0 < f2.lists()[j].0.0,
{
    crate::scene::lemma_display_list_ids_increase(f1);
    crate::scene::lemma_display_list_ids_increase(f2);
    assert(f1.lists()[i].0.0 < f1.allocator().next_dl());
}

/// A scene as the root scene of a session commits it: one scrollable
/// context over the viewport, with default attributes, whose only child is
/// the scene's only display list, holding `items`.
pub open spec fn root_scene_of(
    scene: Scene,
    before: Session,
    after: Session,
    items: Seq<DisplayItem>,
    background_color: ColorU,
    viewport_size: Size,
) -> bool {
    let bounds = bounds_of(viewport_size);
    &&& scene.pipeline() == before.root()
    &&& scene.tag() == before.epoch()
    &&& after.epoch().0 == before.epoch().0 + 1
    &&& after.root() == before.root()
    &&& after.allocator().next_sc() == before.allocator().next_sc() + 1
    &&& after.allocator().next_dl() == before.allocator().next_dl() + 1
    &&& scene.background() == background_color
    &&& scene.viewport() == viewport_size
    &&& scene.contexts().len() == 1
    &&& scene.lists().len() == 1
    &&& scene.filters().len() == 0
    &&& scene.contexts()[0].0.0 == before.allocator().next_sc()
    &&& scene.lists()[0].0.0 == before.allocator().next_dl()
    &&& scene.lists()[0].1 == items
    &&& scene.contexts()[0].1.children() == seq![scene.lists()[0].0]
    &&& scene.contexts()[0].1.attributes().0 == None::<ScrollLayerId>
    &&& scene.contexts()[0].1.attributes().1 == ScrollPolicy::Scrollable
    &&& scene.contexts()[0].1.attributes().2 == bounds
    &&& scene.contexts()[0].1.attributes().3 == bounds
    &&& scene.contexts()[0].1.attributes().4 == 0
    &&& is_identity(scene.contexts()[0].1.attributes().5)
    &&& is_identity(scene.contexts()[0].1.attributes().6)
    &&& scene.contexts()[0].1.attributes().7 == MixBlendMode::Normal
    &&& scene.contexts()[0].1.attributes().8 == (ItemRange { start: 0, length: 0 })
}

} // verus!
