use vstd::prelude::*;

use crate::ids::{Epoch, PipelineId};
use crate::scene::Scene;

verus! {

/// Whether a scene tagged `e` replaces the one displayed at `current`:
/// only a strictly newer epoch does.
pub open spec fn adopts(current: Option<Epoch>, e: Epoch) -> bool {
    match current {
        None => true,
        Some(c) => c.0 < e.0,
    }
}

/// An epoch as a number, with no epoch below every epoch.
pub open spec fn rank(e: Option<Epoch>) -> int {
    match e {
        None => -1,
        Some(c) => c.0 as int,
    }
}

/// The displayed epoch after a scene tagged `e` is offered.
pub open spec fn epoch_after(current: Option<Epoch>, e: Epoch) -> Option<Epoch> {
    if adopts(current, e) {
        Some(e)
    } else {
        current
    }
}

/// The backend's side of a submission: the root scene it displays and the
/// pipeline it renders. A scene replaces the displayed one whole, and only
/// when its epoch is newer.
pub struct SceneSlot {
    scene: Option<Scene>,
    active_pipeline: Option<PipelineId>,
}

impl SceneSlot {
    pub closed spec fn current(&self) -> Option<Scene> {
        self.scene
    }

    /// The epoch of the displayed scene.
    pub closed spec fn displayed(&self) -> Option<Epoch> {
        match self.scene {
            None => None,
            Some(s) => Some(s.tag()),
        }
    }

    pub closed spec fn active(&self) -> Option<PipelineId> {
        self.active_pipeline
    }

    pub fn new() -> (r: SceneSlot)
        ensures
            r.current() is None,
            r.displayed() is None,
            r.active() is None,
    {
        SceneSlot { scene: None, active_pipeline: None }
    }

    /// Offers a committed scene; it is adopted whole if its epoch is newer
    /// than the displayed one, else the slot is left as it was.
    pub fn set_root_scene(&mut self, scene: Scene) -> (adopted: bool)
        ensures
            adopted == adopts(old(self).displayed(), scene.tag()),
            final(self).displayed() == epoch_after(old(self).displayed(), scene.tag()),
            adopted ==> final(self).current() == Some(scene),
            !adopted ==> final(self).current() == old(self).current(),
            final(self).active() == old(self).active(),
    {
        let adopt = match &self.scene {
            None => true,
            Some(s) => s.epoch().0 < scene.epoch().0,
        };
        if adopt {
            self.scene = Some(scene);
        }
        adopt
    }

    /// Makes `pipeline_id` the pipeline to render.
    pub fn activate_pipeline(&mut self, pipeline_id: PipelineId)
        ensures
            final(self).active() == Some(pipeline_id),
            final(self).current() == old(self).current(),
            final(self).displayed() == old(self).displayed(),
    {
        self.active_pipeline = Some(pipeline_id);
    }

    pub fn displayed_epoch(&self) -> (r: Option<Epoch>)
        ensures
            r == self.displayed(),
    {
        match &self.scene {
            None => None,
            Some(s) => Some(s.epoch()),
        }
    }

    pub fn active_pipeline(&self) -> (r: Option<PipelineId>)
        ensures
            r == self.active(),
    {
        self.active_pipeline
    }

    pub fn scene(&self) -> (r: Option<&Scene>)
        ensures
            r is None == self.current() is None,
            r is Some ==> *r->0 == self.current()->0,
    {
        match &self.scene {
            None => None,
            Some(s) => Some(s),
        }
    }
}

/// Offering a scene never takes the displayed epoch back: afterwards some
/// scene is displayed, and its epoch is at least the one before.
pub proof fn lemma_displayed_epoch_never_regresses(current: Option<Epoch>, e: Epoch)
    ensures
        epoch_after(current, e) is Some,
        rank(current) <= rank(epoch_after(current, e)),
        e.0 <= rank(current) ==> epoch_after(current, e) == current,
{
}

} // verus!
