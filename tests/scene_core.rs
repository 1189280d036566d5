use scene_builder::aux_lists::{AuxiliaryListsBuilder, FilterOp, ItemRange};
use scene_builder::backend::SceneSlot;
use scene_builder::display_list::{AsDisplayItem, BuilderError, DisplayItem, DisplayListBuilder};
use scene_builder::geometry::{ClipRegion, ColorU, Matrix4, Rect, Size};
use scene_builder::ids::{DisplayListId, Epoch, IdAllocator, PipelineId, ScrollLayerId};
use scene_builder::render_loop::{LoopAction, LoopState, PresentFailurePolicy, RenderLoop, WindowEvent};
use scene_builder::scene::{FrameBuilder, MixBlendMode, SceneError, ScrollPolicy, StackingContext};
use scene_builder::session::{Session, SessionError};

fn plain_context(frame: &mut FrameBuilder) -> StackingContext {
    let bounds = Rect::new(0, 0, 10, 10);
    let identity = Matrix4::identity();
    frame.new_stacking_context(
        ScrollPolicy::Scrollable,
        bounds,
        bounds,
        0,
        &identity,
        &identity,
        MixBlendMode::Normal,
        Vec::new(),
    )
}

fn list_with_one_rect(x: i32) -> scene_builder::display_list::DisplayList {
    let mut builder = DisplayListBuilder::new();
    let r = Rect::new(x, 0, 1, 1);
    builder.push_rect(r, ClipRegion::simple(&r), ColorU::new(1, 2, 3, 4)).unwrap();
    builder.finalize().unwrap()
}

#[test]
fn id_allocator_counts_from_zero() {
    let mut ids = IdAllocator::new();
    assert_eq!(ids.next_stacking_context_id().0, 0);
    assert_eq!(ids.next_stacking_context_id().0, 1);
    assert_eq!(ids.next_display_list_id().0, 0);
    assert_eq!(ids.next_display_list_id().0, 1);
    assert_eq!(ids.next_stacking_context_id().0, 2);
}

#[test]
fn display_list_ids_strictly_increase() {
    let mut frame = FrameBuilder::new(PipelineId(0, 0), IdAllocator::new());
    let mut context = plain_context(&mut frame);
    let mut seen: Vec<u64> = Vec::new();
    for i in 0..5 {
        let id = frame.add_display_list(list_with_one_rect(i), &mut context);
        seen.push(id.0);
    }
    assert_eq!(seen, vec![0, 1, 2, 3, 4]);
    for w in seen.windows(2) {
        assert!(w[0] < w[1]);
    }
}

#[test]
fn children_after_commit_are_those_added() {
    let mut frame = FrameBuilder::new(PipelineId(0, 0), IdAllocator::new());
    let mut first = plain_context(&mut frame);
    let mut second = plain_context(&mut frame);
    let a = frame.add_display_list(list_with_one_rect(0), &mut first);
    let b = frame.add_display_list(list_with_one_rect(1), &mut second);
    let c = frame.add_display_list(list_with_one_rect(2), &mut first);
    let first_id = frame.add_stacking_context(PipelineId(0, 0), first).unwrap();
    let second_id = frame.add_stacking_context(PipelineId(0, 0), second).unwrap();
    assert_eq!(first_id.0, 0);
    assert_eq!(second_id.0, 1);
    let (scene, ids) = frame.commit(Epoch(3), ColorU::new(0, 0, 0, 255), Size::new(20, 20));
    assert_eq!(scene.stacking_context_count(), 2);
    assert_eq!(scene.stacking_context(0).display_lists(), &vec![a, c]);
    assert_eq!(scene.stacking_context(1).display_lists(), &vec![b]);
    assert_eq!(scene.display_list_count(), 3);
    assert_eq!(scene.display_list_id(0), a);
    assert_eq!(scene.display_list_id(1), b);
    assert_eq!(scene.display_list_id(2), c);
    assert_eq!(scene.epoch(), Epoch(3));
    assert_eq!(scene.find_display_list(c), Some(2));
    assert_eq!(scene.find_display_list(DisplayListId(9)), None);
    let mut ids = ids;
    assert_eq!(ids.next_display_list_id(), DisplayListId(3));
}

#[test]
fn stacking_context_of_other_pipeline_is_refused() {
    let mut frame = FrameBuilder::new(PipelineId(1, 0), IdAllocator::new());
    let context = plain_context(&mut frame);
    assert_eq!(frame.add_stacking_context(PipelineId(1, 1), context), Err(SceneError::PipelineMismatch));
}

#[test]
fn stacking_context_with_foreign_display_list_is_refused() {
    let mut other = FrameBuilder::new(PipelineId(0, 0), IdAllocator::new());
    let mut frame = FrameBuilder::new(PipelineId(0, 0), IdAllocator::new());
    let mut context = plain_context(&mut frame);
    other.add_display_list(list_with_one_rect(0), &mut context);
    assert_eq!(
        frame.add_stacking_context(PipelineId(0, 0), context),
        Err(SceneError::UnregisteredDisplayList)
    );
}

#[test]
fn scroll_layer_ids_are_distinct_serials_from_zero() {
    let mut frame = FrameBuilder::new(PipelineId(2, 7), IdAllocator::new());
    assert!(frame.has_room());
    let got: Vec<ScrollLayerId> = (0..4).map(|_| frame.next_scroll_layer_id()).collect();
    for (n, id) in got.iter().enumerate() {
        assert_eq!(*id, ScrollLayerId { pipeline_id: PipelineId(2, 7), depth: 0, serial: n as u64 });
    }
    for i in 0..got.len() {
        for j in 0..got.len() {
            if i != j {
                assert_ne!(got[i], got[j]);
            }
        }
    }
}

#[test]
fn finalize_twice_is_invalid_state() {
    let mut builder = DisplayListBuilder::new();
    let r = Rect::new(0, 0, 5, 5);
    builder.push_rect(r, ClipRegion::simple(&r), ColorU::new(0, 255, 0, 255)).unwrap();
    let list = builder.finalize().unwrap();
    assert_eq!(list.len(), 1);
    assert_eq!(builder.finalize().unwrap_err(), BuilderError::InvalidState);
}

#[test]
fn push_after_finalize_is_invalid_state() {
    let mut builder = DisplayListBuilder::new();
    builder.finalize().unwrap();
    let r = Rect::new(0, 0, 5, 5);
    assert_eq!(builder.push_rect(r, ClipRegion::simple(&r), ColorU::new(0, 0, 0, 0)), Err(BuilderError::InvalidState));
    assert_eq!(builder.push_stacking_context(r, 0), Err(BuilderError::InvalidState));
    assert_eq!(builder.pop_stacking_context(), Err(BuilderError::InvalidState));
    builder.reset();
    assert_eq!(builder.pop_stacking_context(), Ok(()));
    let list = builder.finalize().unwrap();
    assert_eq!(list.len(), 1);
    assert_eq!(list.item(0), DisplayItem::PopStackingContext);
}

#[test]
fn display_list_keeps_emission_order() {
    let mut builder = DisplayListBuilder::new();
    let r = Rect::new(1, 2, 3, 4);
    builder.push_stacking_context(r, 5).unwrap();
    builder.push_rect(r, ClipRegion::simple(&r), ColorU::new(9, 8, 7, 6)).unwrap();
    builder.pop_stacking_context().unwrap();
    let list = builder.finalize().unwrap();
    assert_eq!(list.len(), 3);
    assert_eq!(list.item(0), DisplayItem::PushStackingContext { bounds: r, z_index: 5 });
    assert_eq!(
        list.item(1),
        DisplayItem::Rectangle { bounds: r, clip: ClipRegion { main: r }, color: ColorU::new(9, 8, 7, 6) }
    );
    assert_eq!(list.item(2), DisplayItem::PopStackingContext);
}

#[test]
fn auxiliary_lists_ranges_and_single_finalize() {
    let mut aux = AuxiliaryListsBuilder::new();
    let first = aux.add_filters(&vec![FilterOp::Blur(3), FilterOp::Opacity(50)]).unwrap();
    let second = aux.add_filters(&vec![FilterOp::Invert(100)]).unwrap();
    assert_eq!(first, ItemRange { start: 0, length: 2 });
    assert_eq!(second, ItemRange { start: 2, length: 1 });
    let lists = aux.finalize().unwrap();
    assert_eq!(lists.filter_count(), 3);
    assert_eq!(lists.filter(2), FilterOp::Invert(100));
    assert_eq!(aux.finalize().unwrap_err(), BuilderError::InvalidState);
    assert_eq!(aux.add_filters(&vec![]), Err(BuilderError::InvalidState));
}

#[test]
fn stacking_context_filters_go_to_side_tables() {
    let mut frame = FrameBuilder::new(PipelineId(0, 0), IdAllocator::new());
    let r = Rect::new(0, 0, 1, 1);
    let identity = Matrix4::identity();
    let a = frame.new_stacking_context(
        ScrollPolicy::Fixed, r, r, 1, &identity, &identity, MixBlendMode::Multiply,
        vec![FilterOp::Sepia(10)],
    );
    let b = frame.new_stacking_context(
        ScrollPolicy::Fixed, r, r, 2, &identity, &identity, MixBlendMode::Screen,
        vec![FilterOp::Grayscale(20), FilterOp::Blur(1)],
    );
    assert_eq!(a.filters, ItemRange { start: 0, length: 1 });
    assert_eq!(b.filters, ItemRange { start: 1, length: 2 });
    assert_eq!(b.z_index, 2);
    assert!(b.display_lists().is_empty());
    frame.add_stacking_context(PipelineId(0, 0), a).unwrap();
    frame.add_stacking_context(PipelineId(0, 0), b).unwrap();
    let (scene, _) = frame.commit(Epoch(0), ColorU::new(0, 0, 0, 0), Size::new(1, 1));
    assert_eq!(scene.auxiliary_lists().filter_count(), 3);
    assert_eq!(scene.auxiliary_lists().filter(1), FilterOp::Grayscale(20));
}

#[test]
fn session_epochs_strictly_increase() {
    let mut session = Session::new(PipelineId(0, 0));
    let mut epochs: Vec<u32> = Vec::new();
    for _ in 0..3 {
        let frame = session.begin_frame();
        let scene = session.commit_frame(frame, ColorU::new(0, 0, 0, 255), Size::new(8, 8)).unwrap();
        epochs.push(scene.epoch().0);
    }
    assert_eq!(epochs, vec![0, 1, 2]);
    assert_eq!(session.next_epoch(), Epoch(3));
}

#[test]
fn stale_frame_is_refused() {
    let mut session = Session::new(PipelineId(0, 0));
    let mut first = session.begin_frame();
    let mut second = session.begin_frame();
    let mut early = plain_context(&mut first);
    first.add_display_list(list_with_one_rect(1), &mut early);
    let mut context = plain_context(&mut second);
    second.add_display_list(list_with_one_rect(0), &mut context);
    session.commit_frame(first, ColorU::new(0, 0, 0, 255), Size::new(8, 8)).unwrap();
    assert_eq!(
        session.commit_frame(second, ColorU::new(0, 0, 0, 255), Size::new(8, 8)).err(),
        Some(SessionError::StaleFrame)
    );
    assert_eq!(session.next_epoch(), Epoch(1));
}

#[test]
fn frame_of_other_pipeline_is_refused_by_session() {
    let mut session = Session::new(PipelineId(0, 0));
    let frame = FrameBuilder::new(PipelineId(0, 1), IdAllocator::new());
    assert_eq!(
        session.commit_frame(frame, ColorU::new(0, 0, 0, 255), Size::new(8, 8)).err(),
        Some(SessionError::PipelineMismatch)
    );
}

#[test]
fn display_list_ids_continue_across_frames() {
    let mut session = Session::new(PipelineId(0, 0));
    let item = Rect::new(0, 0, 1, 1);
    let a = session.build_root_scene(&item, ColorU::new(0, 0, 0, 255), Size::new(4, 4)).unwrap();
    let b = session.build_root_scene(&item, ColorU::new(0, 0, 0, 255), Size::new(4, 4)).unwrap();
    assert_eq!(a.display_list_id(0), DisplayListId(0));
    assert_eq!(b.display_list_id(0), DisplayListId(1));
    assert_eq!(a.stacking_context_id(0).0, 0);
    assert_eq!(b.stacking_context_id(0).0, 1);
}

#[test]
fn backend_keeps_newer_scene_over_older_epoch() {
    let mut session = Session::new(PipelineId(0, 0));
    let item = Rect::new(0, 0, 1, 1);
    let old_scene = session.build_root_scene(&item, ColorU::new(0, 0, 0, 255), Size::new(4, 4)).unwrap();
    let new_scene = session.build_root_scene(&item, ColorU::new(0, 0, 0, 255), Size::new(4, 4)).unwrap();
    let mut slot = SceneSlot::new();
    assert_eq!(slot.displayed_epoch(), None);
    assert!(slot.set_root_scene(new_scene));
    assert_eq!(slot.displayed_epoch(), Some(Epoch(1)));
    assert!(!slot.set_root_scene(old_scene));
    assert_eq!(slot.displayed_epoch(), Some(Epoch(1)));
    slot.activate_pipeline(PipelineId(0, 0));
    assert_eq!(slot.active_pipeline(), Some(PipelineId(0, 0)));
    assert_eq!(slot.scene().unwrap().epoch(), Epoch(1));
}

#[test]
fn backend_refuses_equal_epoch() {
    let mut frame = FrameBuilder::new(PipelineId(0, 0), IdAllocator::new());
    let (a, ids) = frame.commit(Epoch(5), ColorU::new(0, 0, 0, 255), Size::new(4, 4));
    frame = FrameBuilder::new(PipelineId(0, 0), ids);
    let (b, _) = frame.commit(Epoch(5), ColorU::new(1, 1, 1, 255), Size::new(4, 4));
    let mut slot = SceneSlot::new();
    assert!(slot.set_root_scene(a));
    assert!(!slot.set_root_scene(b));
    assert_eq!(slot.scene().unwrap().background_color(), ColorU::new(0, 0, 0, 255));
}

#[test]
fn root_scene_with_one_green_rectangle() {
    let mut session = Session::new(PipelineId(0, 0));
    let item = Rect { origin_x: 0, origin_y: 0, size_x: 100, size_y: 100 };
    let background = ColorU::new(77, 0, 0, 255);
    let scene = session.build_root_scene(&item, background, Size::new(200, 200)).unwrap();
    assert_eq!(scene.pipeline_id(), PipelineId(0, 0));
    assert_eq!(scene.epoch(), Epoch(0));
    assert_eq!(scene.background_color(), background);
    assert_eq!(scene.viewport_size(), Size::new(200, 200));
    assert_eq!(scene.stacking_context_count(), 1);
    assert_eq!(scene.display_list_count(), 1);
    let context = scene.stacking_context(0);
    assert_eq!(context.bounds, Rect::new(0, 0, 200, 200));
    assert_eq!(context.overflow, Rect::new(0, 0, 200, 200));
    assert_eq!(context.scroll_policy, ScrollPolicy::Scrollable);
    assert_eq!(context.mix_blend_mode, MixBlendMode::Normal);
    assert_eq!(context.transform, Matrix4::identity());
    assert_eq!(context.display_lists(), &vec![scene.display_list_id(0)]);
    let list = scene.display_list(0);
    assert_eq!(list.len(), 1);
    match list.item(0) {
        DisplayItem::Rectangle { bounds, clip, color } => {
            assert_eq!(bounds, Rect::new(0, 0, 100, 100));
            assert_eq!(clip, ClipRegion { main: Rect::new(0, 0, 200, 200) });
            assert_eq!(color, ColorU { r: 0, g: 255, b: 0, a: 255 });
        }
        other => panic!("expected a rectangle, got {:?}", other),
    }
    assert_eq!(scene.auxiliary_lists().filter_count(), 0);
}

#[test]
fn rect_draws_green_rectangle() {
    let mut builder = DisplayListBuilder::new();
    let item = Rect::new(3, 4, 5, 6);
    let clip = ClipRegion::simple(&Rect::new(0, 0, 9, 9));
    item.as_display_item(clip, &mut builder);
    let list = builder.finalize().unwrap();
    assert_eq!(list.len(), 1);
    assert_eq!(list.item(0), DisplayItem::Rectangle { bounds: item, clip, color: ColorU::new(0, 255, 0, 255) });
}

#[test]
fn close_after_n_iterations_terminates() {
    let mut driver = RenderLoop::new(PresentFailurePolicy::Ignore);
    let n = 4;
    let mut renders = 0;
    for _ in 0..n {
        assert_eq!(driver.on_event(WindowEvent::Awakened), LoopAction::RenderFrame);
        renders += 1;
    }
    assert_eq!(driver.state(), LoopState::Running);
    assert_eq!(driver.on_event(WindowEvent::Closed), LoopAction::Exit);
    assert_eq!(driver.state(), LoopState::Terminated);
    for e in [WindowEvent::Awakened, WindowEvent::Other, WindowEvent::Closed] {
        assert_eq!(driver.on_event(e), LoopAction::Exit);
    }
    assert_eq!(renders, n);
    assert!(!driver.is_running());
}

#[test]
fn termination_key_ends_loop_other_keys_do_not() {
    let mut driver = RenderLoop::new(PresentFailurePolicy::Ignore);
    assert_eq!(driver.on_event(WindowEvent::KeyboardInput { scan_code: 10 }), LoopAction::RenderFrame);
    assert_eq!(driver.on_event(WindowEvent::KeyboardInput { scan_code: 9 }), LoopAction::Exit);
    assert_eq!(driver.state(), LoopState::Terminated);
}

#[test]
fn present_failure_policy_is_explicit() {
    let mut lenient = RenderLoop::new(PresentFailurePolicy::Ignore);
    assert_eq!(lenient.on_present_result(false), LoopState::Running);
    let mut strict = RenderLoop::new(PresentFailurePolicy::Terminate);
    assert_eq!(strict.on_present_result(true), LoopState::Running);
    assert_eq!(strict.on_present_result(false), LoopState::Terminated);
    assert_eq!(strict.on_event(WindowEvent::Awakened), LoopAction::Exit);
}

#[test]
fn drawing_into_finalized_builder_is_refused() {
    let mut builder = DisplayListBuilder::new();
    let r = Rect::new(0, 0, 5, 5);
    builder.push_rect(r, ClipRegion::simple(&r), ColorU::new(1, 1, 1, 1)).unwrap();
    let list = builder.finalize().unwrap();
    let item = Rect::new(1, 1, 2, 2);
    item.as_display_item(ClipRegion::simple(&r), &mut builder);
    assert_eq!(builder.finalize().unwrap_err(), BuilderError::InvalidState);
    assert_eq!(list.len(), 1);
    assert_eq!(list.item(0), DisplayItem::Rectangle { bounds: r, clip: ClipRegion { main: r }, color: ColorU::new(1, 1, 1, 1) });
}

#[test]
fn flattened_scene_wraps_children_in_context_markers() {
    let mut frame = FrameBuilder::new(PipelineId(0, 0), IdAllocator::new());
    let mut first = plain_context(&mut frame);
    let mut second = plain_context(&mut frame);
    second.z_index = 3;
    frame.add_display_list(list_with_one_rect(0), &mut first);
    frame.add_display_list(list_with_one_rect(1), &mut second);
    frame.add_display_list(list_with_one_rect(2), &mut first);
    frame.add_stacking_context(PipelineId(0, 0), first).unwrap();
    frame.add_stacking_context(PipelineId(0, 0), second).unwrap();
    let (scene, _) = frame.commit(Epoch(0), ColorU::new(0, 0, 0, 255), Size::new(20, 20));
    let rect = |x: i32| {
        let r = Rect::new(x, 0, 1, 1);
        DisplayItem::Rectangle { bounds: r, clip: ClipRegion { main: r }, color: ColorU::new(1, 2, 3, 4) }
    };
    let bounds = Rect::new(0, 0, 10, 10);
    assert_eq!(
        scene.flattened_items(),
        vec![
            DisplayItem::PushStackingContext { bounds, z_index: 0 },
            rect(0),
            rect(2),
            DisplayItem::PopStackingContext,
            DisplayItem::PushStackingContext { bounds, z_index: 3 },
            rect(1),
            DisplayItem::PopStackingContext,
        ]
    );
}
