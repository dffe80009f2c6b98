use crate::cache::{AnyViewState, Surroundings};
use crate::entity::EntityId;
use crate::host::{Bounds, Host};
use crate::layout::{LayoutAction, LayoutEvent};
use crate::paint::{PaintAction, PaintEvent};
use crate::prepaint::{PrepaintAction, PrepaintEvent};
use crate::view::OffscreenSurfaceId;
use std::ops::Range;
use vstd::prelude::*;

verus! {

/// A surface that was shown in a frame. If it was redrawn, its pixels are new.
pub struct ShownSurface<H: Host> {
    pub id: OffscreenSurfaceId,
    pub bounds: Bounds<H>,
    pub redrawn: bool,
}

/// A part of the last frame's paint record that was taken over. With its scene means: with
/// its drawing commands, and not only with its event handlers and element state.
pub struct ReusedPaint<H: Host> {
    pub range: Range<H::PaintIndex>,
    pub with_scene: bool,
}

/// A window, as far as a pass over a view can tell.
pub struct WindowState<H: Host> {
    /// Whether caching is ignored.
    pub refreshing: bool,
    /// Whether the inspector is picking an element.
    pub picking: bool,
    /// The views that are being rendered, the innermost last.
    pub view_stack: Seq<EntityId>,
    /// The view that is being drawn.
    pub view_id: Option<EntityId>,
    pub content_mask: H::ContentMask,
    pub text_style: H::TextStyle,
    /// The views that have been notified since they were last drawn.
    pub dirty: Set<EntityId>,
    /// What is kept of cached views.
    pub kept: Map<H::GlobalId, AnyViewState<H>>,
    /// The entities that were read in this frame.
    pub accessed: Set<EntityId>,
    /// For each place that is noting which entities are read, those that it has noted, the
    /// innermost last.
    pub detecting: Seq<Set<EntityId>>,
    pub prepaint_index: H::PrepaintIndex,
    pub paint_index: H::PaintIndex,
    /// The parts of the last frame's prepaint record that were taken over into this one.
    pub reused_prepaint: Seq<Range<H::PrepaintIndex>>,
    /// The parts of the last frame's paint record that were taken over into this one.
    pub reused_paint: Seq<ReusedPaint<H>>,
    /// The number of drawing commands in the window's own scene.
    pub scene: nat,
    /// The surfaces that were shown in this frame.
    pub shown: Seq<ShownSurface<H>>,
}

impl<H: Host> WindowState<H> {
    /// What is kept under `global_id`, if anything is.
    pub open spec fn kept_under(self, global_id: H::GlobalId) -> Option<AnyViewState<H>> {
        if self.kept.contains_key(global_id) {
            Some(self.kept[global_id])
        } else {
            None
        }
    }

    /// What the window has around the view `entity_id`.
    pub open spec fn around(self, entity_id: EntityId) -> Surroundings<H> {
        Surroundings {
            content_mask: self.content_mask,
            text_style: self.text_style,
            dirty: self.dirty.contains(entity_id),
            refreshing: self.refreshing,
        }
    }
}

/// What reading entities does: what is noted stays noted, and what is noted newly counts as
/// read in this frame.
pub open spec fn reads_on<H: Host>(before: WindowState<H>, after: WindowState<H>) -> bool {
    &&& before.accessed.subset_of(after.accessed)
    &&& after.detecting.len() == before.detecting.len()
    &&& forall|i: int|
        #![trigger after.detecting[i]]
        0 <= i < after.detecting.len() ==> {
            &&& before.detecting[i].subset_of(after.detecting[i])
            &&& after.detecting[i].difference(before.detecting[i]).subset_of(after.accessed)
        }
}

/// What work on the elements inside a view leaves as it was. It may read entities, and do
/// anything to what is not named here.
pub open spec fn nested_work<H: Host>(before: WindowState<H>, after: WindowState<H>) -> bool {
    &&& reads_on(before, after)
    &&& after.refreshing == before.refreshing
    &&& after.picking == before.picking
    &&& after.view_stack == before.view_stack
    &&& after.content_mask == before.content_mask
    &&& after.text_style == before.text_style
}

/// What a window does when the prepaint pass asks for `action`: it answers with `event`, and
/// `after` is the window then.
pub open spec fn prepaint_answer<H: Host>(
    entity_id: EntityId,
    before: WindowState<H>,
    action: PrepaintAction<H>,
    event: PrepaintEvent<H>,
    after: WindowState<H>,
) -> bool {
    match action {
        PrepaintAction::SetViewId(id) => {
            &&& event is Done
            &&& after == WindowState { view_id: Some(id), ..before }
        },
        PrepaintAction::PushView(id) => {
            &&& event is Done
            &&& after == WindowState { view_stack: before.view_stack.push(id), ..before }
        },
        PrepaintAction::PrepaintElement(_) => {
            &&& event is Element
            &&& nested_work(before, after)
        },
        PrepaintAction::TakeState(global_id) => {
            &&& event == PrepaintEvent::State(before.kept_under(global_id))
            &&& after == WindowState { kept: before.kept.remove(global_id), ..before }
        },
        PrepaintAction::ReadSurroundings => {
            &&& event == PrepaintEvent::Surroundings(before.around(entity_id))
            &&& after == before
        },
        PrepaintAction::ReadIndex => {
            &&& event == PrepaintEvent::<H>::Index(before.prepaint_index)
            &&& after == before
        },
        PrepaintAction::ReusePrepaint(range) => {
            &&& event is Done
            &&& after == WindowState {
                prepaint_index: after.prepaint_index,
                kept: after.kept,
                reused_prepaint: before.reused_prepaint.push(range),
                ..before
            }
        },
        PrepaintAction::ExtendAccessed(entities) => {
            &&& event is Done
            &&& after == WindowState { accessed: before.accessed.union(entities@), ..before }
        },
        PrepaintAction::StartRefreshing => {
            &&& event == PrepaintEvent::<H>::Refreshing(before.refreshing)
            &&& after == WindowState { refreshing: true, ..before }
        },
        PrepaintAction::StartDetecting => {
            &&& event is Done
            &&& after == WindowState { detecting: before.detecting.push(Set::empty()), ..before }
        },
        PrepaintAction::Render(_) => {
            &&& event is Element
            &&& nested_work(before, after)
        },
        PrepaintAction::LayoutAsRoot(_, _) => {
            &&& event is Element
            &&& nested_work(before, after)
        },
        PrepaintAction::PrepaintAt(_, _) => {
            &&& event is Element
            &&& nested_work(before, after)
        },
        PrepaintAction::EndDetecting => {
            &&& before.detecting.len() > 0
            &&& event matches PrepaintEvent::Accessed(entities)
            &&& entities@ == before.detecting.last()
            &&& after == WindowState { detecting: before.detecting.drop_last(), ..before }
        },
        PrepaintAction::SetRefreshing(refreshing) => {
            &&& event is Done
            &&& after == WindowState { refreshing, ..before }
        },
        PrepaintAction::PutState(global_id, state) => {
            &&& event is Done
            &&& after == WindowState { kept: before.kept.insert(global_id, state), ..before }
        },
        PrepaintAction::PopView => {
            &&& event is Done
            &&& before.view_stack.len() > 0
            &&& after == WindowState { view_stack: before.view_stack.drop_last(), ..before }
        },
        PrepaintAction::Finish(_) => false,
    }
}

/// What a window does when the layout pass asks for `action`: it answers with `event`, and
/// `after` is the window then.
pub open spec fn layout_answer<H: Host>(
    before: WindowState<H>,
    action: LayoutAction<H>,
    event: LayoutEvent<H>,
    after: WindowState<H>,
) -> bool {
    match action {
        LayoutAction::PushView(id) => {
            &&& event is Done
            &&& after == WindowState { view_stack: before.view_stack.push(id), ..before }
        },
        LayoutAction::ReadPicking => {
            &&& event == LayoutEvent::<H>::Picking(before.picking)
            &&& after == before
        },
        LayoutAction::RequestLayout(_) => {
            &&& event is Layout
            &&& after == before
        },
        LayoutAction::Render(_) => {
            &&& event is Element
            &&& nested_work(before, after)
        },
        LayoutAction::RequestElementLayout(_) => {
            &&& event is ElementLayout
            &&& nested_work(before, after)
        },
        LayoutAction::PopView => {
            &&& event is Done
            &&& before.view_stack.len() > 0
            &&& after == WindowState { view_stack: before.view_stack.drop_last(), ..before }
        },
        LayoutAction::Finish(_, _) => false,
    }
}

/// What a window does when the paint pass asks for `action`: it answers with `event`, and
/// `after` is the window then.
pub open spec fn paint_answer<H: Host>(
    before: WindowState<H>,
    action: PaintAction<H>,
    event: PaintEvent<H>,
    after: WindowState<H>,
) -> bool {
    match action {
        PaintAction::PushView(id) => {
            &&& event is Done
            &&& after == WindowState { view_stack: before.view_stack.push(id), ..before }
        },
        PaintAction::ReadPicking => {
            &&& event == PaintEvent::<H>::Picking(before.picking)
            &&& after == before
        },
        PaintAction::TakeState(global_id) => {
            &&& event == PaintEvent::State(before.kept_under(global_id))
            &&& after == WindowState { kept: before.kept.remove(global_id), ..before }
        },
        PaintAction::ReadIndex => {
            &&& event == PaintEvent::<H>::Index(before.paint_index)
            &&& after == before
        },
        PaintAction::StartRefreshing => {
            &&& event == PaintEvent::<H>::Refreshing(before.refreshing)
            &&& after == WindowState { refreshing: true, ..before }
        },
        PaintAction::PaintElement => {
            &&& event is Done
            &&& nested_work(before, after)
        },
        PaintAction::PaintOffscreen { id, bounds, redraw } => {
            let surface = ShownSurface { id, bounds, redrawn: redraw };
            &&& event is Done
            &&& if redraw {
                &&& nested_work(before, after)
                &&& after.shown.len() > 0
                &&& after.shown.last() == surface
                &&& after.scene == before.scene
            } else {
                after == WindowState {
                    paint_index: after.paint_index,
                    shown: before.shown.push(surface),
                    ..before
                }
            }
        },
        PaintAction::ReusePaint(range) => {
            &&& event is Done
            &&& after == WindowState {
                paint_index: after.paint_index,
                kept: after.kept,
                scene: after.scene,
                shown: after.shown,
                reused_paint: before.reused_paint.push(ReusedPaint { range, with_scene: true }),
                ..before
            }
        },
        PaintAction::ReusePaintWithoutScene(range) => {
            &&& event is Done
            &&& after == WindowState {
                paint_index: after.paint_index,
                kept: after.kept,
                reused_paint: before.reused_paint.push(ReusedPaint { range, with_scene: false }),
                ..before
            }
        },
        PaintAction::SetRefreshing(refreshing) => {
            &&& event is Done
            &&& after == WindowState { refreshing, ..before }
        },
        PaintAction::PutState(global_id, state) => {
            &&& event is Done
            &&& after == WindowState { kept: before.kept.insert(global_id, state), ..before }
        },
        PaintAction::PopView => {
            &&& event is Done
            &&& before.view_stack.len() > 0
            &&& after == WindowState { view_stack: before.view_stack.drop_last(), ..before }
        },
        PaintAction::Finish => false,
    }
}

} // verus!
