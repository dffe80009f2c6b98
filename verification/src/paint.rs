use crate::cache::AnyViewState;
use crate::entity::EntityId;
use crate::host::{Bounds, Host};
use crate::view::{AnyView, OffscreenSurfaceId};
use std::ops::Range;
use vstd::prelude::*;

verus! {

/// What the window has to do next in the paint pass over a view.
pub enum PaintAction<H: Host> {
    /// Put the view on the stack of views that are being rendered.
    PushView(EntityId),
    /// Tell whether the inspector is picking an element.
    ReadPicking,
    /// Take out what the prepaint pass has kept under this id; hand it over.
    TakeState(H::GlobalId),
    /// Tell how far the paint record of this frame has come.
    ReadIndex,
    /// Start ignoring caches; tell whether they were ignored before.
    StartRefreshing,
    /// Paint the element that the prepaint pass has left.
    PaintElement,
    /// Show the surface within these bounds. If `redraw`, paint the element that the
    /// prepaint pass has left into the surface first; if not, the surface keeps its pixels.
    PaintOffscreen { id: OffscreenSurfaceId, bounds: Bounds<H>, redraw: bool },
    /// Take this part of the last frame's paint record over into this frame.
    ReusePaint(Range<H::PaintIndex>),
    /// Take the event handlers and the element state of this part of the last frame's paint
    /// record over into this frame, but none of its drawing commands.
    ReusePaintWithoutScene(Range<H::PaintIndex>),
    /// Ignore caches from now on, or no longer.
    SetRefreshing(bool),
    /// Keep this for the next frame under this id.
    PutState(H::GlobalId, AnyViewState<H>),
    /// Take the view off the stack of views that are being rendered.
    PopView,
    /// Nothing: the pass is over.
    Finish,
}

/// What came of an action of the paint pass.
pub enum PaintEvent<H: Host> {
    Done,
    Picking(bool),
    State(Option<AnyViewState<H>>),
    Index(H::PaintIndex),
    Refreshing(bool),
}

/// How far the paint pass over a view has come: which action it waits for, and what it has
/// learned so far.
pub enum PaintPhase<H: Host> {
    Pushing,
    ReadingPicking,
    TakingState,
    Starting(AnyViewState<H>),
    RefreshStarting(AnyViewState<H>, H::PaintIndex),
    Painting(AnyViewState<H>, H::PaintIndex, bool),
    Retaining(AnyViewState<H>, H::PaintIndex, OffscreenSurfaceId),
    Closing(AnyViewState<H>, H::PaintIndex),
    Ending(AnyViewState<H>, H::PaintIndex),
    Putting,
    PaintingUncached,
    Popping,
    Over,
}

/// The paint pass over one view.
pub struct Paint<H: Host> {
    pub entity_id: EntityId,
    pub is_cached: bool,
    pub offscreen_surface: Option<OffscreenSurfaceId>,
    pub global_id: Option<H::GlobalId>,
    pub bounds: Bounds<H>,
    /// Whether the prepaint pass has left an element to be painted.
    pub has_element: bool,
    pub phase: PaintPhase<H>,
}

impl<H: Host> Paint<H> {
    /// A pass that works on what is kept of the view knows the id under which it is kept.
    pub open spec fn wf(self) -> bool {
        match self.phase {
            PaintPhase::Pushing => true,
            PaintPhase::ReadingPicking => true,
            PaintPhase::PaintingUncached => true,
            PaintPhase::Popping => true,
            PaintPhase::Over => true,
            _ => self.global_id is Some,
        }
    }

    /// Whether `event` is an answer to the action that the pass waits for.
    ///
    /// A cached view has been through the prepaint pass, so something is kept of it under
    /// its id. A view that is not cached, or whose cache is disabled because the inspector
    /// is picking, comes with an element.
    pub open spec fn expects(self, event: PaintEvent<H>) -> bool {
        match self.phase {
            PaintPhase::ReadingPicking => event matches PaintEvent::Picking(picking)
                && if self.is_cached && !picking {
                self.global_id is Some
            } else {
                self.has_element
            },
            PaintPhase::TakingState => event matches PaintEvent::State(Some(_)),
            PaintPhase::Starting(_) => event is Index,
            PaintPhase::RefreshStarting(_, _) => event is Refreshing,
            PaintPhase::Ending(_, _) => event is Index,
            PaintPhase::Over => false,
            _ => event is Done,
        }
    }

    /// The phase that follows when `event` has come in, and the action that it waits for.
    pub open spec fn next(self, event: PaintEvent<H>) -> (PaintPhase<H>, PaintAction<H>)
        recommends
            self.expects(event),
    {
        match (self.phase, event) {
            (PaintPhase::Pushing, PaintEvent::Done) => (
                PaintPhase::ReadingPicking,
                PaintAction::ReadPicking,
            ),
            (PaintPhase::ReadingPicking, PaintEvent::Picking(picking)) => {
                if self.is_cached && !picking {
                    (PaintPhase::TakingState, PaintAction::TakeState(self.global_id->0))
                } else {
                    (PaintPhase::PaintingUncached, PaintAction::PaintElement)
                }
            },
            (PaintPhase::TakingState, PaintEvent::State(Some(state))) => (
                PaintPhase::Starting(state),
                PaintAction::ReadIndex,
            ),
            (PaintPhase::Starting(state), PaintEvent::Index(start)) => {
                if self.has_element {
                    (PaintPhase::RefreshStarting(state, start), PaintAction::StartRefreshing)
                } else if let Some(id) = self.offscreen_surface {
                    (
                        PaintPhase::Retaining(state, start, id),
                        PaintAction::ReusePaintWithoutScene(state.paint_range),
                    )
                } else {
                    (
                        PaintPhase::Closing(state, start),
                        PaintAction::ReusePaint(state.paint_range),
                    )
                }
            },
            (
                PaintPhase::RefreshStarting(state, start),
                PaintEvent::Refreshing(refreshing),
            ) => {
                let action = if let Some(id) = self.offscreen_surface {
                    PaintAction::PaintOffscreen { id, bounds: self.bounds, redraw: true }
                } else {
                    PaintAction::PaintElement
                };
                (PaintPhase::Painting(state, start, refreshing), action)
            },
            (PaintPhase::Painting(state, start, refreshing), PaintEvent::Done) => (
                PaintPhase::Closing(state, start),
                PaintAction::SetRefreshing(refreshing),
            ),
            (PaintPhase::Retaining(state, start, id), PaintEvent::Done) => (
                PaintPhase::Closing(state, start),
                PaintAction::PaintOffscreen { id, bounds: self.bounds, redraw: false },
            ),
            (PaintPhase::Closing(state, start), PaintEvent::Done) => (
                PaintPhase::Ending(state, start),
                PaintAction::ReadIndex,
            ),
            (PaintPhase::Ending(state, start), PaintEvent::Index(end)) => (
                PaintPhase::Putting,
                PaintAction::PutState(
                    self.global_id->0,
                    AnyViewState { paint_range: Range { start, end }, ..state },
                ),
            ),
            (PaintPhase::Putting, PaintEvent::Done) => (PaintPhase::Popping, PaintAction::PopView),
            (PaintPhase::PaintingUncached, PaintEvent::Done) => (
                PaintPhase::Popping,
                PaintAction::PopView,
            ),
            (PaintPhase::Popping, PaintEvent::Done) => (PaintPhase::Over, PaintAction::Finish),
            _ => arbitrary(),
        }
    }

    /// The same pass in another phase.
    pub open spec fn in_phase(self, phase: PaintPhase<H>) -> Self {
        Paint { phase, ..self }
    }

    /// How many answers the pass takes in at most before it is over.
    pub open spec fn remaining(self) -> nat {
        match self.phase {
            PaintPhase::Pushing => 10,
            PaintPhase::ReadingPicking => 9,
            PaintPhase::TakingState => 8,
            PaintPhase::Starting(_) => 7,
            PaintPhase::RefreshStarting(_, _) => 6,
            PaintPhase::Painting(_, _, _) => 5,
            PaintPhase::Retaining(_, _, _) => 5,
            PaintPhase::Closing(_, _) => 4,
            PaintPhase::Ending(_, _) => 3,
            PaintPhase::Putting => 2,
            PaintPhase::PaintingUncached => 2,
            PaintPhase::Popping => 1,
            PaintPhase::Over => 0,
        }
    }

    /// Takes in what came of the last action and says what to do next.
    pub fn step(self, event: PaintEvent<H>) -> (result: (Self, PaintAction<H>))
        requires
            self.wf(),
            self.expects(event),
        ensures
            result.0 == self.in_phase(self.next(event).0),
            result.1 == self.next(event).1,
            result.0.phase is Over <==> result.1 is Finish,
            result.0.wf(),
            result.0.remaining() < self.remaining(),
    {
        let (phase, action) = match (self.phase, event) {
            (PaintPhase::Pushing, PaintEvent::Done) => (
                PaintPhase::ReadingPicking,
                PaintAction::ReadPicking,
            ),
            (PaintPhase::ReadingPicking, PaintEvent::Picking(picking)) => {
                if self.is_cached && !picking {
                    (PaintPhase::TakingState, PaintAction::TakeState(self.global_id.unwrap()))
                } else {
                    (PaintPhase::PaintingUncached, PaintAction::PaintElement)
                }
            },
            (PaintPhase::TakingState, PaintEvent::State(Some(state))) => (
                PaintPhase::Starting(state),
                PaintAction::ReadIndex,
            ),
            (PaintPhase::Starting(state), PaintEvent::Index(start)) => {
                let range = Range { start: state.paint_range.start, end: state.paint_range.end };
                if self.has_element {
                    (PaintPhase::RefreshStarting(state, start), PaintAction::StartRefreshing)
                } else if let Some(id) = self.offscreen_surface {
                    (
                        PaintPhase::Retaining(state, start, id),
                        PaintAction::ReusePaintWithoutScene(range),
                    )
                } else {
                    (PaintPhase::Closing(state, start), PaintAction::ReusePaint(range))
                }
            },
            (
                PaintPhase::RefreshStarting(state, start),
                PaintEvent::Refreshing(refreshing),
            ) => {
                let action = if let Some(id) = self.offscreen_surface {
                    PaintAction::PaintOffscreen { id, bounds: self.bounds, redraw: true }
                } else {
                    PaintAction::PaintElement
                };
                (PaintPhase::Painting(state, start, refreshing), action)
            },
            (PaintPhase::Painting(state, start, refreshing), PaintEvent::Done) => (
                PaintPhase::Closing(state, start),
                PaintAction::SetRefreshing(refreshing),
            ),
            (PaintPhase::Retaining(state, start, id), PaintEvent::Done) => (
                PaintPhase::Closing(state, start),
                PaintAction::PaintOffscreen { id, bounds: self.bounds, redraw: false },
            ),
            (PaintPhase::Closing(state, start), PaintEvent::Done) => (
                PaintPhase::Ending(state, start),
                PaintAction::ReadIndex,
            ),
            (PaintPhase::Ending(state, start), PaintEvent::Index(end)) => {
                let mut state = state;
                state.paint_range = Range { start, end };
                (PaintPhase::Putting, PaintAction::PutState(self.global_id.unwrap(), state))
            },
            (PaintPhase::Putting, PaintEvent::Done) => (PaintPhase::Popping, PaintAction::PopView),
            (PaintPhase::PaintingUncached, PaintEvent::Done) => (
                PaintPhase::Popping,
                PaintAction::PopView,
            ),
            (PaintPhase::Popping, PaintEvent::Done) => (PaintPhase::Over, PaintAction::Finish),
            _ => vstd::pervasive::unreached(),
        };
        let pass = Paint {
            entity_id: self.entity_id,
            is_cached: self.is_cached,
            offscreen_surface: self.offscreen_surface,
            global_id: self.global_id,
            bounds: self.bounds,
            has_element: self.has_element,
            phase,
        };
        (pass, action)
    }
}

/// The paint pass over `view`, before its first action.
pub open spec fn paint_start<H: Host>(
    view: AnyView<H>,
    global_id: Option<H::GlobalId>,
    bounds: Bounds<H>,
    has_element: bool,
) -> Paint<H> {
    Paint {
        entity_id: view.entity.entity_id,
        is_cached: view.cached_style is Some,
        offscreen_surface: view.offscreen_surface,
        global_id,
        bounds,
        has_element,
        phase: PaintPhase::Pushing,
    }
}

impl<H: Host> AnyView<H> {
    /// Starts the paint pass over this view, which has been laid out in `bounds`.
    ///
    /// `has_element` tells whether the prepaint pass has left an element. It leaves none
    /// where it has taken the view over from the last frame.
    pub fn paint(
        &self,
        global_id: Option<H::GlobalId>,
        bounds: Bounds<H>,
        has_element: bool,
    ) -> (result: (Paint<H>, PaintAction<H>))
        ensures
            result.0 == paint_start(*self, global_id, bounds, has_element),
            result.1 == PaintAction::<H>::PushView(self.entity.entity_id),
            result.0.wf(),
    {
        let pass = Paint {
            entity_id: self.entity_id(),
            is_cached: self.cached_style.is_some(),
            offscreen_surface: self.offscreen_surface,
            global_id,
            bounds,
            has_element,
            phase: PaintPhase::Pushing,
        };
        (pass, PaintAction::PushView(self.entity_id()))
    }
}

} // verus!
