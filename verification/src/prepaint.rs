use crate::cache::{
    AnyViewState, Surroundings, ViewCacheKey, is_reusable, key_of, may_be_rendered, may_be_reused,
    reusable,
};
use crate::entity::EntityId;
use crate::host::{Bounds, Host, comparable};
use crate::view::{AnyView, share};
use std::collections::HashSet;
use std::ops::Range;
use std::rc::Rc;
use vstd::prelude::*;

verus! {

/// What the window has to do next in the prepaint pass over a view.
pub enum PrepaintAction<H: Host> {
    /// Name the view as the one that is being drawn.
    SetViewId(EntityId),
    /// Put the view on the stack of views that are being rendered.
    PushView(EntityId),
    /// Run the prepaint pass over the element that layout has left; hand it back.
    PrepaintElement(H::Element),
    /// Take out what the last frame has kept under this id; hand it over.
    TakeState(H::GlobalId),
    /// Look at what the window has around the view.
    ReadSurroundings,
    /// Tell how far the prepaint record of this frame has come.
    ReadIndex,
    /// Take this part of the last frame's prepaint record over into this frame.
    ReusePrepaint(Range<H::PrepaintIndex>),
    /// Count these entities as read in this frame.
    ExtendAccessed(Rc<HashSet<EntityId>>),
    /// Start ignoring caches; tell whether they were ignored before.
    StartRefreshing,
    /// Start noting which entities are read.
    StartDetecting,
    /// Render this view; hand over the element.
    Render(AnyView<H>),
    /// Lay the element out by itself in this size; hand it back.
    LayoutAsRoot(H::Element, H::Size),
    /// Run the prepaint pass over the element at this place; hand it back.
    PrepaintAt(H::Element, H::Point),
    /// Stop noting which entities are read; tell which were since that was started.
    EndDetecting,
    /// Ignore caches from now on, or no longer.
    SetRefreshing(bool),
    /// Keep this for the next frame under this id.
    PutState(H::GlobalId, AnyViewState<H>),
    /// Take the view off the stack of views that are being rendered.
    PopView,
    /// Nothing: the pass is over, and this is the element that is left to be painted.
    Finish(Option<H::Element>),
}

/// What came of an action of the prepaint pass.
pub enum PrepaintEvent<H: Host> {
    Done,
    Element(H::Element),
    State(Option<AnyViewState<H>>),
    Surroundings(Surroundings<H>),
    Index(H::PrepaintIndex),
    Refreshing(bool),
    Accessed(Rc<HashSet<EntityId>>),
}

/// What the pass has learned before a view is rendered anew: what it is rendered for, whether
/// caches were ignored before, and how far the prepaint record of this frame had come.
pub struct Anew<H: Host> {
    pub key: ViewCacheKey<H>,
    pub refreshing: bool,
    pub start: H::PrepaintIndex,
}

/// How far the prepaint pass over a view has come: which action it waits for, and what it
/// has learned so far.
pub enum PrepaintPhase<H: Host> {
    SettingViewId(Option<H::Element>),
    Pushing(Option<H::Element>),
    PrepaintingElement,
    TakingState,
    Reading(Option<AnyViewState<H>>),
    ReuseStarting(AnyViewState<H>),
    Reusing(AnyViewState<H>, H::PrepaintIndex),
    Extending(AnyViewState<H>, H::PrepaintIndex),
    ReuseEnding(AnyViewState<H>, H::PrepaintIndex),
    RefreshStarting(ViewCacheKey<H>),
    RenderStarting(ViewCacheKey<H>, bool),
    DetectStarting(Anew<H>),
    Rendering(Anew<H>),
    LayingOut(Anew<H>),
    Prepainting(Anew<H>),
    DetectEnding(Anew<H>, H::Element),
    RenderEnding(Anew<H>, H::Element, Rc<HashSet<EntityId>>),
    Restoring(AnyViewState<H>, H::Element),
    Putting(Option<H::Element>),
    Popping(Option<H::Element>),
    Over,
}

/// The prepaint pass over one view.
pub struct Prepaint<H: Host> {
    pub view: AnyView<H>,
    pub global_id: Option<H::GlobalId>,
    pub bounds: Bounds<H>,
    /// The paint index of a frame in which nothing has been painted.
    pub unpainted: H::PaintIndex,
    pub phase: PrepaintPhase<H>,
}

impl<H: Host> Prepaint<H> {
    /// A pass that was not started with an element knows the id under which something may be
    /// kept of the view.
    pub open spec fn wf(self) -> bool {
        match self.phase {
            PrepaintPhase::SettingViewId(Some(_)) => true,
            PrepaintPhase::Pushing(Some(_)) => true,
            PrepaintPhase::PrepaintingElement => true,
            PrepaintPhase::Popping(_) => true,
            PrepaintPhase::Over => true,
            _ => self.global_id is Some,
        }
    }

    /// Whether `event` is an answer to the action that the pass waits for.
    pub open spec fn expects(self, event: PrepaintEvent<H>) -> bool {
        match self.phase {
            PrepaintPhase::PrepaintingElement => event is Element,
            PrepaintPhase::TakingState => event is State,
            PrepaintPhase::Reading(_) => event is Surroundings,
            PrepaintPhase::ReuseStarting(_) => event is Index,
            PrepaintPhase::ReuseEnding(_, _) => event is Index,
            PrepaintPhase::RefreshStarting(_) => event is Refreshing,
            PrepaintPhase::RenderStarting(_, _) => event is Index,
            PrepaintPhase::Rendering(_) => event is Element,
            PrepaintPhase::LayingOut(_) => event is Element,
            PrepaintPhase::Prepainting(_) => event is Element,
            PrepaintPhase::DetectEnding(_, _) => event is Accessed,
            PrepaintPhase::RenderEnding(_, _, _) => event is Index,
            PrepaintPhase::Over => false,
            _ => event is Done,
        }
    }

    /// The phase that follows when `event` has come in, and the action that it waits for.
    /// `reuse` tells what has been found of the view, where the event brings that up.
    pub open spec fn next_if(self, event: PrepaintEvent<H>, reuse: bool) -> (
        PrepaintPhase<H>,
        PrepaintAction<H>,
    )
        recommends
            self.expects(event),
    {
        match (self.phase, event) {
            (PrepaintPhase::SettingViewId(element), PrepaintEvent::Done) => (
                PrepaintPhase::Pushing(element),
                PrepaintAction::PushView(self.view.entity.entity_id),
            ),
            (PrepaintPhase::Pushing(Some(element)), PrepaintEvent::Done) => (
                PrepaintPhase::PrepaintingElement,
                PrepaintAction::PrepaintElement(element),
            ),
            (PrepaintPhase::PrepaintingElement, PrepaintEvent::Element(element)) => (
                PrepaintPhase::Popping(Some(element)),
                PrepaintAction::PopView,
            ),
            (PrepaintPhase::Pushing(None), PrepaintEvent::Done) => (
                PrepaintPhase::TakingState,
                PrepaintAction::TakeState(self.global_id->0),
            ),
            (PrepaintPhase::TakingState, PrepaintEvent::State(state)) => (
                PrepaintPhase::Reading(state),
                PrepaintAction::ReadSurroundings,
            ),
            (PrepaintPhase::Reading(state), PrepaintEvent::Surroundings(surroundings)) => {
                if reuse {
                    (PrepaintPhase::ReuseStarting(state->0), PrepaintAction::ReadIndex)
                } else {
                    (
                        PrepaintPhase::RefreshStarting(
                            key_of(self.bounds, surroundings, self.view.offscreen_surface),
                        ),
                        PrepaintAction::StartRefreshing,
                    )
                }
            },
            (PrepaintPhase::ReuseStarting(state), PrepaintEvent::Index(start)) => (
                PrepaintPhase::Reusing(state, start),
                PrepaintAction::ReusePrepaint(state.prepaint_range),
            ),
            (PrepaintPhase::Reusing(state, start), PrepaintEvent::Done) => (
                PrepaintPhase::Extending(state, start),
                PrepaintAction::ExtendAccessed(state.accessed_entities),
            ),
            (PrepaintPhase::Extending(state, start), PrepaintEvent::Done) => (
                PrepaintPhase::ReuseEnding(state, start),
                PrepaintAction::ReadIndex,
            ),
            (PrepaintPhase::ReuseEnding(state, start), PrepaintEvent::Index(end)) => (
                PrepaintPhase::Putting(None),
                PrepaintAction::PutState(
                    self.global_id->0,
                    AnyViewState { prepaint_range: Range { start, end }, ..state },
                ),
            ),
            (PrepaintPhase::RefreshStarting(key), PrepaintEvent::Refreshing(refreshing)) => (
                PrepaintPhase::RenderStarting(key, refreshing),
                PrepaintAction::ReadIndex,
            ),
            (PrepaintPhase::RenderStarting(key, refreshing), PrepaintEvent::Index(start)) => (
                PrepaintPhase::DetectStarting(Anew { key, refreshing, start }),
                PrepaintAction::StartDetecting,
            ),
            (PrepaintPhase::DetectStarting(anew), PrepaintEvent::Done) => (
                PrepaintPhase::Rendering(anew),
                PrepaintAction::Render(self.view),
            ),
            (PrepaintPhase::Rendering(anew), PrepaintEvent::Element(element)) => (
                PrepaintPhase::LayingOut(anew),
                PrepaintAction::LayoutAsRoot(element, self.bounds.size),
            ),
            (PrepaintPhase::LayingOut(anew), PrepaintEvent::Element(element)) => (
                PrepaintPhase::Prepainting(anew),
                PrepaintAction::PrepaintAt(element, self.bounds.origin),
            ),
            (PrepaintPhase::Prepainting(anew), PrepaintEvent::Element(element)) => (
                PrepaintPhase::DetectEnding(anew, element),
                PrepaintAction::EndDetecting,
            ),
            (PrepaintPhase::DetectEnding(anew, element), PrepaintEvent::Accessed(accessed)) => (
                PrepaintPhase::RenderEnding(anew, element, accessed),
                PrepaintAction::ReadIndex,
            ),
            (
                PrepaintPhase::RenderEnding(anew, element, accessed),
                PrepaintEvent::Index(end),
            ) => (
                PrepaintPhase::Restoring(
                    AnyViewState {
                        prepaint_range: Range { start: anew.start, end },
                        paint_range: Range { start: self.unpainted, end: self.unpainted },
                        cache_key: anew.key,
                        accessed_entities: accessed,
                    },
                    element,
                ),
                PrepaintAction::SetRefreshing(anew.refreshing),
            ),
            (PrepaintPhase::Restoring(state, element), PrepaintEvent::Done) => (
                PrepaintPhase::Putting(Some(element)),
                PrepaintAction::PutState(self.global_id->0, state),
            ),
            (PrepaintPhase::Putting(element), PrepaintEvent::Done) => (
                PrepaintPhase::Popping(element),
                PrepaintAction::PopView,
            ),
            (PrepaintPhase::Popping(element), PrepaintEvent::Done) => (
                PrepaintPhase::Over,
                PrepaintAction::Finish(element),
            ),
            _ => arbitrary(),
        }
    }

    /// The phase that follows when `event` has come in, and the action that it waits for. Where
    /// the event brings up whether the view may be taken over from the last frame, this goes by
    /// the specifications of the host's comparisons.
    pub open spec fn next(self, event: PrepaintEvent<H>) -> (PrepaintPhase<H>, PrepaintAction<H>)
        recommends
            self.expects(event),
    {
        let reuse = match (self.phase, event) {
            (PrepaintPhase::Reading(state), PrepaintEvent::Surroundings(surroundings)) => reusable(
                state,
                self.bounds,
                surroundings,
                self.view.offscreen_surface,
            ),
            _ => false,
        };
        self.next_if(event, reuse)
    }

    /// Whether the host's comparisons may come out so that the view is found fit to be taken
    /// over from the last frame, or unfit, where `event` brings that up.
    pub open spec fn may_find(self, event: PrepaintEvent<H>, reuse: bool) -> bool {
        match (self.phase, event) {
            (PrepaintPhase::Reading(state), PrepaintEvent::Surroundings(surroundings)) => {
                if reuse {
                    may_be_reused(state, self.bounds, surroundings, self.view.offscreen_surface)
                } else {
                    may_be_rendered(state, self.bounds, surroundings, self.view.offscreen_surface)
                }
            },
            _ => true,
        }
    }

    /// Whether this phase and this action may follow when `event` has come in, as the host's
    /// comparisons may come out.
    pub open spec fn may_follow(
        self,
        event: PrepaintEvent<H>,
        phase: PrepaintPhase<H>,
        action: PrepaintAction<H>,
    ) -> bool {
        ||| self.may_find(event, true) && (phase, action) == self.next_if(event, true)
        ||| self.may_find(event, false) && (phase, action) == self.next_if(event, false)
    }

    /// The same pass in another phase.
    pub open spec fn in_phase(self, phase: PrepaintPhase<H>) -> Self {
        Prepaint { phase, ..self }
    }

    /// How many answers the pass takes in at most before it is over.
    pub open spec fn remaining(self) -> nat {
        match self.phase {
            PrepaintPhase::SettingViewId(_) => 15,
            PrepaintPhase::Pushing(_) => 14,
            PrepaintPhase::PrepaintingElement => 2,
            PrepaintPhase::TakingState => 13,
            PrepaintPhase::Reading(_) => 12,
            PrepaintPhase::ReuseStarting(_) => 6,
            PrepaintPhase::Reusing(_, _) => 5,
            PrepaintPhase::Extending(_, _) => 4,
            PrepaintPhase::ReuseEnding(_, _) => 3,
            PrepaintPhase::RefreshStarting(_) => 11,
            PrepaintPhase::RenderStarting(_, _) => 10,
            PrepaintPhase::DetectStarting(_) => 9,
            PrepaintPhase::Rendering(_) => 8,
            PrepaintPhase::LayingOut(_) => 7,
            PrepaintPhase::Prepainting(_) => 6,
            PrepaintPhase::DetectEnding(_, _) => 5,
            PrepaintPhase::RenderEnding(_, _, _) => 4,
            PrepaintPhase::Restoring(_, _) => 3,
            PrepaintPhase::Putting(_) => 2,
            PrepaintPhase::Popping(_) => 1,
            PrepaintPhase::Over => 0,
        }
    }

    /// Takes in what came of the last action and says what to do next.
    pub fn step(self, event: PrepaintEvent<H>) -> (result: (Self, PrepaintAction<H>))
        requires
            self.wf(),
            self.expects(event),
        ensures
            result.0 == self.in_phase(result.0.phase),
            self.may_follow(event, result.0.phase, result.1),
            !(self.phase is Reading) || comparable::<H>() ==> (result.0.phase, result.1)
                == self.next(event),
            result.0.phase is Over <==> result.1 is Finish,
            result.0.wf(),
            result.0.remaining() < self.remaining(),
    {
        let (phase, action) = match (self.phase, event) {
            (PrepaintPhase::SettingViewId(element), PrepaintEvent::Done) => (
                PrepaintPhase::Pushing(element),
                PrepaintAction::PushView(self.view.entity.entity_id),
            ),
            (PrepaintPhase::Pushing(Some(element)), PrepaintEvent::Done) => (
                PrepaintPhase::PrepaintingElement,
                PrepaintAction::PrepaintElement(element),
            ),
            (PrepaintPhase::PrepaintingElement, PrepaintEvent::Element(element)) => (
                PrepaintPhase::Popping(Some(element)),
                PrepaintAction::PopView,
            ),
            (PrepaintPhase::Pushing(None), PrepaintEvent::Done) => (
                PrepaintPhase::TakingState,
                PrepaintAction::TakeState(self.global_id.unwrap()),
            ),
            (PrepaintPhase::TakingState, PrepaintEvent::State(state)) => (
                PrepaintPhase::Reading(state),
                PrepaintAction::ReadSurroundings,
            ),
            (PrepaintPhase::Reading(state), PrepaintEvent::Surroundings(surroundings)) => {
                if is_reusable(&state, self.bounds, &surroundings, self.view.offscreen_surface) {
                    (PrepaintPhase::ReuseStarting(state.unwrap()), PrepaintAction::ReadIndex)
                } else {
                    let key = ViewCacheKey {
                        bounds: self.bounds,
                        content_mask: surroundings.content_mask,
                        text_style: surroundings.text_style,
                        offscreen_surface: self.view.offscreen_surface,
                    };
                    (PrepaintPhase::RefreshStarting(key), PrepaintAction::StartRefreshing)
                }
            },
            (PrepaintPhase::ReuseStarting(state), PrepaintEvent::Index(start)) => {
                let range = Range {
                    start: state.prepaint_range.start,
                    end: state.prepaint_range.end,
                };
                (PrepaintPhase::Reusing(state, start), PrepaintAction::ReusePrepaint(range))
            },
            (PrepaintPhase::Reusing(state, start), PrepaintEvent::Done) => {
                let accessed = share(&state.accessed_entities);
                (PrepaintPhase::Extending(state, start), PrepaintAction::ExtendAccessed(accessed))
            },
            (PrepaintPhase::Extending(state, start), PrepaintEvent::Done) => (
                PrepaintPhase::ReuseEnding(state, start),
                PrepaintAction::ReadIndex,
            ),
            (PrepaintPhase::ReuseEnding(state, start), PrepaintEvent::Index(end)) => {
                let mut state = state;
                state.prepaint_range = Range { start, end };
                (
                    PrepaintPhase::Putting(None),
                    PrepaintAction::PutState(self.global_id.unwrap(), state),
                )
            },
            (PrepaintPhase::RefreshStarting(key), PrepaintEvent::Refreshing(refreshing)) => (
                PrepaintPhase::RenderStarting(key, refreshing),
                PrepaintAction::ReadIndex,
            ),
            (PrepaintPhase::RenderStarting(key, refreshing), PrepaintEvent::Index(start)) => (
                PrepaintPhase::DetectStarting(Anew { key, refreshing, start }),
                PrepaintAction::StartDetecting,
            ),
            (PrepaintPhase::DetectStarting(anew), PrepaintEvent::Done) => (
                PrepaintPhase::Rendering(anew),
                PrepaintAction::Render(self.view.clone()),
            ),
            (PrepaintPhase::Rendering(anew), PrepaintEvent::Element(element)) => (
                PrepaintPhase::LayingOut(anew),
                PrepaintAction::LayoutAsRoot(element, self.bounds.size),
            ),
            (PrepaintPhase::LayingOut(anew), PrepaintEvent::Element(element)) => (
                PrepaintPhase::Prepainting(anew),
                PrepaintAction::PrepaintAt(element, self.bounds.origin),
            ),
            (PrepaintPhase::Prepainting(anew), PrepaintEvent::Element(element)) => (
                PrepaintPhase::DetectEnding(anew, element),
                PrepaintAction::EndDetecting,
            ),
            (PrepaintPhase::DetectEnding(anew, element), PrepaintEvent::Accessed(accessed)) => (
                PrepaintPhase::RenderEnding(anew, element, accessed),
                PrepaintAction::ReadIndex,
            ),
            (
                PrepaintPhase::RenderEnding(anew, element, accessed),
                PrepaintEvent::Index(end),
            ) => {
                let state = AnyViewState {
                    prepaint_range: Range { start: anew.start, end },
                    paint_range: Range { start: self.unpainted, end: self.unpainted },
                    cache_key: anew.key,
                    accessed_entities: accessed,
                };
                (
                    PrepaintPhase::Restoring(state, element),
                    PrepaintAction::SetRefreshing(anew.refreshing),
                )
            },
            (PrepaintPhase::Restoring(state, element), PrepaintEvent::Done) => (
                PrepaintPhase::Putting(Some(element)),
                PrepaintAction::PutState(self.global_id.unwrap(), state),
            ),
            (PrepaintPhase::Putting(element), PrepaintEvent::Done) => (
                PrepaintPhase::Popping(element),
                PrepaintAction::PopView,
            ),
            (PrepaintPhase::Popping(element), PrepaintEvent::Done) => (
                PrepaintPhase::Over,
                PrepaintAction::Finish(element),
            ),
            _ => vstd::pervasive::unreached(),
        };
        let pass = Prepaint {
            view: self.view,
            global_id: self.global_id,
            bounds: self.bounds,
            unpainted: self.unpainted,
            phase,
        };
        (pass, action)
    }
}

/// The prepaint pass over `view`, before its first action.
pub open spec fn prepaint_start<H: Host>(
    view: AnyView<H>,
    global_id: Option<H::GlobalId>,
    bounds: Bounds<H>,
    element: Option<H::Element>,
    unpainted: H::PaintIndex,
) -> Prepaint<H> {
    Prepaint {
        view,
        global_id,
        bounds,
        unpainted,
        phase: PrepaintPhase::SettingViewId(element),
    }
}

impl<H: Host> AnyView<H> {
    /// Starts the prepaint pass over this view, which has been laid out in `bounds`.
    ///
    /// `element` is what layout has rendered of the view. If there is none, the view is
    /// cached: then it is taken over from the last frame where it may be, and rendered
    /// where it may not.
    pub fn prepaint(
        &self,
        global_id: Option<H::GlobalId>,
        bounds: Bounds<H>,
        element: Option<H::Element>,
        unpainted: H::PaintIndex,
    ) -> (result: (Prepaint<H>, PrepaintAction<H>))
        requires
            element is None ==> global_id is Some,
        ensures
            result.0 == prepaint_start(*self, global_id, bounds, element, unpainted),
            result.1 == PrepaintAction::<H>::SetViewId(self.entity.entity_id),
            result.0.wf(),
    {
        let pass = Prepaint {
            view: self.clone(),
            global_id,
            bounds,
            unpainted,
            phase: PrepaintPhase::SettingViewId(element),
        };
        (pass, PrepaintAction::SetViewId(self.entity_id()))
    }
}

} // verus!
