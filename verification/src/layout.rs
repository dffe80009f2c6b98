use crate::entity::EntityId;
use crate::host::Host;
use crate::view::{AnyView, share};
use std::rc::Rc;
use vstd::prelude::*;

verus! {

/// What the window has to do next in the layout pass over a view.
pub enum LayoutAction<H: Host> {
    /// Put the view on the stack of views that are being rendered.
    PushView(EntityId),
    /// Tell whether the inspector is picking an element.
    ReadPicking,
    /// Enter a node without children into the layout tree. Its style is the default style
    /// with these changes.
    RequestLayout(Rc<H::Style>),
    /// Render this view; hand over the element.
    Render(AnyView<H>),
    /// Enter the element into the layout tree; hand it back with its node.
    RequestElementLayout(H::Element),
    /// Take the view off the stack of views that are being rendered.
    PopView,
    /// Nothing: the pass is over. This is the node that stands for the view, and the element
    /// if it was rendered.
    Finish(H::LayoutId, Option<H::Element>),
}

/// What came of an action of the layout pass.
pub enum LayoutEvent<H: Host> {
    Done,
    Picking(bool),
    Layout(H::LayoutId),
    Element(H::Element),
    ElementLayout(H::LayoutId, H::Element),
}

/// How far the layout pass over a view has come: which action it waits for, and what it has
/// learned so far.
pub enum LayoutPhase<H: Host> {
    Pushing,
    ReadingPicking,
    RequestingLayout,
    Rendering,
    RequestingElementLayout,
    Popping(H::LayoutId, Option<H::Element>),
    Over,
}

/// The layout pass over one view.
pub struct Layout<H: Host> {
    pub view: AnyView<H>,
    pub phase: LayoutPhase<H>,
}

impl<H: Host> Layout<H> {
    /// Whether `event` is an answer to the action that the pass waits for.
    pub open spec fn expects(self, event: LayoutEvent<H>) -> bool {
        match self.phase {
            LayoutPhase::ReadingPicking => event is Picking,
            LayoutPhase::RequestingLayout => event is Layout,
            LayoutPhase::Rendering => event is Element,
            LayoutPhase::RequestingElementLayout => event is ElementLayout,
            LayoutPhase::Over => false,
            _ => event is Done,
        }
    }

    /// The phase that follows when `event` has come in, and the action that it waits for.
    pub open spec fn next(self, event: LayoutEvent<H>) -> (LayoutPhase<H>, LayoutAction<H>)
        recommends
            self.expects(event),
    {
        match (self.phase, event) {
            (LayoutPhase::Pushing, LayoutEvent::Done) => (
                LayoutPhase::ReadingPicking,
                LayoutAction::ReadPicking,
            ),
            (LayoutPhase::ReadingPicking, LayoutEvent::Picking(picking)) => {
                if self.view.cached_style is Some && !picking {
                    (
                        LayoutPhase::RequestingLayout,
                        LayoutAction::RequestLayout(self.view.cached_style->0),
                    )
                } else {
                    (LayoutPhase::Rendering, LayoutAction::Render(self.view))
                }
            },
            (LayoutPhase::RequestingLayout, LayoutEvent::Layout(layout_id)) => (
                LayoutPhase::Popping(layout_id, None),
                LayoutAction::PopView,
            ),
            (LayoutPhase::Rendering, LayoutEvent::Element(element)) => (
                LayoutPhase::RequestingElementLayout,
                LayoutAction::RequestElementLayout(element),
            ),
            (
                LayoutPhase::RequestingElementLayout,
                LayoutEvent::ElementLayout(layout_id, element),
            ) => (LayoutPhase::Popping(layout_id, Some(element)), LayoutAction::PopView),
            (LayoutPhase::Popping(layout_id, element), LayoutEvent::Done) => (
                LayoutPhase::Over,
                LayoutAction::Finish(layout_id, element),
            ),
            _ => arbitrary(),
        }
    }

    /// The same pass in another phase.
    pub open spec fn in_phase(self, phase: LayoutPhase<H>) -> Self {
        Layout { phase, ..self }
    }

    /// How many answers the pass takes in at most before it is over.
    pub open spec fn remaining(self) -> nat {
        match self.phase {
            LayoutPhase::Pushing => 5,
            LayoutPhase::ReadingPicking => 4,
            LayoutPhase::RequestingLayout => 2,
            LayoutPhase::Rendering => 3,
            LayoutPhase::RequestingElementLayout => 2,
            LayoutPhase::Popping(_, _) => 1,
            LayoutPhase::Over => 0,
        }
    }

    /// Takes in what came of the last action and says what to do next.
    pub fn step(self, event: LayoutEvent<H>) -> (result: (Self, LayoutAction<H>))
        requires
            self.expects(event),
        ensures
            result.0 == self.in_phase(self.next(event).0),
            result.1 == self.next(event).1,
            result.0.phase is Over <==> result.1 is Finish,
            result.0.remaining() < self.remaining(),
    {
        let (phase, action) = match (self.phase, event) {
            (LayoutPhase::Pushing, LayoutEvent::Done) => (
                LayoutPhase::ReadingPicking,
                LayoutAction::ReadPicking,
            ),
            (LayoutPhase::ReadingPicking, LayoutEvent::Picking(picking)) => {
                // A picking inspector needs the hitboxes of everything that is shown, so
                // nothing is taken from a cache then.
                match &self.view.cached_style {
                    Some(style) if !picking => (
                        LayoutPhase::RequestingLayout,
                        LayoutAction::RequestLayout(share(style)),
                    ),
                    _ => (LayoutPhase::Rendering, LayoutAction::Render(self.view.clone())),
                }
            },
            (LayoutPhase::RequestingLayout, LayoutEvent::Layout(layout_id)) => (
                LayoutPhase::Popping(layout_id, None),
                LayoutAction::PopView,
            ),
            (LayoutPhase::Rendering, LayoutEvent::Element(element)) => (
                LayoutPhase::RequestingElementLayout,
                LayoutAction::RequestElementLayout(element),
            ),
            (
                LayoutPhase::RequestingElementLayout,
                LayoutEvent::ElementLayout(layout_id, element),
            ) => (LayoutPhase::Popping(layout_id, Some(element)), LayoutAction::PopView),
            (LayoutPhase::Popping(layout_id, element), LayoutEvent::Done) => (
                LayoutPhase::Over,
                LayoutAction::Finish(layout_id, element),
            ),
            _ => vstd::pervasive::unreached(),
        };
        let pass = Layout { view: self.view, phase };
        (pass, action)
    }
}

/// The layout pass over `view`, before its first action.
pub open spec fn layout_start<H: Host>(view: AnyView<H>) -> Layout<H> {
    Layout { view, phase: LayoutPhase::Pushing }
}

impl<H: Host> AnyView<H> {
    /// Starts the layout pass over this view. A cached view is laid out by its style alone
    /// and is not rendered, unless the inspector is picking an element.
    pub fn request_layout(&self) -> (result: (Layout<H>, LayoutAction<H>))
        ensures
            result.0 == layout_start(*self),
            result.1 == LayoutAction::<H>::PushView(self.entity.entity_id),
    {
        let pass = Layout { view: self.clone(), phase: LayoutPhase::Pushing };
        (pass, LayoutAction::PushView(self.entity_id()))
    }
}

} // verus!
