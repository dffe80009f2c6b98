use crate::cache::{AnyViewState, ViewCacheKey};
use crate::host::{Bounds, Host};
use crate::layout::{Layout, LayoutAction, LayoutEvent};
use crate::paint::{Paint, PaintAction, PaintEvent};
use crate::prepaint::{Prepaint, PrepaintAction, PrepaintEvent};
use crate::view::AnyView;
use std::ops::Range;
use vstd::prelude::*;
use vstd::std_specs::cmp::PartialEqSpec;

verus! {

/// Whether `event` is the kind of answer that a prepaint action asks for.
pub open spec fn answers_prepaint<H: Host>(
    action: PrepaintAction<H>,
    event: PrepaintEvent<H>,
) -> bool {
    match action {
        PrepaintAction::PrepaintElement(_) => event is Element,
        PrepaintAction::TakeState(_) => event is State,
        PrepaintAction::ReadSurroundings => event is Surroundings,
        PrepaintAction::ReadIndex => event is Index,
        PrepaintAction::StartRefreshing => event is Refreshing,
        PrepaintAction::Render(_) => event is Element,
        PrepaintAction::LayoutAsRoot(_, _) => event is Element,
        PrepaintAction::PrepaintAt(_, _) => event is Element,
        PrepaintAction::EndDetecting => event is Accessed,
        PrepaintAction::Finish(_) => false,
        _ => event is Done,
    }
}

/// Event `i` answers action `i`, and [`Prepaint::step`] goes on from there.
pub open spec fn prepaint_turn<H: Host>(
    passes: Seq<Prepaint<H>>,
    actions: Seq<PrepaintAction<H>>,
    events: Seq<PrepaintEvent<H>>,
    i: int,
) -> bool {
    &&& answers_prepaint(actions[i], events[i])
    &&& call_ensures(
        Prepaint::<H>::step,
        (passes[i], events[i]),
        (passes[i + 1], actions[i + 1]),
    )
}

/// What [`AnyView::prepaint`] and then [`Prepaint::step`] ask for, in this order, when these
/// events come in.
pub open spec fn prepaint_asks<H: Host>(
    view: AnyView<H>,
    global_id: Option<H::GlobalId>,
    bounds: Bounds<H>,
    element: Option<H::Element>,
    unpainted: H::PaintIndex,
    passes: Seq<Prepaint<H>>,
    actions: Seq<PrepaintAction<H>>,
    events: Seq<PrepaintEvent<H>>,
) -> bool {
    &&& passes.len() == events.len() + 1
    &&& actions.len() == events.len() + 1
    &&& call_ensures(
        AnyView::<H>::prepaint,
        (&view, global_id, bounds, element, unpainted),
        (passes[0], actions[0]),
    )
    &&& forall|i: int|
        0 <= i < events.len() ==> #[trigger] prepaint_turn(passes, actions, events, i)
}

proof fn prepaint_turns<H: Host>(
    passes: Seq<Prepaint<H>>,
    actions: Seq<PrepaintAction<H>>,
    events: Seq<PrepaintEvent<H>>,
)
    requires
        forall|i: int|
            0 <= i < events.len() ==> #[trigger] prepaint_turn(passes, actions, events, i),
    ensures
        events.len() > 0 ==> prepaint_turn(passes, actions, events, 0),
        events.len() > 1 ==> prepaint_turn(passes, actions, events, 1),
        events.len() > 2 ==> prepaint_turn(passes, actions, events, 2),
        events.len() > 3 ==> prepaint_turn(passes, actions, events, 3),
        events.len() > 4 ==> prepaint_turn(passes, actions, events, 4),
        events.len() > 5 ==> prepaint_turn(passes, actions, events, 5),
        events.len() > 6 ==> prepaint_turn(passes, actions, events, 6),
        events.len() > 7 ==> prepaint_turn(passes, actions, events, 7),
        events.len() > 8 ==> prepaint_turn(passes, actions, events, 8),
        events.len() > 9 ==> prepaint_turn(passes, actions, events, 9),
        events.len() > 10 ==> prepaint_turn(passes, actions, events, 10),
        events.len() > 11 ==> prepaint_turn(passes, actions, events, 11),
        events.len() > 12 ==> prepaint_turn(passes, actions, events, 12),
        events.len() > 13 ==> prepaint_turn(passes, actions, events, 13),
        events.len() > 14 ==> prepaint_turn(passes, actions, events, 14),
        events.len() > 15 ==> prepaint_turn(passes, actions, events, 15),
{
}

/// A prepaint pass can be started with an element, and without one where the view's element has
/// an id. It can always go on when what it has asked for is answered.
pub proof fn prepaint_goes_on<H: Host>(
    view: AnyView<H>,
    global_id: Option<H::GlobalId>,
    bounds: Bounds<H>,
    element: Option<H::Element>,
    unpainted: H::PaintIndex,
    passes: Seq<Prepaint<H>>,
    actions: Seq<PrepaintAction<H>>,
    events: Seq<PrepaintEvent<H>>,
    event: PrepaintEvent<H>,
)
    requires
        element is None ==> global_id is Some,
    ensures
        call_requires(AnyView::<H>::prepaint, (&view, global_id, bounds, element, unpainted)),
        prepaint_asks(view, global_id, bounds, element, unpainted, passes, actions, events)
            && answers_prepaint(actions.last(), event) ==> call_requires(
            Prepaint::<H>::step,
            (passes.last(), event),
        ),
{
    if prepaint_asks(view, global_id, bounds, element, unpainted, passes, actions, events)
        && answers_prepaint(actions.last(), event) {
        prepaint_turns(passes, actions, events);
        assert(events.len() <= 15);
    }
}

/// A prepaint pass that is started with an element, whatever else it is started with, prepaints
/// this very element within the view, and leaves what came of it. It does nothing else.
pub proof fn laid_out_element_is_prepainted<H: Host>(
    view: AnyView<H>,
    global_id: Option<H::GlobalId>,
    bounds: Bounds<H>,
    element: H::Element,
    unpainted: H::PaintIndex,
    passes: Seq<Prepaint<H>>,
    actions: Seq<PrepaintAction<H>>,
    events: Seq<PrepaintEvent<H>>,
)
    requires
        prepaint_asks(
            view,
            global_id,
            bounds,
            Some(element),
            unpainted,
            passes,
            actions,
            events,
        ),
    ensures
        actions.is_prefix_of(
            seq![
                PrepaintAction::SetViewId(view.entity.entity_id),
                PrepaintAction::PushView(view.entity.entity_id),
                PrepaintAction::PrepaintElement(element),
                PrepaintAction::PopView,
                PrepaintAction::Finish(Some(events[2]->Element_0)),
            ],
        ),
{
    prepaint_turns(passes, actions, events);
}

/// A prepaint pass that is started without an element first takes out what is kept of the view
/// and looks at what the window has around it.
pub proof fn kept_state_is_looked_up<H: Host>(
    view: AnyView<H>,
    global_id: Option<H::GlobalId>,
    bounds: Bounds<H>,
    unpainted: H::PaintIndex,
    passes: Seq<Prepaint<H>>,
    actions: Seq<PrepaintAction<H>>,
    events: Seq<PrepaintEvent<H>>,
)
    requires
        prepaint_asks(
            view,
            global_id,
            bounds,
            None,
            unpainted,
            passes,
            actions,
            events,
        ),
        actions.len() <= 4,
    ensures
        actions.is_prefix_of(
            seq![
                PrepaintAction::SetViewId(view.entity.entity_id),
                PrepaintAction::PushView(view.entity.entity_id),
                PrepaintAction::TakeState(global_id->0),
                PrepaintAction::ReadSurroundings,
            ],
        ),
{
    prepaint_turns(passes, actions, events);
}

/// If what is kept of a view is not to be rendered over, then something is kept, and each thing
/// that it was rendered for compares equal to what it is asked for now: the place, the size, the
/// part that may be drawn on, the text style and the surface. The view has not been notified,
/// and caching is not ignored. The part of the record that the view had is taken over, the
/// entities that it had read count as read, and it is kept with its new part of the record and
/// otherwise as it was. The pass leaves nothing to be painted.
pub proof fn view_is_taken_over<H: Host>(
    view: AnyView<H>,
    global_id: Option<H::GlobalId>,
    bounds: Bounds<H>,
    unpainted: H::PaintIndex,
    passes: Seq<Prepaint<H>>,
    actions: Seq<PrepaintAction<H>>,
    events: Seq<PrepaintEvent<H>>,
)
    requires
        prepaint_asks(
            view,
            global_id,
            bounds,
            None,
            unpainted,
            passes,
            actions,
            events,
        ),
        actions.len() > 4,
        !(actions[4] is StartRefreshing),
    ensures
        ({
            let kept = events[2]->State_0->0;
            let key = kept.cache_key;
            let around = events[3]->Surroundings_0;
            &&& events[2]->State_0 is Some
            &&& call_ensures(
                <H::Point as PartialEq>::eq,
                (&key.bounds.origin, &bounds.origin),
                true,
            )
            &&& call_ensures(<H::Size as PartialEq>::eq, (&key.bounds.size, &bounds.size), true)
            &&& call_ensures(
                <H::ContentMask as PartialEq>::eq,
                (&key.content_mask, &around.content_mask),
                true,
            )
            &&& call_ensures(
                <H::TextStyle as PartialEq>::eq,
                (&key.text_style, &around.text_style),
                true,
            )
            &&& key.offscreen_surface == view.offscreen_surface
            &&& !around.dirty
            &&& !around.refreshing
            &&& actions.is_prefix_of(
                seq![
                    PrepaintAction::SetViewId(view.entity.entity_id),
                    PrepaintAction::PushView(view.entity.entity_id),
                    PrepaintAction::TakeState(global_id->0),
                    PrepaintAction::ReadSurroundings,
                    PrepaintAction::ReadIndex,
                    PrepaintAction::ReusePrepaint(kept.prepaint_range),
                    PrepaintAction::ExtendAccessed(kept.accessed_entities),
                    PrepaintAction::ReadIndex,
                    PrepaintAction::PutState(
                        global_id->0,
                        AnyViewState {
                            prepaint_range: Range {
                                start: events[4]->Index_0,
                                end: events[7]->Index_0,
                            },
                            paint_range: kept.paint_range,
                            cache_key: kept.cache_key,
                            accessed_entities: kept.accessed_entities,
                        },
                    ),
                    PrepaintAction::PopView,
                    PrepaintAction::Finish(None),
                ],
            )
        }),
{
    prepaint_turns(passes, actions, events);
}

/// If a view is rendered over what is kept of it, then nothing is kept, or one of the things
/// that it was rendered for compares unequal to what it is asked for now, or the view has been
/// notified, or caching is ignored. While caching is ignored and the entities that are read are
/// noted, this very view is rendered, what came of it is laid out in the size of the bounds, and
/// what came of that is prepainted at their origin; what comes of that is left to be painted.
/// The view is kept with its part of the record, as not painted yet, with what it was rendered
/// for, and with the entities that were read. Whether caching is ignored is then as it was.
pub proof fn view_is_rendered_anew<H: Host>(
    view: AnyView<H>,
    global_id: Option<H::GlobalId>,
    bounds: Bounds<H>,
    unpainted: H::PaintIndex,
    passes: Seq<Prepaint<H>>,
    actions: Seq<PrepaintAction<H>>,
    events: Seq<PrepaintEvent<H>>,
)
    requires
        prepaint_asks(
            view,
            global_id,
            bounds,
            None,
            unpainted,
            passes,
            actions,
            events,
        ),
        actions.len() > 4,
        actions[4] is StartRefreshing,
    ensures
        ({
            let kept = events[2]->State_0;
            let key = kept->0.cache_key;
            let around = events[3]->Surroundings_0;
            ||| kept is None
            ||| call_ensures(
                <H::Point as PartialEq>::eq,
                (&key.bounds.origin, &bounds.origin),
                false,
            )
            ||| call_ensures(<H::Size as PartialEq>::eq, (&key.bounds.size, &bounds.size), false)
            ||| call_ensures(
                <H::ContentMask as PartialEq>::eq,
                (&key.content_mask, &around.content_mask),
                false,
            )
            ||| call_ensures(
                <H::TextStyle as PartialEq>::eq,
                (&key.text_style, &around.text_style),
                false,
            )
            ||| key.offscreen_surface != view.offscreen_surface
            ||| around.dirty
            ||| around.refreshing
        }),
        actions.is_prefix_of(
            seq![
                PrepaintAction::SetViewId(view.entity.entity_id),
                PrepaintAction::PushView(view.entity.entity_id),
                PrepaintAction::TakeState(global_id->0),
                PrepaintAction::ReadSurroundings,
                PrepaintAction::StartRefreshing,
                PrepaintAction::ReadIndex,
                PrepaintAction::StartDetecting,
                PrepaintAction::Render(view),
                PrepaintAction::LayoutAsRoot(events[7]->Element_0, bounds.size),
                PrepaintAction::PrepaintAt(events[8]->Element_0, bounds.origin),
                PrepaintAction::EndDetecting,
                PrepaintAction::ReadIndex,
                PrepaintAction::SetRefreshing(events[4]->Refreshing_0),
                PrepaintAction::PutState(
                    global_id->0,
                    AnyViewState {
                        prepaint_range: Range {
                            start: events[5]->Index_0,
                            end: events[11]->Index_0,
                        },
                        paint_range: Range { start: unpainted, end: unpainted },
                        cache_key: ViewCacheKey {
                            bounds,
                            content_mask: events[3]->Surroundings_0.content_mask,
                            text_style: events[3]->Surroundings_0.text_style,
                            offscreen_surface: view.offscreen_surface,
                        },
                        accessed_entities: events[10]->Accessed_0,
                    },
                ),
                PrepaintAction::PopView,
                PrepaintAction::Finish(Some(events[9]->Element_0)),
            ],
        ),
{
    prepaint_turns(passes, actions, events);
}

/// Where the host's comparisons go by their specifications, a view is taken over exactly when
/// something is kept of it, each thing that it was rendered for equals what it is asked for now,
/// it has not been notified, and caching is not ignored.
pub proof fn equal_views_are_taken_over<H: Host>(
    view: AnyView<H>,
    global_id: Option<H::GlobalId>,
    bounds: Bounds<H>,
    unpainted: H::PaintIndex,
    passes: Seq<Prepaint<H>>,
    actions: Seq<PrepaintAction<H>>,
    events: Seq<PrepaintEvent<H>>,
)
    requires
        prepaint_asks(
            view,
            global_id,
            bounds,
            None,
            unpainted,
            passes,
            actions,
            events,
        ),
        actions.len() > 4,
        <H::Point as PartialEqSpec>::obeys_eq_spec(),
        <H::Size as PartialEqSpec>::obeys_eq_spec(),
        <H::ContentMask as PartialEqSpec>::obeys_eq_spec(),
        <H::TextStyle as PartialEqSpec>::obeys_eq_spec(),
    ensures
        !(actions[4] is StartRefreshing) <==> {
            let kept = events[2]->State_0;
            let key = kept->0.cache_key;
            let around = events[3]->Surroundings_0;
            &&& kept is Some
            &&& key.bounds.origin.eq_spec(&bounds.origin)
            &&& key.bounds.size.eq_spec(&bounds.size)
            &&& key.content_mask.eq_spec(&around.content_mask)
            &&& key.text_style.eq_spec(&around.text_style)
            &&& key.offscreen_surface == view.offscreen_surface
            &&& !around.dirty
            &&& !around.refreshing
        },
{
    prepaint_turns(passes, actions, events);
}

/// Whether `event` is the kind of answer that a layout action asks for.
pub open spec fn answers_layout<H: Host>(action: LayoutAction<H>, event: LayoutEvent<H>) -> bool {
    match action {
        LayoutAction::ReadPicking => event is Picking,
        LayoutAction::RequestLayout(_) => event is Layout,
        LayoutAction::Render(_) => event is Element,
        LayoutAction::RequestElementLayout(_) => event is ElementLayout,
        LayoutAction::Finish(_, _) => false,
        _ => event is Done,
    }
}

/// Event `i` answers action `i`, and [`Layout::step`] goes on from there.
pub open spec fn layout_turn<H: Host>(
    passes: Seq<Layout<H>>,
    actions: Seq<LayoutAction<H>>,
    events: Seq<LayoutEvent<H>>,
    i: int,
) -> bool {
    &&& answers_layout(actions[i], events[i])
    &&& call_ensures(
        Layout::<H>::step,
        (passes[i], events[i]),
        (passes[i + 1], actions[i + 1]),
    )
}

/// What [`AnyView::request_layout`] and then [`Layout::step`] ask for, in this order, when these
/// events come in.
pub open spec fn layout_asks<H: Host>(
    view: AnyView<H>,
    passes: Seq<Layout<H>>,
    actions: Seq<LayoutAction<H>>,
    events: Seq<LayoutEvent<H>>,
) -> bool {
    &&& passes.len() == events.len() + 1
    &&& actions.len() == events.len() + 1
    &&& call_ensures(AnyView::<H>::request_layout, (&view,), (passes[0], actions[0]))
    &&& forall|i: int|
        0 <= i < events.len() ==> #[trigger] layout_turn(passes, actions, events, i)
}

proof fn layout_turns<H: Host>(
    passes: Seq<Layout<H>>,
    actions: Seq<LayoutAction<H>>,
    events: Seq<LayoutEvent<H>>,
)
    requires
        forall|i: int|
            0 <= i < events.len() ==> #[trigger] layout_turn(passes, actions, events, i),
    ensures
        events.len() > 0 ==> layout_turn(passes, actions, events, 0),
        events.len() > 1 ==> layout_turn(passes, actions, events, 1),
        events.len() > 2 ==> layout_turn(passes, actions, events, 2),
        events.len() > 3 ==> layout_turn(passes, actions, events, 3),
        events.len() > 4 ==> layout_turn(passes, actions, events, 4),
        events.len() > 5 ==> layout_turn(passes, actions, events, 5),
{
}

/// A layout pass can always be started, and can always go on when what it has asked for is
/// answered.
pub proof fn layout_goes_on<H: Host>(
    view: AnyView<H>,
    passes: Seq<Layout<H>>,
    actions: Seq<LayoutAction<H>>,
    events: Seq<LayoutEvent<H>>,
    event: LayoutEvent<H>,
)
    ensures
        call_requires(AnyView::<H>::request_layout, (&view,)),
        layout_asks(view, passes, actions, events) && answers_layout(actions.last(), event)
            ==> call_requires(Layout::<H>::step, (passes.last(), event)),
{
    if layout_asks(view, passes, actions, events) && answers_layout(actions.last(), event) {
        layout_turns(passes, actions, events);
        assert(events.len() <= 5);
    }
}

/// A layout pass over a cached view, while the inspector is not picking, enters a node with the
/// view's very style into the layout tree, and renders nothing. Any other layout pass renders
/// this very view and enters what came of it into the layout tree, and leaves what came of that.
pub proof fn cached_view_is_laid_out_by_its_style<H: Host>(
    view: AnyView<H>,
    passes: Seq<Layout<H>>,
    actions: Seq<LayoutAction<H>>,
    events: Seq<LayoutEvent<H>>,
)
    requires
        layout_asks(view, passes, actions, events),
    ensures
        actions.is_prefix_of(
            if actions.len() <= 2 {
                seq![LayoutAction::PushView(view.entity.entity_id), LayoutAction::ReadPicking]
            } else if view.cached_style is Some && !events[1]->Picking_0 {
                seq![
                    LayoutAction::PushView(view.entity.entity_id),
                    LayoutAction::ReadPicking,
                    LayoutAction::RequestLayout(view.cached_style->0),
                    LayoutAction::PopView,
                    LayoutAction::Finish(events[2]->Layout_0, None),
                ]
            } else {
                seq![
                    LayoutAction::PushView(view.entity.entity_id),
                    LayoutAction::ReadPicking,
                    LayoutAction::Render(view),
                    LayoutAction::RequestElementLayout(events[2]->Element_0),
                    LayoutAction::PopView,
                    LayoutAction::Finish(
                        events[3]->ElementLayout_0,
                        Some(events[3]->ElementLayout_1),
                    ),
                ]
            },
        ),
{
    layout_turns(passes, actions, events);
}

/// Whether `event` is the kind of answer that a paint action asks for. What the prepaint pass
/// has kept of the view is still there.
pub open spec fn answers_paint<H: Host>(action: PaintAction<H>, event: PaintEvent<H>) -> bool {
    match action {
        PaintAction::ReadPicking => event is Picking,
        PaintAction::TakeState(_) => event is State && event->State_0 is Some,
        PaintAction::ReadIndex => event is Index,
        PaintAction::StartRefreshing => event is Refreshing,
        PaintAction::Finish => false,
        _ => event is Done,
    }
}

/// Event `i` answers action `i`, and [`Paint::step`] goes on from there.
pub open spec fn paint_turn<H: Host>(
    passes: Seq<Paint<H>>,
    actions: Seq<PaintAction<H>>,
    events: Seq<PaintEvent<H>>,
    i: int,
) -> bool {
    &&& answers_paint(actions[i], events[i])
    &&& call_ensures(
        Paint::<H>::step,
        (passes[i], events[i]),
        (passes[i + 1], actions[i + 1]),
    )
}

/// What [`AnyView::paint`] and then [`Paint::step`] ask for, in this order, when these events
/// come in.
pub open spec fn paint_asks<H: Host>(
    view: AnyView<H>,
    global_id: Option<H::GlobalId>,
    bounds: Bounds<H>,
    has_element: bool,
    passes: Seq<Paint<H>>,
    actions: Seq<PaintAction<H>>,
    events: Seq<PaintEvent<H>>,
) -> bool {
    &&& passes.len() == events.len() + 1
    &&& actions.len() == events.len() + 1
    &&& call_ensures(
        AnyView::<H>::paint,
        (&view, global_id, bounds, has_element),
        (passes[0], actions[0]),
    )
    &&& forall|i: int| 0 <= i < events.len() ==> #[trigger] paint_turn(passes, actions, events, i)
}

proof fn paint_turns<H: Host>(
    passes: Seq<Paint<H>>,
    actions: Seq<PaintAction<H>>,
    events: Seq<PaintEvent<H>>,
)
    requires
        forall|i: int|
            0 <= i < events.len() ==> #[trigger] paint_turn(passes, actions, events, i),
    ensures
        events.len() > 0 ==> paint_turn(passes, actions, events, 0),
        events.len() > 1 ==> paint_turn(passes, actions, events, 1),
        events.len() > 2 ==> paint_turn(passes, actions, events, 2),
        events.len() > 3 ==> paint_turn(passes, actions, events, 3),
        events.len() > 4 ==> paint_turn(passes, actions, events, 4),
        events.len() > 5 ==> paint_turn(passes, actions, events, 5),
        events.len() > 6 ==> paint_turn(passes, actions, events, 6),
        events.len() > 7 ==> paint_turn(passes, actions, events, 7),
        events.len() > 8 ==> paint_turn(passes, actions, events, 8),
        events.len() > 9 ==> paint_turn(passes, actions, events, 9),
        events.len() > 10 ==> paint_turn(passes, actions, events, 10),
{
}

/// A paint pass can always be started. It can go on when what it has asked for is answered, if a
/// cached view has an id and any other view, or a cached one while the inspector is picking,
/// comes with an element.
pub proof fn paint_goes_on<H: Host>(
    view: AnyView<H>,
    global_id: Option<H::GlobalId>,
    bounds: Bounds<H>,
    has_element: bool,
    passes: Seq<Paint<H>>,
    actions: Seq<PaintAction<H>>,
    events: Seq<PaintEvent<H>>,
    event: PaintEvent<H>,
)
    ensures
        call_requires(AnyView::<H>::paint, (&view, global_id, bounds, has_element)),
        paint_asks(view, global_id, bounds, has_element, passes, actions, events)
            && answers_paint(actions.last(), event) && (event matches PaintEvent::Picking(picking)
            ==> if view.cached_style is Some && !picking {
            global_id is Some
        } else {
            has_element
        }) ==> call_requires(Paint::<H>::step, (passes.last(), event)),
{
    if paint_asks(view, global_id, bounds, has_element, passes, actions, events) && answers_paint(
        actions.last(),
        event,
    ) {
        paint_turns(passes, actions, events);
        assert(events.len() <= 10);
    }
}

/// A view that is not cached, or whose cache is disabled because the inspector is picking, is
/// painted by its element, and nothing else happens: no surface is shown, whatever the view says
/// of one.
pub proof fn uncached_view_is_painted<H: Host>(
    view: AnyView<H>,
    global_id: Option<H::GlobalId>,
    bounds: Bounds<H>,
    has_element: bool,
    passes: Seq<Paint<H>>,
    actions: Seq<PaintAction<H>>,
    events: Seq<PaintEvent<H>>,
)
    requires
        paint_asks(view, global_id, bounds, has_element, passes, actions, events),
        actions.len() > 2 ==> view.cached_style is None || events[1]->Picking_0,
    ensures
        actions.is_prefix_of(
            seq![
                PaintAction::PushView(view.entity.entity_id),
                PaintAction::ReadPicking,
                PaintAction::PaintElement,
                PaintAction::PopView,
                PaintAction::Finish,
            ],
        ),
{
    paint_turns(passes, actions, events);
}

/// What is left of a cached view is painted while caching is ignored: into the view's surface if
/// it has one, and straight into the window if it has none. The view is kept with its new part of
/// the paint record and otherwise as it was, and whether caching is ignored is as it was.
pub proof fn rendered_view_is_painted<H: Host>(
    view: AnyView<H>,
    global_id: Option<H::GlobalId>,
    bounds: Bounds<H>,
    passes: Seq<Paint<H>>,
    actions: Seq<PaintAction<H>>,
    events: Seq<PaintEvent<H>>,
)
    requires
        paint_asks(view, global_id, bounds, true, passes, actions, events),
        view.cached_style is Some,
        actions.len() > 2 ==> !events[1]->Picking_0,
    ensures
        ({
            let kept = events[2]->State_0->0;
            actions.is_prefix_of(
                seq![
                    PaintAction::PushView(view.entity.entity_id),
                    PaintAction::ReadPicking,
                    PaintAction::TakeState(global_id->0),
                    PaintAction::ReadIndex,
                    PaintAction::StartRefreshing,
                    match view.offscreen_surface {
                        Some(id) => PaintAction::PaintOffscreen { id, bounds, redraw: true },
                        None => PaintAction::PaintElement,
                    },
                    PaintAction::SetRefreshing(events[4]->Refreshing_0),
                    PaintAction::ReadIndex,
                    PaintAction::PutState(
                        global_id->0,
                        AnyViewState {
                            prepaint_range: kept.prepaint_range,
                            paint_range: Range {
                                start: events[3]->Index_0,
                                end: events[7]->Index_0,
                            },
                            cache_key: kept.cache_key,
                            accessed_entities: kept.accessed_entities,
                        },
                    ),
                    PaintAction::PopView,
                    PaintAction::Finish,
                ],
            )
        }),
{
    paint_turns(passes, actions, events);
}

/// Where nothing is left of a cached view without a surface, the part of the paint record that it
/// had is taken over as a whole. The view is kept with its new part of the paint record and
/// otherwise as it was.
pub proof fn kept_paint_is_taken_over<H: Host>(
    view: AnyView<H>,
    global_id: Option<H::GlobalId>,
    bounds: Bounds<H>,
    passes: Seq<Paint<H>>,
    actions: Seq<PaintAction<H>>,
    events: Seq<PaintEvent<H>>,
)
    requires
        paint_asks(view, global_id, bounds, false, passes, actions, events),
        view.cached_style is Some,
        view.offscreen_surface is None,
        actions.len() > 2 ==> !events[1]->Picking_0,
    ensures
        ({
            let kept = events[2]->State_0->0;
            actions.is_prefix_of(
                seq![
                    PaintAction::PushView(view.entity.entity_id),
                    PaintAction::ReadPicking,
                    PaintAction::TakeState(global_id->0),
                    PaintAction::ReadIndex,
                    PaintAction::ReusePaint(kept.paint_range),
                    PaintAction::ReadIndex,
                    PaintAction::PutState(
                        global_id->0,
                        AnyViewState {
                            prepaint_range: kept.prepaint_range,
                            paint_range: Range {
                                start: events[3]->Index_0,
                                end: events[5]->Index_0,
                            },
                            cache_key: kept.cache_key,
                            accessed_entities: kept.accessed_entities,
                        },
                    ),
                    PaintAction::PopView,
                    PaintAction::Finish,
                ],
            )
        }),
{
    paint_turns(passes, actions, events);
}

/// Where nothing is left of a cached view with a surface, the part of the paint record that it
/// had is taken over without its drawing commands, and the view's surface is shown within the
/// bounds with the pixels that it has. The view is kept with its new part of the paint record and
/// otherwise as it was.
pub proof fn kept_surface_is_shown<H: Host>(
    view: AnyView<H>,
    global_id: Option<H::GlobalId>,
    bounds: Bounds<H>,
    passes: Seq<Paint<H>>,
    actions: Seq<PaintAction<H>>,
    events: Seq<PaintEvent<H>>,
)
    requires
        paint_asks(view, global_id, bounds, false, passes, actions, events),
        view.cached_style is Some,
        view.offscreen_surface is Some,
        actions.len() > 2 ==> !events[1]->Picking_0,
    ensures
        ({
            let kept = events[2]->State_0->0;
            actions.is_prefix_of(
                seq![
                    PaintAction::PushView(view.entity.entity_id),
                    PaintAction::ReadPicking,
                    PaintAction::TakeState(global_id->0),
                    PaintAction::ReadIndex,
                    PaintAction::ReusePaintWithoutScene(kept.paint_range),
                    PaintAction::PaintOffscreen {
                        id: view.offscreen_surface->0,
                        bounds,
                        redraw: false,
                    },
                    PaintAction::ReadIndex,
                    PaintAction::PutState(
                        global_id->0,
                        AnyViewState {
                            prepaint_range: kept.prepaint_range,
                            paint_range: Range {
                                start: events[3]->Index_0,
                                end: events[6]->Index_0,
                            },
                            cache_key: kept.cache_key,
                            accessed_entities: kept.accessed_entities,
                        },
                    ),
                    PaintAction::PopView,
                    PaintAction::Finish,
                ],
            )
        }),
{
    paint_turns(passes, actions, events);
}

/// A paint pass over a view without a surface shows no surface.
pub proof fn no_surface_is_made_up<H: Host>(
    view: AnyView<H>,
    global_id: Option<H::GlobalId>,
    bounds: Bounds<H>,
    has_element: bool,
    passes: Seq<Paint<H>>,
    actions: Seq<PaintAction<H>>,
    events: Seq<PaintEvent<H>>,
    i: int,
)
    requires
        paint_asks(view, global_id, bounds, has_element, passes, actions, events),
        view.offscreen_surface is None,
        0 <= i < actions.len(),
    ensures
        !(actions[i] is PaintOffscreen),
        !(actions[i] is ReusePaintWithoutScene),
{
    paint_turns(passes, actions, events);
    assert(events.len() <= 10);
}

} // verus!
