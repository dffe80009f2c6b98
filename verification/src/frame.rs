use crate::cache::{
    AnyViewState, key_of, may_be_rendered, may_be_reused, reusable, reuse_is_decided,
};
use crate::entity::EntityId;
use crate::host::{Bounds, Host, comparable};
use crate::layout::{Layout, LayoutAction, LayoutEvent, LayoutPhase, layout_start};
use crate::paint::{Paint, PaintAction, PaintEvent, PaintPhase, paint_start};
use crate::prepaint::{Prepaint, PrepaintAction, PrepaintEvent, prepaint_start};
use crate::view::AnyView;
use crate::window::{
    ReusedPaint, ShownSurface, WindowState, layout_answer, nested_work, paint_answer,
    prepaint_answer,
};
use std::ops::Range;
use vstd::prelude::*;
use vstd::std_specs::cmp::PartialEqSpec;

verus! {

/// A moment of a prepaint pass: how far it is, what it asks for, and the window then.
pub struct PrepaintMoment<H: Host> {
    pub pass: Prepaint<H>,
    pub action: PrepaintAction<H>,
    pub window: WindowState<H>,
}

/// The window does what moment `i` asks for and answers with event `i`, which leads to the
/// moment after it.
pub open spec fn prepaint_moves<H: Host>(
    run: Seq<PrepaintMoment<H>>,
    events: Seq<PrepaintEvent<H>>,
    i: int,
) -> bool {
    let (from, event, to) = (run[i], events[i], run[i + 1]);
    &&& from.pass.expects(event)
    &&& to.pass == from.pass.in_phase(to.pass.phase)
    &&& from.pass.may_follow(event, to.pass.phase, to.action)
    &&& prepaint_answer(from.pass.view.entity.entity_id, from.window, from.action, event, to.window)
}

/// A prepaint pass from its start in `before` to its end in `after`, where it has left `result`
/// to be painted.
pub open spec fn is_prepaint_run<H: Host>(
    start: Prepaint<H>,
    run: Seq<PrepaintMoment<H>>,
    events: Seq<PrepaintEvent<H>>,
    before: WindowState<H>,
    result: Option<H::Element>,
    after: WindowState<H>,
) -> bool {
    &&& run.len() == events.len() + 1
    &&& run[0] == PrepaintMoment {
        pass: start,
        action: PrepaintAction::SetViewId(start.view.entity.entity_id),
        window: before,
    }
    &&& forall|i: int| 0 <= i < events.len() ==> #[trigger] prepaint_moves(run, events, i)
    &&& run.last().action == PrepaintAction::<H>::Finish(result)
    &&& run.last().window == after
}

/// `read` is what was noted of the entities that were read while the view was rendered, if it
/// was rendered in this run.
pub open spec fn notes_read<H: Host>(run: Seq<PrepaintMoment<H>>, read: Set<EntityId>) -> bool {
    forall|i: int|
        0 <= i < run.len() && (#[trigger] run[i]).action is EndDetecting
            ==> run[i].window.detecting.last() == read
}

/// What a prepaint pass has done to a window when it is over. `read` is what was noted of the
/// entities that were read while the view was rendered, if it was.
pub open spec fn prepainted<H: Host>(
    view: AnyView<H>,
    global_id: Option<H::GlobalId>,
    bounds: Bounds<H>,
    element: Option<H::Element>,
    unpainted: H::PaintIndex,
    before: WindowState<H>,
    read: Set<EntityId>,
    result: Option<H::Element>,
    after: WindowState<H>,
) -> bool {
    let kept = before.kept_under(global_id->0);
    let around = before.around(view.entity.entity_id);
    let range = Range { start: before.prepaint_index, end: after.prepaint_index };
    &&& after.view_stack == before.view_stack
    &&& after.refreshing == before.refreshing
    &&& after.picking == before.picking
    &&& after.content_mask == before.content_mask
    &&& after.text_style == before.text_style
    &&& if element is Some {
        result is Some
    } else if result is None {
        &&& may_be_reused(kept, bounds, around, view.offscreen_surface)
        &&& after.kept_under(global_id->0) == Some(
            AnyViewState { prepaint_range: range, ..kept->0 },
        )
        &&& after.reused_prepaint == before.reused_prepaint.push(kept->0.prepaint_range)
        &&& after.accessed == before.accessed.union(kept->0.accessed_entities@)
    } else {
        &&& may_be_rendered(kept, bounds, around, view.offscreen_surface)
        &&& after.kept_under(global_id->0) matches Some(state)
        &&& state.cache_key == key_of(bounds, around, view.offscreen_surface)
        &&& state.prepaint_range == range
        &&& state.paint_range == (Range { start: unpainted, end: unpainted })
        &&& state.accessed_entities@ == read
        &&& read.subset_of(after.accessed)
    }
}

/// What holds in a window while a prepaint pass that started in `before` works on an element
/// that it renders itself: caching is ignored, the view is the innermost one on the stack of
/// views, and the entities that are read are noted.
pub open spec fn ignores_caches<H: Host>(
    view: AnyView<H>,
    before: WindowState<H>,
    window: WindowState<H>,
) -> bool {
    &&& window.refreshing
    &&& window.view_stack == before.view_stack.push(view.entity.entity_id)
    &&& window.detecting.len() == before.detecting.len() + 1
}

/// Whether a prepaint pass asks for work on an element that it renders itself.
pub open spec fn works_anew<H: Host>(action: PrepaintAction<H>) -> bool {
    action is Render || action is LayoutAsRoot || action is PrepaintAt
}

/// From moment `i` on, a prepaint pass renders the view, lays out what comes of that in the size
/// of the bounds, prepaints what comes of that at their origin, and leaves what comes of that.
pub open spec fn renders_at<H: Host>(
    view: AnyView<H>,
    bounds: Bounds<H>,
    run: Seq<PrepaintMoment<H>>,
    events: Seq<PrepaintEvent<H>>,
    result: Option<H::Element>,
    i: int,
) -> bool {
    &&& 0 <= i < run.len() - 3
    &&& run[i].action == PrepaintAction::Render(view)
    &&& events[i] matches PrepaintEvent::Element(rendered)
    &&& run[i + 1].action == PrepaintAction::<H>::LayoutAsRoot(rendered, bounds.size)
    &&& events[i + 1] matches PrepaintEvent::Element(laid_out)
    &&& run[i + 2].action == PrepaintAction::<H>::PrepaintAt(laid_out, bounds.origin)
    &&& events[i + 2] matches PrepaintEvent::Element(prepainted)
    &&& result == Some(prepainted)
}

/// Follows a prepaint pass action by action.
proof fn prepaint_trace<H: Host>(
    view: AnyView<H>,
    global_id: Option<H::GlobalId>,
    bounds: Bounds<H>,
    element: Option<H::Element>,
    unpainted: H::PaintIndex,
    run: Seq<PrepaintMoment<H>>,
    events: Seq<PrepaintEvent<H>>,
    before: WindowState<H>,
    result: Option<H::Element>,
    after: WindowState<H>,
)
    requires
        is_prepaint_run(
            prepaint_start(view, global_id, bounds, element, unpainted),
            run,
            events,
            before,
            result,
            after,
        ),
    ensures
        forall|read: Set<EntityId>| #[trigger]
            notes_read(run, read) ==> prepainted(
                view,
                global_id,
                bounds,
                element,
                unpainted,
                before,
                read,
                result,
                after,
            ),
        element is None && result is Some ==> renders_at(view, bounds, run, events, result, 7),
        element is Some ==> {
            &&& run.len() == 5
            &&& run[2].action == PrepaintAction::<H>::PrepaintElement(element->0)
            &&& run[2].window.view_stack == before.view_stack.push(view.entity.entity_id)
            &&& events[2] matches PrepaintEvent::Element(prepainted)
            &&& result == Some(prepainted)
        },
        forall|i: int|
            0 <= i < run.len() && (#[trigger] run[i]).action is PrepaintElement
                ==> element is Some && i == 2,
        forall|i: int|
            0 <= i < run.len() && (#[trigger] run[i]).action is EndDetecting ==> i == 10,
        forall|i: int|
            0 <= i < run.len() && works_anew((#[trigger] run[i]).action) ==> {
                &&& element is None && result is Some
                &&& 7 <= i <= 9
                &&& ignores_caches(view, before, run[i].window)
            },
{
    assert(before.view_stack.push(view.entity.entity_id).drop_last() == before.view_stack);
    assert(before.detecting.push(Set::empty()).drop_last() == before.detecting);
    assert(prepaint_moves(run, events, 0));
    assert(prepaint_moves(run, events, 1));
    assert(prepaint_moves(run, events, 2));
    assert(prepaint_moves(run, events, 3));
    if element is Some {
        assert(events.len() > 4 ==> prepaint_moves(run, events, 4));
    } else {
        assert(prepaint_moves(run, events, 4));
        assert(prepaint_moves(run, events, 5));
        assert(prepaint_moves(run, events, 6));
        assert(prepaint_moves(run, events, 7));
        assert(prepaint_moves(run, events, 8));
        assert(prepaint_moves(run, events, 9));
        if run[4].action is StartRefreshing {
            assert(prepaint_moves(run, events, 10));
            assert(prepaint_moves(run, events, 11));
            assert(prepaint_moves(run, events, 12));
            assert(prepaint_moves(run, events, 13));
            assert(prepaint_moves(run, events, 14));
            assert(events.len() > 15 ==> prepaint_moves(run, events, 15));
        } else {
            assert(events.len() > 10 ==> prepaint_moves(run, events, 10));
        }
    }
}

/// Every prepaint pass that comes to its end leaves the stack of views and the flag for
/// ignoring caches as it found them. It takes a cached view over from the last frame exactly
/// when it may, and then leaves nothing to be painted anew; else it renders the view, and
/// keeps what the view was rendered for and which entities were read meanwhile.
pub proof fn prepaint_outcome<H: Host>(
    view: AnyView<H>,
    global_id: Option<H::GlobalId>,
    bounds: Bounds<H>,
    element: Option<H::Element>,
    unpainted: H::PaintIndex,
    run: Seq<PrepaintMoment<H>>,
    events: Seq<PrepaintEvent<H>>,
    before: WindowState<H>,
    read: Set<EntityId>,
    result: Option<H::Element>,
    after: WindowState<H>,
)
    requires
        element is None ==> global_id is Some,
        is_prepaint_run(
            prepaint_start(view, global_id, bounds, element, unpainted),
            run,
            events,
            before,
            result,
            after,
        ),
        notes_read(run, read),
    ensures
        prepainted(view, global_id, bounds, element, unpainted, before, read, result, after),
        element is None && comparable::<H>() ==> (result is None <==> reusable(
            before.kept_under(global_id->0),
            bounds,
            before.around(view.entity.entity_id),
            view.offscreen_surface,
        )),
{
    prepaint_trace(
        view,
        global_id,
        bounds,
        element,
        unpainted,
        run,
        events,
        before,
        result,
        after,
    );
    if comparable::<H>() {
        reuse_is_decided(
            before.kept_under(global_id->0),
            bounds,
            before.around(view.entity.entity_id),
            view.offscreen_surface,
        );
    }
}

/// In every prepaint run that is started with an element, whatever the global id, exactly one
/// action prepaints an element. It carries the element that the run was started with, the view is
/// then the innermost one on the stack of views, and the run leaves what was handed back for it. A
/// run that is started without an element has no such action.
pub proof fn given_element_is_prepainted_once<H: Host>(
    view: AnyView<H>,
    global_id: Option<H::GlobalId>,
    bounds: Bounds<H>,
    element: Option<H::Element>,
    unpainted: H::PaintIndex,
    run: Seq<PrepaintMoment<H>>,
    events: Seq<PrepaintEvent<H>>,
    before: WindowState<H>,
    result: Option<H::Element>,
    after: WindowState<H>,
) -> (prepainting: int)
    requires
        is_prepaint_run(
            prepaint_start(view, global_id, bounds, element, unpainted),
            run,
            events,
            before,
            result,
            after,
        ),
    ensures
        element matches Some(element) ==> {
            &&& 0 <= prepainting < events.len()
            &&& run[prepainting].action == PrepaintAction::<H>::PrepaintElement(element)
            &&& run[prepainting].window.view_stack == before.view_stack.push(
                view.entity.entity_id,
            )
            &&& events[prepainting] == PrepaintEvent::<H>::Element(result->0)
            &&& result is Some
        },
        forall|i: int|
            0 <= i < run.len() && (#[trigger] run[i]).action is PrepaintElement
                ==> element is Some && i == prepainting,
{
    prepaint_trace(
        view,
        global_id,
        bounds,
        element,
        unpainted,
        run,
        events,
        before,
        result,
        after,
    );
    2
}

/// A prepaint run that leaves nothing to be painted has found something kept of the view, and
/// each thing that the view was rendered for equal to what it is asked for now: the place, the
/// size, the part that may be drawn on, the text style and the surface. The view had not been
/// notified, and caching was not ignored.
pub proof fn view_is_taken_over_for_the_same<H: Host>(
    view: AnyView<H>,
    global_id: Option<H::GlobalId>,
    bounds: Bounds<H>,
    unpainted: H::PaintIndex,
    run: Seq<PrepaintMoment<H>>,
    events: Seq<PrepaintEvent<H>>,
    before: WindowState<H>,
    result: Option<H::Element>,
    after: WindowState<H>,
)
    requires
        is_prepaint_run(
            prepaint_start(view, global_id, bounds, None, unpainted),
            run,
            events,
            before,
            result,
            after,
        ),
    ensures
        result is None ==> {
            let key = before.kept[global_id->0].cache_key;
            &&& before.kept.contains_key(global_id->0)
            &&& call_ensures(
                <H::Point as PartialEq>::eq,
                (&key.bounds.origin, &bounds.origin),
                true,
            )
            &&& call_ensures(<H::Size as PartialEq>::eq, (&key.bounds.size, &bounds.size), true)
            &&& call_ensures(
                <H::ContentMask as PartialEq>::eq,
                (&key.content_mask, &before.content_mask),
                true,
            )
            &&& call_ensures(
                <H::TextStyle as PartialEq>::eq,
                (&key.text_style, &before.text_style),
                true,
            )
            &&& key.offscreen_surface == view.offscreen_surface
            &&& !before.dirty.contains(view.entity.entity_id)
            &&& !before.refreshing
        },
        <H::Point as PartialEqSpec>::obeys_eq_spec() && <H::Size as PartialEqSpec>::obeys_eq_spec()
            && <H::ContentMask as PartialEqSpec>::obeys_eq_spec()
            && <H::TextStyle as PartialEqSpec>::obeys_eq_spec() ==> (result is None <==> {
            let key = before.kept[global_id->0].cache_key;
            &&& before.kept.contains_key(global_id->0)
            &&& key.bounds.origin.eq_spec(&bounds.origin)
            &&& key.bounds.size.eq_spec(&bounds.size)
            &&& key.content_mask.eq_spec(&before.content_mask)
            &&& key.text_style.eq_spec(&before.text_style)
            &&& key.offscreen_surface == view.offscreen_surface
            &&& !before.dirty.contains(view.entity.entity_id)
            &&& !before.refreshing
        }),
{
    prepaint_trace(
        view,
        global_id,
        bounds,
        None,
        unpainted,
        run,
        events,
        before,
        result,
        after,
    );
    assert(notes_read(run, run[10].window.detecting.last()));
}

/// A prepaint pass that was not started with an element and leaves one has rendered the view
/// once, laid out what came of it once in the size of the bounds and prepainted it once at
/// their origin, in this order. Meanwhile caching was ignored, so the cached views inside are
/// rendered anew as well, the view was the innermost one on the stack of views, and the
/// entities that were read were noted. No other pass renders the view.
pub proof fn rendering_ignores_caches<H: Host>(
    view: AnyView<H>,
    global_id: Option<H::GlobalId>,
    bounds: Bounds<H>,
    element: Option<H::Element>,
    unpainted: H::PaintIndex,
    run: Seq<PrepaintMoment<H>>,
    events: Seq<PrepaintEvent<H>>,
    before: WindowState<H>,
    result: Option<H::Element>,
    after: WindowState<H>,
) -> (rendered: int)
    requires
        is_prepaint_run(
            prepaint_start(view, global_id, bounds, element, unpainted),
            run,
            events,
            before,
            result,
            after,
        ),
    ensures
        element is None && result is Some ==> renders_at(
            view,
            bounds,
            run,
            events,
            result,
            rendered,
        ),
        forall|i: int|
            0 <= i < run.len() && works_anew((#[trigger] run[i]).action) ==> {
                &&& element is None && result is Some
                &&& rendered <= i <= rendered + 2
                &&& ignores_caches(view, before, run[i].window)
            },
{
    prepaint_trace(
        view,
        global_id,
        bounds,
        element,
        unpainted,
        run,
        events,
        before,
        result,
        after,
    );
    7
}

/// A moment of a layout pass: how far it is, what it asks for, and the window then.
pub struct LayoutMoment<H: Host> {
    pub pass: Layout<H>,
    pub action: LayoutAction<H>,
    pub window: WindowState<H>,
}

/// The window does what moment `i` asks for and answers with event `i`, which leads to the
/// moment after it.
pub open spec fn layout_moves<H: Host>(
    run: Seq<LayoutMoment<H>>,
    events: Seq<LayoutEvent<H>>,
    i: int,
) -> bool {
    let (from, event, to) = (run[i], events[i], run[i + 1]);
    &&& from.pass.expects(event)
    &&& to.pass == from.pass.in_phase(from.pass.next(event).0)
    &&& to.action == from.pass.next(event).1
    &&& layout_answer(from.window, from.action, event, to.window)
}

/// A layout pass from its start in `before` to its end in `after`, where it has rendered
/// `element`, if any.
pub open spec fn is_layout_run<H: Host>(
    start: Layout<H>,
    run: Seq<LayoutMoment<H>>,
    events: Seq<LayoutEvent<H>>,
    before: WindowState<H>,
    element: Option<H::Element>,
    after: WindowState<H>,
) -> bool {
    &&& run.len() == events.len() + 1
    &&& run[0] == LayoutMoment {
        pass: start,
        action: LayoutAction::PushView(start.view.entity.entity_id),
        window: before,
    }
    &&& forall|i: int| 0 <= i < events.len() ==> #[trigger] layout_moves(run, events, i)
    &&& run.last().action matches LayoutAction::Finish(_, rendered) && rendered == element
    &&& run.last().window == after
}

/// What a layout pass has done to a window when it is over.
pub open spec fn laid_out<H: Host>(
    view: AnyView<H>,
    before: WindowState<H>,
    element: Option<H::Element>,
    after: WindowState<H>,
) -> bool {
    &&& nested_work(before, after)
    &&& if view.cached_style is Some && !before.picking {
        &&& element is None
        &&& after == before
    } else {
        element is Some
    }
}

/// Every layout pass that comes to its end leaves the stack of views as it found it. It
/// renders a view exactly when the view is not cached or the inspector is picking; a view
/// that it does not render leaves no trace in the window but its node in the layout tree. Where
/// it renders the view, it does so once, while the view is the innermost one on the stack of
/// views; it then enters what came of that into the layout tree, and leaves that.
pub proof fn layout_outcome<H: Host>(
    view: AnyView<H>,
    run: Seq<LayoutMoment<H>>,
    events: Seq<LayoutEvent<H>>,
    before: WindowState<H>,
    element: Option<H::Element>,
    after: WindowState<H>,
)
    requires
        is_layout_run(layout_start(view), run, events, before, element, after),
    ensures
        laid_out(view, before, element, after),
        forall|i: int|
            0 <= i < run.len() && (#[trigger] run[i]).action is Render ==> {
                &&& i == 2 && element is Some
                &&& run[i].action == LayoutAction::Render(view)
                &&& run[i].window.view_stack == before.view_stack.push(view.entity.entity_id)
            },
        element is Some ==> {
            &&& run.len() > 4 && run[2].action is Render
            &&& events[2] matches LayoutEvent::Element(rendered)
            &&& run[3].action == LayoutAction::<H>::RequestElementLayout(rendered)
            &&& events[3] matches LayoutEvent::ElementLayout(_, laid_out)
            &&& element == Some(laid_out)
        },
{
    assert(before.view_stack.push(view.entity.entity_id).drop_last() == before.view_stack);
    assert(layout_moves(run, events, 0));
    assert(layout_moves(run, events, 1));
    assert(layout_moves(run, events, 2));
    assert(layout_moves(run, events, 3));
    assert(events.len() > 4 ==> layout_moves(run, events, 4));
    assert(events.len() > 5 ==> layout_moves(run, events, 5));
}

/// A moment of a paint pass: how far it is, what it asks for, and the window then.
pub struct PaintMoment<H: Host> {
    pub pass: Paint<H>,
    pub action: PaintAction<H>,
    pub window: WindowState<H>,
}

/// The window does what moment `i` asks for and answers with event `i`, which leads to the
/// moment after it.
pub open spec fn paint_moves<H: Host>(
    run: Seq<PaintMoment<H>>,
    events: Seq<PaintEvent<H>>,
    i: int,
) -> bool {
    let (from, event, to) = (run[i], events[i], run[i + 1]);
    &&& from.pass.expects(event)
    &&& to.pass == from.pass.in_phase(from.pass.next(event).0)
    &&& to.action == from.pass.next(event).1
    &&& paint_answer(from.window, from.action, event, to.window)
}

/// A paint pass from its start in `before` to its end in `after`.
pub open spec fn is_paint_run<H: Host>(
    start: Paint<H>,
    run: Seq<PaintMoment<H>>,
    events: Seq<PaintEvent<H>>,
    before: WindowState<H>,
    after: WindowState<H>,
) -> bool {
    &&& run.len() == events.len() + 1
    &&& run[0] == PaintMoment {
        pass: start,
        action: PaintAction::PushView(start.entity_id),
        window: before,
    }
    &&& forall|i: int| 0 <= i < events.len() ==> #[trigger] paint_moves(run, events, i)
    &&& run.last().action == PaintAction::<H>::Finish
    &&& run.last().window == after
}

/// What a paint pass has done to a window when it is over.
pub open spec fn painted<H: Host>(
    view: AnyView<H>,
    global_id: Option<H::GlobalId>,
    bounds: Bounds<H>,
    has_element: bool,
    before: WindowState<H>,
    after: WindowState<H>,
) -> bool {
    let kept = before.kept_under(global_id->0);
    &&& nested_work(before, after)
    &&& view.cached_style is Some && !before.picking ==> {
        &&& kept matches Some(kept)
        &&& after.kept_under(global_id->0) == Some(
            AnyViewState {
                paint_range: Range { start: before.paint_index, end: after.paint_index },
                ..kept
            },
        )
        &&& match view.offscreen_surface {
            Some(id) => {
                &&& after.scene == before.scene
                &&& if has_element {
                    &&& after.shown.len() > 0
                    &&& after.shown.last() == ShownSurface::<H> { id, bounds, redrawn: true }
                } else {
                    &&& after.shown == before.shown.push(
                        ShownSurface { id, bounds, redrawn: false },
                    )
                    &&& after.reused_paint == before.reused_paint.push(
                        ReusedPaint { range: kept.paint_range, with_scene: false },
                    )
                }
            },
            None => !has_element ==> after.reused_paint == before.reused_paint.push(
                ReusedPaint { range: kept.paint_range, with_scene: true },
            ),
        }
    }
}

/// Whether a paint pass asks for the element that is left of the view to be painted.
pub open spec fn paints_anew<H: Host>(action: PaintAction<H>) -> bool {
    match action {
        PaintAction::PaintElement => true,
        PaintAction::PaintOffscreen { redraw, .. } => redraw,
        _ => false,
    }
}

/// Follows a paint pass action by action.
proof fn paint_trace<H: Host>(
    view: AnyView<H>,
    global_id: Option<H::GlobalId>,
    bounds: Bounds<H>,
    has_element: bool,
    run: Seq<PaintMoment<H>>,
    events: Seq<PaintEvent<H>>,
    before: WindowState<H>,
    after: WindowState<H>,
)
    requires
        is_paint_run(
            paint_start(view, global_id, bounds, has_element),
            run,
            events,
            before,
            after,
        ),
    ensures
        painted(view, global_id, bounds, has_element, before, after),
        forall|i: int|
            0 <= i < run.len() && paints_anew((#[trigger] run[i]).action) ==> {
                &&& run[i].window.view_stack == before.view_stack.push(view.entity.entity_id)
                &&& if view.cached_style is Some && !before.picking {
                    i == 5 && has_element && run[i].window.refreshing
                } else {
                    i == 2
                }
            },
        if view.cached_style is Some && !before.picking {
            has_element ==> run.len() > 5 && paints_anew(run[5].action)
        } else {
            run.len() > 2 && paints_anew(run[2].action)
        },
        forall|i: int|
            0 <= i < run.len() ==> match (#[trigger] run[i]).action {
                PaintAction::PaintOffscreen { id, bounds: shown, redraw } => {
                    &&& view.cached_style is Some && !before.picking
                    &&& view.offscreen_surface == Some(id)
                    &&& shown == bounds
                    &&& redraw == has_element
                },
                PaintAction::PaintElement => view.cached_style is Some && !before.picking
                    ==> view.offscreen_surface is None,
                _ => true,
            },
{
    assert(before.view_stack.push(view.entity.entity_id).drop_last() == before.view_stack);
    assert(paint_moves(run, events, 0));
    assert(paint_moves(run, events, 1));
    assert(paint_moves(run, events, 2));
    assert(paint_moves(run, events, 3));
    if view.cached_style is Some && !before.picking {
        assert(paint_moves(run, events, 4));
        assert(paint_moves(run, events, 5));
        assert(paint_moves(run, events, 6));
        assert(paint_moves(run, events, 7));
        if has_element || view.offscreen_surface is Some {
            assert(paint_moves(run, events, 8));
        }
        if has_element {
            assert(paint_moves(run, events, 9));
        }
        assert(events.len() > 8 ==> paint_moves(run, events, 8));
        assert(events.len() > 9 ==> paint_moves(run, events, 9));
        assert(events.len() > 10 ==> paint_moves(run, events, 10));
    } else {
        assert(events.len() > 4 ==> paint_moves(run, events, 4));
    }
}

/// Every paint pass that comes to its end leaves the stack of views and the flag for
/// ignoring caches as it found them, and keeps which part of the paint record belongs to a
/// cached view. What is left of a view with a surface goes into the surface and never into
/// the window's own scene. Where no element is left, the paint record of the last frame is
/// taken over: without a surface as a whole, with one without its drawing commands, and the
/// surface is shown with the pixels that it has.
pub proof fn paint_outcome<H: Host>(
    view: AnyView<H>,
    global_id: Option<H::GlobalId>,
    bounds: Bounds<H>,
    has_element: bool,
    run: Seq<PaintMoment<H>>,
    events: Seq<PaintEvent<H>>,
    before: WindowState<H>,
    after: WindowState<H>,
)
    requires
        is_paint_run(
            paint_start(view, global_id, bounds, has_element),
            run,
            events,
            before,
            after,
        ),
    ensures
        painted(view, global_id, bounds, has_element, before, after),
{
    paint_trace(view, global_id, bounds, has_element, run, events, before, after);
}

/// A paint pass paints the element that is left of the view once, while the view is the
/// innermost one on the stack of views, and caching is ignored meanwhile if the view is cached.
/// It does not paint where a cached view has left no element.
pub proof fn painting_ignores_caches<H: Host>(
    view: AnyView<H>,
    global_id: Option<H::GlobalId>,
    bounds: Bounds<H>,
    has_element: bool,
    run: Seq<PaintMoment<H>>,
    events: Seq<PaintEvent<H>>,
    before: WindowState<H>,
    after: WindowState<H>,
) -> (painted: int)
    requires
        is_paint_run(
            paint_start(view, global_id, bounds, has_element),
            run,
            events,
            before,
            after,
        ),
    ensures
        has_element || view.cached_style is None || before.picking ==> 0 <= painted < run.len()
            && paints_anew(run[painted].action),
        forall|i: int|
            0 <= i < run.len() && paints_anew((#[trigger] run[i]).action) ==> {
                &&& i == painted
                &&& run[i].window.view_stack == before.view_stack.push(view.entity.entity_id)
                &&& view.cached_style is Some && !before.picking ==> has_element
                    && run[i].window.refreshing
            },
{
    paint_trace(view, global_id, bounds, has_element, run, events, before, after);
    if view.cached_style is Some && !before.picking {
        5
    } else {
        2
    }
}

/// In every paint run of a view without a surface, cached or not, caching ignored or not, no
/// surface is shown, and where an element is left, exactly one action paints, and it paints the
/// element straight into the window. A view that has a surface, is cached and is not being picked
/// shows this very surface within its bounds; it paints into it anew exactly where an element is
/// left, and never straight into the window.
pub proof fn surface_is_the_views_own<H: Host>(
    view: AnyView<H>,
    global_id: Option<H::GlobalId>,
    bounds: Bounds<H>,
    has_element: bool,
    run: Seq<PaintMoment<H>>,
    events: Seq<PaintEvent<H>>,
    before: WindowState<H>,
    after: WindowState<H>,
) -> (painting: int)
    requires
        is_paint_run(
            paint_start(view, global_id, bounds, has_element),
            run,
            events,
            before,
            after,
        ),
    ensures
        view.offscreen_surface is None ==> {
            &&& forall|i: int|
                0 <= i < run.len() ==> !((#[trigger] run[i]).action is PaintOffscreen)
            &&& forall|i: int|
                0 <= i < run.len() && (#[trigger] run[i]).action is PaintElement ==> i == painting
            &&& has_element ==> 0 <= painting < run.len() && run[painting].action is PaintElement
        },
        view.cached_style is None || before.picking ==> {
            &&& 0 <= painting < run.len() && run[painting].action is PaintElement
            &&& forall|i: int|
                0 <= i < run.len() ==> !((#[trigger] run[i]).action is PaintOffscreen)
        },
        view.offscreen_surface is Some && view.cached_style is Some && !before.picking ==> {
            &&& forall|i: int|
                0 <= i < run.len() ==> !((#[trigger] run[i]).action is PaintElement)
            &&& forall|i: int|
                0 <= i < run.len() && (#[trigger] run[i]).action is PaintOffscreen ==> run[i].action
                    == (PaintAction::<H>::PaintOffscreen {
                    id: view.offscreen_surface->0,
                    bounds,
                    redraw: has_element,
                })
        },
{
    paint_trace(view, global_id, bounds, has_element, run, events, before, after);
    if view.cached_style is Some && !before.picking {
        5
    } else {
        2
    }
}

/// In a frame in which the inspector is picking throughout or not at all, a view whose
/// element has an id always has what a pass asks of it: the prepaint pass its id, and the
/// paint pass either an element or what the prepaint pass has kept.
pub proof fn frame_is_complete<H: Host>(
    view: AnyView<H>,
    global_id: H::GlobalId,
    bounds: Bounds<H>,
    unpainted: H::PaintIndex,
    before_layout: WindowState<H>,
    element: Option<H::Element>,
    after_layout: WindowState<H>,
    before_prepaint: WindowState<H>,
    read: Set<EntityId>,
    result: Option<H::Element>,
    after_prepaint: WindowState<H>,
    before_paint: WindowState<H>,
)
    requires
        laid_out(view, before_layout, element, after_layout),
        prepainted(
            view,
            Some(global_id),
            bounds,
            element,
            unpainted,
            before_prepaint,
            read,
            result,
            after_prepaint,
        ),
        before_prepaint.picking == before_layout.picking,
        before_paint.picking == before_layout.picking,
        before_paint.kept_under(global_id) == after_prepaint.kept_under(global_id),
    ensures
        prepaint_start(view, Some(global_id), bounds, element, unpainted).wf(),
        ({
            let pass = paint_start(view, Some(global_id), bounds, result is Some);
            &&& pass.in_phase(PaintPhase::ReadingPicking).expects(
                PaintEvent::Picking(before_paint.picking),
            )
            &&& view.cached_style is Some && !before_paint.picking ==> pass.in_phase(
                PaintPhase::TakingState,
            ).expects(PaintEvent::State(before_paint.kept_under(global_id)))
        }),
{
}

/// A cached view that has been drawn in one frame is taken over into the next one if it has
/// not been notified, caching is not ignored, and it is asked for in the same bounds and
/// surroundings. What is taken over is the very part of the record that the view had in the
/// first frame, and the entities that were read when the view was rendered, in that frame or
/// before it, count as read again. A view with a surface adds nothing to the window's own scene then: the surface
/// is shown with the pixels that it has, and the event handlers are retained.
///
/// The bounds and the surroundings must be equal to themselves, which an undefined number is
/// not (see [`ViewCacheKey::is_settled`](crate::cache::ViewCacheKey::is_settled)).
pub proof fn unchanged_frame_is_taken_over<H: Host>(
    view: AnyView<H>,
    global_id: H::GlobalId,
    bounds: Bounds<H>,
    unpainted: H::PaintIndex,
    before_prepaint_1: WindowState<H>,
    read_1: Set<EntityId>,
    result_1: Option<H::Element>,
    after_prepaint_1: WindowState<H>,
    before_paint_1: WindowState<H>,
    after_paint_1: WindowState<H>,
    before_prepaint_2: WindowState<H>,
    read_2: Set<EntityId>,
    result_2: Option<H::Element>,
    after_prepaint_2: WindowState<H>,
    before_paint_2: WindowState<H>,
    after_paint_2: WindowState<H>,
)
    requires
        view.cached_style is Some,
        prepainted(
            view,
            Some(global_id),
            bounds,
            None,
            unpainted,
            before_prepaint_1,
            read_1,
            result_1,
            after_prepaint_1,
        ),
        before_paint_1.kept_under(global_id) == after_prepaint_1.kept_under(global_id),
        !before_paint_1.picking,
        painted(view, Some(global_id), bounds, result_1 is Some, before_paint_1, after_paint_1),
        before_prepaint_2.kept_under(global_id) == after_paint_1.kept_under(global_id),
        before_prepaint_2.content_mask == before_prepaint_1.content_mask,
        before_prepaint_2.text_style == before_prepaint_1.text_style,
        !before_prepaint_2.dirty.contains(view.entity.entity_id),
        !before_prepaint_2.refreshing,
        ({
            let key = key_of(
                bounds,
                before_prepaint_1.around(view.entity.entity_id),
                view.offscreen_surface,
            );
            key.is_settled()
        }),
        prepainted(
            view,
            Some(global_id),
            bounds,
            None,
            unpainted,
            before_prepaint_2,
            read_2,
            result_2,
            after_prepaint_2,
        ),
        before_paint_2.kept_under(global_id) == after_prepaint_2.kept_under(global_id),
        !before_paint_2.picking,
        painted(view, Some(global_id), bounds, result_2 is Some, before_paint_2, after_paint_2),
    ensures
        result_2 is None,
        after_prepaint_2.accessed == before_prepaint_2.accessed.union(
            if result_1 is Some {
                read_1
            } else {
                before_prepaint_1.kept_under(global_id)->0.accessed_entities@
            },
        ),
        after_prepaint_2.reused_prepaint == before_prepaint_2.reused_prepaint.push(
            Range {
                start: before_prepaint_1.prepaint_index,
                end: after_prepaint_1.prepaint_index,
            },
        ),
        after_paint_2.reused_paint == before_paint_2.reused_paint.push(
            ReusedPaint {
                range: Range {
                    start: before_paint_1.paint_index,
                    end: after_paint_1.paint_index,
                },
                with_scene: view.offscreen_surface is None,
            },
        ),
        view.offscreen_surface matches Some(id) ==> {
            &&& after_paint_2.scene == before_paint_2.scene
            &&& after_paint_2.shown == before_paint_2.shown.push(
                ShownSurface { id, bounds, redrawn: false },
            )
        },
{
}

/// A cached view is rendered anew if it was notified, if caching is ignored, if nothing is
/// kept of it, or if what is kept was rendered for other bounds, surroundings or another
/// surface. Its surface is then redrawn.
pub proof fn changed_frame_is_drawn_anew<H: Host>(
    view: AnyView<H>,
    global_id: H::GlobalId,
    bounds: Bounds<H>,
    unpainted: H::PaintIndex,
    before_prepaint: WindowState<H>,
    read: Set<EntityId>,
    result: Option<H::Element>,
    after_prepaint: WindowState<H>,
    before_paint: WindowState<H>,
    after_paint: WindowState<H>,
)
    requires
        view.cached_style is Some,
        ({
            let kept = before_prepaint.kept_under(global_id);
            let around = before_prepaint.around(view.entity.entity_id);
            ||| before_prepaint.dirty.contains(view.entity.entity_id)
            ||| before_prepaint.refreshing
            ||| kept is None
            ||| !kept->0.cache_key.may_match(key_of(bounds, around, view.offscreen_surface))
        }),
        prepainted(
            view,
            Some(global_id),
            bounds,
            None,
            unpainted,
            before_prepaint,
            read,
            result,
            after_prepaint,
        ),
        !before_paint.picking,
        painted(view, Some(global_id), bounds, result is Some, before_paint, after_paint),
    ensures
        result is Some,
        after_prepaint.kept_under(global_id) matches Some(kept) && kept.cache_key == key_of(
            bounds,
            before_prepaint.around(view.entity.entity_id),
            view.offscreen_surface,
        ),
        view.offscreen_surface matches Some(id) ==> after_paint.shown.len() > 0
            && after_paint.shown.last() == (ShownSurface::<H> { id, bounds, redrawn: true }),
{
}

} // verus!
