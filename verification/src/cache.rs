use crate::entity::EntityId;
use crate::host::{Bounds, Host, comparable, equality_may_be};
use crate::view::OffscreenSurfaceId;
use std::collections::HashSet;
use std::ops::Range;
use std::rc::Rc;
use vstd::prelude::*;
use vstd::std_specs::cmp::PartialEqSpec;

verus! {

/// What the appearance of a cached view depends on besides its own state.
pub struct ViewCacheKey<H: Host> {
    pub bounds: Bounds<H>,
    pub content_mask: H::ContentMask,
    pub text_style: H::TextStyle,
    pub offscreen_surface: Option<OffscreenSurfaceId>,
}

/// What is kept of a cached view from one frame to the next.
pub struct AnyViewState<H: Host> {
    /// The part of the frame's prepaint record that belongs to the view.
    pub prepaint_range: Range<H::PrepaintIndex>,
    /// The part of the frame's paint record that belongs to the view.
    pub paint_range: Range<H::PaintIndex>,
    /// What the view was last rendered for.
    pub cache_key: ViewCacheKey<H>,
    /// The entities that were read while the view was last rendered.
    pub accessed_entities: Rc<HashSet<EntityId>>,
}

/// What the window has around a view at the moment of its prepaint.
pub struct Surroundings<H: Host> {
    pub content_mask: H::ContentMask,
    pub text_style: H::TextStyle,
    /// Whether the view has been notified since it was last drawn.
    pub dirty: bool,
    /// Whether caching is ignored: the window is being refreshed, or an enclosing view is
    /// being rendered anew.
    pub refreshing: bool,
}

impl<H: Host> ViewCacheKey<H> {
    /// Whether `other` asks for the same appearance, by the specifications of the host's `==`.
    pub open spec fn matches(self, other: Self) -> bool {
        &&& self.bounds.origin.eq_spec(&other.bounds.origin)
        &&& self.bounds.size.eq_spec(&other.bounds.size)
        &&& self.content_mask.eq_spec(&other.content_mask)
        &&& self.text_style.eq_spec(&other.text_style)
        &&& self.offscreen_surface == other.offscreen_surface
    }

    /// Whether the host's `==` may find that `other` asks for the same appearance.
    pub open spec fn may_match(self, other: Self) -> bool {
        &&& equality_may_be(self.bounds.origin, other.bounds.origin, true)
        &&& equality_may_be(self.bounds.size, other.bounds.size, true)
        &&& equality_may_be(self.content_mask, other.content_mask, true)
        &&& equality_may_be(self.text_style, other.text_style, true)
        &&& self.offscreen_surface == other.offscreen_surface
    }

    /// Whether the host's `==` may find that `other` asks for another appearance.
    pub open spec fn may_differ(self, other: Self) -> bool {
        ||| equality_may_be(self.bounds.origin, other.bounds.origin, false)
        ||| equality_may_be(self.bounds.size, other.bounds.size, false)
        ||| equality_may_be(self.content_mask, other.content_mask, false)
        ||| equality_may_be(self.text_style, other.text_style, false)
        ||| self.offscreen_surface != other.offscreen_surface
    }

    /// The host's `==` finds the key equal to itself, and does not find it equal to another
    /// one at one time and unequal at another. No key with an undefined number is like this.
    pub open spec fn is_settled(self) -> bool {
        &&& !self.may_differ(self)
        &&& forall|kept: Self| #[trigger] kept.may_match(self) ==> !kept.may_differ(self)
    }
}

/// The key under which a view is rendered with `bounds` in these surroundings.
pub open spec fn key_of<H: Host>(
    bounds: Bounds<H>,
    surroundings: Surroundings<H>,
    offscreen_surface: Option<OffscreenSurfaceId>,
) -> ViewCacheKey<H> {
    ViewCacheKey {
        bounds,
        content_mask: surroundings.content_mask,
        text_style: surroundings.text_style,
        offscreen_surface,
    }
}

/// When a view may be taken over from the previous frame: something was kept of it, it
/// was rendered for what is asked for now, it has not been notified since, and caching is
/// not ignored.
pub open spec fn reusable<H: Host>(
    state: Option<AnyViewState<H>>,
    bounds: Bounds<H>,
    surroundings: Surroundings<H>,
    offscreen_surface: Option<OffscreenSurfaceId>,
) -> bool {
    &&& state matches Some(state)
    &&& state.cache_key.matches(key_of(bounds, surroundings, offscreen_surface))
    &&& !surroundings.dirty
    &&& !surroundings.refreshing
}

/// When a view may be found fit to be taken over from the previous frame, as the host's `==`
/// may come out.
pub open spec fn may_be_reused<H: Host>(
    state: Option<AnyViewState<H>>,
    bounds: Bounds<H>,
    surroundings: Surroundings<H>,
    offscreen_surface: Option<OffscreenSurfaceId>,
) -> bool {
    &&& state matches Some(state)
    &&& state.cache_key.may_match(key_of(bounds, surroundings, offscreen_surface))
    &&& !surroundings.dirty
    &&& !surroundings.refreshing
}

/// When a view may be found unfit to be taken over from the previous frame, as the host's `==`
/// may come out.
pub open spec fn may_be_rendered<H: Host>(
    state: Option<AnyViewState<H>>,
    bounds: Bounds<H>,
    surroundings: Surroundings<H>,
    offscreen_surface: Option<OffscreenSurfaceId>,
) -> bool {
    ||| state is None
    ||| state->0.cache_key.may_differ(key_of(bounds, surroundings, offscreen_surface))
    ||| surroundings.dirty
    ||| surroundings.refreshing
}

fn same_surface(
    a: Option<OffscreenSurfaceId>,
    b: Option<OffscreenSurfaceId>,
) -> (same: bool)
    ensures
        same == (a == b),
{
    match (a, b) {
        (Some(a), Some(b)) => a == b,
        (None, None) => true,
        _ => false,
    }
}

/// Whether a view may be taken over from the previous frame (see [`reusable`]). It compares
/// with the host's `==`, whatever that answers.
pub fn is_reusable<H: Host>(
    state: &Option<AnyViewState<H>>,
    bounds: Bounds<H>,
    surroundings: &Surroundings<H>,
    offscreen_surface: Option<OffscreenSurfaceId>,
) -> (reuse: bool)
    ensures
        reuse ==> may_be_reused(*state, bounds, *surroundings, offscreen_surface),
        !reuse ==> may_be_rendered(*state, bounds, *surroundings, offscreen_surface),
        comparable::<H>() ==> reuse == reusable(*state, bounds, *surroundings, offscreen_surface),
{
    match state {
        Some(state) => {
            let key = &state.cache_key;
            key.bounds.origin == bounds.origin && key.bounds.size == bounds.size
                && key.content_mask == surroundings.content_mask && key.text_style
                == surroundings.text_style && same_surface(
                key.offscreen_surface,
                offscreen_surface,
            ) && !surroundings.dirty && !surroundings.refreshing
        },
        None => false,
    }
}

/// Only a view of which something is kept is found fit to be taken over, and only if each thing
/// that it was rendered for compares equal to what it is asked for now: the place, the size, the
/// part that may be drawn on, the text style and the surface; and only if it has not been
/// notified and caching is not ignored. A view is found unfit only if one of these fails.
pub proof fn reuse_asks_that_each_thing_is_equal<H: Host>(
    state: Option<AnyViewState<H>>,
    bounds: Bounds<H>,
    surroundings: Surroundings<H>,
    offscreen_surface: Option<OffscreenSurfaceId>,
    reuse: bool,
)
    requires
        call_ensures(is_reusable::<H>, (&state, bounds, &surroundings, offscreen_surface), reuse),
    ensures
        ({
            let key = state->0.cache_key;
            let same_place = call_ensures(
                <H::Point as PartialEq>::eq,
                (&key.bounds.origin, &bounds.origin),
                reuse,
            );
            let same_size = call_ensures(
                <H::Size as PartialEq>::eq,
                (&key.bounds.size, &bounds.size),
                reuse,
            );
            let same_mask = call_ensures(
                <H::ContentMask as PartialEq>::eq,
                (&key.content_mask, &surroundings.content_mask),
                reuse,
            );
            let same_text = call_ensures(
                <H::TextStyle as PartialEq>::eq,
                (&key.text_style, &surroundings.text_style),
                reuse,
            );
            if reuse {
                &&& state is Some
                &&& same_place
                &&& same_size
                &&& same_mask
                &&& same_text
                &&& key.offscreen_surface == offscreen_surface
                &&& !surroundings.dirty
                &&& !surroundings.refreshing
            } else {
                ||| state is None
                ||| same_place
                ||| same_size
                ||| same_mask
                ||| same_text
                ||| key.offscreen_surface != offscreen_surface
                ||| surroundings.dirty
                ||| surroundings.refreshing
            }
        }),
{
}

/// Where the host's comparisons go by their specifications, a view is found fit to be taken over
/// exactly when something is kept of it, the place, the size, the part that may be drawn on, the
/// text style and the surface are each equal to those that it was rendered for, it has not been
/// notified, and caching is not ignored.
pub proof fn reuse_is_equality_of_each_thing<H: Host>(
    state: Option<AnyViewState<H>>,
    bounds: Bounds<H>,
    surroundings: Surroundings<H>,
    offscreen_surface: Option<OffscreenSurfaceId>,
    reuse: bool,
)
    requires
        <H::Point as PartialEqSpec>::obeys_eq_spec(),
        <H::Size as PartialEqSpec>::obeys_eq_spec(),
        <H::ContentMask as PartialEqSpec>::obeys_eq_spec(),
        <H::TextStyle as PartialEqSpec>::obeys_eq_spec(),
        call_ensures(is_reusable::<H>, (&state, bounds, &surroundings, offscreen_surface), reuse),
    ensures
        reuse <==> {
            let key = state->0.cache_key;
            &&& state is Some
            &&& key.bounds.origin.eq_spec(&bounds.origin)
            &&& key.bounds.size.eq_spec(&bounds.size)
            &&& key.content_mask.eq_spec(&surroundings.content_mask)
            &&& key.text_style.eq_spec(&surroundings.text_style)
            &&& key.offscreen_surface == offscreen_surface
            &&& !surroundings.dirty
            &&& !surroundings.refreshing
        },
        call_requires(is_reusable::<H>, (&state, bounds, &surroundings, offscreen_surface)),
{
}

/// Where the host's comparisons have one answer, what may be found of two keys is what is so.
pub proof fn comparisons_decide<H: Host>(key: ViewCacheKey<H>, other: ViewCacheKey<H>)
    requires
        comparable::<H>(),
    ensures
        key.may_match(other) ==> key.matches(other),
        key.may_differ(other) ==> !key.matches(other),
{
}

/// Where the host's comparisons have one answer, what may be found of a view is what is so.
pub proof fn reuse_is_decided<H: Host>(
    state: Option<AnyViewState<H>>,
    bounds: Bounds<H>,
    surroundings: Surroundings<H>,
    offscreen_surface: Option<OffscreenSurfaceId>,
)
    requires
        comparable::<H>(),
    ensures
        may_be_reused(state, bounds, surroundings, offscreen_surface) ==> reusable(
            state,
            bounds,
            surroundings,
            offscreen_surface,
        ),
        may_be_rendered(state, bounds, surroundings, offscreen_surface) ==> !reusable(
            state,
            bounds,
            surroundings,
            offscreen_surface,
        ),
{
    if state is Some {
        comparisons_decide(
            state->0.cache_key,
            key_of(bounds, surroundings, offscreen_surface),
        );
    }
}

/// Where the host's comparisons have one answer, every key that is equal to itself is settled.
pub proof fn reflexive_key_is_settled<H: Host>(key: ViewCacheKey<H>)
    requires
        comparable::<H>(),
        key.matches(key),
    ensures
        key.is_settled(),
{
}

/// A view with a surface may be taken over exactly when it might be without one, and may be
/// found fit or unfit for that exactly when it might be without one.
pub proof fn invalidation_is_the_same_with_a_surface<H: Host>(
    state: AnyViewState<H>,
    bounds: Bounds<H>,
    surroundings: Surroundings<H>,
    id: OffscreenSurfaceId,
)
    requires
        state.cache_key.offscreen_surface == Some(id),
    ensures
        ({
            let with = Some(state);
            let without = Some(
                AnyViewState {
                    cache_key: ViewCacheKey { offscreen_surface: None, ..state.cache_key },
                    ..state
                },
            );
            &&& reusable(with, bounds, surroundings, Some(id)) <==> reusable(
                without,
                bounds,
                surroundings,
                None,
            )
            &&& may_be_reused(with, bounds, surroundings, Some(id)) <==> may_be_reused(
                without,
                bounds,
                surroundings,
                None,
            )
            &&& may_be_rendered(with, bounds, surroundings, Some(id)) <==> may_be_rendered(
                without,
                bounds,
                surroundings,
                None,
            )
        }),
{
}

} // verus!
