use crate::entity::{
    AnyEntity, AnyWeakEntity, Entity, EntityId, WeakEntity, is_id_of, typed,
};
use crate::host::Host;
use std::any::TypeId;
use std::marker::PhantomData;
use std::rc::Rc;
use vstd::prelude::*;
use vstd::std_specs::cmp::PartialEqSpec;
use vstd::std_specs::convert::FromSpec;

verus! {

/// The name of a viewport-sized surface outside the window's own scene. It must be
/// unique within the window.
#[derive(Clone, Copy, Debug, PartialEq, Eq, Hash, Structural)]
pub struct OffscreenSurfaceId(pub u64);

/// What can be turned into an element of any kind.
pub trait IntoElement<H: Host>: Sized {
    /// The element.
    fn into_any_element(self) -> H::Element;
}

/// What can be shown as a view.
pub trait Render<H: Host>: Sized {
    /// What the view shows.
    type Element: IntoElement<H>;

    /// What rendering may do: from the state `before` of the view, with this window and
    /// application, it may produce `element` and leave the state, the window and the
    /// application as given last. A view that says no more than this may do anything.
    open spec fn may_render(
        before: Self,
        window: H::Window,
        cx: H::App,
        element: Self::Element,
        after: Self,
        window_after: H::Window,
        cx_after: H::App,
    ) -> bool {
        true
    }

    /// Produces what the view shows from the state that it is in.
    fn render(&mut self, window: &mut H::Window, cx: &mut H::App) -> (element: Self::Element)
        ensures
            Self::may_render(
                *old(self),
                *old(window),
                *old(cx),
                element,
                *final(self),
                *final(window),
                *final(cx),
            ),
    ;
}

/// The routine that renders views of one type. It may be used on a handle to a view of that
/// type only (see [`render`]).
#[derive(Debug)]
pub struct RenderFn<H: Host> {
    pub view_type: TypeId,
    pub host: PhantomData<H>,
}

/// The routine that renders views of the type that `view_type` identifies.
pub open spec fn routine_for<H: Host>(view_type: TypeId) -> RenderFn<H> {
    RenderFn { view_type, host: PhantomData }
}

impl<H: Host> RenderFn<H> {
    /// The routine renders views of type `V`.
    pub open spec fn is_for<V: 'static>(self) -> bool {
        is_id_of::<V>(self.view_type)
    }
}

impl<H: Host> Clone for RenderFn<H> {
    fn clone(&self) -> (copy: Self)
        ensures
            copy == *self,
    {
        *self
    }
}

impl<H: Host> Copy for RenderFn<H> {

}

/// A dynamically-typed handle to a view, which can be downcast to an [`Entity`] for a
/// specific type.
#[derive(Debug)]
pub struct AnyView<H: Host> {
    pub entity: AnyEntity,
    pub render: RenderFn<H>,
    pub cached_style: Option<Rc<H::Style>>,
    pub offscreen_surface: Option<OffscreenSurfaceId>,
}

/// A weak, dynamically-typed view handle that does not prevent the view from being
/// released.
pub struct AnyWeakView<H: Host> {
    pub entity: AnyWeakEntity,
    pub render: RenderFn<H>,
}

/// The id of an element among its siblings.
#[derive(Clone, Copy, Debug, PartialEq, Eq, Structural)]
pub enum ElementId {
    /// The element that shows a view.
    View(EntityId),
}

/// A place in the source of the application.
#[derive(Debug)]
pub struct SourceLocation {
    pub file: String,
    pub line: u32,
}

/// `Rc::clone`, which makes another pointer to the same value.
#[verifier::external_body]
pub(crate) fn share<T>(shared: &Rc<T>) -> (pointer: Rc<T>)
    ensures
        pointer == *shared,
{
    Rc::clone(shared)
}

impl<H: Host> AnyView<H> {
    /// The routine that renders the view is the one for the type of its entity (see
    /// [`routine_fits_the_view`]), and only a cached view has an offscreen surface.
    pub open spec fn wf(self) -> bool {
        &&& self.render.view_type == self.entity.entity_type
        &&& self.offscreen_surface is Some ==> self.cached_style is Some
    }

    /// The view is of type `V`.
    pub open spec fn is_a<V: 'static>(self) -> bool {
        is_id_of::<V>(self.entity.entity_type)
    }

    /// The same view with another way of being cached.
    pub open spec fn with_cache(
        self,
        cached_style: Option<Rc<H::Style>>,
        offscreen_surface: Option<OffscreenSurfaceId>,
    ) -> Self {
        AnyView { cached_style, offscreen_surface, ..self }
    }

    /// The view as a handle to a view of type `T`, or else as it is.
    pub open spec fn downcast_to<T: 'static>(self) -> Result<Entity<T>, Self> {
        if self.is_a::<T>() {
            Ok(typed(self.entity))
        } else {
            Err(self)
        }
    }

    /// Indicate that this view should be cached when using it as an element.
    /// The view's previous layout and paint are then recycled from the previous frame if
    /// the view has not been notified since it was rendered.
    /// The one exception is a refresh of the whole window, during which caching is ignored.
    pub fn cached(self, style: H::Style) -> (view: Self)
        ensures
            view == self.with_cache(Some(Rc::new(style)), None),
            view.entity == self.entity,
            view.render == self.render,
            view.cached_style == Some(Rc::new(style)),
            view.offscreen_surface is None,
            self.wf() ==> view.wf(),
    {
        let mut view = self;
        view.cached_style = Some(Rc::new(style));
        view.offscreen_surface = None;
        view
    }

    /// Cache this view's layout and pixels in a viewport-sized surface.
    /// Unchanged frames composite the surface while retaining hitboxes and input
    /// handlers. Invalidation follows [`AnyView::cached`]. The style must provide the
    /// viewport size and the surface id must be unique within the window.
    pub fn cached_offscreen(self, style: H::Style, id: OffscreenSurfaceId) -> (view: Self)
        ensures
            view == self.with_cache(Some(Rc::new(style)), Some(id)),
            view.entity == self.entity,
            view.render == self.render,
            view.cached_style == Some(Rc::new(style)),
            view.offscreen_surface == Some(id),
            self.wf() ==> view.wf(),
    {
        let mut view = self;
        view.cached_style = Some(Rc::new(style));
        view.offscreen_surface = Some(id);
        view
    }

    /// The weak handle to the same view.
    pub open spec fn weak(self) -> AnyWeakView<H> {
        AnyWeakView {
            entity: AnyWeakEntity {
                entity_id: self.entity.entity_id,
                entity_type: self.entity.entity_type,
            },
            render: self.render,
        }
    }

    /// Convert this to a weak handle.
    pub fn downgrade(&self) -> (weak: AnyWeakView<H>)
        ensures
            weak == self.weak(),
            self.wf() ==> weak.wf(),
    {
        AnyWeakView { entity: self.entity.downgrade(), render: self.render }
    }

    /// Convert this to an [`Entity`] of a specific type.
    /// If this handle does not contain a view of the specified type, returns itself in an
    /// `Err` variant.
    pub fn downcast<T: 'static>(self) -> (result: Result<Entity<T>, Self>)
        ensures
            result == self.downcast_to::<T>(),
            result is Ok <==> is_id_of::<T>(self.entity.entity_type),
            result matches Ok(entity) ==> entity.any_entity == self.entity,
            result matches Err(view) ==> view == self,
    {
        match self.entity.downcast() {
            Ok(entity) => Ok(entity),
            Err(entity) => Err(
                AnyView {
                    entity,
                    render: self.render,
                    cached_style: self.cached_style,
                    offscreen_surface: self.offscreen_surface,
                },
            ),
        }
    }

    /// Gets the type of the underlying view.
    pub fn entity_type(&self) -> (entity_type: TypeId)
        ensures
            entity_type == self.entity.entity_type,
    {
        self.entity.entity_type
    }

    /// Gets the entity id of this handle.
    pub fn entity_id(&self) -> (entity_id: EntityId)
        ensures
            entity_id == self.entity.entity_id,
    {
        self.entity.entity_id
    }

    /// The id of the element that shows this view.
    pub fn id(&self) -> (id: Option<ElementId>)
        ensures
            id == Some(ElementId::View(self.entity.entity_id)),
    {
        Some(ElementId::View(self.entity_id()))
    }

    /// The place where the element was made: none is known of a view.
    pub fn source_location(&self) -> (location: Option<SourceLocation>)
        ensures
            location is None,
    {
        None
    }

    /// A view is an element already.
    pub fn into_element(self) -> (element: Self)
        ensures
            element == self,
    {
        self
    }
}

impl<H: Host> Clone for AnyView<H> {
    fn clone(&self) -> (copy: Self)
        ensures
            copy == *self,
    {
        AnyView {
            entity: self.entity.clone(),
            render: self.render,
            cached_style: match &self.cached_style {
                Some(style) => Some(share(style)),
                None => None,
            },
            offscreen_surface: self.offscreen_surface,
        }
    }
}

impl<V: Render<H>, H: Host> From<Entity<V>> for AnyView<H> {
    fn from(value: Entity<V>) -> (view: Self) {
        let entity = value.into_any();
        let view_type = entity.entity_type;
        AnyView {
            entity,
            render: RenderFn { view_type, host: PhantomData },
            cached_style: None,
            offscreen_surface: None,
        }
    }
}

impl<V: Render<H>, H: Host> vstd::std_specs::convert::FromSpecImpl<Entity<V>> for AnyView<H> {
    open spec fn obeys_from_spec() -> bool {
        true
    }

    open spec fn from_spec(value: Entity<V>) -> Self {
        AnyView {
            entity: value.any_entity,
            render: routine_for(value.any_entity.entity_type),
            cached_style: None,
            offscreen_surface: None,
        }
    }
}

impl<H: Host> PartialEq for AnyView<H> {
    fn eq(&self, other: &Self) -> (same: bool) {
        self.entity.same_entity(&other.entity)
    }
}

impl<H: Host> vstd::std_specs::cmp::PartialEqSpecImpl for AnyView<H> {
    open spec fn obeys_eq_spec() -> bool {
        true
    }

    open spec fn eq_spec(&self, other: &Self) -> bool {
        self.entity.entity_id == other.entity.entity_id
    }
}

impl<H: Host> Eq for AnyView<H> {

}

impl<H: Host> AnyWeakView<H> {
    /// The routine that renders the view is the one for the type of its entity.
    pub open spec fn wf(self) -> bool {
        self.render.view_type == self.entity.entity_type
    }

    /// The strong handle to the same view, which is not cached.
    pub open spec fn strong(self) -> AnyView<H> {
        AnyView {
            entity: AnyEntity {
                entity_id: self.entity.entity_id,
                entity_type: self.entity.entity_type,
            },
            render: self.render,
            cached_style: None,
            offscreen_surface: None,
        }
    }

    /// Convert to a strong handle if the referenced view has not yet been released, which
    /// `alive` tells. The handle is that of a view that is not cached.
    pub fn upgrade(&self, alive: bool) -> (view: Option<AnyView<H>>)
        ensures
            view == (if alive {
                Some(self.strong())
            } else {
                None
            }),
            self.wf() && alive ==> view->0.wf(),
    {
        match self.entity.upgrade(alive) {
            Some(entity) => Some(
                AnyView {
                    entity,
                    render: self.render,
                    cached_style: None,
                    offscreen_surface: None,
                },
            ),
            None => None,
        }
    }
}

/// `n` in decimal digits.
pub open spec fn decimal(n: nat) -> Seq<char>
    decreases n,
{
    let digit = ('0' as u32 + n % 10) as char;
    if n < 10 {
        seq![digit]
    } else {
        decimal(n / 10).push(digit)
    }
}

fn append_decimal(text: &mut String, n: u64)
    ensures
        final(text)@ == old(text)@ + decimal(n as nat),
    decreases n,
{
    if n >= 10 {
        append_decimal(text, n / 10);
    }
    proof {
        reveal_strlit("0");
        reveal_strlit("1");
        reveal_strlit("2");
        reveal_strlit("3");
        reveal_strlit("4");
        reveal_strlit("5");
        reveal_strlit("6");
        reveal_strlit("7");
        reveal_strlit("8");
        reveal_strlit("9");
    }
    let digit = match n % 10 {
        0 => "0",
        1 => "1",
        2 => "2",
        3 => "3",
        4 => "4",
        5 => "5",
        6 => "6",
        7 => "7",
        8 => "8",
        _ => "9",
    };
    assert(digit@ == seq![('0' as u32 + n as nat % 10) as char]);
    text.append(digit);
}

impl<H: Host> AnyWeakView<H> {
    /// The handle as text for a developer. It shows which entity the handle refers to.
    pub fn fmt(&self) -> (text: String)
        ensures
            text@ == "AnyWeakView { entity_id: EntityId("@ + decimal(
                self.entity.entity_id.0 as nat,
            ) + "), .. }"@,
    {
        let mut text = "AnyWeakView { entity_id: EntityId(".to_string();
        append_decimal(&mut text, self.entity.entity_id.0);
        text.append("), .. }");
        text
    }
}

impl<V: Render<H>, H: Host> From<WeakEntity<V>> for AnyWeakView<H> {
    fn from(view: WeakEntity<V>) -> (weak: Self) {
        let entity = view.any_entity;
        let view_type = entity.entity_type;
        AnyWeakView { entity, render: RenderFn { view_type, host: PhantomData } }
    }
}

impl<V: Render<H>, H: Host> vstd::std_specs::convert::FromSpecImpl<WeakEntity<V>> for AnyWeakView<H> {
    open spec fn obeys_from_spec() -> bool {
        true
    }

    open spec fn from_spec(view: WeakEntity<V>) -> Self {
        AnyWeakView {
            entity: view.any_entity,
            render: routine_for(view.any_entity.entity_type),
        }
    }
}

impl<H: Host> PartialEq for AnyWeakView<H> {
    fn eq(&self, other: &Self) -> (same: bool) {
        self.entity.same_entity(&other.entity)
    }
}

impl<H: Host> vstd::std_specs::cmp::PartialEqSpecImpl for AnyWeakView<H> {
    open spec fn obeys_eq_spec() -> bool {
        true
    }

    open spec fn eq_spec(&self, other: &Self) -> bool {
        self.entity.entity_id == other.entity.entity_id
    }
}

impl<V> Entity<V> {
    /// The element that shows the view: a handle to it that is not cached.
    pub fn into_element<H: Host>(self) -> (element: AnyView<H>) where V: Render<H>
        ensures
            element == <AnyView<H> as FromSpec<Entity<V>>>::from_spec(self),
            element.wf(),
    {
        AnyView::from(self)
    }
}

/// The handle to the entity whose state the routine for views of type `V` renders.
pub fn render<V: Render<H> + 'static, H: Host>(view: &AnyView<H>) -> (entity: Entity<V>)
    requires
        view.is_a::<V>(),
    ensures
        entity == typed::<V>(view.entity),
        entity.valid(),
{
    match view.clone().downcast::<V>() {
        Ok(entity) => entity,
        Err(_) => vstd::pervasive::unreached(),
    }
}

/// The state of an entity, while it is taken out of the application in order to be updated.
pub struct Lease<V> {
    pub entity: Entity<V>,
    pub state: V,
}

/// What rendering a leased view may produce: the view is rendered once, and `element` is what
/// came of it.
pub open spec fn may_render_lease<V: Render<H>, H: Host>(
    before: Lease<V>,
    window: H::Window,
    cx: H::App,
    element: H::Element,
    after: Lease<V>,
    window_after: H::Window,
    cx_after: H::App,
) -> bool {
    &&& after.entity == before.entity
    &&& exists|shown: V::Element|
        #![trigger call_ensures(<V::Element as IntoElement<H>>::into_any_element, (shown,), element)]
        {
            &&& V::may_render(
                before.state,
                window,
                cx,
                shown,
                after.state,
                window_after,
                cx_after,
            )
            &&& call_ensures(
                <V::Element as IntoElement<H>>::into_any_element,
                (shown,),
                element,
            )
        }
}

/// Renders the view: its state, which has been leased from the application under the handle
/// that [`render`] gives, is rendered once in this window.
pub fn render_lease<V: Render<H> + 'static, H: Host>(
    view: &AnyView<H>,
    lease: &mut Lease<V>,
    window: &mut H::Window,
    cx: &mut H::App,
) -> (element: H::Element)
    requires
        view.is_a::<V>(),
        old(lease).entity == typed::<V>(view.entity),
    ensures
        may_render_lease::<V, H>(
            *old(lease),
            *old(window),
            *old(cx),
            element,
            *final(lease),
            *final(window),
            *final(cx),
        ),
        final(lease).entity == old(lease).entity,
        exists|shown: V::Element|
            #![trigger call_ensures(<V::Element as IntoElement<H>>::into_any_element, (shown,), element)]
            V::may_render(
                old(lease).state,
                *old(window),
                *old(cx),
                shown,
                final(lease).state,
                *final(window),
                *final(cx),
            ) && call_ensures(
                <V::Element as IntoElement<H>>::into_any_element,
                (shown,),
                element,
            ),
{
    let shown = lease.state.render(window, cx);
    shown.into_any_element()
}

/// An element that shows nothing.
#[derive(Clone, Copy, Debug, PartialEq, Eq, Structural)]
pub struct Empty;

/// A view that renders nothing.
#[derive(Clone, Copy, Debug, PartialEq, Eq, Structural)]
pub struct EmptyView;

impl<H: Host> Render<H> for EmptyView where Empty: IntoElement<H> {
    type Element = Empty;

    /// Rendering the empty view shows nothing and changes nothing.
    open spec fn may_render(
        before: Self,
        window: H::Window,
        cx: H::App,
        element: Empty,
        after: Self,
        window_after: H::Window,
        cx_after: H::App,
    ) -> bool {
        &&& element == Empty
        &&& after == before
        &&& window_after == window
        &&& cx_after == cx
    }

    fn render(&mut self, window: &mut H::Window, cx: &mut H::App) -> (element: Empty) {
        Empty
    }
}

/// Rendering the empty view shows nothing, whatever the window and the application are, and
/// changes none of them.
pub proof fn empty_view_shows_nothing<H: Host>(
    before: EmptyView,
    window: H::Window,
    cx: H::App,
    element: Empty,
    after: EmptyView,
    window_after: H::Window,
    cx_after: H::App,
) where Empty: IntoElement<H>
    requires
        <EmptyView as Render<H>>::may_render(
            before,
            window,
            cx,
            element,
            after,
            window_after,
            cx_after,
        ),
    ensures
        window_after == window,
        cx_after == cx,
{
}

/// A handle converts to one for type `T` exactly if the identifier of `T` is the type of its
/// entity: then it becomes the typed handle to the same entity, which is valid. Else it comes
/// back as it was, whether it is cached or not.
pub proof fn downcast_goes_by_the_type<T: 'static, H: Host>(
    view: AnyView<H>,
    result: Result<Entity<T>, AnyView<H>>,
)
    requires
        call_ensures(AnyView::<H>::downcast::<T>, (view,), result),
    ensures
        result is Ok <==> is_id_of::<T>(view.entity.entity_type),
        result matches Ok(entity) ==> {
            &&& is_id_of::<T>(entity.any_entity.entity_type)
            &&& entity.any_entity.entity_id == view.entity.entity_id
            &&& entity.any_entity.entity_type == view.entity.entity_type
        },
        result matches Err(same) ==> {
            &&& same.entity == view.entity
            &&& same.render == view.render
            &&& same.cached_style == view.cached_style
            &&& same.offscreen_surface == view.offscreen_surface
        },
        call_requires(AnyView::<H>::downcast::<T>, (view,)),
{
}

/// Two attempts to convert one handle to one type come out alike, and a handle that has come
/// back from a failed attempt still converts to what it did before.
pub proof fn downcast_is_repeatable<T: 'static, U: 'static, H: Host>(
    view: AnyView<H>,
    failed: AnyView<H>,
    first: Result<Entity<T>, AnyView<H>>,
    second: Result<Entity<T>, AnyView<H>>,
)
    requires
        call_ensures(AnyView::<H>::downcast::<T>, (view,), first),
        call_ensures(AnyView::<H>::downcast::<U>, (view,), Err::<Entity<U>, AnyView<H>>(failed)),
        call_ensures(AnyView::<H>::downcast::<T>, (failed,), second),
    ensures
        first == second,
{
}

/// A handle that is made from a typed one refers to the same entity, is rendered as one of its
/// type, and is not cached.
pub proof fn conversion_keeps_the_entity<V: Render<H> + 'static, H: Host>(
    entity: Entity<V>,
    view: AnyView<H>,
)
    requires
        call_ensures(<AnyView<H> as From<Entity<V>>>::from, (entity,), view) || call_ensures(
            Entity::<V>::into_element::<H>,
            (entity,),
            view,
        ),
    ensures
        view.entity == entity.any_entity,
        view.render.view_type == entity.any_entity.entity_type,
        view.cached_style is None,
        view.offscreen_surface is None,
{
}

/// A weak handle that is made from a typed weak one refers to the same entity and is rendered as
/// one of its type.
pub proof fn weak_conversion_keeps_the_entity<V: Render<H> + 'static, H: Host>(
    entity: WeakEntity<V>,
    view: AnyWeakView<H>,
)
    requires
        call_ensures(<AnyWeakView<H> as From<WeakEntity<V>>>::from, (entity,), view),
    ensures
        view.entity == entity.any_entity,
        view.render.view_type == entity.any_entity.entity_type,
{
}

/// Caching a view changes how it is cached and nothing else. Of a surface that the view had, a
/// cache without a surface leaves nothing, and a new surface takes the place of an old one.
pub proof fn caching_keeps_the_view<H: Host>(
    view: AnyView<H>,
    style: H::Style,
    id: OffscreenSurfaceId,
    cached: AnyView<H>,
    offscreen: AnyView<H>,
)
    requires
        call_ensures(AnyView::<H>::cached, (view, style), cached),
        call_ensures(AnyView::<H>::cached_offscreen, (view, style, id), offscreen),
    ensures
        cached.entity == view.entity,
        cached.render == view.render,
        cached.cached_style is Some,
        *cached.cached_style->0 == style,
        cached.offscreen_surface is None,
        offscreen.entity == view.entity,
        offscreen.render == view.render,
        offscreen.cached_style is Some,
        *offscreen.cached_style->0 == style,
        offscreen.offscreen_surface == Some(id),
        call_requires(AnyView::<H>::cached, (view, style)),
        call_requires(AnyView::<H>::cached_offscreen, (view, style, id)),
{
}

/// A weak handle upgrades to a view exactly as long as the view is alive. What comes back refers
/// to the same entity, is rendered by the same routine, and is not cached.
pub proof fn weak_handle_comes_back<H: Host>(
    view: AnyView<H>,
    weak: AnyWeakView<H>,
    alive: bool,
    back: Option<AnyView<H>>,
)
    requires
        call_ensures(AnyView::<H>::downgrade, (&view,), weak),
        call_ensures(AnyWeakView::<H>::upgrade, (&weak, alive), back),
    ensures
        weak.entity.entity_id == view.entity.entity_id,
        weak.entity.entity_type == view.entity.entity_type,
        weak.render == view.render,
        back is Some <==> alive,
        back matches Some(back) ==> {
            &&& back.entity == view.entity
            &&& back.render == view.render
            &&& back.cached_style is None
            &&& back.offscreen_surface is None
        },
        call_requires(AnyWeakView::<H>::upgrade, (&weak, alive)),
{
}

/// Upgrading any weak handle gives the view that it names.
pub proof fn upgrade_keeps_the_entity<H: Host>(
    weak: AnyWeakView<H>,
    alive: bool,
    back: Option<AnyView<H>>,
)
    requires
        call_ensures(AnyWeakView::<H>::upgrade, (&weak, alive), back),
    ensures
        back is Some <==> alive,
        back matches Some(back) ==> {
            &&& back.entity.entity_id == weak.entity.entity_id
            &&& back.entity.entity_type == weak.entity.entity_type
            &&& back.render == weak.render
            &&& back.cached_style is None
            &&& back.offscreen_surface is None
        },
{
}

/// A clone, and a view as an element, is the same handle in every respect.
pub proof fn clone_is_the_same<H: Host>(view: AnyView<H>, copy: AnyView<H>, element: AnyView<H>)
    requires
        call_ensures(<AnyView<H> as Clone>::clone, (&view,), copy),
        call_ensures(AnyView::<H>::into_element, (view,), element),
    ensures
        copy == view,
        element == view,
{
}

/// What a handle says of itself is what its entity says; the element that shows it is known by
/// its entity alone.
pub proof fn handle_names_its_entity<H: Host>(
    view: AnyView<H>,
    entity_id: EntityId,
    entity_type: TypeId,
    id: Option<ElementId>,
    location: Option<SourceLocation>,
)
    requires
        call_ensures(AnyView::<H>::entity_id, (&view,), entity_id),
        call_ensures(AnyView::<H>::entity_type, (&view,), entity_type),
        call_ensures(AnyView::<H>::id, (&view,), id),
        call_ensures(AnyView::<H>::source_location, (&view,), location),
    ensures
        entity_id == view.entity.entity_id,
        entity_type == view.entity.entity_type,
        id == Some(ElementId::View(view.entity.entity_id)),
        location is None,
{
}

/// Two handles are equal exactly when they refer to one entity, strong ones and weak ones alike,
/// however they are cached.
pub proof fn handles_are_equal_by_entity<H: Host>(
    a: AnyView<H>,
    b: AnyView<H>,
    same: bool,
    weak_a: AnyWeakView<H>,
    weak_b: AnyWeakView<H>,
    weak_same: bool,
)
    requires
        call_ensures(<AnyView<H> as PartialEq>::eq, (&a, &b), same),
        call_ensures(<AnyWeakView<H> as PartialEq>::eq, (&weak_a, &weak_b), weak_same),
    ensures
        same <==> a.entity.entity_id == b.entity.entity_id,
        weak_same <==> weak_a.entity.entity_id == weak_b.entity.entity_id,
{
}

/// A view is rendered through the typed handle to its own entity.
pub proof fn rendering_finds_the_entity<V: Render<H> + 'static, H: Host>(
    view: AnyView<H>,
    entity: Entity<V>,
)
    requires
        call_ensures(render::<V, H>, (&view,), entity),
    ensures
        entity.any_entity == view.entity,
        is_id_of::<V>(view.entity.entity_type) ==> call_requires(render::<V, H>, (&view,)),
{
}

proof fn decimal_digits(n: nat)
    ensures
        decimal(n).len() > 0,
        decimal(n).len() > 1 ==> decimal(n)[0] != '0',
        n > 0 ==> decimal(n)[0] != '0',
        forall|i: int| 0 <= i < decimal(n).len() ==> '0' <= #[trigger] decimal(n)[i] <= '9',
        decimal(n).fold_left(0, |number: int, digit: char| 10 * number + (digit as int - 48)) == n,
    decreases n,
{
    let f = |number: int, digit: char| 10 * number + (digit as int - 48);
    let digit = ('0' as u32 + n % 10) as char;
    assert(digit as int == 48 + n % 10);
    if n >= 10 {
        decimal_digits(n / 10);
        assert(decimal(n).drop_last() == decimal(n / 10));
        assert(decimal(n).last() == digit);
    } else {
        assert(decimal(n).drop_last() == Seq::<char>::empty());
        assert(decimal(n).drop_last().fold_left(0, f) == 0);
        assert(decimal(n).last() == digit);
    }
}

/// The text for a developer shows the number of the entity and nothing else of the handle: its
/// decimal digits, without a zero before them, stand for just that number.
pub proof fn text_shows_the_number<H: Host>(weak: AnyWeakView<H>, text: String) -> (digits: Seq<
    char,
>)
    requires
        call_ensures(AnyWeakView::<H>::fmt, (&weak,), text),
    ensures
        text@ == "AnyWeakView { entity_id: EntityId("@ + digits + "), .. }"@,
        digits.len() > 0,
        digits.len() > 1 ==> digits[0] != '0',
        forall|i: int| 0 <= i < digits.len() ==> '0' <= #[trigger] digits[i] <= '9',
        digits.fold_left(0, |number: int, digit: char| 10 * number + (digit as int - 48))
            == weak.entity.entity_id.0,
{
    decimal_digits(weak.entity.entity_id.0 as nat);
    decimal(weak.entity.entity_id.0 as nat)
}

/// A view of type `V` that has come from `entity`: by way of a clone, of any way of being
/// cached, of a weak handle, or as the element that shows the entity.
pub open spec fn comes_from<V: Render<H> + 'static, H: Host>(
    view: AnyView<H>,
    entity: Entity<V>,
) -> bool {
    let fresh = <AnyView<H> as FromSpec<Entity<V>>>::from_spec(entity);
    view == fresh.with_cache(view.cached_style, view.offscreen_surface)
}

/// A handle that is made from a typed one can be converted back to the typed one: as it is,
/// cached or not, after it was a weak handle, and after attempts to convert it to another
/// type, which lose nothing. It keeps the type of the view, so it can be rendered as a view of
/// that type.
pub proof fn typed_handle_round_trip<V: Render<H> + 'static, U: 'static, H: Host>(
    entity: Entity<V>,
    cached_style: Option<Rc<H::Style>>,
    offscreen_surface: Option<OffscreenSurfaceId>,
)
    requires
        entity.valid(),
    ensures
        ({
            let fresh = <AnyView<H> as FromSpec<Entity<V>>>::from_spec(entity);
            let cached = fresh.with_cache(cached_style, offscreen_surface);
            let back = cached.weak().strong();
            let ok = Ok::<Entity<V>, AnyView<H>>(entity);
            &&& fresh.is_a::<V>() && fresh.downcast_to::<V>() == ok
            &&& cached.is_a::<V>() && cached.downcast_to::<V>() == ok
            &&& back.is_a::<V>() && back.downcast_to::<V>() == ok
            &&& cached.downcast_to::<U>() matches Err(failed) ==> {
                &&& failed == cached
                &&& failed.is_a::<V>() && failed.downcast_to::<V>() == ok
            }
        }),
{
}

/// The routine of a well-formed handle may be used on it: if it is the one for views of type
/// `V`, then the view is of type `V`, and the other way round.
pub proof fn routine_fits_the_view<V: 'static, H: Host>(view: AnyView<H>)
    requires
        view.wf(),
    ensures
        view.render.is_for::<V>() <==> view.is_a::<V>(),
{
}

/// Every handle that has come from a typed one refers to a view of that type, and its render
/// routine is the one for that type.
pub proof fn handles_can_be_rendered<V: Render<H> + 'static, H: Host>(
    entity: Entity<V>,
    view: AnyView<H>,
)
    requires
        entity.valid(),
        comes_from(view, entity),
    ensures
        view.is_a::<V>(),
        view.render.is_for::<V>(),
        is_id_of::<V>(view.entity.entity_type),
        typed::<V>(view.entity) == entity,
        forall|style: Option<Rc<H::Style>>, id: Option<OffscreenSurfaceId>|
            comes_from(#[trigger] view.with_cache(style, id), entity),
        comes_from(view.weak().strong(), entity),
{
}

/// A weak handle that is made from a typed weak one is the one that the strong handle would
/// have been converted to. Upgraded, it refers to a view of that type.
pub proof fn weak_typed_handle<V: Render<H> + 'static, H: Host>(
    value: Entity<V>,
    weak: WeakEntity<V>,
)
    requires
        weak.valid(),
        weak.any_entity.entity_id == value.any_entity.entity_id,
        weak.any_entity.entity_type == value.any_entity.entity_type,
    ensures
        ({
            let weak_view = <AnyWeakView<H> as FromSpec<WeakEntity<V>>>::from_spec(weak);
            &&& weak_view.wf()
            &&& weak_view == <AnyView<H> as FromSpec<Entity<V>>>::from_spec(value).weak()
            &&& weak_view.strong().wf()
            &&& weak_view.strong().is_a::<V>()
            &&& comes_from(weak_view.strong(), value)
        }),
{
}

/// A view that comes back from a weak handle is the same view, and no longer cached.
pub proof fn weak_handle_round_trip<H: Host>(view: AnyView<H>)
    ensures
        view.weak().strong() == view.with_cache(None, None),
        view.weak().strong().eq_spec(&view),
        view.weak().strong().weak() == view.weak(),
{
}

/// Whether two handles are equal does not depend on how they are cached, and is an
/// equivalence.
pub proof fn equal_handles<H: Host>(a: AnyView<H>, b: AnyView<H>, c: AnyView<H>)
    ensures
        a.eq_spec(&a),
        a.eq_spec(&b) ==> b.eq_spec(&a),
        a.eq_spec(&b) && b.eq_spec(&c) ==> a.eq_spec(&c),
        a.entity == b.entity ==> a.eq_spec(&b),
        a.eq_spec(&b) <==> a.weak().eq_spec(&b.weak()),
{
}

} // verus!
