use gpui_view::entity::{AnyEntity, Entity, EntityId};
use gpui_view::host::Host;
use gpui_view::view::{
    render, render_lease, AnyView, AnyWeakView, ElementId, Empty, EmptyView, IntoElement, Lease,
    OffscreenSurfaceId, Render,
};
use std::any::TypeId;
use std::rc::Rc;

struct TestHost;

impl Host for TestHost {
    type Window = Vec<&'static str>;
    type App = u32;
    type Point = f32;
    type Size = f32;
    type ContentMask = f32;
    type TextStyle = f32;
    type PrepaintIndex = usize;
    type PaintIndex = usize;
    type GlobalId = u64;
    type LayoutId = usize;
    type Style = &'static str;
    type Element = Shown;
}

/// An element of the host.
#[derive(Debug, PartialEq)]
struct Shown {
    text: Option<String>,
}

impl IntoElement<TestHost> for String {
    fn into_any_element(self) -> Shown {
        Shown { text: Some(self) }
    }
}

impl IntoElement<TestHost> for Empty {
    fn into_any_element(self) -> Shown {
        Shown { text: None }
    }
}

struct Counter {
    count: usize,
}

impl Render<TestHost> for Counter {
    type Element = String;

    fn render(&mut self, window: &mut Vec<&'static str>, cx: &mut u32) -> String {
        self.count += 1;
        window.push("rendered");
        *cx += 10;
        format!("count: {}", self.count)
    }
}

struct Other;

fn counter_view(id: u64) -> AnyView<TestHost> {
    AnyView::from(Entity::<Counter>::new(EntityId(id)))
}

#[test]
fn a_typed_handle_becomes_a_view_that_is_not_cached() {
    let view = counter_view(7);
    assert_eq!(view.entity_id(), EntityId(7));
    assert_eq!(view.entity_type(), TypeId::of::<Counter>());
    assert_eq!(view.render.view_type, TypeId::of::<Counter>());
    assert!(view.cached_style.is_none());
    assert!(view.offscreen_surface.is_none());
}

#[test]
fn cached_sets_the_style_and_drops_the_surface() {
    let view = counter_view(1).cached_offscreen("full", OffscreenSurfaceId(123));
    assert_eq!(view.cached_style, Some(Rc::new("full")));
    assert_eq!(view.offscreen_surface, Some(OffscreenSurfaceId(123)));
    let view = view.cached("half");
    assert_eq!(view.cached_style, Some(Rc::new("half")));
    assert_eq!(view.offscreen_surface, None);
    assert_eq!(view.entity_id(), EntityId(1));
    assert_eq!(view.entity_type(), TypeId::of::<Counter>());
}

#[test]
fn downcast_finds_the_type_of_the_view() {
    match counter_view(3).downcast::<Counter>() {
        Ok(entity) => assert_eq!(entity.any_entity.entity_id, EntityId(3)),
        Err(_) => panic!("the view is a counter"),
    }
    match counter_view(3).cached("full").downcast::<Other>() {
        Ok(_) => panic!("the view is a counter"),
        Err(view) => {
            assert_eq!(view.entity_id(), EntityId(3));
            assert_eq!(view.entity_type(), TypeId::of::<Counter>());
            assert_eq!(view.cached_style, Some(Rc::new("full")));
        }
    }
}

#[test]
fn an_entity_is_downcast_to_its_type_only() {
    let entity = AnyEntity { entity_id: EntityId(4), entity_type: TypeId::of::<Other>() };
    match entity.clone().downcast::<Other>() {
        Ok(typed) => {
            assert_eq!(typed.any_entity.entity_id, EntityId(4));
            assert_eq!(typed.any_entity.entity_type, TypeId::of::<Other>());
        }
        Err(_) => panic!("the entity is of this type"),
    }
    match entity.downcast::<Counter>() {
        Ok(_) => panic!("the entity is of another type"),
        Err(entity) => assert_eq!(entity.entity_type, TypeId::of::<Other>()),
    }
}

#[test]
fn every_handle_downcasts_back_to_the_type_of_its_view() {
    let id = OffscreenSurfaceId(1);
    let failed = match counter_view(3).cached_offscreen("full", id).downcast::<Other>() {
        Ok(_) => panic!("the view is a counter"),
        Err(view) => view,
    };
    let weak: AnyWeakView<TestHost> =
        AnyWeakView::from(Entity::<Counter>::new(EntityId(3)).downgrade());
    let handles = vec![
        counter_view(3),
        counter_view(3).cached("full"),
        counter_view(3).cached_offscreen("full", id),
        counter_view(3).cached_offscreen("full", id).cached("half"),
        counter_view(3).cached_offscreen("full", id).clone(),
        counter_view(3).cached("full").into_element(),
        Entity::<Counter>::new(EntityId(3)).into_element(),
        failed,
        counter_view(3).cached("full").downgrade().upgrade(true).unwrap(),
        weak.upgrade(true).unwrap(),
    ];
    for view in handles {
        assert_eq!(view.entity_type(), TypeId::of::<Counter>());
        assert_eq!(view.render.view_type, TypeId::of::<Counter>());
        let entity = render::<Counter, TestHost>(&view);
        assert_eq!(entity.any_entity.entity_id, EntityId(3));
        match view.downcast::<Counter>() {
            Ok(entity) => assert_eq!(entity.any_entity.entity_id, EntityId(3)),
            Err(_) => panic!("the view is a counter"),
        }
    }
}

#[test]
fn a_weak_handle_comes_back_without_its_cache() {
    let view = counter_view(9).cached_offscreen("full", OffscreenSurfaceId(2));
    let weak = view.downgrade();
    assert!(weak.upgrade(false).is_none());
    let back: AnyView<TestHost> = weak.upgrade(true).unwrap();
    assert!(back == view);
    assert_eq!(back.entity_type(), TypeId::of::<Counter>());
    assert_eq!(back.render.view_type, TypeId::of::<Counter>());
    assert!(back.cached_style.is_none());
    assert!(back.offscreen_surface.is_none());
    assert!(back.downgrade() == weak);
}

#[test]
fn a_weak_typed_handle_becomes_a_weak_view() {
    let entity = Entity::<Counter>::new(EntityId(11));
    let weak: AnyWeakView<TestHost> = AnyWeakView::from(entity.downgrade());
    let view: AnyView<TestHost> = AnyView::from(entity);
    assert!(weak == view.downgrade());
    assert_eq!(weak.render.view_type, TypeId::of::<Counter>());
    assert_eq!(weak.upgrade(true).unwrap().entity_id(), EntityId(11));
}

#[test]
fn handles_are_equal_when_they_refer_to_one_entity() {
    assert!(counter_view(1) == counter_view(1).cached("full"));
    assert!(counter_view(1) != counter_view(2));
    assert!(counter_view(1).downgrade() == counter_view(1).downgrade());
    assert!(counter_view(1).downgrade() != counter_view(2).downgrade());
}

#[test]
fn a_clone_shares_the_style() {
    let view = counter_view(5).cached_offscreen("full", OffscreenSurfaceId(8));
    let copy = view.clone();
    assert!(Rc::ptr_eq(view.cached_style.as_ref().unwrap(), copy.cached_style.as_ref().unwrap()));
    assert_eq!(copy.offscreen_surface, Some(OffscreenSurfaceId(8)));
    assert_eq!(copy.entity_id(), EntityId(5));
}

#[test]
fn the_element_of_a_view_is_known_by_its_entity() {
    let view = counter_view(6);
    assert_eq!(view.id(), Some(ElementId::View(EntityId(6))));
    assert!(view.source_location().is_none());
    let element = view.cached("full").into_element();
    assert_eq!(element.cached_style, Some(Rc::new("full")));
    let element: AnyView<TestHost> = Entity::<Counter>::new(EntityId(6)).into_element();
    assert_eq!(element.entity_id(), EntityId(6));
    assert!(element.cached_style.is_none());
}

#[test]
fn a_view_is_rendered_through_its_typed_handle() {
    let view = counter_view(12).cached("full");
    let entity = render::<Counter, TestHost>(&view);
    assert_eq!(entity.any_entity.entity_id, EntityId(12));
    assert_eq!(entity.any_entity.entity_type, TypeId::of::<Counter>());
    let mut lease = Lease { entity, state: Counter { count: 3 } };
    let mut window = Vec::new();
    let mut cx: u32 = 1;
    let element = render_lease(&view, &mut lease, &mut window, &mut cx);
    assert_eq!(element, Shown { text: Some("count: 4".to_string()) });
    assert_eq!(lease.state.count, 4);
    assert_eq!(lease.entity.any_entity.entity_id, EntityId(12));
    assert_eq!(window, vec!["rendered"]);
    assert_eq!(cx, 11);
    assert_eq!(view.cached_style, Some(Rc::new("full")));
}

#[test]
fn the_empty_view_renders_nothing() {
    let mut window = vec!["before"];
    let mut cx: u32 = 5;
    let shown = Render::<TestHost>::render(&mut EmptyView, &mut window, &mut cx);
    assert_eq!(shown, Empty);
    let view: AnyView<TestHost> = AnyView::from(Entity::<EmptyView>::new(EntityId(2)));
    let entity = render::<EmptyView, TestHost>(&view);
    let mut lease = Lease { entity, state: EmptyView };
    let element = render_lease(&view, &mut lease, &mut window, &mut cx);
    assert_eq!(element, Shown { text: None });
    assert_eq!(window, vec!["before"]);
    assert_eq!(cx, 5);
}

#[test]
fn a_weak_view_shows_its_entity() {
    assert_eq!(
        counter_view(0).downgrade().fmt(),
        "AnyWeakView { entity_id: EntityId(0), .. }"
    );
    assert_eq!(
        counter_view(u64::MAX).downgrade().fmt(),
        "AnyWeakView { entity_id: EntityId(18446744073709551615), .. }"
    );
}
