use gpui_view::cache::{
    is_reusable, AnyViewState, Surroundings, ViewCacheKey,
};
use gpui_view::entity::{Entity, EntityId};
use gpui_view::host::{Bounds, Host};
use gpui_view::layout::{LayoutAction, LayoutEvent};
use gpui_view::paint::{PaintAction, PaintEvent};
use gpui_view::prepaint::{PrepaintAction, PrepaintEvent};
use gpui_view::view::{
    render, render_lease, AnyView, IntoElement, Lease, OffscreenSurfaceId, Render,
};
use std::any::TypeId;
use std::collections::{HashMap, HashSet};
use std::ops::Range;
use std::rc::Rc;

#[derive(Debug, PartialEq)]
struct Element {
    text: String,
    size: Option<(f32, f32)>,
}

struct TestHost;

impl Host for TestHost {
    type Window = RenderLog;
    type App = Entities;
    type Point = (f32, f32);
    type Size = (f32, f32);
    type ContentMask = f32;
    type TextStyle = &'static str;
    type PrepaintIndex = usize;
    type PaintIndex = usize;
    type GlobalId = u64;
    type LayoutId = usize;
    type Style = &'static str;
    type Element = Element;
}

fn rectangle(x: f32, y: f32, width: f32, height: f32) -> Bounds<TestHost> {
    Bounds { origin: (x, y), size: (width, height) }
}

fn contains(bounds: &Bounds<TestHost>, x: f32, y: f32) -> bool {
    bounds.origin.0 <= x
        && x < bounds.origin.0 + bounds.size.0
        && bounds.origin.1 <= y
        && y < bounds.origin.1 + bounds.size.1
}

/// How often a view was rendered.
#[derive(Default)]
struct RenderLog {
    renders: usize,
}

/// The entities of the application, and which of them were read in this frame.
#[derive(Default)]
struct Entities {
    content: Option<SurfaceContent>,
    accessed: HashSet<EntityId>,
    detecting: Vec<HashSet<EntityId>>,
}

impl Entities {
    fn lease(&mut self, entity: &Entity<SurfaceContent>) -> SurfaceContent {
        assert_eq!(entity.any_entity.entity_id, CONTENT);
        self.content.take().unwrap()
    }

    fn end_lease(&mut self, lease: Lease<SurfaceContent>) {
        assert_eq!(lease.entity.any_entity.entity_id, CONTENT);
        self.content = Some(lease.state);
    }
}

struct SurfaceContent {
    clicks: usize,
}

impl IntoElement<TestHost> for String {
    fn into_any_element(self) -> Element {
        Element { text: self, size: None }
    }
}

impl Render<TestHost> for SurfaceContent {
    type Element = String;

    fn render(&mut self, window: &mut RenderLog, cx: &mut Entities) -> String {
        window.renders += 1;
        cx.accessed.insert(CONTENT);
        cx.accessed.insert(MODEL);
        format!("clicks: {}", self.clicks)
    }
}

const SURFACE_ID: OffscreenSurfaceId = OffscreenSurfaceId(123);
const ROOT: EntityId = EntityId(1);
const CONTENT: EntityId = EntityId(2);
const MODEL: EntityId = EntityId(3);
const GLOBAL_ID: u64 = 77;

/// What the paint pass records: where a click is handled, and what is drawn.
#[derive(Clone)]
enum Painted {
    Handler(Bounds<TestHost>),
    Quad(String),
}

struct Surface {
    id: OffscreenSurfaceId,
    scene: Option<String>,
}

#[derive(Default)]
struct Frame {
    hitboxes: Vec<Bounds<TestHost>>,
    painted: Vec<Painted>,
    surfaces: Vec<Surface>,
}

impl Frame {
    fn quads(&self) -> usize {
        self.painted.iter().filter(|item| matches!(item, Painted::Quad(_))).count()
    }
}

struct Window {
    entities: Entities,
    render_log: RenderLog,
    view: AnyView<TestHost>,
    width: f32,
    content_mask: f32,
    text_style: &'static str,
    picking: bool,
    refreshing: bool,
    dirty: HashSet<EntityId>,
    stack: Vec<EntityId>,
    states: HashMap<u64, AnyViewState<TestHost>>,
    last: Frame,
    next: Frame,
    log: Vec<&'static str>,
}

impl Window {
    fn new(view: AnyView<TestHost>) -> Self {
        let mut window = Window {
            entities: Entities {
                content: Some(SurfaceContent { clicks: 0 }),
                ..Entities::default()
            },
            render_log: RenderLog::default(),
            view,
            width: 300.,
            content_mask: 1.,
            text_style: "plain",
            picking: false,
            refreshing: false,
            dirty: HashSet::new(),
            stack: vec![ROOT],
            states: HashMap::new(),
            last: Frame::default(),
            next: Frame::default(),
            log: Vec::new(),
        };
        window.draw();
        window
    }

    fn renders(&self) -> usize {
        self.render_log.renders
    }

    fn clicks(&self) -> usize {
        self.entities.content.as_ref().unwrap().clicks
    }

    /// What a click on the content does.
    fn increment(&mut self) {
        self.entities.content.as_mut().unwrap().clicks += 1;
        self.dirty.insert(CONTENT);
    }

    fn render(&mut self, view: &AnyView<TestHost>) -> Element {
        assert_eq!(self.stack, vec![ROOT, CONTENT]);
        assert_eq!(view.entity_type(), TypeId::of::<SurfaceContent>());
        let entity = render::<SurfaceContent, TestHost>(view);
        let state = self.entities.lease(&entity);
        let mut lease = Lease { entity, state };
        let element =
            render_lease(view, &mut lease, &mut self.render_log, &mut self.entities);
        self.entities.end_lease(lease);
        element
    }

    fn paint_into_surface(&mut self, bounds: Bounds<TestHost>, element: &Element) -> String {
        self.next.painted.push(Painted::Handler(bounds));
        element.text.clone()
    }

    fn layout(&mut self) -> Option<Element> {
        let (mut pass, mut action) = self.view.request_layout();
        loop {
            let event = match action {
                LayoutAction::PushView(id) => {
                    self.stack.push(id);
                    LayoutEvent::Done
                }
                LayoutAction::ReadPicking => LayoutEvent::Picking(self.picking),
                LayoutAction::RequestLayout(style) => {
                    assert_eq!(*style, "size_full");
                    LayoutEvent::Layout(1)
                }
                LayoutAction::Render(view) => LayoutEvent::Element(self.render(&view)),
                LayoutAction::RequestElementLayout(mut element) => {
                    element.size = Some((self.width, 200.));
                    LayoutEvent::ElementLayout(2, element)
                }
                LayoutAction::PopView => {
                    self.stack.pop();
                    LayoutEvent::Done
                }
                LayoutAction::Finish(layout_id, element) => {
                    assert_eq!(layout_id, if element.is_some() { 2 } else { 1 });
                    return element;
                }
            };
            (pass, action) = pass.step(event);
        }
    }

    fn prepaint(
        &mut self,
        bounds: Bounds<TestHost>,
        element: Option<Element>,
    ) -> Option<Element> {
        let (mut pass, mut action) = self.view.prepaint(Some(GLOBAL_ID), bounds, element, 0);
        loop {
            let event = match action {
                PrepaintAction::SetViewId(id) => {
                    assert_eq!(id, CONTENT);
                    PrepaintEvent::Done
                }
                PrepaintAction::PushView(id) => {
                    self.stack.push(id);
                    PrepaintEvent::Done
                }
                PrepaintAction::PrepaintElement(element) => {
                    assert_eq!(element.size, Some(bounds.size));
                    self.next.hitboxes.push(bounds);
                    PrepaintEvent::Element(element)
                }
                PrepaintAction::TakeState(id) => PrepaintEvent::State(self.states.remove(&id)),
                PrepaintAction::ReadSurroundings => PrepaintEvent::Surroundings(Surroundings {
                    content_mask: self.content_mask,
                    text_style: self.text_style,
                    dirty: self.dirty.contains(&CONTENT),
                    refreshing: self.refreshing,
                }),
                PrepaintAction::ReadIndex => PrepaintEvent::Index(self.next.hitboxes.len()),
                PrepaintAction::ReusePrepaint(range) => {
                    self.log.push("reuse prepaint");
                    self.next.hitboxes.extend_from_slice(&self.last.hitboxes[range]);
                    PrepaintEvent::Done
                }
                PrepaintAction::ExtendAccessed(entities) => {
                    self.entities.accessed.extend(entities.iter());
                    PrepaintEvent::Done
                }
                PrepaintAction::StartRefreshing => {
                    PrepaintEvent::Refreshing(std::mem::replace(&mut self.refreshing, true))
                }
                PrepaintAction::StartDetecting => {
                    let accessed = self.entities.accessed.clone();
                    self.entities.detecting.push(accessed);
                    PrepaintEvent::Done
                }
                PrepaintAction::Render(view) => {
                    assert!(self.refreshing);
                    PrepaintEvent::Element(self.render(&view))
                }
                PrepaintAction::LayoutAsRoot(mut element, size) => {
                    assert_eq!(element.size, None);
                    element.size = Some(size);
                    PrepaintEvent::Element(element)
                }
                PrepaintAction::PrepaintAt(element, origin) => {
                    let size = element.size.unwrap();
                    self.next.hitboxes.push(Bounds { origin, size });
                    PrepaintEvent::Element(element)
                }
                PrepaintAction::EndDetecting => {
                    let start = self.entities.detecting.pop().unwrap();
                    let read = self.entities.accessed.difference(&start).copied().collect();
                    PrepaintEvent::Accessed(Rc::new(read))
                }
                PrepaintAction::SetRefreshing(refreshing) => {
                    self.refreshing = refreshing;
                    PrepaintEvent::Done
                }
                PrepaintAction::PutState(id, state) => {
                    self.states.insert(id, state);
                    PrepaintEvent::Done
                }
                PrepaintAction::PopView => {
                    self.stack.pop();
                    PrepaintEvent::Done
                }
                PrepaintAction::Finish(element) => return element,
            };
            (pass, action) = pass.step(event);
        }
    }

    fn paint(&mut self, bounds: Bounds<TestHost>, element: Option<Element>) {
        let (mut pass, mut action) =
            self.view.paint(Some(GLOBAL_ID), bounds, element.is_some());
        loop {
            let event = match action {
                PaintAction::PushView(id) => {
                    self.stack.push(id);
                    PaintEvent::Done
                }
                PaintAction::ReadPicking => PaintEvent::Picking(self.picking),
                PaintAction::TakeState(id) => PaintEvent::State(self.states.remove(&id)),
                PaintAction::ReadIndex => PaintEvent::Index(self.next.painted.len()),
                PaintAction::StartRefreshing => {
                    PaintEvent::Refreshing(std::mem::replace(&mut self.refreshing, true))
                }
                PaintAction::PaintElement => {
                    let text = element.as_ref().unwrap().text.clone();
                    self.next.painted.push(Painted::Handler(bounds));
                    self.next.painted.push(Painted::Quad(text));
                    PaintEvent::Done
                }
                PaintAction::PaintOffscreen { id, bounds, redraw } => {
                    let scene = if redraw {
                        assert!(self.refreshing);
                        Some(self.paint_into_surface(bounds, element.as_ref().unwrap()))
                    } else {
                        None
                    };
                    self.next.surfaces.push(Surface { id, scene });
                    PaintEvent::Done
                }
                PaintAction::ReusePaint(range) => {
                    self.log.push("reuse paint");
                    self.next.painted.extend_from_slice(&self.last.painted[range]);
                    PaintEvent::Done
                }
                PaintAction::ReusePaintWithoutScene(range) => {
                    self.log.push("reuse paint without scene");
                    let retained: Vec<Painted> = self.last.painted[range]
                        .iter()
                        .filter(|item| matches!(item, Painted::Handler(_)))
                        .cloned()
                        .collect();
                    self.next.painted.extend(retained);
                    PaintEvent::Done
                }
                PaintAction::SetRefreshing(refreshing) => {
                    self.refreshing = refreshing;
                    PaintEvent::Done
                }
                PaintAction::PutState(id, state) => {
                    self.states.insert(id, state);
                    PaintEvent::Done
                }
                PaintAction::PopView => {
                    self.stack.pop();
                    PaintEvent::Done
                }
                PaintAction::Finish => return,
            };
            (pass, action) = pass.step(event);
        }
    }

    fn draw(&mut self) {
        let refreshing = self.refreshing;
        self.next = Frame::default();
        self.entities.accessed.clear();
        // Something else comes first in each frame, so that no index is the same in all.
        self.next.hitboxes.push(rectangle(0., 0., 1., 1.));
        let bounds = rectangle(0., 0., self.width, 200.);
        let element = self.layout();
        let element = self.prepaint(bounds, element);
        self.paint(bounds, element);
        assert_eq!(self.stack, vec![ROOT]);
        assert_eq!(self.refreshing, refreshing);
        self.refreshing = false;
        self.dirty.clear();
        self.last = std::mem::take(&mut self.next);
    }

    /// Clicks at a place: every handler there fires.
    fn click(&mut self, x: f32, y: f32) {
        let fired = self
            .last
            .painted
            .iter()
            .filter(|item| match item {
                Painted::Handler(bounds) => contains(bounds, x, y),
                Painted::Quad(_) => false,
            })
            .count();
        for _ in 0..fired {
            self.increment();
        }
    }
}

fn content_view() -> AnyView<TestHost> {
    AnyView::from(Entity::<SurfaceContent>::new(CONTENT))
}

fn redraw(window: &mut Window, update: impl FnOnce(&mut Window)) -> bool {
    update(window);
    window.draw();
    let surface = window.last.surfaces.iter().find(|s| s.id == SURFACE_ID).unwrap();
    assert_eq!(
        window.last.quads(),
        0,
        "content belongs in the texture, not the main scene"
    );
    surface.scene.is_some()
}

fn notify_root(window: &mut Window) {
    window.dirty.insert(ROOT);
}

#[test]
fn cached_offscreen_reuses_pixels_and_retains_input() {
    let mut window = Window::new(content_view().cached_offscreen("size_full", SURFACE_ID));
    for _ in 0..5 {
        assert!(
            !redraw(&mut window, notify_root),
            "unchanged frames only composite the texture"
        );
    }
    window.click(20., 20.);
    assert_eq!(window.clicks(), 1);
    assert!(
        redraw(&mut window, Window::increment),
        "descendant notifications repaint the surface"
    );
    assert!(!redraw(&mut window, notify_root));
    window.width = 400.;
    assert!(
        redraw(&mut window, |_| {}),
        "resizing reallocates and repaints the surface"
    );
    assert!(!redraw(&mut window, notify_root));
    window.refreshing = true;
    window.draw();
    assert!(
        window
            .last
            .surfaces
            .iter()
            .any(|surface| surface.id == SURFACE_ID && surface.scene.is_some()),
        "full refresh repaints the surface"
    );
    assert_eq!(window.renders(), 4);
}

fn described(frame: &Frame) -> Vec<String> {
    frame
        .painted
        .iter()
        .map(|item| match item {
            Painted::Handler(bounds) => format!("handler {}", bounds.size.0),
            Painted::Quad(text) => text.clone(),
        })
        .collect()
}

#[test]
fn a_cached_view_is_taken_over_as_a_whole() {
    let mut window = Window::new(content_view().cached("size_full"));
    let first = described(&window.last);
    assert_eq!(first, vec!["handler 300", "clicks: 0"]);
    for _ in 0..3 {
        window.log.clear();
        window.draw();
        assert_eq!(window.log, vec!["reuse prepaint", "reuse paint"]);
        assert_eq!(described(&window.last), first);
        assert_eq!(window.last.hitboxes.len(), 2);
        assert_eq!(window.entities.accessed, HashSet::from([CONTENT, MODEL]));
        assert!(window.last.surfaces.is_empty());
    }
    assert_eq!(window.renders(), 1);
    assert_eq!(window.states[&GLOBAL_ID].prepaint_range, Range { start: 1, end: 2 });
    assert_eq!(window.states[&GLOBAL_ID].paint_range, Range { start: 0, end: 2 });
}

#[test]
fn a_cached_view_is_rendered_anew_when_something_changes() {
    let mut window = Window::new(content_view().cached("size_full"));
    assert_eq!(window.renders(), 1);
    window.content_mask = 2.;
    window.draw();
    assert_eq!(window.renders(), 2);
    window.text_style = "bold";
    window.draw();
    assert_eq!(window.renders(), 3);
    window.width = 10.;
    window.draw();
    assert_eq!(window.renders(), 4);
    window.view = content_view().cached_offscreen("size_full", SURFACE_ID);
    window.draw();
    assert_eq!(window.renders(), 5);
    window.dirty.insert(CONTENT);
    window.draw();
    assert_eq!(window.renders(), 6);
    window.refreshing = true;
    window.draw();
    assert_eq!(window.renders(), 7);
    window.draw();
    assert_eq!(window.renders(), 7);
}

#[test]
fn an_undefined_width_is_never_taken_over() {
    let mut window = Window::new(content_view().cached("size_full"));
    window.width = f32::NAN;
    for i in 0..3 {
        window.draw();
        assert_eq!(window.renders(), 2 + i);
    }
}

#[test]
fn a_view_that_is_not_cached_is_rendered_in_every_frame() {
    let mut window = Window::new(content_view());
    for i in 0..3 {
        window.draw();
        assert_eq!(window.renders(), 2 + i);
    }
    assert!(window.states.is_empty());
    assert_eq!(window.last.quads(), 1);
}

#[test]
fn a_picking_inspector_disables_caching() {
    let mut window = Window::new(content_view().cached_offscreen("size_full", SURFACE_ID));
    window.picking = true;
    window.draw();
    assert_eq!(window.renders(), 2);
    assert_eq!(window.last.quads(), 1);
    assert!(window.last.surfaces.is_empty());
}

fn state(surface: Option<OffscreenSurfaceId>) -> Option<AnyViewState<TestHost>> {
    Some(AnyViewState {
        prepaint_range: 3..5,
        paint_range: 4..9,
        cache_key: ViewCacheKey {
            bounds: rectangle(0., 0., 1., 2.),
            content_mask: 1.,
            text_style: "plain",
            offscreen_surface: surface,
        },
        accessed_entities: Rc::new(HashSet::new()),
    })
}

fn surroundings(dirty: bool, refreshing: bool) -> Surroundings<TestHost> {
    Surroundings { content_mask: 1., text_style: "plain", dirty, refreshing }
}

#[test]
fn reuse_asks_for_the_same_key() {
    let bounds = rectangle(0., 0., 1., 2.);
    let moved = rectangle(0.5, 0., 1., 2.);
    let resized = rectangle(0., 0., 1., 3.);
    let clean = surroundings(false, false);
    assert!(is_reusable(&state(None), bounds, &clean, None));
    assert!(is_reusable(&state(Some(SURFACE_ID)), bounds, &clean, Some(SURFACE_ID)));
    assert!(!is_reusable(&None, bounds, &clean, None));
    assert!(!is_reusable(&state(None), moved, &clean, None));
    assert!(!is_reusable(&state(None), resized, &clean, None));
    assert!(!is_reusable(&state(None), bounds, &clean, Some(SURFACE_ID)));
    assert!(!is_reusable(&state(Some(SURFACE_ID)), bounds, &clean, None));
    assert!(!is_reusable(
        &state(Some(SURFACE_ID)),
        bounds,
        &clean,
        Some(OffscreenSurfaceId(124))
    ));
    assert!(!is_reusable(&state(None), bounds, &surroundings(true, false), None));
    assert!(!is_reusable(&state(None), bounds, &surroundings(false, true), None));
}

#[test]
fn prepaint_of_an_element_touches_nothing_that_is_kept() {
    let view = content_view();
    let element = Element { text: "laid out".to_string(), size: None };
    let bounds = rectangle(0., 0., 1., 2.);
    let (pass, action) = view.prepaint(None, bounds, Some(element), 0);
    assert!(matches!(action, PrepaintAction::SetViewId(CONTENT)));
    let (pass, action) = pass.step(PrepaintEvent::Done);
    assert!(matches!(action, PrepaintAction::PushView(CONTENT)));
    let (pass, action) = pass.step(PrepaintEvent::Done);
    let PrepaintAction::PrepaintElement(element) = action else {
        panic!("the element is next");
    };
    let (pass, action) = pass.step(PrepaintEvent::Element(element));
    assert!(matches!(action, PrepaintAction::PopView));
    let (_, action) = pass.step(PrepaintEvent::Done);
    let PrepaintAction::Finish(Some(element)) = action else {
        panic!("the element is left to be painted");
    };
    assert_eq!(element.text, "laid out");
}

#[test]
fn a_cached_view_is_rendered_step_by_step() {
    let view = content_view().cached_offscreen("size_full", SURFACE_ID);
    let bounds = rectangle(5., 6., 7., 8.);
    let (pass, _) = view.prepaint(Some(GLOBAL_ID), bounds, None, 0);
    let (pass, _) = pass.step(PrepaintEvent::Done);
    let (pass, action) = pass.step(PrepaintEvent::Done);
    assert!(matches!(action, PrepaintAction::TakeState(GLOBAL_ID)));
    let (pass, action) = pass.step(PrepaintEvent::State(None));
    assert!(matches!(action, PrepaintAction::ReadSurroundings));
    let (pass, action) = pass.step(PrepaintEvent::Surroundings(surroundings(false, false)));
    assert!(matches!(action, PrepaintAction::StartRefreshing));
    let (pass, action) = pass.step(PrepaintEvent::Refreshing(false));
    assert!(matches!(action, PrepaintAction::ReadIndex));
    let (pass, action) = pass.step(PrepaintEvent::Index(40));
    assert!(matches!(action, PrepaintAction::StartDetecting));
    let (pass, action) = pass.step(PrepaintEvent::Done);
    let PrepaintAction::Render(rendered) = action else {
        panic!("the view is rendered next");
    };
    assert!(rendered == view);
    assert_eq!(rendered.offscreen_surface, Some(SURFACE_ID));
    let element = Element { text: "rendered".to_string(), size: None };
    let (pass, action) = pass.step(PrepaintEvent::Element(element));
    let PrepaintAction::LayoutAsRoot(element, size) = action else {
        panic!("the element is laid out next");
    };
    assert_eq!(element.text, "rendered");
    assert_eq!(size, (7., 8.));
    let element = Element { text: "laid out".to_string(), size: Some(size) };
    let (pass, action) = pass.step(PrepaintEvent::Element(element));
    let PrepaintAction::PrepaintAt(element, origin) = action else {
        panic!("the element is prepainted next");
    };
    assert_eq!(element.text, "laid out");
    assert_eq!(origin, (5., 6.));
    let (pass, action) = pass.step(PrepaintEvent::Element(element));
    assert!(matches!(action, PrepaintAction::EndDetecting));
    let read = Rc::new(HashSet::from([MODEL]));
    let (pass, action) = pass.step(PrepaintEvent::Accessed(read));
    assert!(matches!(action, PrepaintAction::ReadIndex));
    let (pass, action) = pass.step(PrepaintEvent::Index(44));
    assert!(matches!(action, PrepaintAction::SetRefreshing(false)));
    let (pass, action) = pass.step(PrepaintEvent::Done);
    let PrepaintAction::PutState(GLOBAL_ID, kept) = action else {
        panic!("the view is kept next");
    };
    assert_eq!(kept.prepaint_range, 40..44);
    assert_eq!(kept.paint_range, 0..0);
    assert_eq!(*kept.accessed_entities, HashSet::from([MODEL]));
    assert_eq!(kept.cache_key.bounds.origin, (5., 6.));
    assert_eq!(kept.cache_key.bounds.size, (7., 8.));
    assert_eq!(kept.cache_key.offscreen_surface, Some(SURFACE_ID));
    let (pass, action) = pass.step(PrepaintEvent::Done);
    assert!(matches!(action, PrepaintAction::PopView));
    let (_, action) = pass.step(PrepaintEvent::Done);
    let PrepaintAction::Finish(Some(element)) = action else {
        panic!("the element is left to be painted");
    };
    assert_eq!(element.text, "laid out");
}

#[test]
fn a_view_that_is_not_cached_is_laid_out_step_by_step() {
    let view = content_view();
    let (pass, action) = view.request_layout();
    assert!(matches!(action, LayoutAction::PushView(CONTENT)));
    let (pass, action) = pass.step(LayoutEvent::Done);
    assert!(matches!(action, LayoutAction::ReadPicking));
    let (pass, action) = pass.step(LayoutEvent::Picking(false));
    let LayoutAction::Render(rendered) = action else {
        panic!("the view is rendered next");
    };
    assert!(rendered == view);
    let element = Element { text: "rendered".to_string(), size: None };
    let (pass, action) = pass.step(LayoutEvent::Element(element));
    let LayoutAction::RequestElementLayout(element) = action else {
        panic!("the element is entered into the layout tree next");
    };
    assert_eq!(element.text, "rendered");
    let (pass, action) = pass.step(LayoutEvent::ElementLayout(9, element));
    assert!(matches!(action, LayoutAction::PopView));
    let (_, action) = pass.step(LayoutEvent::Done);
    let LayoutAction::Finish(9, Some(element)) = action else {
        panic!("the element is left");
    };
    assert_eq!(element.text, "rendered");
}

#[test]
fn entities_that_were_read_count_as_read_in_every_unchanged_frame() {
    let mut window = Window::new(content_view().cached_offscreen("size_full", SURFACE_ID));
    let kept = window.states[&GLOBAL_ID].accessed_entities.clone();
    assert_eq!(*kept, HashSet::from([CONTENT, MODEL]));
    assert_eq!(window.entities.accessed, HashSet::from([CONTENT, MODEL]));
    for _ in 0..3 {
        assert!(!redraw(&mut window, notify_root));
        assert_eq!(window.entities.accessed, HashSet::from([CONTENT, MODEL]));
        assert!(Rc::ptr_eq(&window.states[&GLOBAL_ID].accessed_entities, &kept));
    }
    assert_eq!(window.renders(), 1);
}

#[test]
fn a_retained_handler_fires_once() {
    let mut window = Window::new(content_view().cached_offscreen("size_full", SURFACE_ID));
    for clicks in 1..4 {
        assert!(!redraw(&mut window, notify_root));
        assert_eq!(described(&window.last), vec!["handler 300"]);
        window.click(20., 20.);
        assert_eq!(window.clicks(), clicks);
        assert!(redraw(&mut window, |_| {}));
    }
    window.click(500., 20.);
    assert_eq!(window.clicks(), 3);
}
