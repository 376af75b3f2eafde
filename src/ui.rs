//! The retained interface tree and the immediate-mode widgets drawn over it.
//!
//! Elements live in an arena owned by `Ui` and are named by their index there:
//! the root is element 0, and a child is always stored after its parent.
//! Elements are only ever added.
use vstd::prelude::*;
use crate::math::{AABB, Color, Vec2, half, clamp};
use crate::layout::{
    Cordinate, Dimension, calculate_render_position, calculate_render_size, render_position_of,
    render_size_of,
};
use crate::ui_renderer::{RectStyle, RectVertex, UiRenderer, rect_vertices};
use crate::batch::{BatchState, DrawBatch};
use crate::interaction::{
    Flow, Orientation, UiState, WidgetState, empty_flow, grown, initial_state, interaction, next_position,
};

verus! {

/// What every element has: its children, its layout rules and the geometry
/// that the last update gave it.
pub struct UiElementProps {
    pub children: Vec<usize>,
    pub x: Cordinate,
    pub y: Cordinate,
    pub width: Dimension,
    pub height: Dimension,
    pub active: bool,
    pub render_size: Vec2,
    pub render_position: Vec2,
}

/// A container: draws nothing itself.
pub struct UiBase {
    pub props: UiElementProps,
}

/// A filled, rounded, outlined box.
pub struct UiBox {
    pub props: UiElementProps,
    pub color: Color,
    pub corner_radius: i32,
    pub outline_thickness: i32,
    pub outline_color: Color,
}

pub enum UiElement {
    Base(UiBase),
    Box(UiBox),
}

fn new_props(x: Cordinate, y: Cordinate, width: Dimension, height: Dimension) -> (r: UiElementProps)
    ensures
        r.children@.len() == 0,
        r.x == x,
        r.y == y,
        r.width == width,
        r.height == height,
        r.active,
        r.render_size == (Vec2 { x: 0, y: 0 }),
        r.render_position == (Vec2 { x: 0, y: 0 }),
{
    UiElementProps {
        children: Vec::new(),
        x,
        y,
        width,
        height,
        active: true,
        render_size: Vec2 { x: 0, y: 0 },
        render_position: Vec2 { x: 0, y: 0 },
    }
}

impl UiBase {
    pub fn new(x: Cordinate, y: Cordinate, width: Dimension, height: Dimension) -> (r: UiBase)
        ensures
            r.props.children@.len() == 0,
            r.props.x == x,
            r.props.y == y,
            r.props.width == width,
            r.props.height == height,
            r.props.active,
    {
        UiBase { props: new_props(x, y, width, height) }
    }

    /// A container that fills its parent.
    pub fn default() -> (r: UiBase)
        ensures
            r.props.children@.len() == 0,
            r.props.x == (Cordinate { kind: crate::layout::CordinateType::Relative, center: crate::layout::CordinateCenter::Center, position: 500 }),
            r.props.y == r.props.x,
            r.props.width == (Dimension { kind: crate::layout::DimensionType::Relative, parameter: 1000 }),
            r.props.height == r.props.width,
            r.props.active,
    {
        UiBase::new(Cordinate::default(), Cordinate::default(), Dimension::default(), Dimension::default())
    }
}

impl UiBox {
    pub fn new(
        x: Cordinate,
        y: Cordinate,
        width: Dimension,
        height: Dimension,
        color: Color,
        corner_radius: i32,
        outline_thickness: i32,
        outline_color: Color,
    ) -> (r: UiBox)
        ensures
            r.props.children@.len() == 0,
            r.props.x == x,
            r.props.y == y,
            r.props.width == width,
            r.props.height == height,
            r.props.active,
            r.color == color,
            r.corner_radius == corner_radius,
            r.outline_thickness == outline_thickness,
            r.outline_color == outline_color,
    {
        UiBox {
            props: new_props(x, y, width, height),
            color,
            corner_radius,
            outline_thickness,
            outline_color,
        }
    }
}

/// A rectangle to draw, centred on `position`.
#[derive(Clone, Copy, Debug, PartialEq, Eq, Structural)]
pub struct DrawRect {
    pub position: Vec2,
    pub size: Vec2,
    pub style: RectStyle,
}

impl UiElement {
    pub open spec fn spec_props(&self) -> &UiElementProps {
        match self {
            UiElement::Base(b) => &b.props,
            UiElement::Box(b) => &b.props,
        }
    }

    pub fn props(&self) -> (r: &UiElementProps)
        ensures
            r == self.spec_props(),
    {
        match self {
            UiElement::Base(b) => &b.props,
            UiElement::Box(b) => &b.props,
        }
    }

    /// The layout rules agree, whatever the geometry and children.
    pub open spec fn same_layout(&self, other: &UiElement) -> bool {
        &&& self.spec_props().x == other.spec_props().x
        &&& self.spec_props().y == other.spec_props().y
        &&& self.spec_props().width == other.spec_props().width
        &&& self.spec_props().height == other.spec_props().height
    }

    /// The element with the given geometry, all else kept.
    pub open spec fn with_geometry(self, position: Vec2, size: Vec2) -> UiElement {
        match self {
            UiElement::Base(b) => UiElement::Base(
                UiBase {
                    props: UiElementProps {
                        render_position: position,
                        render_size: size,
                        ..b.props
                    },
                },
            ),
            UiElement::Box(b) => UiElement::Box(
                UiBox {
                    props: UiElementProps {
                        render_position: position,
                        render_size: size,
                        ..b.props
                    },
                    ..b
                },
            ),
        }
    }

    /// What the element itself draws, given its geometry.
    pub open spec fn own_rects(&self) -> Seq<DrawRect> {
        match self {
            UiElement::Base(_) => Seq::empty(),
            UiElement::Box(b) => seq![DrawRect {
                position: b.props.render_position,
                size: b.props.render_size,
                style: RectStyle {
                    color: b.color,
                    corner_radius: b.corner_radius,
                    outline_thickness: b.outline_thickness,
                    outline_color: b.outline_color,
                },
            }],
        }
    }

    fn set_geometry(&mut self, position: Vec2, size: Vec2)
        ensures
            *final(self) == old(self).with_geometry(position, size),
    {
        match self {
            UiElement::Base(b) => {
                b.props.render_position = position;
                b.props.render_size = size;
            },
            UiElement::Box(b) => {
                b.props.render_position = position;
                b.props.render_size = size;
            },
        }
    }

    fn add_child(&mut self, child: usize)
        ensures
            final(self).same_layout(old(self)),
            final(self).spec_props().children@ == old(self).spec_props().children@.push(child),
            final(self).own_rects() == old(self).own_rects(),
    {
        match self {
            UiElement::Base(b) => {
                b.props.children.push(child);
            },
            UiElement::Box(b) => {
                b.props.children.push(child);
            },
        }
    }
}

/// Every element after the root has an earlier parent that lists it among its
/// children, and every listed child is a later element naming that parent.
pub open spec fn tree_wf(elements: Seq<UiElement>, parents: Seq<usize>) -> bool {
    &&& elements.len() >= 1
    &&& parents.len() == elements.len()
    &&& forall|i: int|
        1 <= i < elements.len() ==> #[trigger] parents[i] < i
            && elements[parents[i] as int].spec_props().children@.contains(i as usize)
    &&& forall|p: int, k: int|
        0 <= p < elements.len() && 0 <= k < elements[p].spec_props().children@.len() ==> {
            let c = #[trigger] elements[p].spec_props().children@[k];
            p < c < elements.len() && parents[c as int] == p
        }
}

/// The centre and extent of the root's parent: the window.
pub open spec fn window_frame(window_size: Vec2) -> (Vec2, Vec2) {
    (Vec2 { x: half(window_size.x as int) as i32, y: half(window_size.y as int) as i32 }, window_size)
}

/// The centre and extent of element `i` resolved from the root down.
pub open spec fn resolved(elements: Seq<UiElement>, parents: Seq<usize>, window_size: Vec2, i: int) -> (Vec2, Vec2)
    decreases i,
{
    let (parent_position, parent_size) = if 0 < i && 0 <= parents[i] < i {
        resolved(elements, parents, window_size, parents[i] as int)
    } else {
        window_frame(window_size)
    };
    let p = elements[i].spec_props();
    let size = render_size_of(p.width, p.height, parent_size);
    (render_position_of(p.x, p.y, parent_position, parent_size, size), size)
}

/// The rectangles that the subtree of element `i` draws, in pre-order.
pub open spec fn subtree_rects(elements: Seq<UiElement>, i: int) -> Seq<DrawRect>
    decreases elements.len() - i, elements[i].spec_props().children@.len() + 1,
{
    if 0 <= i < elements.len() {
        elements[i].own_rects() + children_rects(elements, i, 0)
    } else {
        Seq::empty()
    }
}

/// The rectangles that the children of element `i` from the `k`-th on draw.
pub open spec fn children_rects(elements: Seq<UiElement>, i: int, k: int) -> Seq<DrawRect>
    decreases elements.len() - i, elements[i].spec_props().children@.len() - k,
{
    if 0 <= i < elements.len() && 0 <= k < elements[i].spec_props().children@.len() {
        let c = elements[i].spec_props().children@[k] as int;
        if i < c < elements.len() {
            subtree_rects(elements, c) + children_rects(elements, i, k + 1)
        } else {
            Seq::empty()
        }
    } else {
        Seq::empty()
    }
}

/// The renderer state after the given rectangles are submitted in order.
pub open spec fn drawn_rects(s: BatchState<RectVertex>, rects: Seq<DrawRect>) -> BatchState<RectVertex>
    decreases rects.len(),
{
    if rects.len() == 0 {
        s
    } else {
        let r = rects.last();
        drawn_rects(s, rects.drop_last()).drawn(None, rect_vertices(r.position, r.size, r.style, 0))
    }
}

proof fn lemma_drawn_rects_append(s: BatchState<RectVertex>, a: Seq<DrawRect>, b: Seq<DrawRect>)
    ensures
        drawn_rects(s, a + b) == drawn_rects(drawn_rects(s, a), b),
    decreases b.len(),
{
    if b.len() == 0 {
        assert(a + b =~= a);
    } else {
        lemma_drawn_rects_append(s, a, b.drop_last());
        assert((a + b).drop_last() =~= a + b.drop_last());
        assert((a + b).last() == b.last());
    }
}

/// The interface: its element tree, the input of the frame, the flows of the
/// immediate-mode widgets and the renderer that draws them all.
pub struct Ui {
    renderer: UiRenderer,
    elements: Vec<UiElement>,
    parents: Vec<usize>,
    state: UiState,
    window_size: Vec2,
    flows: Vec<Flow>,
    widget_rects: Vec<DrawRect>,
}

impl Ui {
    pub closed spec fn spec_elements(&self) -> Seq<UiElement> {
        self.elements@
    }

    pub closed spec fn spec_parents(&self) -> Seq<usize> {
        self.parents@
    }

    pub closed spec fn spec_renderer(&self) -> BatchState<RectVertex> {
        self.renderer@
    }

    pub closed spec fn spec_state(&self) -> UiState {
        self.state
    }

    pub closed spec fn spec_window_size(&self) -> Vec2 {
        self.window_size
    }

    pub closed spec fn spec_flows(&self) -> Seq<Flow> {
        self.flows@
    }

    pub closed spec fn spec_widget_rects(&self) -> Seq<DrawRect> {
        self.widget_rects@
    }

    pub closed spec fn wf(&self) -> bool {
        &&& tree_wf(self.elements@, self.parents@)
        &&& self.renderer.wf()
        &&& !self.renderer@.in_scene
    }
}


/// Every element with its geometry as resolved from the root down.
pub open spec fn updated(elements: Seq<UiElement>, parents: Seq<usize>, window_size: Vec2) -> Seq<UiElement> {
    Seq::new(
        elements.len(),
        |i: int|
            elements[i].with_geometry(
                resolved(elements, parents, window_size, i).0,
                resolved(elements, parents, window_size, i).1,
            ),
    )
}

proof fn lemma_resolved_layout_only(
    a: Seq<UiElement>,
    b: Seq<UiElement>,
    parents: Seq<usize>,
    window_size: Vec2,
    i: int,
)
    requires
        a.len() == b.len(),
        0 <= i < a.len(),
        forall|j: int| 0 <= j < a.len() ==> (#[trigger] a[j]).same_layout(&b[j]),
    ensures
        resolved(a, parents, window_size, i) == resolved(b, parents, window_size, i),
    decreases i,
{
    if 0 < i && 0 <= parents[i] < i {
        lemma_resolved_layout_only(a, b, parents, window_size, parents[i] as int);
    }
    assert(a[i].same_layout(&b[i]));
}

/// Updating twice with the same window gives every element the same geometry
/// as updating once: the geometry depends on the layout rules and the window
/// alone.
pub proof fn lemma_update_idempotent(elements: Seq<UiElement>, parents: Seq<usize>, window_size: Vec2)
    ensures
        updated(updated(elements, parents, window_size), parents, window_size) == updated(
            elements,
            parents,
            window_size,
        ),
{
    let once = updated(elements, parents, window_size);
    assert forall|j: int| 0 <= j < once.len() implies (#[trigger] once[j]).same_layout(&elements[j]) by {
    }
    assert forall|j: int| 0 <= j < once.len() implies #[trigger] updated(once, parents, window_size)[j]
        == once[j] by {
        lemma_resolved_layout_only(once, elements, parents, window_size, j);
    }
    assert(updated(once, parents, window_size) =~= once);
}

/// The rectangle of a widget whose low corner is `position`.
pub open spec fn widget_box(position: Vec2, size: Vec2) -> AABB {
    AABB {
        min: position,
        max: Vec2 {
            x: clamp(position.x + size.x) as i32,
            y: clamp(position.y + size.y) as i32,
        },
    }
}

/// How a button of the given colour is drawn.
pub open spec fn button_rect(position: Vec2, size: Vec2, color: Color) -> DrawRect {
    DrawRect {
        position: Vec2 {
            x: clamp(position.x + half(size.x as int)) as i32,
            y: clamp(position.y + half(size.y as int)) as i32,
        },
        size,
        style: RectStyle { color, corner_radius: 0, outline_thickness: 0, outline_color: color },
    }
}

fn render_subtree(elements: &Vec<UiElement>, renderer: &mut UiRenderer, i: usize)
    requires
        i < elements@.len(),
        forall|p: int, k: int|
            0 <= p < elements@.len() && 0 <= k < elements@[p].spec_props().children@.len() ==> {
                let c = #[trigger] elements@[p].spec_props().children@[k];
                p < c < elements@.len()
            },
        old(renderer).wf(),
        old(renderer)@.in_scene,
    ensures
        final(renderer)@ == drawn_rects(old(renderer)@, subtree_rects(elements@, i as int)),
        final(renderer).wf(),
        final(renderer)@.in_scene,
        final(renderer).spec_screen_size() == old(renderer).spec_screen_size(),
    decreases elements@.len() - i,
{
    let ghost s0 = renderer@;
    let ghost e = elements@;
    match &elements[i] {
        UiElement::Base(_) => {
            assert(e[i as int].own_rects() =~= Seq::<DrawRect>::empty());
            assert(renderer@ == drawn_rects(s0, e[i as int].own_rects()));
        },
        UiElement::Box(b) => {
            renderer.draw_rect(
                b.props.render_position,
                b.props.render_size,
                b.color,
                b.corner_radius,
                b.outline_thickness,
                b.outline_color,
                None,
            );
            proof {
                let own = e[i as int].own_rects();
                assert(own.drop_last() =~= Seq::<DrawRect>::empty());
                assert(drawn_rects(s0, own.drop_last()) == s0);
                assert(renderer@ == drawn_rects(s0, own));
            }
        },
    }
    proof {
        lemma_drawn_rects_append(s0, e[i as int].own_rects(), children_rects(e, i as int, 0));
        assert(subtree_rects(e, i as int) == e[i as int].own_rects() + children_rects(e, i as int, 0));
    }
    let children = &elements[i].props().children;
    let n = children.len();
    let mut k: usize = 0;
    while k < n
        invariant
            e == elements@,
            i < e.len(),
            children@ == e[i as int].spec_props().children@,
            n == children@.len(),
            k <= n,
            forall|p: int, k: int|
                0 <= p < e.len() && 0 <= k < e[p].spec_props().children@.len() ==> {
                    let c = #[trigger] e[p].spec_props().children@[k];
                    p < c < e.len()
                },
            renderer.wf(),
            renderer@.in_scene,
            renderer.spec_screen_size() == old(renderer).spec_screen_size(),
            drawn_rects(renderer@, children_rects(e, i as int, k as int)) == drawn_rects(
                s0,
                subtree_rects(e, i as int),
            ),
        decreases n - k,
    {
        let c = children[k];
        assert(i < c < e.len()) by {
            assert(e[i as int].spec_props().children@[k as int] == c);
        }
        let ghost before = renderer@;
        render_subtree(elements, renderer, c);
        proof {
            lemma_drawn_rects_append(
                before,
                subtree_rects(e, c as int),
                children_rects(e, i as int, k + 1),
            );
        }
        k = k + 1;
    }
}

impl Ui {
    pub fn new(white_texture: u32, window_size: Vec2) -> (r: Ui)
        ensures
            r.wf(),
            r.spec_elements().len() == 1,
            r.spec_elements()[0] is Base,
            r.spec_elements()[0].spec_props().children@.len() == 0,
            r.spec_window_size() == window_size,
            r.spec_state() == initial_state(),
            r.spec_flows().len() == 0,
            r.spec_widget_rects().len() == 0,
            r.spec_renderer().flushed.len() == 0,
    {
        let root = UiElement::Base(UiBase::default());
        let mut elements: Vec<UiElement> = Vec::new();
        elements.push(root);
        let mut parents: Vec<usize> = Vec::new();
        parents.push(0);
        Ui {
            renderer: UiRenderer::new(white_texture),
            elements,
            parents,
            state: UiState::new(),
            window_size,
            flows: Vec::new(),
            widget_rects: Vec::new(),
        }
    }

    /// The handle of the root element, a container filling the window.
    pub fn root(&self) -> (r: usize)
        ensures
            r == 0,
    {
        0
    }

    pub fn element_count(&self) -> (r: usize)
        ensures
            r == self.spec_elements().len(),
    {
        self.elements.len()
    }

    pub fn element(&self, handle: usize) -> (r: &UiElement)
        requires
            handle < self.spec_elements().len(),
        ensures
            *r == self.spec_elements()[handle as int],
    {
        &self.elements[handle]
    }

    /// The centre that the last update gave the element.
    pub fn render_position(&self, handle: usize) -> (r: Vec2)
        requires
            handle < self.spec_elements().len(),
        ensures
            r == self.spec_elements()[handle as int].spec_props().render_position,
    {
        self.elements[handle].props().render_position
    }

    /// The extent that the last update gave the element.
    pub fn render_size(&self, handle: usize) -> (r: Vec2)
        requires
            handle < self.spec_elements().len(),
        ensures
            r == self.spec_elements()[handle as int].spec_props().render_size,
    {
        self.elements[handle].props().render_size
    }

    pub fn state(&self) -> (r: UiState)
        ensures
            r == self.spec_state(),
    {
        self.state
    }

    /// How many flows are open, the outermost included.
    pub fn flow_depth(&self) -> (r: usize)
        ensures
            r == self.spec_flows().len(),
    {
        self.flows.len()
    }

    pub fn window_size(&self) -> (r: Vec2)
        ensures
            r == self.spec_window_size(),
    {
        self.window_size
    }

    /// Attaches `child`, which has no children yet, as the last child of
    /// `parent`, and returns its handle.
    pub fn push_child(&mut self, parent: usize, child: UiElement) -> (r: usize)
        requires
            old(self).wf(),
            parent < old(self).spec_elements().len(),
            old(self).spec_elements().len() < usize::MAX,
            child.spec_props().children@.len() == 0,
        ensures
            final(self).wf(),
            r == old(self).spec_elements().len(),
            final(self).spec_elements().len() == r + 1,
            final(self).spec_elements()[r as int] == child,
            final(self).spec_parents() == old(self).spec_parents().push(parent),
            final(self).spec_elements()[parent as int].same_layout(&old(self).spec_elements()[parent as int]),
            final(self).spec_elements()[parent as int].spec_props().children@ == old(self).spec_elements()[parent as int].spec_props().children@.push(r),
            final(self).spec_elements()[parent as int].own_rects() == old(self).spec_elements()[parent as int].own_rects(),
            forall|j: int| 0 <= j < r && j != parent ==> final(self).spec_elements()[j] == old(self).spec_elements()[j],
            final(self).spec_state() == old(self).spec_state(),
            final(self).spec_window_size() == old(self).spec_window_size(),
            final(self).spec_renderer() == old(self).spec_renderer(),
            final(self).spec_flows() == old(self).spec_flows(),
            final(self).spec_widget_rects() == old(self).spec_widget_rects(),
    {
        let ghost e0 = self.elements@;
        let ghost p0 = self.parents@;
        let handle = self.elements.len();
        self.elements.push(child);
        self.parents.push(parent);
        self.elements[parent].add_child(handle);
        proof {
            let e = self.elements@;
            let ps = self.parents@;
            assert forall|i: int| 1 <= i < e.len() implies #[trigger] ps[i] < i
                && e[ps[i] as int].spec_props().children@.contains(i as usize) by {
                if i < handle {
                    assert(p0[i] < i);
                    let q = ps[i] as int;
                    assert(e0[q].spec_props().children@.contains(i as usize));
                    if q == parent {
                        let k = choose|k: int| 0 <= k < e0[q].spec_props().children@.len() && e0[q].spec_props().children@[k] == i as usize;
                        assert(e[q].spec_props().children@[k] == i as usize);
                    }
                } else {
                    assert(e[parent as int].spec_props().children@.last() == handle);
                }
            }
            assert forall|p: int, k: int|
                0 <= p < e.len() && 0 <= k < e[p].spec_props().children@.len() implies {
                    let c = #[trigger] e[p].spec_props().children@[k];
                    p < c < e.len() && ps[c as int] == p
                } by {
                if p == parent {
                    if k < e0[p].spec_props().children@.len() {
                        assert(e[p].spec_props().children@[k] == e0[p].spec_props().children@[k]);
                    }
                } else if p < handle {
                    assert(e[p] == e0[p]);
                    assert(e[p].spec_props().children@[k] == e0[p].spec_props().children@[k]);
                }
            }
        }
        handle
    }

    /// Takes the input of a new frame and resolves every element's geometry
    /// from the root down, the root's parent being the window.
    pub fn update(&mut self, window_size: Vec2, cursor_position: Vec2, left_click: bool, right_click: bool)
        requires
            old(self).wf(),
        ensures
            final(self).wf(),
            final(self).spec_elements() == updated(old(self).spec_elements(), old(self).spec_parents(), window_size),
            final(self).spec_parents() == old(self).spec_parents(),
            final(self).spec_window_size() == window_size,
            final(self).spec_state() == (UiState { cursor_position, left_click, right_click, ..old(self).spec_state() }),
            final(self).spec_renderer() == old(self).spec_renderer(),
            final(self).spec_flows() == old(self).spec_flows(),
            final(self).spec_widget_rects() == old(self).spec_widget_rects(),
    {
        let ghost e0 = self.elements@;
        let ghost ps = self.parents@;
        self.window_size = window_size;
        self.state.set_input(cursor_position, left_click, right_click);
        let ghost st = self.state;
        let ghost r0 = self.renderer@;
        let ghost rw = self.renderer.wf();
        let ghost f0 = self.flows@;
        let ghost w0 = self.widget_rects@;
        let n = self.elements.len();
        let mut i: usize = 0;
        while i < n
            invariant
                self.window_size == window_size,
                self.state == st,
                self.renderer@ == r0,
                self.renderer.wf() == rw,
                self.flows@ == f0,
                self.widget_rects@ == w0,
                n == e0.len(),
                tree_wf(e0, ps),
                self.parents@ == ps,
                self.elements@.len() == n,
                i <= n,
                forall|j: int| 0 <= j < i ==> #[trigger] self.elements@[j] == updated(e0, ps, window_size)[j],
                forall|j: int| i <= j < n ==> #[trigger] self.elements@[j] == e0[j],
            decreases n - i,
        {
            let parent_frame: (Vec2, Vec2) = if i == 0 {
                (
                    Vec2 {
                        x: crate::math::floor_div(window_size.x as i64, 2) as i32,
                        y: crate::math::floor_div(window_size.y as i64, 2) as i32,
                    },
                    window_size,
                )
            } else {
                let p = self.parents[i];
                assert(ps[i as int] < i);
                (self.elements[p].props().render_position, self.elements[p].props().render_size)
            };
            let (parent_position, parent_size) = parent_frame;
            let props = self.elements[i].props();
            let size = calculate_render_size(&props.width, &props.height, parent_size);
            let position = calculate_render_position(&props.x, &props.y, parent_position, parent_size, size);
            proof {
                assert(self.elements@[i as int] == e0[i as int]);
                assert((position, size) == resolved(e0, ps, window_size, i as int));
            }
            self.elements[i].set_geometry(position, size);
            i = i + 1;
        }
        proof {
            let e = self.elements@;
            assert(e =~= updated(e0, ps, window_size));
            assert forall|j: int| 0 <= j < e.len() implies #[trigger] e[j].spec_props().children == e0[j].spec_props().children by {
                assert(e[j] == updated(e0, ps, window_size)[j]);
            }
            assert forall|i: int| 1 <= i < e.len() implies #[trigger] ps[i] < i
                && e[ps[i] as int].spec_props().children@.contains(i as usize) by {
                assert(e[ps[i] as int].spec_props().children == e0[ps[i] as int].spec_props().children);
            }
            assert forall|p: int, k: int|
                0 <= p < e.len() && 0 <= k < e[p].spec_props().children@.len() implies {
                    let c = #[trigger] e[p].spec_props().children@[k];
                    p < c < e.len() && ps[c as int] == p
                } by {
                assert(e[p].spec_props().children == e0[p].spec_props().children);
                assert(e[p].spec_props().children@[k] == e0[p].spec_props().children@[k]);
            }
        }
    }

    /// Draws a frame: the element tree in pre-order, then the widgets of the
    /// frame in the order they were placed, which are then forgotten.
    pub fn render(&mut self)
        requires
            old(self).wf(),
        ensures
            final(self).wf(),
            final(self).spec_renderer() == drawn_rects(
                drawn_rects(old(self).spec_renderer().begun(), subtree_rects(old(self).spec_elements(), 0)),
                old(self).spec_widget_rects(),
            ).ended(),
            final(self).spec_widget_rects().len() == 0,
            final(self).spec_elements() == old(self).spec_elements(),
            final(self).spec_parents() == old(self).spec_parents(),
            final(self).spec_state() == old(self).spec_state(),
            final(self).spec_window_size() == old(self).spec_window_size(),
            final(self).spec_flows() == old(self).spec_flows(),
    {
        let ghost r0 = self.renderer@;
        self.renderer.begin_frame(self.window_size);
        render_subtree(&self.elements, &mut self.renderer, 0);
        let ghost after_tree = self.renderer@;
        let ghost e0 = self.elements@;
        let ghost p0 = self.parents@;
        let ghost st = self.state;
        let ghost ws = self.window_size;
        let ghost f0 = self.flows@;
        let ghost w0 = self.widget_rects@;
        let n = self.widget_rects.len();
        let mut k: usize = 0;
        while k < n
            invariant
                self.widget_rects@ == w0,
                self.elements@ == e0,
                self.parents@ == p0,
                tree_wf(e0, p0),
                self.state == st,
                self.window_size == ws,
                self.flows@ == f0,
                n == self.widget_rects@.len(),
                k <= n,
                self.renderer.wf(),
                self.renderer@.in_scene,
                self.renderer@ == drawn_rects(after_tree, self.widget_rects@.take(k as int)),
            decreases n - k,
        {
            let r = self.widget_rects[k];
            self.renderer.draw_rect(
                r.position,
                r.size,
                r.style.color,
                r.style.corner_radius,
                r.style.outline_thickness,
                r.style.outline_color,
                None,
            );
            proof {
                assert(self.widget_rects@.take(k + 1).drop_last() =~= self.widget_rects@.take(k as int));
            }
            k = k + 1;
        }
        proof {
            assert(self.widget_rects@.take(n as int) =~= self.widget_rects@);
        }
        self.widget_rects = Vec::new();
        self.renderer.end_frame();
    }

    /// Hands out the batches that rendering closed, oldest first, for the
    /// caller to draw.
    pub fn take_batches(&mut self) -> (r: Vec<DrawBatch<RectVertex>>)
        requires
            old(self).wf(),
        ensures
            final(self).wf(),
            r@.map_values(|b: DrawBatch<RectVertex>| b@) == old(self).spec_renderer().flushed,
            final(self).spec_renderer().flushed.len() == 0,
            final(self).spec_elements() == old(self).spec_elements(),
            final(self).spec_parents() == old(self).spec_parents(),
            final(self).spec_state() == old(self).spec_state(),
            final(self).spec_window_size() == old(self).spec_window_size(),
            final(self).spec_flows() == old(self).spec_flows(),
            final(self).spec_widget_rects() == old(self).spec_widget_rects(),
    {
        self.renderer.take_batches()
    }

    /// Starts the outermost flow of widgets at `origin`.
    pub fn begin_flow(&mut self, orientation: Orientation, origin: Vec2, padding: i32)
        requires
            old(self).spec_flows().len() == 0,
        ensures
            final(self).spec_flows() == seq![empty_flow(orientation, origin, padding)],
            final(self).spec_elements() == old(self).spec_elements(),
            final(self).spec_parents() == old(self).spec_parents(),
            final(self).spec_renderer() == old(self).spec_renderer(),
            final(self).wf() == old(self).wf(),
            final(self).spec_state() == old(self).spec_state(),
            final(self).spec_widget_rects() == old(self).spec_widget_rects(),
    {
        self.flows.push(Flow::new(orientation, origin, padding));
        proof {
            assert(self.flows@ =~= seq![empty_flow(orientation, origin, padding)]);
        }
    }

    /// Starts a flow inside the current one, where its next widget would go.
    pub fn begin_nested_flow(&mut self, orientation: Orientation, padding: i32)
        requires
            old(self).spec_flows().len() >= 1,
        ensures
            final(self).spec_flows() == old(self).spec_flows().push(
                empty_flow(orientation, next_position(old(self).spec_flows().last()), padding),
            ),
            final(self).spec_elements() == old(self).spec_elements(),
            final(self).spec_parents() == old(self).spec_parents(),
            final(self).spec_renderer() == old(self).spec_renderer(),
            final(self).wf() == old(self).wf(),
            final(self).spec_state() == old(self).spec_state(),
            final(self).spec_widget_rects() == old(self).spec_widget_rects(),
    {
        let origin = self.flows[self.flows.len() - 1].available_position();
        self.flows.push(Flow::new(orientation, origin, padding));
    }

    /// Ends the innermost flow, which then counts as one widget of its parent.
    pub fn end_nested_flow(&mut self)
        requires
            old(self).spec_flows().len() >= 2,
        ensures
            ({
                let f = old(self).spec_flows();
                let child = f.last();
                let parent = f[f.len() - 2];
                final(self).spec_flows() == f.drop_last().drop_last().push(
                    Flow { size: grown(parent, child.size), ..parent },
                )
            }),
            final(self).spec_elements() == old(self).spec_elements(),
            final(self).spec_parents() == old(self).spec_parents(),
            final(self).spec_renderer() == old(self).spec_renderer(),
            final(self).wf() == old(self).wf(),
            final(self).spec_state() == old(self).spec_state(),
            final(self).spec_widget_rects() == old(self).spec_widget_rects(),
    {
        let child = self.flows.pop().unwrap();
        let mut parent = self.flows.pop().unwrap();
        parent.push_widget(child.size);
        self.flows.push(parent);
    }

    /// Ends the outermost flow and returns the extent that its widgets took.
    pub fn end_flow(&mut self) -> (r: Vec2)
        requires
            old(self).spec_flows().len() == 1,
        ensures
            r == old(self).spec_flows()[0].size,
            final(self).spec_flows().len() == 0,
            final(self).spec_elements() == old(self).spec_elements(),
            final(self).spec_parents() == old(self).spec_parents(),
            final(self).spec_renderer() == old(self).spec_renderer(),
            final(self).wf() == old(self).wf(),
            final(self).spec_state() == old(self).spec_state(),
            final(self).spec_widget_rects() == old(self).spec_widget_rects(),
    {
        let f = self.flows.pop().unwrap();
        f.size
    }

    /// Places a button of extent `size` in the current flow, checks it as the
    /// widget `id` and queues it for drawing; true when it was clicked.
    pub fn button(&mut self, size: Vec2, color: Color, id: u64) -> (fired: bool)
        requires
            old(self).spec_flows().len() >= 1,
        ensures
            ({
                let f = old(self).spec_flows();
                let top = f.last();
                let position = next_position(top);
                let (state, report) = interaction(old(self).spec_state(), id, widget_box(position, size));
                &&& fired == (report == WidgetState::Fired)
                &&& final(self).spec_state() == state
                &&& final(self).spec_flows() == f.drop_last().push(Flow { size: grown(top, size), ..top })
                &&& final(self).spec_widget_rects() == old(self).spec_widget_rects().push(
                    button_rect(position, size, color),
                )
            }),
            final(self).spec_elements() == old(self).spec_elements(),
            final(self).spec_parents() == old(self).spec_parents(),
            final(self).spec_renderer() == old(self).spec_renderer(),
            final(self).wf() == old(self).wf(),
            final(self).spec_window_size() == old(self).spec_window_size(),
    {
        let mut top = self.flows.pop().unwrap();
        let position = top.available_position();
        let rect = AABB {
            min: position,
            max: Vec2 {
                x: crate::math::saturate(position.x as i64 + size.x as i64),
                y: crate::math::saturate(position.y as i64 + size.y as i64),
            },
        };
        let report = self.state.interact(id, &rect);
        let center = Vec2 {
            x: crate::math::saturate(position.x as i64 + crate::math::floor_div(size.x as i64, 2)),
            y: crate::math::saturate(position.y as i64 + crate::math::floor_div(size.y as i64, 2)),
        };
        self.widget_rects.push(
            DrawRect {
                position: center,
                size,
                style: RectStyle { color, corner_radius: 0, outline_thickness: 0, outline_color: color },
            },
        );
        top.push_widget(size);
        self.flows.push(top);
        report == WidgetState::Fired
    }
}

} // verus!
