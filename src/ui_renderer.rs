//! The interface renderer: rounded, outlined rectangles in screen units.
use vstd::prelude::*;
use crate::math::{AABB, Color, Vec2};
use crate::batch::{BatchState, DrawBatch, QuadBatcher, BatchRecord};

verus! {

/// One corner of a rectangle as the rectangle shader reads it.
#[derive(Clone, Copy, Debug, PartialEq, Eq, Structural)]
pub struct RectVertex {
    pub position: Vec2,
    pub color: Color,
    pub texture_coord: Vec2,
    pub texture_index: u32,
    pub size: Vec2,
    pub corner_radius: i32,
    pub outline_thickness: i32,
    pub outline_color: Color,
}

/// What a rectangle looks like, apart from where it stands.
#[derive(Clone, Copy, Debug, PartialEq, Eq, Structural)]
pub struct RectStyle {
    pub color: Color,
    pub corner_radius: i32,
    pub outline_thickness: i32,
    pub outline_color: Color,
}

pub open spec fn rect_corner(p: Vec2, t: Vec2, size: Vec2, style: RectStyle, slot: u32) -> RectVertex {
    RectVertex {
        position: p,
        color: style.color,
        texture_coord: t,
        texture_index: slot,
        size,
        corner_radius: style.corner_radius,
        outline_thickness: style.outline_thickness,
        outline_color: style.outline_color,
    }
}

/// The corners of the rectangle of extent `size` centred on `position`,
/// counter-clockwise from the low corner.
pub open spec fn rect_vertices(position: Vec2, size: Vec2, style: RectStyle, slot: u32) -> Seq<RectVertex> {
    let b = AABB::centered(position, size);
    seq![
        rect_corner(Vec2 { x: b.min.x, y: b.min.y }, Vec2 { x: 0, y: 0 }, size, style, slot),
        rect_corner(Vec2 { x: b.max.x, y: b.min.y }, Vec2 { x: 1, y: 0 }, size, style, slot),
        rect_corner(Vec2 { x: b.max.x, y: b.max.y }, Vec2 { x: 1, y: 1 }, size, style, slot),
        rect_corner(Vec2 { x: b.min.x, y: b.max.y }, Vec2 { x: 0, y: 1 }, size, style, slot),
    ]
}

fn corner(p: Vec2, t: Vec2, size: Vec2, style: &RectStyle, slot: u32) -> (r: RectVertex)
    ensures
        r == rect_corner(p, t, size, *style, slot),
{
    RectVertex {
        position: p,
        color: style.color,
        texture_coord: t,
        texture_index: slot,
        size,
        corner_radius: style.corner_radius,
        outline_thickness: style.outline_thickness,
        outline_color: style.outline_color,
    }
}

pub struct UiRenderer {
    rects: QuadBatcher<RectVertex>,
    screen_size: Vec2,
}

impl View for UiRenderer {
    type V = BatchState<RectVertex>;

    closed spec fn view(&self) -> BatchState<RectVertex> {
        self.rects@
    }
}

impl UiRenderer {
    pub open spec fn wf(&self) -> bool {
        self@.wf()
    }

    pub closed spec fn spec_screen_size(&self) -> Vec2 {
        self.screen_size
    }

    /// A renderer whose slot 0 holds the texture `white_texture`.
    pub fn new(white_texture: u32) -> (r: UiRenderer)
        ensures
            r.wf(),
            r@.vertices.len() == 0,
            r@.texture_slots == seq![white_texture],
            r@.flushed.len() == 0,
            r@.white_texture == white_texture,
            !r@.in_scene,
            r.spec_screen_size() == (Vec2 { x: 0, y: 0 }),
    {
        UiRenderer { rects: QuadBatcher::new(white_texture), screen_size: Vec2 { x: 0, y: 0 } }
    }

    pub fn is_in_scene(&self) -> (r: bool)
        ensures
            r == self@.in_scene,
    {
        self.rects.is_in_scene()
    }

    /// The window extent of the frame under way, from which the screen
    /// transform is made.
    pub fn screen_size(&self) -> (r: Vec2)
        ensures
            r == self.spec_screen_size(),
    {
        self.screen_size
    }

    pub fn begin_frame(&mut self, window_size: Vec2)
        requires
            old(self).wf(),
        ensures
            final(self)@ == old(self)@.begun(),
            final(self).wf(),
            final(self).spec_screen_size() == window_size,
    {
        self.screen_size = window_size;
        self.rects.begin();
    }

    pub fn end_frame(&mut self)
        requires
            old(self).wf(),
        ensures
            final(self)@ == old(self)@.ended(),
            final(self).wf(),
            final(self).spec_screen_size() == old(self).spec_screen_size(),
    {
        self.rects.end();
    }

    pub fn next_batch(&mut self)
        requires
            old(self).wf(),
        ensures
            final(self)@ == old(self)@.next_batch(),
            final(self).wf(),
            final(self).spec_screen_size() == old(self).spec_screen_size(),
    {
        self.rects.next_batch();
    }

    /// Hands out the closed batches, oldest first.
    pub fn take_batches(&mut self) -> (r: Vec<DrawBatch<RectVertex>>)
        requires
            old(self).wf(),
        ensures
            r@.map_values(|b: DrawBatch<RectVertex>| b@) == old(self)@.flushed,
            final(self)@ == (BatchState { flushed: Seq::<BatchRecord<RectVertex>>::empty(), ..old(self)@ }),
            final(self).wf(),
            final(self).spec_screen_size() == old(self).spec_screen_size(),
    {
        self.rects.take_batches()
    }

    /// Submits a rectangle of extent `size` centred on `position`.
    pub fn draw_rect(
        &mut self,
        position: Vec2,
        size: Vec2,
        color: Color,
        corner_radius: i32,
        outline_thickness: i32,
        outline_color: Color,
        texture: Option<u32>,
    )
        requires
            old(self).wf(),
            old(self)@.in_scene,
        ensures
            final(self)@ == old(self)@.drawn(
                texture,
                rect_vertices(
                    position,
                    size,
                    RectStyle { color, corner_radius, outline_thickness, outline_color },
                    old(self)@.reserved(texture).1,
                ),
            ),
            final(self).wf(),
            final(self).spec_screen_size() == old(self).spec_screen_size(),
    {
        let style = RectStyle { color, corner_radius, outline_thickness, outline_color };
        let slot = self.rects.reserve(texture);
        let b = AABB::from_position_and_size(position, size);
        let v0 = corner(Vec2 { x: b.min.x, y: b.min.y }, Vec2 { x: 0, y: 0 }, size, &style, slot);
        let v1 = corner(Vec2 { x: b.max.x, y: b.min.y }, Vec2 { x: 1, y: 0 }, size, &style, slot);
        let v2 = corner(Vec2 { x: b.max.x, y: b.max.y }, Vec2 { x: 1, y: 1 }, size, &style, slot);
        let v3 = corner(Vec2 { x: b.min.x, y: b.max.y }, Vec2 { x: 0, y: 1 }, size, &style, slot);
        self.rects.push_quad(v0, v1, v2, v3);
    }
}

} // verus!
