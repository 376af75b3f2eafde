//! The world renderer: coloured, optionally textured quads.
use vstd::prelude::*;
use crate::math::{AABB, Color, Vec2};
use crate::batch::{BatchRecord, BatchState, DrawBatch, QuadBatcher};

verus! {

/// One corner of a quad as the quad shader reads it.
#[derive(Clone, Copy, Debug, PartialEq, Eq, Structural)]
pub struct QuadVertex {
    pub position: Vec2,
    pub color: Color,
    pub texture_coord: Vec2,
    pub texture_index: u32,
}

/// The corners of the box of extent `size` centred on `position`, counter-
/// clockwise from the low corner, each with its texture coordinate.
pub open spec fn quad_vertices(position: Vec2, size: Vec2, color: Color, slot: u32) -> Seq<QuadVertex> {
    let b = AABB::centered(position, size);
    seq![
        QuadVertex { position: Vec2 { x: b.min.x, y: b.min.y }, color, texture_coord: Vec2 { x: 0, y: 0 }, texture_index: slot },
        QuadVertex { position: Vec2 { x: b.max.x, y: b.min.y }, color, texture_coord: Vec2 { x: 1, y: 0 }, texture_index: slot },
        QuadVertex { position: Vec2 { x: b.max.x, y: b.max.y }, color, texture_coord: Vec2 { x: 1, y: 1 }, texture_index: slot },
        QuadVertex { position: Vec2 { x: b.min.x, y: b.max.y }, color, texture_coord: Vec2 { x: 0, y: 1 }, texture_index: slot },
    ]
}

pub struct Renderer {
    quads: QuadBatcher<QuadVertex>,
}

impl View for Renderer {
    type V = BatchState<QuadVertex>;

    closed spec fn view(&self) -> BatchState<QuadVertex> {
        self.quads@
    }
}

impl Renderer {
    pub open spec fn wf(&self) -> bool {
        self@.wf()
    }

    /// A renderer whose slot 0 holds the texture `white_texture`.
    pub fn new(white_texture: u32) -> (r: Renderer)
        ensures
            r.wf(),
            r@.vertices.len() == 0,
            r@.texture_slots == seq![white_texture],
            r@.flushed.len() == 0,
            r@.white_texture == white_texture,
            !r@.in_scene,
    {
        Renderer { quads: QuadBatcher::new(white_texture) }
    }

    pub fn is_in_scene(&self) -> (r: bool)
        ensures
            r == self@.in_scene,
    {
        self.quads.is_in_scene()
    }

    pub fn begin_scene(&mut self)
        requires
            old(self).wf(),
        ensures
            final(self)@ == old(self)@.begun(),
            final(self).wf(),
    {
        self.quads.begin();
    }

    pub fn end_scene(&mut self)
        requires
            old(self).wf(),
        ensures
            final(self)@ == old(self)@.ended(),
            final(self).wf(),
    {
        self.quads.end();
    }

    pub fn next_batch(&mut self)
        requires
            old(self).wf(),
        ensures
            final(self)@ == old(self)@.next_batch(),
            final(self).wf(),
    {
        self.quads.next_batch();
    }

    /// Hands out the closed batches, oldest first.
    pub fn take_batches(&mut self) -> (r: Vec<DrawBatch<QuadVertex>>)
        requires
            old(self).wf(),
        ensures
            r@.map_values(|b: DrawBatch<QuadVertex>| b@) == old(self)@.flushed,
            final(self)@ == (BatchState { flushed: Seq::<BatchRecord<QuadVertex>>::empty(), ..old(self)@ }),
            final(self).wf(),
    {
        self.quads.take_batches()
    }

    /// Submits a quad of extent `size` centred on `position`.
    pub fn draw_quad(&mut self, position: Vec2, size: Vec2, color: Color, texture: Option<u32>)
        requires
            old(self).wf(),
            old(self)@.in_scene,
        ensures
            final(self)@ == old(self)@.drawn(
                texture,
                quad_vertices(position, size, color, old(self)@.reserved(texture).1),
            ),
            final(self).wf(),
    {
        let slot = self.quads.reserve(texture);
        let b = AABB::from_position_and_size(position, size);
        self.quads.push_quad(
            QuadVertex { position: Vec2 { x: b.min.x, y: b.min.y }, color, texture_coord: Vec2 { x: 0, y: 0 }, texture_index: slot },
            QuadVertex { position: Vec2 { x: b.max.x, y: b.min.y }, color, texture_coord: Vec2 { x: 1, y: 0 }, texture_index: slot },
            QuadVertex { position: Vec2 { x: b.max.x, y: b.max.y }, color, texture_coord: Vec2 { x: 1, y: 1 }, texture_index: slot },
            QuadVertex { position: Vec2 { x: b.min.x, y: b.max.y }, color, texture_coord: Vec2 { x: 0, y: 1 }, texture_index: slot },
        );
    }
}

} // verus!
