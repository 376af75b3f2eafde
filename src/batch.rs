//! Accumulation of quads into bounded batches.
//!
//! A batch holds at most `MAX_QUADS` quads (four vertices and six indices each)
//! and at most `MAX_TEXTURE_SLOTS` distinct textures, slot 0 being the white
//! texture. A quad that would overflow either bound first closes the current
//! batch and opens a new one. Closed batches wait in a queue until the caller
//! takes them and draws each with one indexed call.
use vstd::prelude::*;

verus! {

pub const MAX_QUADS: usize = 10000;

pub const MAX_INDICES: u32 = 60000;

pub const MAX_TEXTURE_SLOTS: usize = 32;

/// A closed batch: the vertices to upload, the textures to bind (slot `i` to
/// unit `i`) and the number of indices to draw.
pub struct DrawBatch<V> {
    pub vertices: Vec<V>,
    pub texture_slots: Vec<u32>,
    pub index_count: u32,
}

pub struct BatchRecord<V> {
    pub vertices: Seq<V>,
    pub texture_slots: Seq<u32>,
    pub index_count: nat,
}

impl<V> View for DrawBatch<V> {
    type V = BatchRecord<V>;

    open spec fn view(&self) -> BatchRecord<V> {
        BatchRecord {
            vertices: self.vertices@,
            texture_slots: self.texture_slots@,
            index_count: self.index_count as nat,
        }
    }
}

/// The abstract state of a batcher.
pub struct BatchState<V> {
    /// Vertices of the open batch.
    pub vertices: Seq<V>,
    pub index_count: nat,
    /// Texture of each bound slot of the open batch.
    pub texture_slots: Seq<u32>,
    /// Closed batches not taken yet, oldest first.
    pub flushed: Seq<BatchRecord<V>>,
    pub white_texture: u32,
    /// Between `begin` and `end`.
    pub in_scene: bool,
}

/// The slot holding texture `t` (the last one, if several do), or -1.
pub open spec fn slot_index(slots: Seq<u32>, t: u32) -> int
    decreases slots.len(),
{
    if slots.len() == 0 {
        -1
    } else if slots.last() == t {
        slots.len() - 1
    } else {
        slot_index(slots.drop_last(), t)
    }
}

pub proof fn lemma_slot_index_bounds(slots: Seq<u32>, t: u32)
    ensures
        -1 <= slot_index(slots, t) < slots.len(),
        slot_index(slots, t) >= 0 ==> slots[slot_index(slots, t)] == t,
        slot_index(slots, t) == -1 ==> !slots.contains(t),
    decreases slots.len(),
{
    if slots.len() > 0 {
        lemma_slot_index_bounds(slots.drop_last(), t);
        if slots.last() != t && slot_index(slots, t) == -1 {
            assert forall|i: int| 0 <= i < slots.len() implies slots[i] != t by {
                if i < slots.len() - 1 {
                    assert(slots.drop_last()[i] == slots[i]);
                }
            }
        }
    }
}

impl<V> BatchState<V> {
    pub open spec fn quad_count(self) -> nat {
        self.vertices.len() / 4
    }

    pub open spec fn wf(self) -> bool {
        &&& self.vertices.len() % 4 == 0
        &&& self.quad_count() <= MAX_QUADS
        &&& self.index_count == 6 * self.quad_count()
        &&& 1 <= self.texture_slots.len() <= MAX_TEXTURE_SLOTS
        &&& self.texture_slots[0] == self.white_texture
    }

    /// The open batch emptied, with only the white texture bound.
    pub open spec fn restarted(self) -> BatchState<V> {
        BatchState {
            vertices: Seq::empty(),
            index_count: 0,
            texture_slots: seq![self.white_texture],
            flushed: self.flushed,
            white_texture: self.white_texture,
            in_scene: self.in_scene,
        }
    }

    /// The open batch queued, when it holds any vertex.
    pub open spec fn flushed_out(self) -> BatchState<V> {
        if self.vertices.len() == 0 {
            self
        } else {
            BatchState {
                flushed: self.flushed.push(
                    BatchRecord {
                        vertices: self.vertices,
                        texture_slots: self.texture_slots,
                        index_count: self.index_count,
                    },
                ),
                ..self
            }
        }
    }

    pub open spec fn next_batch(self) -> BatchState<V> {
        self.flushed_out().restarted()
    }

    /// The state after the quad-capacity check that precedes a quad.
    pub open spec fn with_room(self) -> BatchState<V> {
        if self.quad_count() >= MAX_QUADS {
            self.next_batch()
        } else {
            self
        }
    }

    /// The state in which the next quad is appended, and the slot of its texture.
    pub open spec fn reserved(self, texture: Option<u32>) -> (BatchState<V>, u32) {
        let s = self.with_room();
        match texture {
            None => (s, 0),
            Some(t) => if slot_index(s.texture_slots, t) >= 0 {
                (s, slot_index(s.texture_slots, t) as u32)
            } else {
                let s2 = if s.texture_slots.len() >= MAX_TEXTURE_SLOTS {
                    s.next_batch()
                } else {
                    s
                };
                (
                    BatchState { texture_slots: s2.texture_slots.push(t), ..s2 },
                    s2.texture_slots.len() as u32,
                )
            },
        }
    }

    /// The state after a quad of the given four vertices is appended.
    pub open spec fn with_quad(self, quad: Seq<V>) -> BatchState<V> {
        BatchState {
            vertices: self.vertices + quad,
            index_count: self.index_count + 6,
            ..self
        }
    }

    /// A whole submission: room made, texture slotted, quad appended.
    pub open spec fn drawn(self, texture: Option<u32>, quad: Seq<V>) -> BatchState<V> {
        self.reserved(texture).0.with_quad(quad)
    }

    pub open spec fn begun(self) -> BatchState<V> {
        BatchState { in_scene: true, ..self.restarted() }
    }

    pub open spec fn ended(self) -> BatchState<V> {
        BatchState { in_scene: false, ..self.next_batch() }
    }
}

/// The state after each quad of `quads` is submitted without a texture, in order.
pub open spec fn drawn_untextured<V>(s: BatchState<V>, quads: Seq<Seq<V>>) -> BatchState<V>
    decreases quads.len(),
{
    if quads.len() == 0 {
        s
    } else {
        drawn_untextured(s, quads.drop_last()).drawn(None, quads.last())
    }
}

/// The number of vertices in all the given batches.
pub open spec fn total_vertices<V>(batches: Seq<BatchRecord<V>>) -> nat
    decreases batches.len(),
{
    if batches.len() == 0 {
        0
    } else {
        total_vertices(batches.drop_last()) + batches.last().vertices.len()
    }
}

proof fn lemma_untextured_progress<V>(s: BatchState<V>, quads: Seq<Seq<V>>)
    requires
        s.wf(),
        s.vertices.len() == 0,
        s.flushed.len() == 0,
        forall|i: int| 0 <= i < quads.len() ==> #[trigger] quads[i].len() == 4,
    ensures
        ({
            let d = drawn_untextured(s, quads);
            &&& d.wf()
            &&& d.white_texture == s.white_texture
            &&& d.in_scene == s.in_scene
            &&& quads.len() == 0 ==> d.vertices.len() == 0 && d.flushed.len() == 0
            &&& quads.len() > 0 ==> 1 <= d.quad_count() && d.flushed.len() * MAX_QUADS
                + d.quad_count() == quads.len()
            &&& forall|i: int|
                0 <= i < d.flushed.len() ==> (#[trigger] d.flushed[i]).vertices.len() == 4
                    * MAX_QUADS && d.flushed[i].index_count == 6 * MAX_QUADS
            &&& total_vertices(d.flushed) == 4 * MAX_QUADS * d.flushed.len()
        }),
    decreases quads.len(),
{
    if quads.len() > 0 {
        let prefix = quads.drop_last();
        assert forall|i: int| 0 <= i < prefix.len() implies #[trigger] prefix[i].len() == 4 by {
            assert(prefix[i] == quads[i]);
        }
        lemma_untextured_progress(s, prefix);
        let d = drawn_untextured(s, prefix);
        let q = quads.last();
        assert(q.len() == 4) by {
            assert(quads[quads.len() - 1].len() == 4);
        }
        let r = d.with_room();
        if d.quad_count() >= MAX_QUADS {
            let rec = BatchRecord {
                vertices: d.vertices,
                texture_slots: d.texture_slots,
                index_count: d.index_count,
            };
            assert(d.vertices.len() == 4 * MAX_QUADS);
            assert(r.flushed == d.flushed.push(rec));
            assert(r.flushed.drop_last() == d.flushed);
            assert forall|i: int| 0 <= i < r.flushed.len() implies (#[trigger] r.flushed[i]).vertices.len()
                == 4 * MAX_QUADS && r.flushed[i].index_count == 6 * MAX_QUADS by {
                if i < d.flushed.len() {
                    assert(r.flushed[i] == d.flushed[i]);
                }
            }
        }
        let e = r.with_quad(q);
        assert(e.vertices.len() == r.vertices.len() + 4);
        assert(e.texture_slots[0] == s.white_texture);
    }
}

/// Submitting `n` untextured quads into an empty scene and closing it yields
/// exactly `ceil(n / MAX_QUADS)` batches, none over `6 * MAX_QUADS` indices,
/// holding `4 * n` vertices in all.
pub proof fn lemma_untextured_batch_count<V>(s: BatchState<V>, quads: Seq<Seq<V>>)
    requires
        s.wf(),
        s.flushed.len() == 0,
        forall|i: int| 0 <= i < quads.len() ==> #[trigger] quads[i].len() == 4,
    ensures
        ({
            let e = drawn_untextured(s.begun(), quads).ended();
            &&& e.flushed.len() == (quads.len() + MAX_QUADS - 1) / (MAX_QUADS as int)
            &&& forall|i: int|
                0 <= i < e.flushed.len() ==> (#[trigger] e.flushed[i]).index_count <= 6 * MAX_QUADS
            &&& total_vertices(e.flushed) == 4 * quads.len()
        }),
{
    let b = s.begun();
    lemma_untextured_progress(b, quads);
    let d = drawn_untextured(b, quads);
    let e = d.ended();
    let n = quads.len() as int;
    let m = MAX_QUADS as int;
    if n == 0 {
        assert(e.flushed == d.flushed);
    } else {
        let f = d.flushed.len() as int;
        let c = d.quad_count() as int;
        let rec = BatchRecord {
            vertices: d.vertices,
            texture_slots: d.texture_slots,
            index_count: d.index_count,
        };
        assert(e.flushed == d.flushed.push(rec));
        assert(e.flushed.drop_last() == d.flushed);
        assert forall|i: int| 0 <= i < e.flushed.len() implies (#[trigger] e.flushed[i]).index_count
            <= 6 * MAX_QUADS by {
            if i < d.flushed.len() {
                assert(e.flushed[i] == d.flushed[i]);
            }
        }
        vstd::arithmetic::div_mod::lemma_fundamental_div_mod_converse(n + m - 1, m, f + 1, c - 1);
        assert(n + m - 1 == (f + 1) * m + (c - 1)) by (nonlinear_arith)
            requires
                f * m + c == n,
        ;
        assert(total_vertices(e.flushed) == 4 * m * f + 4 * c);
        assert(4 * m * f + 4 * c == 4 * n) by (nonlinear_arith)
            requires
                f * m + c == n,
        ;
    }
}

/// A closed batch within the caps: whole quads, at most `MAX_QUADS` of them,
/// six indices per quad, and between one and `MAX_TEXTURE_SLOTS` textures.
pub open spec fn record_within_caps<V>(r: BatchRecord<V>) -> bool {
    &&& r.vertices.len() % 4 == 0
    &&& r.vertices.len() / 4 <= MAX_QUADS
    &&& r.index_count == 6 * (r.vertices.len() / 4)
    &&& 1 <= r.texture_slots.len() <= MAX_TEXTURE_SLOTS
}

/// The state after each `(texture, quad)` submission, in order.
pub open spec fn drawn_all<V>(s: BatchState<V>, subs: Seq<(Option<u32>, Seq<V>)>) -> BatchState<V>
    decreases subs.len(),
{
    if subs.len() == 0 {
        s
    } else {
        drawn_all(s, subs.drop_last()).drawn(subs.last().0, subs.last().1)
    }
}

/// The vertices of all closed batches and of the open one.
pub open spec fn vertices_held<V>(s: BatchState<V>) -> nat {
    total_vertices(s.flushed) + s.vertices.len()
}

pub open spec fn within_caps<V>(s: BatchState<V>) -> bool {
    &&& s.wf()
    &&& forall|i: int| 0 <= i < s.flushed.len() ==> record_within_caps(#[trigger] s.flushed[i])
}

proof fn lemma_next_batch_within_caps<V>(s: BatchState<V>)
    requires
        within_caps(s),
    ensures
        within_caps(s.next_batch()),
        vertices_held(s.next_batch()) == vertices_held(s),
        s.next_batch().white_texture == s.white_texture,
        s.next_batch().in_scene == s.in_scene,
{
    let n = s.next_batch();
    if s.vertices.len() > 0 {
        let rec = BatchRecord {
            vertices: s.vertices,
            texture_slots: s.texture_slots,
            index_count: s.index_count,
        };
        assert(n.flushed == s.flushed.push(rec));
        assert(n.flushed.drop_last() == s.flushed);
        assert forall|i: int| 0 <= i < n.flushed.len() implies record_within_caps(#[trigger] n.flushed[i]) by {
            if i < s.flushed.len() {
                assert(n.flushed[i] == s.flushed[i]);
            }
        }
    } else {
        assert(n.flushed == s.flushed);
    }
    assert(n.texture_slots =~= seq![s.white_texture]);
}

proof fn lemma_drawn_within_caps<V>(s: BatchState<V>, texture: Option<u32>, quad: Seq<V>)
    requires
        within_caps(s),
        quad.len() == 4,
    ensures
        within_caps(s.drawn(texture, quad)),
        vertices_held(s.drawn(texture, quad)) == vertices_held(s) + 4,
        s.drawn(texture, quad).white_texture == s.white_texture,
        s.drawn(texture, quad).in_scene == s.in_scene,
{
    let r = s.with_room();
    if s.quad_count() >= MAX_QUADS {
        lemma_next_batch_within_caps(s);
    }
    assert(within_caps(r) && vertices_held(r) == vertices_held(s) && r.quad_count() < MAX_QUADS);
    let (t, slot) = s.reserved(texture);
    match texture {
        None => {},
        Some(x) => {
            if slot_index(r.texture_slots, x) < 0 {
                let r2 = if r.texture_slots.len() >= MAX_TEXTURE_SLOTS {
                    r.next_batch()
                } else {
                    r
                };
                if r.texture_slots.len() >= MAX_TEXTURE_SLOTS {
                    lemma_next_batch_within_caps(r);
                }
                assert(within_caps(r2) && vertices_held(r2) == vertices_held(s));
                assert(r2.texture_slots.len() < MAX_TEXTURE_SLOTS);
                assert(t.texture_slots == r2.texture_slots.push(x));
                assert(t.texture_slots[0] == r2.texture_slots[0]);
                assert(t.flushed == r2.flushed);
            }
        },
    }
    assert(within_caps(t) && vertices_held(t) == vertices_held(s) && t.quad_count() < MAX_QUADS);
    let d = t.with_quad(quad);
    assert(d.vertices.len() == t.vertices.len() + 4);
    assert(d.flushed == t.flushed);
}

/// Whatever textures the quads use, closing the scene after `n` submissions
/// leaves every batch within the quad and texture caps, and the batches hold
/// `4 * n` vertices in all: no quad is split or lost.
pub proof fn lemma_batches_within_caps<V>(s: BatchState<V>, subs: Seq<(Option<u32>, Seq<V>)>)
    requires
        s.wf(),
        s.flushed.len() == 0,
        forall|i: int| 0 <= i < subs.len() ==> (#[trigger] subs[i]).1.len() == 4,
    ensures
        ({
            let e = drawn_all(s.begun(), subs).ended();
            &&& forall|i: int| 0 <= i < e.flushed.len() ==> record_within_caps(#[trigger] e.flushed[i])
            &&& total_vertices(e.flushed) == 4 * subs.len()
        }),
{
    lemma_drawn_all_within_caps(s.begun(), subs);
    let d = drawn_all(s.begun(), subs);
    lemma_next_batch_within_caps(d);
    let e = d.ended();
    assert(e.flushed == d.next_batch().flushed);
    assert(e.vertices.len() == 0);
}

proof fn lemma_drawn_all_within_caps<V>(s: BatchState<V>, subs: Seq<(Option<u32>, Seq<V>)>)
    requires
        within_caps(s),
        forall|i: int| 0 <= i < subs.len() ==> (#[trigger] subs[i]).1.len() == 4,
    ensures
        within_caps(drawn_all(s, subs)),
        vertices_held(drawn_all(s, subs)) == vertices_held(s) + 4 * subs.len(),
    decreases subs.len(),
{
    if subs.len() > 0 {
        let prefix = subs.drop_last();
        assert forall|i: int| 0 <= i < prefix.len() implies (#[trigger] prefix[i]).1.len() == 4 by {
            assert(prefix[i] == subs[i]);
        }
        lemma_drawn_all_within_caps(s, prefix);
        assert(subs[subs.len() - 1].1.len() == 4);
        lemma_drawn_within_caps(drawn_all(s, prefix), subs.last().0, subs.last().1);
    }
}

/// The batching state shared by the quad and the rectangle renderers.
pub struct QuadBatcher<V> {
    vertices: Vec<V>,
    index_count: u32,
    texture_slots: Vec<u32>,
    flushed: Vec<DrawBatch<V>>,
    white_texture: u32,
    in_scene: bool,
}

impl<V> View for QuadBatcher<V> {
    type V = BatchState<V>;

    closed spec fn view(&self) -> BatchState<V> {
        BatchState {
            vertices: self.vertices@,
            index_count: self.index_count as nat,
            texture_slots: self.texture_slots@,
            flushed: self.flushed@.map_values(|b: DrawBatch<V>| b@),
            white_texture: self.white_texture,
            in_scene: self.in_scene,
        }
    }
}

impl<V> QuadBatcher<V> {
    pub fn new(white_texture: u32) -> (r: QuadBatcher<V>)
        ensures
            r@.wf(),
            r@.vertices.len() == 0,
            r@.texture_slots == seq![white_texture],
            r@.flushed.len() == 0,
            r@.white_texture == white_texture,
            !r@.in_scene,
    {
        let r = QuadBatcher {
            vertices: Vec::new(),
            index_count: 0,
            texture_slots: vec![white_texture],
            flushed: Vec::new(),
            white_texture,
            in_scene: false,
        };
        proof {
            assert(r@.flushed =~= Seq::<BatchRecord<V>>::empty());
        }
        r
    }

    pub fn is_in_scene(&self) -> (r: bool)
        ensures
            r == self@.in_scene,
    {
        self.in_scene
    }

    pub fn quad_count(&self) -> (r: usize)
        requires
            self@.wf(),
        ensures
            r == self@.quad_count(),
    {
        self.vertices.len() / 4
    }

    fn start_batch(&mut self)
        ensures
            final(self)@ == old(self)@.restarted(),
            final(self)@.wf(),
    {
        self.vertices = Vec::new();
        self.index_count = 0;
        self.texture_slots = vec![self.white_texture];
        proof {
            assert(self@.vertices =~= Seq::<V>::empty());
            assert(self@.texture_slots =~= seq![self.white_texture]);
        }
    }

    /// Queues the open batch, when it holds any vertex, and opens an empty one.
    pub fn next_batch(&mut self)
        requires
            old(self)@.wf(),
        ensures
            final(self)@ == old(self)@.next_batch(),
            final(self)@.wf(),
    {
        if self.vertices.len() > 0 {
            let ghost before = self@;
            let mut vertices: Vec<V> = Vec::new();
            let mut texture_slots: Vec<u32> = Vec::new();
            std::mem::swap(&mut vertices, &mut self.vertices);
            std::mem::swap(&mut texture_slots, &mut self.texture_slots);
            let batch = DrawBatch { vertices, texture_slots, index_count: self.index_count };
            self.flushed.push(batch);
            proof {
                assert(self@.flushed =~= before.flushed_out().flushed);
            }
        }
        self.start_batch();
    }

    /// Opens a scene with an empty batch.
    pub fn begin(&mut self)
        requires
            old(self)@.wf(),
        ensures
            final(self)@ == old(self)@.begun(),
            final(self)@.wf(),
    {
        self.start_batch();
        self.in_scene = true;
    }

    /// Closes the scene: the open batch is queued when it holds any quad.
    pub fn end(&mut self)
        requires
            old(self)@.wf(),
        ensures
            final(self)@ == old(self)@.ended(),
            final(self)@.wf(),
    {
        self.next_batch();
        self.in_scene = false;
    }

    /// Hands out the queued batches, oldest first.
    pub fn take_batches(&mut self) -> (r: Vec<DrawBatch<V>>)
        ensures
            r@.map_values(|b: DrawBatch<V>| b@) == old(self)@.flushed,
            final(self)@ == (BatchState { flushed: Seq::empty(), ..old(self)@ }),
    {
        let mut r: Vec<DrawBatch<V>> = Vec::new();
        std::mem::swap(&mut r, &mut self.flushed);
        proof {
            assert(self@.flushed =~= Seq::<BatchRecord<V>>::empty());
        }
        r
    }

    /// Makes room for one more quad of the given texture and returns the slot
    /// that its vertices name.
    pub fn reserve(&mut self, texture: Option<u32>) -> (slot: u32)
        requires
            old(self)@.wf(),
        ensures
            (final(self)@, slot) == old(self)@.reserved(texture),
            final(self)@.wf(),
            final(self)@.quad_count() < MAX_QUADS,
            slot < MAX_TEXTURE_SLOTS,
    {
        if self.vertices.len() / 4 >= MAX_QUADS {
            self.next_batch();
        }
        match texture {
            None => 0,
            Some(t) => {
                let n = self.texture_slots.len();
                let mut found: usize = 0;
                let mut seen: bool = false;
                let mut i: usize = 0;
                while i < n
                    invariant
                        n == self.texture_slots@.len(),
                        i <= n,
                        seen ==> found as int == slot_index(self.texture_slots@.take(i as int), t),
                        !seen ==> slot_index(self.texture_slots@.take(i as int), t) == -1,
                    decreases n - i,
                {
                    proof {
                        assert(self.texture_slots@.take(i as int + 1).drop_last()
                            =~= self.texture_slots@.take(i as int));
                    }
                    if self.texture_slots[i] == t {
                        found = i;
                        seen = true;
                    }
                    i = i + 1;
                }
                proof {
                    assert(self.texture_slots@.take(n as int) =~= self.texture_slots@);
                    lemma_slot_index_bounds(self.texture_slots@, t);
                }
                if seen {
                    found as u32
                } else {
                    if self.texture_slots.len() >= MAX_TEXTURE_SLOTS {
                        self.next_batch();
                    }
                    let slot = self.texture_slots.len() as u32;
                    self.texture_slots.push(t);
                    slot
                }
            },
        }
    }

    /// Appends the four corners of a quad to the open batch.
    pub fn push_quad(&mut self, a: V, b: V, c: V, d: V)
        requires
            old(self)@.wf(),
            old(self)@.quad_count() < MAX_QUADS,
        ensures
            final(self)@ == old(self)@.with_quad(seq![a, b, c, d]),
            final(self)@.wf(),
    {
        let ghost before = self@;
        self.vertices.push(a);
        self.vertices.push(b);
        self.vertices.push(c);
        self.vertices.push(d);
        self.index_count = self.index_count + 6;
        proof {
            assert(self@.vertices =~= before.vertices + seq![a, b, c, d]);
        }
    }
}

} // verus!
