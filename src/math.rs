//! Integer geometry: two-component vectors, colours and axis-aligned boxes.
//!
//! Every coordinate is an `i32` number of units (pixels on screen).
//! Intermediate values are computed exactly in `i64` and results that leave
//! the `i32` range saturate at its bounds.
use vstd::prelude::*;

verus! {

/// A point or an extent in the plane.
#[derive(Clone, Copy, Debug, PartialEq, Eq, Structural)]
pub struct Vec2 {
    pub x: i32,
    pub y: i32,
}

/// An RGBA colour, one byte per channel.
#[derive(Clone, Copy, Debug, PartialEq, Eq, Structural)]
pub struct Color {
    pub r: u8,
    pub g: u8,
    pub b: u8,
    pub a: u8,
}

impl Vec2 {
    pub fn new(x: i32, y: i32) -> (r: Vec2)
        ensures
            r.x == x,
            r.y == y,
    {
        Vec2 { x, y }
    }
}

impl Color {
    pub fn new(r: u8, g: u8, b: u8, a: u8) -> (c: Color)
        ensures
            c.r == r,
            c.g == g,
            c.b == b,
            c.a == a,
    {
        Color { r, g, b, a }
    }
}

/// The value `v` brought into the `i32` range.
pub open spec fn clamp(v: int) -> int {
    if v < i32::MIN {
        i32::MIN as int
    } else if v > i32::MAX {
        i32::MAX as int
    } else {
        v
    }
}

/// Rounds towards negative infinity: the lower half of an odd extent.
pub open spec fn half(v: int) -> int {
    v / 2
}

pub fn saturate(v: i64) -> (r: i32)
    ensures
        r == clamp(v as int),
{
    if v < i32::MIN as i64 {
        i32::MIN
    } else if v > i32::MAX as i64 {
        i32::MAX
    } else {
        v as i32
    }
}

/// Division rounding towards negative infinity.
pub fn floor_div(a: i64, d: i64) -> (r: i64)
    requires
        0 < d <= 0x1_0000_0000,
        -0x4000_0000_0000_0000 <= a,
    ensures
        r == a / d,
{
    if a >= 0 {
        a / d
    } else {
        let n: i64 = -a;
        let q: i64 = (n + d - 1) / d;
        proof {
            let qi = q as int;
            let ni = n as int;
            let di = d as int;
            let ai = a as int;
            vstd::arithmetic::div_mod::lemma_fundamental_div_mod(ni + di - 1, di);
            vstd::arithmetic::div_mod::lemma_fundamental_div_mod(ai, di);
            assert(-qi == ai / di) by (nonlinear_arith)
                requires
                    ni + di - 1 == di * ((ni + di - 1) / di) + (ni + di - 1) % di,
                    0 <= (ni + di - 1) % di < di,
                    ai == di * (ai / di) + ai % di,
                    0 <= ai % di < di,
                    qi == (ni + di - 1) / di,
                    ni == -ai,
                    di > 0,
            ;
        }
        -q
    }
}

/// An axis-aligned box given by its lowest and highest corners.
#[derive(Clone, Copy, Debug, PartialEq, Eq, Structural)]
#[allow(non_camel_case_types)]
pub struct AABB {
    pub min: Vec2,
    pub max: Vec2,
}

impl AABB {
    /// The corners are ordered on both axes.
    pub open spec fn wf(self) -> bool {
        self.min.x <= self.max.x && self.min.y <= self.max.y
    }

    pub open spec fn spec_contains(self, p: Vec2) -> bool {
        self.min.x <= p.x && self.min.y <= p.y && p.x <= self.max.x && p.y <= self.max.y
    }

    pub open spec fn merged(self, other: AABB) -> AABB {
        AABB {
            min: Vec2 {
                x: if self.min.x <= other.min.x { self.min.x } else { other.min.x },
                y: if self.min.y <= other.min.y { self.min.y } else { other.min.y },
            },
            max: Vec2 {
                x: if self.max.x >= other.max.x { self.max.x } else { other.max.x },
                y: if self.max.y >= other.max.y { self.max.y } else { other.max.y },
            },
        }
    }

    /// The box of extent `size` centred on `center`: its low corner lies
    /// `half(size)` below the centre and its high corner `size` above that.
    pub open spec fn centered(center: Vec2, size: Vec2) -> AABB {
        AABB {
            min: Vec2 {
                x: clamp(center.x - half(size.x as int)) as i32,
                y: clamp(center.y - half(size.y as int)) as i32,
            },
            max: Vec2 {
                x: clamp(center.x - half(size.x as int) + size.x) as i32,
                y: clamp(center.y - half(size.y as int) + size.y) as i32,
            },
        }
    }

    pub fn new(min: Vec2, max: Vec2) -> (r: AABB)
        requires
            min.x <= max.x,
            min.y <= max.y,
        ensures
            r.min == min,
            r.max == max,
            r.wf(),
    {
        AABB { min, max }
    }

    pub fn from_min_max(min_x: i32, min_y: i32, max_x: i32, max_y: i32) -> (r: AABB)
        requires
            min_x <= max_x,
            min_y <= max_y,
        ensures
            r.min == (Vec2 { x: min_x, y: min_y }),
            r.max == (Vec2 { x: max_x, y: max_y }),
            r.wf(),
    {
        AABB { min: Vec2 { x: min_x, y: min_y }, max: Vec2 { x: max_x, y: max_y } }
    }

    pub fn from_position_and_size(center: Vec2, size: Vec2) -> (r: AABB)
        ensures
            r == AABB::centered(center, size),
            size.x >= 0 && size.y >= 0 ==> r.wf(),
    {
        let min_x: i64 = center.x as i64 - floor_div(size.x as i64, 2);
        let min_y: i64 = center.y as i64 - floor_div(size.y as i64, 2);
        AABB {
            min: Vec2 { x: saturate(min_x), y: saturate(min_y) },
            max: Vec2 { x: saturate(min_x + size.x as i64), y: saturate(min_y + size.y as i64) },
        }
    }

    pub fn contains(&self, point: Vec2) -> (r: bool)
        ensures
            r == self.spec_contains(point),
    {
        point.x >= self.min.x && point.y >= self.min.y && point.x <= self.max.x && point.y
            <= self.max.y
    }

    pub fn merge(&self, other: &AABB) -> (r: AABB)
        ensures
            r == self.merged(*other),
            self.wf() && other.wf() ==> r.wf(),
    {
        let min = Vec2 {
            x: if self.min.x <= other.min.x { self.min.x } else { other.min.x },
            y: if self.min.y <= other.min.y { self.min.y } else { other.min.y },
        };
        let max = Vec2 {
            x: if self.max.x >= other.max.x { self.max.x } else { other.max.x },
            y: if self.max.y >= other.max.y { self.max.y } else { other.max.y },
        };
        AABB { min, max }
    }

    /// The midpoint of the corners, rounded down.
    pub fn center(&self) -> (r: Vec2)
        ensures
            r.x == (self.min.x + self.max.x) / 2,
            r.y == (self.min.y + self.max.y) / 2,
    {
        let x: i64 = floor_div(self.min.x as i64 + self.max.x as i64, 2);
        let y: i64 = floor_div(self.min.y as i64 + self.max.y as i64, 2);
        Vec2 { x: x as i32, y: y as i32 }
    }

    pub fn size(&self) -> (r: Vec2)
        ensures
            r.x == clamp(self.max.x - self.min.x),
            r.y == clamp(self.max.y - self.min.y),
    {
        Vec2 {
            x: saturate(self.max.x as i64 - self.min.x as i64),
            y: saturate(self.max.y as i64 - self.min.y as i64),
        }
    }
}

/// A point that lies in either box lies in their merge.
pub proof fn lemma_merge_contains(a: AABB, b: AABB, p: Vec2)
    requires
        a.spec_contains(p) || b.spec_contains(p),
    ensures
        a.merged(b).spec_contains(p),
{
}

} // verus!
