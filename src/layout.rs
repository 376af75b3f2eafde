//! Resolution of a node's extent and centre from parent-relative descriptors.
//!
//! Ratios (relative positions, relative extents and aspect factors) are given
//! in thousandths: `RATIO_ONE` stands for 1.
use vstd::prelude::*;
use crate::math::{Vec2, clamp, half, saturate, floor_div};

verus! {

pub const RATIO_ONE: i64 = 1000;

/// `v` scaled by a ratio in thousandths, rounded down.
pub open spec fn scaled(v: int, ratio: int) -> int {
    (v * ratio) / (RATIO_ONE as int)
}

fn scale(v: i32, ratio: i32) -> (r: i64)
    ensures
        r == scaled(v as int, ratio as int),
        -0x20_0000_0000_0000 <= r <= 0x20_0000_0000_0000,
{
    proof {
        assert(-0x4000_0000_0000_0000 <= (v as int) * (ratio as int) <= 0x4000_0000_0000_0000)
            by (nonlinear_arith);
    }
    let r = floor_div(v as i64 * ratio as i64, RATIO_ONE);
    proof {
        let p = (v as int) * (ratio as int);
        assert(-0x20_0000_0000_0000 <= p / 1000 <= 0x20_0000_0000_0000) by (nonlinear_arith)
            requires
                -0x4000_0000_0000_0000 <= p <= 0x4000_0000_0000_0000,
        ;
    }
    r
}

#[derive(Clone, Copy, Debug, PartialEq, Eq, Structural)]
pub enum CordinateType {
    /// A fraction of the parent's extent, from its low edge (0) to its high edge (`RATIO_ONE`).
    Relative,
    /// A number of units measured from the anchor line in the parent.
    Pixels,
}

#[derive(Clone, Copy, Debug, PartialEq, Eq, Structural)]
pub enum CordinateCenter {
    Min,
    Center,
    Max,
}

#[derive(Clone, Copy, Debug, PartialEq, Eq, Structural)]
pub struct Cordinate {
    pub kind: CordinateType,
    pub center: CordinateCenter,
    pub position: i32,
}

/// The low edge of an extent `size` centred on `center`.
pub open spec fn low_edge(center: int, size: int) -> int {
    center - half(size)
}

/// The point on the axis that a coordinate designates, before the node's own
/// extent is accounted for.
pub open spec fn anchor_line(c: Cordinate, parent_position: int, parent_size: int) -> int {
    match c.kind {
        CordinateType::Relative => low_edge(parent_position, parent_size) + scaled(
            parent_size,
            c.position as int,
        ),
        CordinateType::Pixels => match c.center {
            CordinateCenter::Min => low_edge(parent_position, parent_size) + c.position,
            CordinateCenter::Center => parent_position + c.position,
            CordinateCenter::Max => low_edge(parent_position, parent_size) + parent_size
                - c.position,
        },
    }
}

/// The centre of a node of extent `size` placed by `c`: a `Min` anchor puts the
/// node's low edge on the anchor line, a `Max` anchor its high edge, and a
/// `Center` anchor its centre.
pub open spec fn position_of(c: Cordinate, parent_position: int, parent_size: int, size: int) -> int {
    let line = anchor_line(c, parent_position, parent_size);
    clamp(
        match c.center {
            CordinateCenter::Min => line + half(size),
            CordinateCenter::Center => line,
            CordinateCenter::Max => line - (size - half(size)),
        },
    )
}

impl Cordinate {
    pub fn new(kind: CordinateType, center: CordinateCenter, position: i32) -> (r: Cordinate)
        ensures
            r.kind == kind,
            r.center == center,
            r.position == position,
    {
        Cordinate { kind, center, position }
    }

    /// Centred in the parent.
    pub fn default() -> (r: Cordinate)
        ensures
            r.kind == CordinateType::Relative,
            r.center == CordinateCenter::Center,
            r.position == RATIO_ONE / 2,
    {
        Cordinate::new(CordinateType::Relative, CordinateCenter::Center, 500)
    }

    pub fn calculate_position(&self, parent_position: i32, parent_size: i32, size: i32) -> (r: i32)
        ensures
            r == position_of(*self, parent_position as int, parent_size as int, size as int),
    {
        let low: i64 = parent_position as i64 - floor_div(parent_size as i64, 2);
        let line: i64 = match self.kind {
            CordinateType::Relative => low + scale(parent_size, self.position),
            CordinateType::Pixels => match self.center {
                CordinateCenter::Min => low + self.position as i64,
                CordinateCenter::Center => parent_position as i64 + self.position as i64,
                CordinateCenter::Max => low + parent_size as i64 - self.position as i64,
            },
        };
        let own_half: i64 = floor_div(size as i64, 2);
        let position: i64 = match self.center {
            CordinateCenter::Min => line + own_half,
            CordinateCenter::Center => line,
            CordinateCenter::Max => line - (size as i64 - own_half),
        };
        saturate(position)
    }
}

#[derive(Clone, Copy, Debug, PartialEq, Eq, Structural)]
pub enum DimensionType {
    /// A fraction of the parent's extent, in thousandths.
    Relative,
    /// A fixed number of units.
    Pixels,
    /// The other axis's extent times a factor in thousandths.
    Aspect,
    /// The parent's extent less a margin.
    Space,
}

#[derive(Clone, Copy, Debug, PartialEq, Eq, Structural)]
pub struct Dimension {
    pub kind: DimensionType,
    pub parameter: i32,
}

/// The extent that a dimension gives on one axis. An `Aspect` dimension stands
/// for the parent's extent here; `render_size_of` derives it from the other axis.
pub open spec fn extent_of(d: Dimension, parent_size: int) -> int {
    clamp(
        match d.kind {
            DimensionType::Relative => scaled(parent_size, d.parameter as int),
            DimensionType::Pixels => d.parameter as int,
            DimensionType::Aspect => parent_size,
            DimensionType::Space => parent_size - d.parameter,
        },
    )
}

impl Dimension {
    pub fn new(kind: DimensionType, parameter: i32) -> (r: Dimension)
        ensures
            r.kind == kind,
            r.parameter == parameter,
    {
        Dimension { kind, parameter }
    }

    /// The whole extent of the parent.
    pub fn default() -> (r: Dimension)
        ensures
            r.kind == DimensionType::Relative,
            r.parameter == RATIO_ONE,
    {
        Dimension::new(DimensionType::Relative, 1000)
    }

    pub fn calculate_render_size(&self, parent_size: i32) -> (r: i32)
        ensures
            r == extent_of(*self, parent_size as int),
    {
        let size: i64 = match self.kind {
            DimensionType::Relative => scale(parent_size, self.parameter),
            DimensionType::Pixels => self.parameter as i64,
            DimensionType::Aspect => parent_size as i64,
            DimensionType::Space => parent_size as i64 - self.parameter as i64,
        };
        saturate(size)
    }
}

/// A node's extent: when the width is `Aspect` it follows the height, else when
/// the height is `Aspect` it follows the width (so a width `Aspect` wins when
/// both axes ask for it).
pub open spec fn render_size_of(width: Dimension, height: Dimension, parent_size: Vec2) -> Vec2 {
    if width.kind == DimensionType::Aspect {
        let h = extent_of(height, parent_size.y as int);
        Vec2 { x: clamp(scaled(h, width.parameter as int)) as i32, y: h as i32 }
    } else if height.kind == DimensionType::Aspect {
        let w = extent_of(width, parent_size.x as int);
        Vec2 { x: w as i32, y: clamp(scaled(w, height.parameter as int)) as i32 }
    } else {
        Vec2 {
            x: extent_of(width, parent_size.x as int) as i32,
            y: extent_of(height, parent_size.y as int) as i32,
        }
    }
}

/// A node's centre given its extent `size`.
pub open spec fn render_position_of(
    x: Cordinate,
    y: Cordinate,
    parent_position: Vec2,
    parent_size: Vec2,
    size: Vec2,
) -> Vec2 {
    Vec2 {
        x: position_of(x, parent_position.x as int, parent_size.x as int, size.x as int) as i32,
        y: position_of(y, parent_position.y as int, parent_size.y as int, size.y as int) as i32,
    }
}

pub fn calculate_render_size(width: &Dimension, height: &Dimension, parent_size: Vec2) -> (r: Vec2)
    ensures
        r == render_size_of(*width, *height, parent_size),
{
    if width.kind == DimensionType::Aspect {
        let h = height.calculate_render_size(parent_size.y);
        Vec2 { x: saturate(scale(h, width.parameter)), y: h }
    } else if height.kind == DimensionType::Aspect {
        let w = width.calculate_render_size(parent_size.x);
        Vec2 { x: w, y: saturate(scale(w, height.parameter)) }
    } else {
        Vec2 {
            x: width.calculate_render_size(parent_size.x),
            y: height.calculate_render_size(parent_size.y),
        }
    }
}

pub fn calculate_render_position(
    x: &Cordinate,
    y: &Cordinate,
    parent_position: Vec2,
    parent_size: Vec2,
    size: Vec2,
) -> (r: Vec2)
    ensures
        r == render_position_of(*x, *y, parent_position, parent_size, size),
{
    Vec2 {
        x: x.calculate_position(parent_position.x, parent_size.x, size.x),
        y: y.calculate_position(parent_position.y, parent_size.y, size.y),
    }
}

/// `Relative(k)` gives `k` thousandths of the parent's extent, `Pixels(k)` gives
/// `k` whatever the parent's extent, and `Space(k)` gives the parent's extent
/// less `k` (each within the `i32` range).
pub proof fn lemma_dimension_rules(k: i32, e: i32, e2: i32)
    ensures
        extent_of(Dimension { kind: DimensionType::Relative, parameter: k }, e as int) == clamp(
            (k * e) / 1000,
        ),
        extent_of(Dimension { kind: DimensionType::Pixels, parameter: k }, e as int)
            == extent_of(Dimension { kind: DimensionType::Pixels, parameter: k }, e2 as int),
        extent_of(Dimension { kind: DimensionType::Pixels, parameter: k }, e as int) == k,
        extent_of(Dimension { kind: DimensionType::Space, parameter: k }, e as int) == clamp(
            e - k,
        ),
        0 <= k && 0 <= e && (k * e) / 1000 <= i32::MAX ==> extent_of(
            Dimension { kind: DimensionType::Relative, parameter: k },
            e as int,
        ) == (k * e) / 1000,
{
    assert((e as int) * (k as int) == (k as int) * (e as int)) by (nonlinear_arith);
    if 0 <= k && 0 <= e {
        assert(0 <= (k as int) * (e as int)) by (nonlinear_arith)
            requires
                0 <= k,
                0 <= e,
        ;
    }
}

/// A centre-anchored coordinate places a node independently of the node's own extent.
pub proof fn lemma_center_anchor_ignores_size(
    c: Cordinate,
    parent_position: int,
    parent_size: int,
    size_a: int,
    size_b: int,
)
    requires
        c.center == CordinateCenter::Center,
    ensures
        position_of(c, parent_position, parent_size, size_a) == position_of(
            c,
            parent_position,
            parent_size,
            size_b,
        ),
{
}

} // verus!
