//! Immediate-mode interaction: which widget the cursor is over (hot), which one
//! holds the pressed button (active), and a stack of flows that place widgets
//! one after the other.
use vstd::prelude::*;
use crate::math::{AABB, Vec2, clamp};

verus! {

/// What a widget's check reports for the current frame.
#[derive(Clone, Copy, Debug, PartialEq, Eq, Structural)]
pub enum WidgetState {
    Inactive,
    Hot,
    Active,
    /// The press that began on the widget was released over it: a click.
    Fired,
}

/// The input of the current frame and the two tracked widget identities.
#[derive(Clone, Copy, Debug, PartialEq, Eq, Structural)]
pub struct UiState {
    pub cursor_position: Vec2,
    pub right_click: bool,
    pub left_click: bool,
    pub hot_id: Option<u64>,
    pub active_id: Option<u64>,
}

/// The state and report after the widget `id`, covering `rect`, is checked.
pub open spec fn interaction(s: UiState, id: u64, rect: AABB) -> (UiState, WidgetState) {
    let inside = rect.spec_contains(s.cursor_position);
    if s.active_id == Some(id) {
        if s.left_click {
            (s, WidgetState::Active)
        } else {
            (
                UiState { active_id: None, ..s },
                if inside {
                    WidgetState::Fired
                } else {
                    WidgetState::Inactive
                },
            )
        }
    } else if s.hot_id == Some(id) {
        if !inside {
            (UiState { hot_id: None, ..s }, WidgetState::Inactive)
        } else if s.left_click && s.active_id is None {
            (UiState { active_id: Some(id), ..s }, WidgetState::Hot)
        } else {
            (s, WidgetState::Hot)
        }
    } else if s.active_id is None && inside {
        (UiState { hot_id: Some(id), ..s }, WidgetState::Hot)
    } else {
        (s, WidgetState::Inactive)
    }
}

/// No widget tracked, the cursor at the origin and no button held.
pub open spec fn initial_state() -> UiState {
    UiState {
        cursor_position: Vec2 { x: 0, y: 0 },
        right_click: false,
        left_click: false,
        hot_id: None,
        active_id: None,
    }
}

impl UiState {
    pub fn new() -> (r: UiState)
        ensures
            r == initial_state(),
    {
        UiState {
            cursor_position: Vec2 { x: 0, y: 0 },
            right_click: false,
            left_click: false,
            hot_id: None,
            active_id: None,
        }
    }

    /// Records the input of a new frame; the tracked identities stay.
    pub fn set_input(&mut self, cursor_position: Vec2, left_click: bool, right_click: bool)
        ensures
            *final(self) == (UiState {
                cursor_position,
                left_click,
                right_click,
                ..*old(self)
            }),
    {
        self.cursor_position = cursor_position;
        self.left_click = left_click;
        self.right_click = right_click;
    }

    /// Checks the widget `id`, which covers `rect` this frame.
    pub fn interact(&mut self, id: u64, rect: &AABB) -> (r: WidgetState)
        ensures
            (*final(self), r) == interaction(*old(self), id, *rect),
    {
        let inside = rect.contains(self.cursor_position);
        if self.active_id == Some(id) {
            if self.left_click {
                WidgetState::Active
            } else {
                self.active_id = None;
                if inside {
                    WidgetState::Fired
                } else {
                    WidgetState::Inactive
                }
            }
        } else if self.hot_id == Some(id) {
            if !inside {
                self.hot_id = None;
                WidgetState::Inactive
            } else if self.left_click && self.active_id.is_none() {
                self.active_id = Some(id);
                WidgetState::Hot
            } else {
                WidgetState::Hot
            }
        } else if self.active_id.is_none() && inside {
            self.hot_id = Some(id);
            WidgetState::Hot
        } else {
            WidgetState::Inactive
        }
    }
}

/// A widget checked on three frames with the cursor inside its box, the button
/// up, then held, then released, reports `Hot`, `Hot`, `Fired` when no other
/// widget is active; released outside the box, the third frame reports
/// `Inactive`.
pub proof fn lemma_click_sequence(s: UiState, id: u64, rect: AABB, outside: Vec2)
    requires
        s.active_id is None,
        rect.spec_contains(s.cursor_position),
        !rect.spec_contains(outside),
    ensures
        ({
            let (s1, r1) = interaction(UiState { left_click: false, ..s }, id, rect);
            let (s2, r2) = interaction(UiState { left_click: true, ..s1 }, id, rect);
            let (s3, r3) = interaction(UiState { left_click: false, ..s2 }, id, rect);
            let (t3, q3) = interaction(
                UiState { left_click: false, cursor_position: outside, ..s2 },
                id,
                rect,
            );
            &&& r1 == WidgetState::Hot
            &&& r2 == WidgetState::Hot
            &&& r3 == WidgetState::Fired
            &&& q3 == WidgetState::Inactive
            &&& s3.active_id is None
        }),
{
}

#[derive(Clone, Copy, Debug, PartialEq, Eq, Structural)]
pub enum Orientation {
    Horizontal,
    Vertical,
}

/// Widgets placed one after the other along one axis, `padding` units apart,
/// with `padding` also before the first and after the last.
#[derive(Clone, Copy, Debug, PartialEq, Eq, Structural)]
pub struct Flow {
    pub orientation: Orientation,
    /// The low corner of the flow.
    pub origin: Vec2,
    /// The extent taken so far.
    pub size: Vec2,
    pub padding: i32,
}

/// The extent of a flow after a widget of extent `size` is added.
pub open spec fn grown(f: Flow, size: Vec2) -> Vec2 {
    match f.orientation {
        Orientation::Horizontal => Vec2 {
            x: clamp(f.size.x + size.x + f.padding) as i32,
            y: if f.size.y >= size.y { f.size.y } else { size.y },
        },
        Orientation::Vertical => Vec2 {
            x: if f.size.x >= size.x { f.size.x } else { size.x },
            y: clamp(f.size.y + size.y + f.padding) as i32,
        },
    }
}

/// Where the next widget's low corner goes.
pub open spec fn next_position(f: Flow) -> Vec2 {
    match f.orientation {
        Orientation::Horizontal => Vec2 { x: clamp(f.origin.x + f.size.x) as i32, y: f.origin.y },
        Orientation::Vertical => Vec2 { x: f.origin.x, y: clamp(f.origin.y + f.size.y) as i32 },
    }
}

pub open spec fn empty_flow(orientation: Orientation, origin: Vec2, padding: i32) -> Flow {
    Flow {
        orientation,
        origin,
        size: match orientation {
            Orientation::Horizontal => Vec2 { x: padding, y: 0 },
            Orientation::Vertical => Vec2 { x: 0, y: padding },
        },
        padding,
    }
}

impl Flow {
    /// A flow holding no widget yet: its extent is the leading padding.
    pub fn new(orientation: Orientation, origin: Vec2, padding: i32) -> (r: Flow)
        ensures
            r == empty_flow(orientation, origin, padding),
    {
        let size = match orientation {
            Orientation::Horizontal => Vec2 { x: padding, y: 0 },
            Orientation::Vertical => Vec2 { x: 0, y: padding },
        };
        Flow { orientation, origin, size, padding }
    }

    pub fn push_widget(&mut self, size: Vec2)
        ensures
            *final(self) == (Flow { size: grown(*old(self), size), ..*old(self) }),
    {
        let grown = match self.orientation {
            Orientation::Horizontal => Vec2 {
                x: crate::math::saturate(
                    self.size.x as i64 + size.x as i64 + self.padding as i64,
                ),
                y: if self.size.y >= size.y { self.size.y } else { size.y },
            },
            Orientation::Vertical => Vec2 {
                x: if self.size.x >= size.x { self.size.x } else { size.x },
                y: crate::math::saturate(
                    self.size.y as i64 + size.y as i64 + self.padding as i64,
                ),
            },
        };
        self.size = grown;
    }

    pub fn available_position(&self) -> (r: Vec2)
        ensures
            r == next_position(*self),
    {
        match self.orientation {
            Orientation::Horizontal => Vec2 {
                x: crate::math::saturate(self.origin.x as i64 + self.size.x as i64),
                y: self.origin.y,
            },
            Orientation::Vertical => Vec2 {
                x: self.origin.x,
                y: crate::math::saturate(self.origin.y as i64 + self.size.y as i64),
            },
        }
    }
}

} // verus!
