use engine::interaction::{Flow, Orientation, UiState, WidgetState};
use engine::layout::{Cordinate, CordinateCenter, CordinateType, Dimension, DimensionType};
use engine::math::{Color, Vec2, AABB};
use engine::ui::{Ui, UiBase, UiBox, UiElement};

const WHITE: u32 = 1;

fn frame(s: &mut UiState, cursor: Vec2, left: bool, id: u64, rect: &AABB) -> WidgetState {
    s.set_input(cursor, left, false);
    s.interact(id, rect)
}

#[test]
fn click_released_inside_fires() {
    let rect = AABB::from_min_max(0, 0, 100, 40);
    let inside = Vec2::new(50, 20);
    let mut s = UiState::new();
    assert_eq!(frame(&mut s, inside, false, 1, &rect), WidgetState::Hot);
    assert_eq!(s.hot_id, Some(1));
    assert_eq!(frame(&mut s, inside, true, 1, &rect), WidgetState::Hot);
    assert_eq!(s.active_id, Some(1));
    assert_eq!(frame(&mut s, inside, false, 1, &rect), WidgetState::Fired);
    assert_eq!(s.active_id, None);
}

#[test]
fn click_released_outside_does_not_fire() {
    let rect = AABB::from_min_max(0, 0, 100, 40);
    let inside = Vec2::new(50, 20);
    let mut s = UiState::new();
    assert_eq!(frame(&mut s, inside, false, 1, &rect), WidgetState::Hot);
    assert_eq!(frame(&mut s, inside, true, 1, &rect), WidgetState::Hot);
    assert_eq!(frame(&mut s, Vec2::new(300, 300), false, 1, &rect), WidgetState::Inactive);
    assert_eq!(s.active_id, None);
}

#[test]
fn held_press_reports_active() {
    let rect = AABB::from_min_max(0, 0, 10, 10);
    let mut s = UiState::new();
    frame(&mut s, Vec2::new(5, 5), false, 9, &rect);
    frame(&mut s, Vec2::new(5, 5), true, 9, &rect);
    assert_eq!(frame(&mut s, Vec2::new(50, 50), true, 9, &rect), WidgetState::Active);
}

#[test]
fn leaving_a_hot_widget_clears_it() {
    let rect = AABB::from_min_max(0, 0, 10, 10);
    let mut s = UiState::new();
    frame(&mut s, Vec2::new(5, 5), false, 3, &rect);
    assert_eq!(frame(&mut s, Vec2::new(11, 5), false, 3, &rect), WidgetState::Inactive);
    assert_eq!(s.hot_id, None);
}

#[test]
fn other_widget_cannot_become_hot_while_one_is_active() {
    let a = AABB::from_min_max(0, 0, 10, 10);
    let b = AABB::from_min_max(20, 0, 30, 10);
    let mut s = UiState::new();
    frame(&mut s, Vec2::new(5, 5), false, 1, &a);
    frame(&mut s, Vec2::new(5, 5), true, 1, &a);
    assert_eq!(frame(&mut s, Vec2::new(25, 5), true, 2, &b), WidgetState::Inactive);
    assert_eq!(s.hot_id, Some(1));
    assert_eq!(s.active_id, Some(1));
}

#[test]
fn vertical_flow_accumulates_with_padding() {
    let mut f = Flow::new(Orientation::Vertical, Vec2::new(0, 0), 10);
    assert_eq!(f.available_position(), Vec2::new(0, 10));
    for _ in 0..3 {
        f.push_widget(Vec2::new(50, 50));
    }
    assert_eq!(f.size, Vec2::new(50, 190));
    assert_eq!(f.available_position(), Vec2::new(0, 190));
}

#[test]
fn horizontal_flow_takes_cross_axis_maximum() {
    let mut f = Flow::new(Orientation::Horizontal, Vec2::new(5, 7), 4);
    f.push_widget(Vec2::new(20, 30));
    assert_eq!(f.available_position(), Vec2::new(33, 7));
    f.push_widget(Vec2::new(10, 12));
    assert_eq!(f.size, Vec2::new(42, 30));
}

fn container() -> UiElement {
    UiElement::Box(UiBox::new(
        Cordinate::default(),
        Cordinate::default(),
        Dimension::new(DimensionType::Relative, 500),
        Dimension::new(DimensionType::Relative, 500),
        Color::new(0, 0, 255, 255),
        20,
        3,
        Color::new(255, 255, 255, 255),
    ))
}

fn inner() -> UiElement {
    UiElement::Box(UiBox::new(
        Cordinate::new(CordinateType::Relative, CordinateCenter::Min, 0),
        Cordinate::new(CordinateType::Relative, CordinateCenter::Min, 0),
        Dimension::new(DimensionType::Aspect, 1000),
        Dimension::new(DimensionType::Relative, 300),
        Color::new(255, 0, 0, 255),
        10,
        3,
        Color::new(255, 255, 255, 255),
    ))
}

#[test]
fn tree_update_resolves_from_window() {
    let mut ui = Ui::new(WHITE, Vec2::new(800, 600));
    let root = ui.root();
    let c = ui.push_child(root, container());
    let i = ui.push_child(c, inner());
    ui.update(Vec2::new(800, 600), Vec2::new(0, 0), false, false);
    assert_eq!(ui.render_size(root), Vec2::new(800, 600));
    assert_eq!(ui.render_position(root), Vec2::new(400, 300));
    assert_eq!(ui.render_size(c), Vec2::new(400, 300));
    assert_eq!(ui.render_position(c), Vec2::new(400, 300));
    assert_eq!(ui.render_size(i), Vec2::new(90, 90));
    assert_eq!(ui.render_position(i), Vec2::new(245, 195));
    assert_eq!(ui.element(c).props().children, vec![i]);
}

#[test]
fn update_twice_is_stable() {
    let mut ui = Ui::new(WHITE, Vec2::new(640, 480));
    let root = ui.root();
    let c = ui.push_child(root, container());
    let i = ui.push_child(c, inner());
    let j = ui.push_child(root, UiElement::Base(UiBase::default()));
    ui.update(Vec2::new(640, 480), Vec2::new(3, 4), false, false);
    let first: Vec<(Vec2, Vec2)> = (0..ui.element_count()).map(|h| (ui.render_position(h), ui.render_size(h))).collect();
    ui.update(Vec2::new(640, 480), Vec2::new(3, 4), false, false);
    let second: Vec<(Vec2, Vec2)> = (0..ui.element_count()).map(|h| (ui.render_position(h), ui.render_size(h))).collect();
    assert_eq!(first, second);
    assert_eq!(first.len(), 4);
    assert_eq!(ui.render_size(j), Vec2::new(640, 480));
    assert_eq!(ui.render_size(i), Vec2::new(72, 72));
}

#[test]
fn render_draws_boxes_in_pre_order() {
    let mut ui = Ui::new(WHITE, Vec2::new(800, 600));
    let root = ui.root();
    let a = ui.push_child(root, container());
    let b = ui.push_child(root, inner());
    let _c = ui.push_child(a, inner());
    ui.update(Vec2::new(800, 600), Vec2::new(0, 0), false, false);
    ui.render();
    let batches = ui.take_batches();
    assert_eq!(batches.len(), 1);
    let v = &batches[0].vertices;
    assert_eq!(v.len(), 12);
    assert_eq!(v[0].corner_radius, 20);
    assert_eq!(v[4].corner_radius, 10);
    assert_eq!(v[4].size, Vec2::new(90, 90));
    assert_eq!(v[8].size, ui.render_size(b));
    assert_eq!(v[8].size, Vec2::new(180, 180));
}

#[test]
fn button_fires_after_press_and_release() {
    let mut ui = Ui::new(WHITE, Vec2::new(800, 600));
    let cursor = Vec2::new(20, 20);
    let mut results = Vec::new();
    for left in [false, true, false] {
        ui.update(Vec2::new(800, 600), cursor, left, false);
        ui.begin_flow(Orientation::Vertical, Vec2::new(0, 0), 10);
        results.push(ui.button(Vec2::new(50, 50), Color::new(9, 9, 9, 255), 42));
        let size = ui.end_flow();
        assert_eq!(size, Vec2::new(50, 70));
        ui.render();
        let batches = ui.take_batches();
        assert_eq!(batches.len(), 1);
        assert_eq!(batches[0].vertices[0].position, Vec2::new(0, 10));
        assert_eq!(batches[0].vertices[2].position, Vec2::new(50, 60));
    }
    assert_eq!(results, vec![false, false, true]);
}

#[test]
fn nested_flow_folds_into_parent() {
    let mut ui = Ui::new(WHITE, Vec2::new(800, 600));
    ui.update(Vec2::new(800, 600), Vec2::new(-1, -1), false, false);
    ui.begin_flow(Orientation::Vertical, Vec2::new(0, 0), 10);
    ui.button(Vec2::new(50, 50), Color::new(0, 0, 0, 255), 1);
    ui.begin_nested_flow(Orientation::Horizontal, 5);
    ui.button(Vec2::new(20, 20), Color::new(0, 0, 0, 255), 2);
    ui.button(Vec2::new(20, 30), Color::new(0, 0, 0, 255), 3);
    ui.end_nested_flow();
    ui.button(Vec2::new(50, 50), Color::new(0, 0, 0, 255), 4);
    let size = ui.end_flow();
    assert_eq!(size, Vec2::new(55, 170));
    ui.render();
    let batches = ui.take_batches();
    let v = &batches[0].vertices;
    assert_eq!(v[4].position, Vec2::new(5, 70));
    assert_eq!(v[8].position, Vec2::new(30, 70));
    assert_eq!(v[12].position, Vec2::new(0, 110));
}
