use engine::layout::{
    calculate_render_position, calculate_render_size, Cordinate, CordinateCenter, CordinateType,
    Dimension, DimensionType,
};
use engine::math::{Vec2, AABB};

#[test]
fn aabb_contains_edges_and_outside() {
    let b = AABB::from_min_max(0, 0, 10, 20);
    assert!(b.contains(Vec2::new(0, 0)));
    assert!(b.contains(Vec2::new(10, 20)));
    assert!(b.contains(Vec2::new(5, 7)));
    assert!(!b.contains(Vec2::new(11, 5)));
    assert!(!b.contains(Vec2::new(5, -1)));
}

#[test]
fn aabb_merge_takes_componentwise_extremes() {
    let a = AABB::from_min_max(0, 5, 10, 20);
    let b = AABB::from_min_max(-3, 8, 4, 30);
    let m = a.merge(&b);
    assert_eq!(m.min, Vec2::new(-3, 5));
    assert_eq!(m.max, Vec2::new(10, 30));
}

#[test]
fn aabb_merge_contains_points_of_either() {
    let a = AABB::from_min_max(0, 0, 10, 10);
    let b = AABB::from_min_max(20, 20, 30, 30);
    let m = a.merge(&b);
    for p in [Vec2::new(0, 0), Vec2::new(10, 10), Vec2::new(25, 21), Vec2::new(30, 30), Vec2::new(15, 15)] {
        if a.contains(p) || b.contains(p) {
            assert!(m.contains(p));
        }
    }
    assert!(m.contains(Vec2::new(15, 15)));
}

#[test]
fn aabb_center_and_size() {
    let b = AABB::from_min_max(-10, 4, 30, 9);
    assert_eq!(b.center(), Vec2::new(10, 6));
    assert_eq!(b.size(), Vec2::new(40, 5));
    let n = AABB::from_min_max(-3, -3, 0, 0);
    assert_eq!(n.center(), Vec2::new(-2, -2));
}

#[test]
fn aabb_from_position_and_size_keeps_size_and_center() {
    let b = AABB::from_position_and_size(Vec2::new(100, 50), Vec2::new(40, 21));
    assert_eq!(b.min, Vec2::new(80, 40));
    assert_eq!(b.max, Vec2::new(120, 61));
    assert_eq!(b.size(), Vec2::new(40, 21));
    assert_eq!(b.center(), Vec2::new(100, 50));
}

#[test]
fn aabb_size_saturates() {
    let b = AABB::from_min_max(i32::MIN, 0, i32::MAX, 1);
    assert_eq!(b.size(), Vec2::new(i32::MAX, 1));
}

#[test]
fn dimension_rules() {
    for e in [0, 7, 600, 1001, -40] {
        assert_eq!(Dimension::new(DimensionType::Pixels, 37).calculate_render_size(e), 37);
        assert_eq!(Dimension::new(DimensionType::Space, 20).calculate_render_size(e), e - 20);
        assert_eq!(Dimension::new(DimensionType::Aspect, 250).calculate_render_size(e), e);
    }
    assert_eq!(Dimension::new(DimensionType::Relative, 500).calculate_render_size(800), 400);
    assert_eq!(Dimension::new(DimensionType::Relative, 300).calculate_render_size(300), 90);
    assert_eq!(Dimension::new(DimensionType::Relative, 1000).calculate_render_size(555), 555);
    assert_eq!(Dimension::new(DimensionType::Relative, 333).calculate_render_size(10), 3);
    assert_eq!(Dimension::new(DimensionType::Relative, -500).calculate_render_size(3), -2);
    assert_eq!(Dimension::default().calculate_render_size(123), 123);
}

#[test]
fn dimension_saturates() {
    let d = Dimension::new(DimensionType::Relative, i32::MAX);
    assert_eq!(d.calculate_render_size(i32::MAX), i32::MAX);
    let s = Dimension::new(DimensionType::Space, i32::MAX);
    assert_eq!(s.calculate_render_size(i32::MIN), i32::MIN);
}

#[test]
fn relative_coordinate_ignores_anchor_before_adjustment() {
    let c = Cordinate::default();
    assert_eq!(c.calculate_position(400, 800, 100), 400);
    let low = Cordinate::new(CordinateType::Relative, CordinateCenter::Center, 0);
    assert_eq!(low.calculate_position(400, 800, 100), 0);
    let high = Cordinate::new(CordinateType::Relative, CordinateCenter::Center, 1000);
    assert_eq!(high.calculate_position(400, 800, 100), 800);
    let quarter = Cordinate::new(CordinateType::Relative, CordinateCenter::Center, 250);
    assert_eq!(quarter.calculate_position(400, 800, 100), 200);
}

#[test]
fn pixel_coordinates_per_anchor() {
    let min = Cordinate::new(CordinateType::Pixels, CordinateCenter::Min, 10);
    assert_eq!(min.calculate_position(400, 800, 100), 60);
    let center = Cordinate::new(CordinateType::Pixels, CordinateCenter::Center, 10);
    assert_eq!(center.calculate_position(400, 800, 100), 410);
    let max = Cordinate::new(CordinateType::Pixels, CordinateCenter::Max, 10);
    assert_eq!(max.calculate_position(400, 800, 100), 740);
}

#[test]
fn relative_min_anchor_places_low_edge() {
    let c = Cordinate::new(CordinateType::Relative, CordinateCenter::Min, 0);
    assert_eq!(c.calculate_position(200, 400, 90), 45);
    let m = Cordinate::new(CordinateType::Relative, CordinateCenter::Max, 1000);
    assert_eq!(m.calculate_position(200, 400, 90), 355);
}

#[test]
fn odd_sizes_keep_edges_exact() {
    let min = Cordinate::new(CordinateType::Pixels, CordinateCenter::Min, 0);
    let p = min.calculate_position(0, 10, 7);
    let b = AABB::from_position_and_size(Vec2::new(p, 0), Vec2::new(7, 1));
    assert_eq!(b.min.x, -5);
    let max = Cordinate::new(CordinateType::Pixels, CordinateCenter::Max, 0);
    let q = max.calculate_position(0, 10, 7);
    let c = AABB::from_position_and_size(Vec2::new(q, 0), Vec2::new(7, 1));
    assert_eq!(c.max.x, 5);
}

#[test]
fn center_anchor_is_independent_of_own_size() {
    let cs = [
        Cordinate::new(CordinateType::Pixels, CordinateCenter::Center, -13),
        Cordinate::new(CordinateType::Relative, CordinateCenter::Center, 700),
    ];
    for c in cs {
        let a = c.calculate_position(120, 333, 0);
        for s in [1, 50, 999, -8] {
            assert_eq!(c.calculate_position(120, 333, s), a);
        }
    }
}

#[test]
fn render_size_with_aspect_width() {
    let w = Dimension::new(DimensionType::Aspect, 1000);
    let h = Dimension::new(DimensionType::Relative, 300);
    assert_eq!(calculate_render_size(&w, &h, Vec2::new(400, 300)), Vec2::new(90, 90));
}

#[test]
fn render_size_with_aspect_height() {
    let w = Dimension::new(DimensionType::Pixels, 200);
    let h = Dimension::new(DimensionType::Aspect, 500);
    assert_eq!(calculate_render_size(&w, &h, Vec2::new(400, 300)), Vec2::new(200, 100));
}

#[test]
fn render_size_both_aspect_width_wins() {
    let w = Dimension::new(DimensionType::Aspect, 2000);
    let h = Dimension::new(DimensionType::Aspect, 500);
    assert_eq!(calculate_render_size(&w, &h, Vec2::new(400, 300)), Vec2::new(600, 300));
}

#[test]
fn render_position_of_both_axes() {
    let x = Cordinate::new(CordinateType::Relative, CordinateCenter::Min, 0);
    let y = Cordinate::new(CordinateType::Pixels, CordinateCenter::Max, 5);
    let p = calculate_render_position(&x, &y, Vec2::new(400, 300), Vec2::new(400, 300), Vec2::new(90, 90));
    assert_eq!(p, Vec2::new(245, 400));
}
