use engine::batch::{MAX_QUADS, MAX_TEXTURE_SLOTS};
use engine::buffer::{
    quad_indices, shader_data_type_size, shader_data_type_to_base_type, BaseType, BufferElement,
    BufferLayout, ShaderDataType,
};
use engine::math::{Color, Vec2};
use engine::renderer::Renderer;
use engine::texture::{bytes_per_pixel, fills_texture, format_for_channels, texture_data_size, TextureFormat};
use engine::ui_renderer::UiRenderer;

const WHITE: u32 = 7;

fn red() -> Color {
    Color::new(255, 0, 0, 255)
}

#[test]
fn quad_corners_and_texture_coordinates() {
    let mut r = Renderer::new(WHITE);
    r.begin_scene();
    r.draw_quad(Vec2::new(10, 20), Vec2::new(4, 6), red(), None);
    r.end_scene();
    let batches = r.take_batches();
    assert_eq!(batches.len(), 1);
    let b = &batches[0];
    assert_eq!(b.index_count, 6);
    assert_eq!(b.texture_slots, vec![WHITE]);
    let v = &b.vertices;
    assert_eq!(v.len(), 4);
    assert_eq!(v[0].position, Vec2::new(8, 17));
    assert_eq!(v[1].position, Vec2::new(12, 17));
    assert_eq!(v[2].position, Vec2::new(12, 23));
    assert_eq!(v[3].position, Vec2::new(8, 23));
    assert_eq!(v[0].texture_coord, Vec2::new(0, 0));
    assert_eq!(v[1].texture_coord, Vec2::new(1, 0));
    assert_eq!(v[2].texture_coord, Vec2::new(1, 1));
    assert_eq!(v[3].texture_coord, Vec2::new(0, 1));
    for x in v.iter() {
        assert_eq!(x.color, red());
        assert_eq!(x.texture_index, 0);
    }
}

#[test]
fn empty_scene_flushes_nothing() {
    let mut r = Renderer::new(WHITE);
    r.begin_scene();
    r.end_scene();
    assert!(r.take_batches().is_empty());
    assert!(!r.is_in_scene());
}

fn count_batches(count: usize) -> (usize, usize, u32) {
    let mut r = Renderer::new(WHITE);
    r.begin_scene();
    for i in 0..count {
        r.draw_quad(Vec2::new(i as i32, 0), Vec2::new(1, 1), red(), None);
    }
    r.end_scene();
    let batches = r.take_batches();
    let vertices: usize = batches.iter().map(|b| b.vertices.len()).sum();
    let max_indices = batches.iter().map(|b| b.index_count).max().unwrap_or(0);
    (batches.len(), vertices, max_indices)
}

#[test]
fn overflow_splits_into_ceil_batches() {
    let count = 2 * MAX_QUADS + 1;
    let (n, vertices, max_indices) = count_batches(count);
    assert_eq!(n, 3);
    assert_eq!(vertices, count * 4);
    assert!(max_indices <= (MAX_QUADS * 6) as u32);
    assert_eq!(max_indices, (MAX_QUADS * 6) as u32);
}

#[test]
fn exactly_full_batch_is_one_flush() {
    let (n, vertices, max_indices) = count_batches(MAX_QUADS);
    assert_eq!(n, 1);
    assert_eq!(vertices, MAX_QUADS * 4);
    assert_eq!(max_indices, 60000);
}

#[test]
fn one_over_capacity_is_two_flushes() {
    let (n, vertices, _) = count_batches(MAX_QUADS + 1);
    assert_eq!(n, 2);
    assert_eq!(vertices, (MAX_QUADS + 1) * 4);
}

#[test]
fn texture_slots_are_shared_and_assigned_in_order() {
    let mut r = Renderer::new(WHITE);
    r.begin_scene();
    r.draw_quad(Vec2::new(0, 0), Vec2::new(2, 2), red(), Some(100));
    r.draw_quad(Vec2::new(0, 0), Vec2::new(2, 2), red(), Some(200));
    r.draw_quad(Vec2::new(0, 0), Vec2::new(2, 2), red(), Some(100));
    r.draw_quad(Vec2::new(0, 0), Vec2::new(2, 2), red(), Some(WHITE));
    r.end_scene();
    let batches = r.take_batches();
    assert_eq!(batches.len(), 1);
    assert_eq!(batches[0].texture_slots, vec![WHITE, 100, 200]);
    let slots: Vec<u32> = batches[0].vertices.iter().step_by(4).map(|v| v.texture_index).collect();
    assert_eq!(slots, vec![1, 2, 1, 0]);
}

#[test]
fn thirty_third_texture_starts_a_new_batch() {
    let mut r = Renderer::new(WHITE);
    r.begin_scene();
    for t in 0..(MAX_TEXTURE_SLOTS as u32) {
        r.draw_quad(Vec2::new(0, 0), Vec2::new(1, 1), red(), Some(1000 + t));
    }
    r.end_scene();
    let batches = r.take_batches();
    assert_eq!(batches.len(), 2);
    assert_eq!(batches[0].texture_slots.len(), MAX_TEXTURE_SLOTS);
    assert_eq!(batches[0].index_count, 31 * 6);
    assert_eq!(batches[1].texture_slots, vec![WHITE, 1031]);
    assert_eq!(batches[1].vertices[0].texture_index, 1);
    assert_eq!(batches[1].index_count, 6);
}

#[test]
fn explicit_next_batch_flushes_and_resets_slots() {
    let mut r = Renderer::new(WHITE);
    r.begin_scene();
    r.draw_quad(Vec2::new(0, 0), Vec2::new(1, 1), red(), Some(55));
    r.next_batch();
    r.draw_quad(Vec2::new(0, 0), Vec2::new(1, 1), red(), None);
    r.end_scene();
    let batches = r.take_batches();
    assert_eq!(batches.len(), 2);
    assert_eq!(batches[0].texture_slots, vec![WHITE, 55]);
    assert_eq!(batches[1].texture_slots, vec![WHITE]);
}

#[test]
fn ui_rect_vertices_carry_style() {
    let mut r = UiRenderer::new(WHITE);
    r.begin_frame(Vec2::new(800, 600));
    assert_eq!(r.screen_size(), Vec2::new(800, 600));
    let outline = Color::new(1, 2, 3, 4);
    r.draw_rect(Vec2::new(100, 100), Vec2::new(50, 30), red(), 5, 2, outline, None);
    r.end_frame();
    let batches = r.take_batches();
    assert_eq!(batches.len(), 1);
    let v = &batches[0].vertices;
    assert_eq!(v[0].position, Vec2::new(75, 85));
    assert_eq!(v[2].position, Vec2::new(125, 115));
    for x in v.iter() {
        assert_eq!(x.size, Vec2::new(50, 30));
        assert_eq!(x.corner_radius, 5);
        assert_eq!(x.outline_thickness, 2);
        assert_eq!(x.outline_color, outline);
        assert_eq!(x.color, red());
    }
}

#[test]
fn shader_type_sizes_and_components() {
    assert_eq!(shader_data_type_size(&ShaderDataType::Float3), 12);
    assert_eq!(shader_data_type_size(&ShaderDataType::Mat4), 64);
    assert_eq!(shader_data_type_size(&ShaderDataType::Mat3), 36);
    assert_eq!(shader_data_type_size(&ShaderDataType::Bool), 1);
    let e = BufferElement::new(String::from("a_color"), ShaderDataType::Float4, None);
    assert_eq!(e.get_component_count(), 4);
    assert_eq!(e.size, 16);
    assert!(!e.normalized);
    let m = BufferElement::new(String::from("a_model"), ShaderDataType::Mat3, Some(true));
    assert_eq!(m.get_component_count(), 3);
    assert!(m.normalized);
    assert_eq!(shader_data_type_to_base_type(&ShaderDataType::Int2), BaseType::Int);
    assert_eq!(shader_data_type_to_base_type(&ShaderDataType::Mat4), BaseType::Float);
    assert_eq!(shader_data_type_to_base_type(&ShaderDataType::Bool), BaseType::Bool);
}

#[test]
fn layout_offsets_and_stride() {
    let layout = BufferLayout::new(vec![
        BufferElement::new(String::from("a_position"), ShaderDataType::Float3, None),
        BufferElement::new(String::from("a_color"), ShaderDataType::Float4, None),
        BufferElement::new(String::from("a_texture_coord"), ShaderDataType::Float2, None),
        BufferElement::new(String::from("a_texture_index"), ShaderDataType::Float, None),
    ]);
    let offsets: Vec<u32> = layout.get_elements().iter().map(|e| e.offset).collect();
    assert_eq!(offsets, vec![0, 12, 28, 36]);
    assert_eq!(layout.get_stride(), 40);
    assert_eq!(layout.get_elements()[2].name, "a_texture_coord");
}

#[test]
fn empty_layout_has_zero_stride() {
    let layout = BufferLayout::new(Vec::new());
    assert_eq!(layout.get_stride(), 0);
    assert!(layout.get_elements().is_empty());
}

#[test]
fn quad_index_pattern() {
    let idx = quad_indices(3);
    assert_eq!(idx, vec![0, 1, 2, 2, 3, 0, 4, 5, 6, 6, 7, 4, 8, 9, 10, 10, 11, 8]);
    assert!(quad_indices(0).is_empty());
    let full = quad_indices(MAX_QUADS as u32);
    assert_eq!(full.len(), MAX_QUADS * 6);
    assert_eq!(full[full.len() - 1], 4 * (MAX_QUADS as u32 - 1));
}

#[test]
fn texture_formats() {
    assert_eq!(format_for_channels(4), Some(TextureFormat::Rgba8));
    assert_eq!(format_for_channels(3), Some(TextureFormat::Rgb8));
    assert_eq!(format_for_channels(1), None);
    assert_eq!(bytes_per_pixel(TextureFormat::Rgb8), 3);
    assert_eq!(texture_data_size(1, 1, TextureFormat::Rgba8), 4);
    assert_eq!(texture_data_size(10, 3, TextureFormat::Rgb8), 90);
    assert!(fills_texture(4, 1, 1, TextureFormat::Rgba8));
    assert!(!fills_texture(3, 1, 1, TextureFormat::Rgba8));
}

#[test]
fn mixed_textures_lose_no_quad_and_respect_caps() {
    let mut r = Renderer::new(WHITE);
    r.begin_scene();
    let count = MAX_QUADS + 500;
    for i in 0..count {
        let texture = if i % 3 == 0 { None } else { Some(100 + (i % 50) as u32) };
        r.draw_quad(Vec2::new(0, 0), Vec2::new(1, 1), red(), texture);
    }
    r.end_scene();
    let batches = r.take_batches();
    let vertices: usize = batches.iter().map(|b| b.vertices.len()).sum();
    assert_eq!(vertices, count * 4);
    for b in &batches {
        assert!(b.texture_slots.len() <= MAX_TEXTURE_SLOTS);
        assert_eq!(b.texture_slots[0], WHITE);
        assert!(b.vertices.len() <= MAX_QUADS * 4);
        assert_eq!(b.index_count as usize, b.vertices.len() / 4 * 6);
        for v in &b.vertices {
            assert!((v.texture_index as usize) < b.texture_slots.len());
        }
    }
    assert!(batches.len() > 2);
}
