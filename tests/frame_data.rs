use hello_gl::config::{shader_paths, DEFAULT_FRAGMENT_SHADER, DEFAULT_VERTEX_SHADER};
use hello_gl::render::{render, VertexLayout, STRIDE_BYTES};
use hello_gl::setup::{Attributes, GResources, Uniforms};
use hello_gl::timer::{timer_micros, update_timer};
use hello_gl::upload::{buffer_size, element_data, texture_size, INDEX_COUNT};

fn bundle(position: i32) -> GResources {
    GResources {
        vertex_buffer: 11,
        element_buffer: 12,
        program: 13,
        textures: [14, 15],
        uniforms: Uniforms { timer: 2, textures: [5, 6] },
        attributes: Attributes { position },
        timer_micros: 0,
    }
}

#[test]
fn timer_exact_values() {
    assert_eq!(timer_micros(0, 1000), 0);
    assert_eq!(timer_micros(1000, 1000), 1_100_000);
    assert_eq!(timer_micros(1, 1_000_000), 1);
    assert_eq!(timer_micros(3, 1_000_000_000), 0);
    assert_eq!(timer_micros(2_500_000, 1_000_000), 2_750_000);
}

#[test]
fn timer_never_decreases_between_frames() {
    let freq = 1_000_000_000;
    let mut res = bundle(0);
    let mut last = 0;
    for ticks in [0u64, 1, 999, 1_000_000, 16_666_667, 33_333_334, u64::MAX] {
        update_timer(&mut res, ticks, freq);
        assert!(res.timer_micros >= last);
        last = res.timer_micros;
    }
}

#[test]
fn timer_is_deterministic() {
    assert_eq!(timer_micros(123_456, 60), timer_micros(123_456, 60));
}

#[test]
fn timer_largest_reading_fits() {
    assert_eq!(timer_micros(u64::MAX, 1), u64::MAX as u128 * 1_100_000);
}

#[test]
fn update_timer_changes_only_the_timer() {
    let mut res = bundle(0);
    update_timer(&mut res, 2000, 1000);
    assert_eq!(res.timer_micros, 2_200_000);
    assert_eq!(res.program, 13);
    assert_eq!(res.textures, [14, 15]);
    assert_eq!(res.uniforms.timer, 2);
}

#[test]
fn render_binds_each_texture_to_its_unit() {
    let mut res = bundle(0);
    update_timer(&mut res, 1000, 1000);
    let p = render(&res);
    assert_eq!(p.program, 13);
    assert_eq!(p.timer_location, 2);
    assert_eq!(p.timer_micros, 1_100_000);
    assert_eq!((p.bindings[0].unit, p.bindings[0].texture, p.bindings[0].sampler_location), (0, 14, 5));
    assert_eq!((p.bindings[1].unit, p.bindings[1].texture, p.bindings[1].sampler_location), (1, 15, 6));
    assert_eq!(p.vertex_buffer, 11);
    assert_eq!(p.element_buffer, 12);
    assert_eq!(p.index_count, 4);
    assert_eq!(p.layout, Some(VertexLayout { attribute: 0, components: 4, stride_bytes: 16 }));
    assert_eq!(STRIDE_BYTES, 16);
}

#[test]
fn render_without_position_attribute() {
    let p = render(&bundle(-1));
    assert_eq!(p.layout, None);
    let p = render(&bundle(3));
    assert_eq!(p.layout.map(|l| l.attribute), Some(3));
}

#[test]
fn element_data_is_strip_order() {
    assert_eq!(element_data(), [0, 1, 2, 3]);
    assert_eq!(INDEX_COUNT, 4);
}

#[test]
fn buffer_sizes() {
    assert_eq!(buffer_size(16, 4), Some(64));
    assert_eq!(buffer_size(4, 2), Some(8));
    assert_eq!(buffer_size(0, 4), Some(0));
    assert_eq!(buffer_size(usize::MAX, 2), None);
    assert_eq!(buffer_size(isize::MAX as usize, 1), Some(isize::MAX));
    assert_eq!(buffer_size(isize::MAX as usize + 1, 1), None);
}

#[test]
fn texture_sizes() {
    assert_eq!(texture_size(6, 3, 2), Some((3, 2)));
    assert_eq!(texture_size(0, 0, 5), Some((0, 5)));
    assert_eq!(texture_size(5, 3, 2), None);
    assert_eq!(texture_size(1 << 31, 1 << 31, 1), None);
    assert_eq!(texture_size(usize::MAX, usize::MAX, usize::MAX), None);
}

#[test]
fn shader_paths_default_when_absent() {
    let args = vec!["demo".to_string()];
    let (v, f) = shader_paths(&args);
    assert_eq!(v, DEFAULT_VERTEX_SHADER);
    assert_eq!(f, DEFAULT_FRAGMENT_SHADER);
    assert_eq!(v, "src/shaders/hello-gl.vertex.glsl");
    assert_eq!(f, "src/shaders/hello-gl.fragment.glsl");
}

#[test]
fn shader_paths_from_arguments() {
    let args = vec!["demo".to_string(), "a.vert".to_string()];
    let (v, f) = shader_paths(&args);
    assert_eq!(v, "a.vert");
    assert_eq!(f, DEFAULT_FRAGMENT_SHADER);
    let args = vec!["demo".to_string(), "a.vert".to_string(), "b.frag".to_string(), "x".to_string()];
    let (v, f) = shader_paths(&args);
    assert_eq!(v, "a.vert");
    assert_eq!(f, "b.frag");
}

#[test]
fn shader_paths_with_no_arguments_at_all() {
    let (v, f) = shader_paths(&Vec::new());
    assert_eq!(v, DEFAULT_VERTEX_SHADER);
    assert_eq!(f, DEFAULT_FRAGMENT_SHADER);
}
