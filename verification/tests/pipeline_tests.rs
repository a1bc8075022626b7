use glyph_pipeline::convert::{Color, Instance};
use glyph_pipeline::layout::{
    instance_buffer_size, instance_bytes, uniform_layout_bindings, vertex_attributes, BindingKind,
    InstanceWords, ShaderStage, COLOR_OFFSET, INSTANCE_STRIDE, RIGHT_BOTTOM_OFFSET,
    TEX_LEFT_TOP_OFFSET, TEX_RIGHT_BOTTOM_OFFSET,
};
use glyph_pipeline::pipeline::{
    identity_transform, Pipeline, DEFAULT_MAX_INSTANCES, TRANSFORM_ONE,
};
use glyph_pipeline::rational::Rat;

fn sample_instance() -> Instance {
    Instance {
        left_top_x: Rat::new(-1, 2),
        left_top_y: Rat::new(1, 2),
        z: 0,
        right_bottom_x: Rat::new(1, 2),
        right_bottom_y: Rat::new(-1, 2),
        tex_left_top_x: Rat::new(0, 1),
        tex_left_top_y: Rat::new(1, 1),
        tex_right_bottom_x: Rat::new(1, 1),
        tex_right_bottom_y: Rat::new(0, 1),
        color: Color { r: 0, g: 0, b: 0, a: 0 },
    }
}

#[test]
fn new_pipeline_starts_empty_with_identity_transform() {
    let p = Pipeline::new(256, 256, DEFAULT_MAX_INSTANCES);
    assert_eq!(p.current_instances(), 0);
    assert_eq!(p.max_instances(), DEFAULT_MAX_INSTANCES);
    let c = p.cache();
    assert_eq!(c.width, 256);
    assert_eq!(c.height, 256);
    let t = identity_transform();
    assert_eq!(p.transform(), &t);
    assert_eq!(t.len(), 16);
    assert_eq!(t[0], TRANSFORM_ONE);
    assert_eq!(t[1], 0);
    assert_eq!(t[5], TRANSFORM_ONE);
    assert_eq!(t[10], TRANSFORM_ONE);
    assert_eq!(t[15], TRANSFORM_ONE);
}

#[test]
fn draw_accepts_a_full_buffer() {
    let mut p = Pipeline::new(256, 256, DEFAULT_MAX_INSTANCES);
    let instances = vec![sample_instance(); DEFAULT_MAX_INSTANCES as usize];
    let r = p.draw(identity_transform(), &instances);
    let command = r.unwrap();
    assert_eq!(p.current_instances(), DEFAULT_MAX_INSTANCES);
    assert_eq!(command.instance_count, DEFAULT_MAX_INSTANCES);
    assert_eq!(command.vertices_per_instance, 4);
    assert!(command.load_existing);
}

#[test]
fn draw_rejects_one_instance_over_capacity() {
    let mut p = Pipeline::new(256, 256, DEFAULT_MAX_INSTANCES);
    let instances = vec![sample_instance(); DEFAULT_MAX_INSTANCES as usize + 1];
    let r = p.draw(identity_transform(), &instances);
    let e = r.unwrap_err();
    assert_eq!(e.requested, DEFAULT_MAX_INSTANCES as usize + 1);
    assert_eq!(e.capacity, DEFAULT_MAX_INSTANCES);
    // The rejected draw left the state untouched.
    assert_eq!(p.current_instances(), 0);
    assert_eq!(p.transform(), &identity_transform());
}

#[test]
fn resized_cache_is_sampled_by_later_draws() {
    let mut p = Pipeline::new(64, 64, DEFAULT_MAX_INSTANCES);
    let old_cache = p.cache();
    p.increase_cache_size(128, 128);
    let new_cache = p.cache();
    assert_ne!(old_cache.generation, new_cache.generation);
    assert_eq!(new_cache.width, 128);
    assert_eq!(new_cache.height, 128);
    // The old handle still describes the old atlas...
    assert_eq!(old_cache.width, 64);
    // ...but a recorded pass samples the new generation, not the old.
    let command = p.redraw();
    assert_eq!(command.atlas_generation, new_cache.generation);
    assert_ne!(command.atlas_generation, old_cache.generation);
}

#[test]
fn redraw_twice_records_identical_passes() {
    let mut p = Pipeline::new(64, 64, DEFAULT_MAX_INSTANCES);
    let instances = vec![sample_instance(); 3];
    p.draw(identity_transform(), &instances).unwrap();
    let first = p.redraw();
    let second = p.redraw();
    assert_eq!(first, second);
    assert_eq!(first.instance_count, 3);
    // The pass loads the target's prior contents; nothing is cleared
    // between the two recordings.
    assert!(first.load_existing);
}

#[test]
fn instance_record_is_packed_at_fixed_offsets() {
    let w = InstanceWords {
        left_top_x: 0x0403_0201,
        left_top_y: 0x0807_0605,
        z: 0x0c0b_0a09,
        right_bottom_x: 0x100f_0e0d,
        right_bottom_y: 0x1413_1211,
        tex_left_top_x: 0x1817_1615,
        tex_left_top_y: 0x1c1b_1a19,
        tex_right_bottom_x: 0x201f_1e1d,
        tex_right_bottom_y: 0x2423_2221,
        color_r: 0x2827_2625,
        color_g: 0x2c2b_2a29,
        color_b: 0x302f_2e2d,
        color_a: 0x3433_3231,
    };
    let bytes = instance_bytes(&w);
    assert_eq!(bytes.len(), INSTANCE_STRIDE as usize);
    // Little-endian words, in wire order: the bytes count up from 1.
    for (k, b) in bytes.iter().enumerate() {
        assert_eq!(*b as usize, k + 1);
    }
    assert_eq!(bytes[RIGHT_BOTTOM_OFFSET as usize], 0x0d);
    assert_eq!(bytes[TEX_LEFT_TOP_OFFSET as usize], 0x15);
    assert_eq!(bytes[TEX_RIGHT_BOTTOM_OFFSET as usize], 0x1d);
    assert_eq!(bytes[COLOR_OFFSET as usize], 0x25);
}

#[test]
fn instance_buffer_holds_the_whole_capacity() {
    assert_eq!(
        instance_buffer_size(DEFAULT_MAX_INSTANCES),
        DEFAULT_MAX_INSTANCES as u64 * INSTANCE_STRIDE as u64
    );
    assert_eq!(instance_buffer_size(DEFAULT_MAX_INSTANCES), 2_600_000);
}

#[test]
fn shader_binding_layout_matches_the_contract() {
    let bindings = uniform_layout_bindings();
    assert_eq!(bindings.len(), 3);
    assert_eq!(bindings[0].index, 0);
    assert!(matches!(bindings[0].stage, ShaderStage::Vertex));
    assert!(matches!(bindings[0].kind, BindingKind::UniformBuffer));
    assert_eq!(bindings[1].index, 1);
    assert!(matches!(bindings[1].stage, ShaderStage::Fragment));
    assert!(matches!(bindings[1].kind, BindingKind::Sampler));
    assert_eq!(bindings[2].index, 2);
    assert!(matches!(bindings[2].stage, ShaderStage::Fragment));
    assert!(matches!(bindings[2].kind, BindingKind::SampledTexture));

    let attributes = vertex_attributes();
    assert_eq!(attributes.len(), 5);
    let mut expected_offset: u32 = 0;
    for (k, a) in attributes.iter().enumerate() {
        assert_eq!(a.location, k as u32);
        assert_eq!(a.offset, expected_offset);
        expected_offset += 4 * a.word_count;
    }
    assert_eq!(expected_offset, INSTANCE_STRIDE);
}
