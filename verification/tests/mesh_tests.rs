use render_demo::instance::InstanceRaw;
use render_demo::instance::pack_instances;
use render_demo::linalg::Mat4Bits;
use render_demo::mesh::AttributeFormat;
use render_demo::mesh::indices;
use render_demo::mesh::instance_buffer_layout;
use render_demo::mesh::pack_indices;
use render_demo::mesh::pack_mat4;
use render_demo::mesh::pack_vertices;
use render_demo::mesh::vertex_buffer_layout;
use render_demo::mesh::vertices;

#[test]
fn vertices_hold_the_expected_bit_patterns() {
    let expected_values: [([f32; 3], [f32; 2]); 5] = [
        ([-0.0868241, 0.49240386, 0.0], [0.4131759, 0.00759614]),
        ([-0.49513406, 0.06958647, 0.0], [0.0048659444, 0.43041354]),
        ([-0.21918549, -0.44939706, 0.0], [0.28081453, 0.949397]),
        ([0.35966998, -0.3473291, 0.0], [0.85967, 0.84732914]),
        ([0.44147372, 0.2347359, 0.0], [0.9414737, 0.2652641]),
    ];
    let got = vertices();
    assert_eq!(got.len(), 5);
    for (v, (pos, tex)) in got.iter().zip(expected_values.iter()) {
        assert_eq!(v.position.x, pos[0].to_bits());
        assert_eq!(v.position.y, pos[1].to_bits());
        assert_eq!(v.position.z, pos[2].to_bits());
        assert_eq!(v.tex_coords.u, tex[0].to_bits());
        assert_eq!(v.tex_coords.v, tex[1].to_bits());
    }
}

#[test]
fn indices_form_three_triangles_over_the_five_vertices() {
    let got = indices();
    assert_eq!(got, vec![0u16, 1, 4, 1, 2, 4, 2, 3, 4]);
    assert_eq!(got.len() % 3, 0);
    for i in got {
        assert!((i as usize) < vertices().len());
    }
}

#[test]
fn vertex_layout_matches_the_shader_interface() {
    let l = vertex_buffer_layout();
    assert_eq!(l.array_stride, 20);
    assert!(!l.step_per_instance);
    assert_eq!(l.attributes.len(), 2);
    assert_eq!(l.attributes[0].offset, 0);
    assert_eq!(l.attributes[0].shader_location, 0);
    assert_eq!(l.attributes[0].format, AttributeFormat::Float32x3);
    assert_eq!(l.attributes[1].offset, 12);
    assert_eq!(l.attributes[1].shader_location, 1);
    assert_eq!(l.attributes[1].format, AttributeFormat::Float32x2);
}

#[test]
fn instance_layout_matches_the_shader_interface() {
    let l = instance_buffer_layout();
    assert_eq!(l.array_stride, 64);
    assert!(l.step_per_instance);
    assert_eq!(l.attributes.len(), 4);
    for (i, a) in l.attributes.iter().enumerate() {
        assert_eq!(a.offset, 16 * i as u64);
        assert_eq!(a.shader_location, 5 + i as u32);
        assert_eq!(a.format, AttributeFormat::Float32x4);
    }
}

#[test]
fn packed_vertices_equal_the_raw_float_bytes() {
    let got = pack_vertices(&vertices());
    let expected_values: [f32; 25] = [
        -0.0868241, 0.49240386, 0.0, 0.4131759, 0.00759614,
        -0.49513406, 0.06958647, 0.0, 0.0048659444, 0.43041354,
        -0.21918549, -0.44939706, 0.0, 0.28081453, 0.949397,
        0.35966998, -0.3473291, 0.0, 0.85967, 0.84732914,
        0.44147372, 0.2347359, 0.0, 0.9414737, 0.2652641,
    ];
    let expected: &[u8] = bytemuck::cast_slice(&expected_values);
    assert_eq!(got.as_slice(), expected);
}

#[test]
fn packed_indices_equal_the_raw_u16_bytes() {
    let got = pack_indices(&indices());
    let expected_values: [u16; 9] = [0, 1, 4, 1, 2, 4, 2, 3, 4];
    let expected: &[u8] = bytemuck::cast_slice(&expected_values);
    assert_eq!(got.as_slice(), expected);
}

#[test]
fn packed_matrix_equals_the_raw_float_bytes() {
    let m = glam::Mat4::perspective_rh(0.8, 1.5, 0.1, 100.0);
    let cols = m.to_cols_array();
    let mut bits = [0u32; 16];
    for i in 0..16 {
        bits[i] = cols[i].to_bits();
    }
    let got = pack_mat4(&Mat4Bits { m: bits });
    let expected: &[u8] = bytemuck::cast_slice(&cols);
    assert_eq!(got.as_slice(), expected);
}

#[test]
fn packed_instances_concatenate_their_matrix_bytes() {
    let a = glam::Mat4::from_translation(glam::Vec3::new(1.0, 2.0, 3.0)).to_cols_array();
    let b = glam::Mat4::IDENTITY.to_cols_array();
    let mut raws: Vec<InstanceRaw> = Vec::new();
    for cols in [a, b] {
        let mut bits = [0u32; 16];
        for i in 0..16 {
            bits[i] = cols[i].to_bits();
        }
        raws.push(InstanceRaw { model: Mat4Bits { m: bits } });
    }
    let got = pack_instances(&raws);
    assert_eq!(got.len(), 128);
    let expected_a: &[u8] = bytemuck::cast_slice(&a);
    let expected_b: &[u8] = bytemuck::cast_slice(&b);
    assert_eq!(&got[..64], expected_a);
    assert_eq!(&got[64..], expected_b);
}
