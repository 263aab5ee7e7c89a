use render_demo::loader::build_model_vertices;
use render_demo::loader::mesh_info;

#[test]
fn model_vertices_are_assembled_from_the_flat_arrays() {
    let positions_f: [f32; 6] = [1.0, 2.0, 3.0, 4.0, 5.0, 6.0];
    let texcoords_f: [f32; 4] = [0.25, 0.75, 0.5, 1.0];
    let normals_f: [f32; 6] = [0.0, 1.0, 0.0, 1.0, 0.0, 0.0];
    let positions: Vec<u32> = positions_f.iter().map(|x| x.to_bits()).collect();
    let texcoords: Vec<u32> = texcoords_f.iter().map(|x| x.to_bits()).collect();
    let normals: Vec<u32> = normals_f.iter().map(|x| x.to_bits()).collect();
    let got = build_model_vertices(&positions, &texcoords, &normals);
    assert_eq!(got.len(), 2);
    for i in 0..2 {
        assert_eq!(got[i].position.x, positions_f[3 * i].to_bits());
        assert_eq!(got[i].position.y, positions_f[3 * i + 1].to_bits());
        assert_eq!(got[i].position.z, positions_f[3 * i + 2].to_bits());
        assert_eq!(got[i].tex_coords.u, texcoords_f[2 * i].to_bits());
        assert_eq!(got[i].tex_coords.v, texcoords_f[2 * i + 1].to_bits());
        assert_eq!(got[i].normal.x, normals_f[3 * i].to_bits());
        assert_eq!(got[i].normal.y, normals_f[3 * i + 1].to_bits());
        assert_eq!(got[i].normal.z, normals_f[3 * i + 2].to_bits());
    }
}

#[test]
fn empty_geometry_assembles_to_no_vertices() {
    let empty: Vec<u32> = Vec::new();
    let got = build_model_vertices(&empty, &Vec::new(), &Vec::new());
    assert_eq!(got.len(), 0);
}

#[test]
fn mesh_info_takes_the_index_count_and_material() {
    let info = mesh_info(36, &Some(2));
    assert_eq!(info.num_elements, 36);
    assert_eq!(info.material, 2);
}

#[test]
fn mesh_info_falls_back_to_material_zero() {
    let info = mesh_info(9, &None);
    assert_eq!(info.num_elements, 9);
    assert_eq!(info.material, 0);
}
