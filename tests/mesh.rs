use scene_kit::mesh::{assemble_vertices, check_triangle_list, triangle_counts};

#[test]
fn assembles_one_record_per_vertex() {
    let positions = vec![0.0f32, 1.0, 2.0, 3.0, 4.0, 5.0];
    let texcoords = vec![0.5f32, 0.25, 0.75, 1.0];
    let normals = vec![0.0f32, 0.0, 1.0, 0.0, 1.0, 0.0];
    let vs = assemble_vertices(&positions, &texcoords, &normals).unwrap();
    assert_eq!(vs.len(), 2);
    assert_eq!(vs[0].position, [0.0, 1.0, 2.0]);
    assert_eq!(vs[1].position, [3.0, 4.0, 5.0]);
    assert_eq!(vs[0].texture_coordinates, [0.5, 0.25]);
    assert_eq!(vs[1].texture_coordinates, [0.75, 1.0]);
    assert_eq!(vs[0].normal, [0.0, 0.0, 1.0]);
    assert_eq!(vs[1].normal, [0.0, 1.0, 0.0]);
}

#[test]
fn trailing_partial_position_is_not_a_vertex() {
    let positions = vec![1u32, 2, 3, 4];
    let texcoords = vec![7u32, 8];
    let normals = vec![9u32, 10, 11];
    let vs = assemble_vertices(&positions, &texcoords, &normals).unwrap();
    assert_eq!(vs.len(), 1);
}

#[test]
fn missing_texture_coordinates_are_refused() {
    let positions = vec![0.0f32; 6];
    let texcoords: Vec<f32> = vec![0.0; 3];
    let normals = vec![0.0f32; 6];
    assert!(assemble_vertices(&positions, &texcoords, &normals).is_none());
    let texcoords: Vec<f32> = Vec::new();
    assert!(assemble_vertices(&positions, &texcoords, &normals).is_none());
}

#[test]
fn missing_normals_are_refused() {
    let positions = vec![0.0f32; 6];
    let texcoords = vec![0.0f32; 4];
    let normals = vec![0.0f32; 5];
    assert!(assemble_vertices(&positions, &texcoords, &normals).is_none());
}

#[test]
fn empty_mesh_has_no_vertices() {
    let empty: Vec<f32> = Vec::new();
    let vs = assemble_vertices(&empty, &empty, &empty).unwrap();
    assert!(vs.is_empty());
}

#[test]
fn triangle_list_checks() {
    assert!(check_triangle_list(&vec![0, 1, 2, 2, 1, 3], 4));
    assert!(!check_triangle_list(&vec![0, 1, 2, 2, 1], 4));
    assert!(!check_triangle_list(&vec![0, 1, 4], 4));
    assert!(check_triangle_list(&vec![], 0));
}

#[test]
fn quad_shared_vertices_count_two_triangles() {
    // Two triangles of a quad share the diagonal 1-2.
    let indices = vec![0, 1, 2, 2, 1, 3];
    assert_eq!(triangle_counts(&indices, 4), vec![1, 2, 2, 1]);
}

#[test]
fn unused_vertex_counts_zero() {
    let indices = vec![0, 2, 3];
    assert_eq!(triangle_counts(&indices, 5), vec![1, 0, 1, 1, 0]);
}

#[test]
fn repeated_corner_counts_twice() {
    let indices = vec![1, 1, 0];
    assert_eq!(triangle_counts(&indices, 2), vec![1, 2]);
}
