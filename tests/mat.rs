use scene_kit::mat::{Mat2, Mat3, Mat4};

#[test]
fn mat2_keeps_entries() {
    let m = Mat2::new([[1u32, 2], [3, 4]]);
    assert_eq!(*m.as_array(), [[1, 2], [3, 4]]);
}

#[test]
fn mat3_keeps_entries() {
    let m = Mat3::new([[1.0f32, 0.0, 0.0], [0.0, 2.0, 0.0], [0.0, 0.0, 3.0]]);
    assert_eq!(m.as_array()[1][1], 2.0);
    assert_eq!(m.as_array()[2], [0.0, 0.0, 3.0]);
}

#[test]
fn mat4_keeps_entries() {
    let mut inner = [[0i32; 4]; 4];
    for (i, row) in inner.iter_mut().enumerate() {
        for (j, e) in row.iter_mut().enumerate() {
            *e = (4 * i + j) as i32;
        }
    }
    let m = Mat4::new(inner);
    assert_eq!(*m.as_array(), inner);
    assert_eq!(m.as_array()[3][2], 14);
}
