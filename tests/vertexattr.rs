use glcore_buffers::vertexattr::{get_vertex_struct_member_gltype, DataGlType};

fn gl(data_type: u32, size: u32, rows: u32) -> Option<DataGlType> {
    Some(DataGlType { data_type, size, rows })
}

#[test]
fn scalar_member_types() {
    assert!(get_vertex_struct_member_gltype("f64") == gl(0x140A, 1, 1));
    assert!(get_vertex_struct_member_gltype("i16") == gl(0x1402, 1, 1));
    assert!(get_vertex_struct_member_gltype("u8") == gl(0x1401, 1, 1));
}

#[test]
fn vector_member_types() {
    assert!(get_vertex_struct_member_gltype("vec3") == gl(0x1406, 3, 1));
    assert!(get_vertex_struct_member_gltype("dvec2") == gl(0x140A, 2, 1));
    assert!(get_vertex_struct_member_gltype("u8vec4") == gl(0x1401, 4, 1));
    assert!(get_vertex_struct_member_gltype("i16vec2") == gl(0x1402, 2, 1));
    assert!(get_vertex_struct_member_gltype("bvec3") == gl(0x1400, 3, 1));
    assert!(get_vertex_struct_member_gltype("uvec1") == gl(0x1405, 1, 1));
}

#[test]
fn matrix_and_quaternion_member_types() {
    assert!(get_vertex_struct_member_gltype("mat4") == gl(0x1406, 4, 4));
    assert!(get_vertex_struct_member_gltype("dmat2x3") == gl(0x140A, 2, 3));
    assert!(get_vertex_struct_member_gltype("mat3x2") == gl(0x1406, 3, 2));
    assert!(get_vertex_struct_member_gltype("quat") == gl(0x1406, 4, 1));
    assert!(get_vertex_struct_member_gltype("dquat") == gl(0x140A, 4, 1));
}

#[test]
fn unsupported_member_types() {
    assert!(get_vertex_struct_member_gltype("String") == None);
    assert!(get_vertex_struct_member_gltype("") == None);
    assert!(get_vertex_struct_member_gltype("xvec2") == None);
}

#[test]
fn attribute_sizes() {
    let m = get_vertex_struct_member_gltype("dmat4x4").unwrap();
    assert_eq!(m.size_in_bytes(), 128);
    assert!(m.is_double());
    let v = get_vertex_struct_member_gltype("vec3").unwrap();
    assert_eq!(v.size_in_bytes(), 12);
    assert!(!v.is_integer());
    assert!(get_vertex_struct_member_gltype("i8vec2").unwrap().is_integer());
}
