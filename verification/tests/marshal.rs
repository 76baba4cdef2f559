use glam::Vec3;
use rhai::Dynamic;
use scripted_mesh::{array_to_vec, array_to_vec_u32, MarshalError, ScriptedMesh};

#[test]
fn array_to_vec_marshals_vectors_in_order() {
    let v1 = Vec3::new(1.0, 2.0, 3.0);
    let v2 = Vec3::new(4.0, 5.0, 6.0);
    let arr = vec![Dynamic::from(v1), Dynamic::from(v2)];
    assert_eq!(array_to_vec(arr).unwrap(), vec![v1, v2]);
}

#[test]
fn array_to_vec_empty() {
    assert_eq!(array_to_vec(Vec::new()).unwrap(), Vec::<Vec3>::new());
}

#[test]
fn array_to_vec_rejects_first_non_vector() {
    let v = Vec3::new(1.0, 2.0, 3.0);
    let arr = vec![Dynamic::from(v), Dynamic::from(7i64), Dynamic::from(v)];
    assert_eq!(array_to_vec(arr), Err(MarshalError::NotAVector { index: 1 }));
    let all_bad = vec![Dynamic::from("text".to_string())];
    assert_eq!(array_to_vec(all_bad), Err(MarshalError::NotAVector { index: 0 }));
}

#[test]
fn array_to_vec_u32_marshals_and_wraps() {
    let arr = vec![
        Dynamic::from(0i64),
        Dynamic::from(7i64),
        Dynamic::from(-1i64),
        Dynamic::from((1i64 << 32) + 5),
    ];
    assert_eq!(array_to_vec_u32(arr).unwrap(), vec![0u32, 7u32, u32::MAX, 5u32]);
}

#[test]
fn array_to_vec_u32_rejects_first_non_integer() {
    let arr = vec![Dynamic::from(1i64), Dynamic::from("two".to_string())];
    assert_eq!(array_to_vec_u32(arr), Err(MarshalError::NotAnInteger { index: 1 }));
    let v = Vec3::new(1.0, 0.0, 0.0);
    let vec_first = vec![Dynamic::from(v)];
    assert_eq!(array_to_vec_u32(vec_first), Err(MarshalError::NotAnInteger { index: 0 }));
}

#[test]
fn marshal_error_messages_differ() {
    let not_vec = MarshalError::NotAVector { index: 0 };
    let not_int = MarshalError::NotAnInteger { index: 0 };
    assert_eq!(not_vec.describe(), "array element is not a vector");
    assert_eq!(not_int.describe(), "array element is not an integer");
}

#[test]
fn bulk_insert_appends_after_existing() {
    let v0 = Vec3::new(0.0, 0.0, 0.0);
    let v1 = Vec3::new(1.0, 1.0, 1.0);
    let mut m = ScriptedMesh::new();
    m.insert_position(v0);
    m.insert_positions(vec![Dynamic::from(v1)]).unwrap();
    assert_eq!(m.get_positions(), vec![v0, v1]);
    m.insert_indices(vec![Dynamic::from(4i64), Dynamic::from(-1i64)]).unwrap();
    assert_eq!(m.get_indices(), vec![4u32, u32::MAX]);
    m.insert_normals(vec![Dynamic::from(v1), Dynamic::from(v0)]).unwrap();
    assert_eq!(m.get_normals(), vec![v1, v0]);
}

#[test]
fn failed_bulk_insert_changes_nothing() {
    let v0 = Vec3::new(2.0, 2.0, 2.0);
    let mut m = ScriptedMesh::new();
    m.insert_position(v0);
    let r = m.insert_positions(vec![Dynamic::from(1i64)]);
    assert_eq!(r, Err(MarshalError::NotAVector { index: 0 }));
    assert_eq!(m.get_positions(), vec![v0]);
    let r2 = m.insert_indices(vec![Dynamic::from(v0)]);
    assert_eq!(r2, Err(MarshalError::NotAnInteger { index: 0 }));
    assert_eq!(m.get_indices(), Vec::<u32>::new());
    let r3 = m.insert_normals(vec![Dynamic::from("n".to_string())]);
    assert_eq!(r3, Err(MarshalError::NotAVector { index: 0 }));
    assert_eq!(m.get_normals(), Vec::<Vec3>::new());
}
