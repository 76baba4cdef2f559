use glam::Vec3;
use scripted_mesh::ScriptedMesh;

#[test]
fn new_mesh_is_empty() {
    let mut m = ScriptedMesh::new();
    assert_eq!(m.get_positions(), Vec::<Vec3>::new());
    assert_eq!(m.get_indices(), Vec::<u32>::new());
    assert_eq!(m.get_normals(), Vec::<Vec3>::new());
}

#[test]
fn insert_position_preserves_call_order() {
    let v1 = Vec3::new(1.0, 0.0, 0.0);
    let v2 = Vec3::new(0.0, 2.0, 0.0);
    let v3 = Vec3::new(0.0, 0.0, 3.0);
    let mut m = ScriptedMesh::new();
    m.insert_position(v1);
    m.insert_position(v2);
    m.insert_position(v3);
    assert_eq!(m.get_positions(), vec![v1, v2, v3]);
    assert_eq!(m.get_indices(), Vec::<u32>::new());
    assert_eq!(m.get_normals(), Vec::<Vec3>::new());
}

#[test]
fn insert_position_keeps_duplicates() {
    let v = Vec3::new(4.0, 5.0, 6.0);
    let mut m = ScriptedMesh::new();
    m.insert_position(v);
    m.insert_position(v);
    assert_eq!(m.get_positions(), vec![v, v]);
}

#[test]
fn insert_index_wraps_to_low_32_bits() {
    let mut m = ScriptedMesh::new();
    m.insert_index(0);
    m.insert_index(-1);
    m.insert_index((1i64 << 32) + 5);
    assert_eq!(m.get_indices(), vec![0u32, u32::MAX, 5u32]);
}

#[test]
fn insert_index_set_equals_three_single_inserts() {
    let mut grouped = ScriptedMesh::new();
    grouped.insert_index_set(7, 8, 9);
    let mut single = ScriptedMesh::new();
    single.insert_index(7);
    single.insert_index(8);
    single.insert_index(9);
    assert_eq!(grouped.get_indices(), single.get_indices());
    assert_eq!(grouped.get_indices(), vec![7u32, 8u32, 9u32]);
    assert_eq!(grouped.get_positions(), single.get_positions());
    assert_eq!(grouped.get_normals(), single.get_normals());
}

#[test]
fn insert_normal_appends() {
    let n1 = Vec3::new(0.0, 1.0, 0.0);
    let n2 = Vec3::new(1.0, 0.0, 0.0);
    let mut m = ScriptedMesh::new();
    m.insert_normal(n1);
    m.insert_normal(n2);
    assert_eq!(m.get_normals(), vec![n1, n2]);
    assert_eq!(m.get_positions(), Vec::<Vec3>::new());
}

#[test]
fn clear_positions_leaves_other_buffers() {
    let mut m = ScriptedMesh::new();
    m.insert_position(Vec3::new(1.0, 1.0, 1.0));
    m.insert_index(3);
    m.insert_normal(Vec3::new(0.0, 1.0, 0.0));
    m.clear_positions();
    assert_eq!(m.get_positions(), Vec::<Vec3>::new());
    assert_eq!(m.get_indices(), vec![3u32]);
    assert_eq!(m.get_normals(), vec![Vec3::new(0.0, 1.0, 0.0)]);
}

#[test]
fn clear_indices_and_normals() {
    let mut m = ScriptedMesh::new();
    m.insert_position(Vec3::new(1.0, 1.0, 1.0));
    m.insert_index(3);
    m.insert_normal(Vec3::new(0.0, 1.0, 0.0));
    m.clear_indices();
    assert_eq!(m.get_indices(), Vec::<u32>::new());
    assert_eq!(m.get_positions().len(), 1);
    m.clear_normals();
    assert_eq!(m.get_normals(), Vec::<Vec3>::new());
    assert_eq!(m.get_positions().len(), 1);
}

#[test]
fn remove_positions_in_range() {
    let a = Vec3::new(1.0, 0.0, 0.0);
    let b = Vec3::new(2.0, 0.0, 0.0);
    let c = Vec3::new(3.0, 0.0, 0.0);
    let mut m = ScriptedMesh::new();
    m.insert_position(a);
    m.insert_position(b);
    m.insert_position(c);
    let removed = m.remove_positions(1);
    assert_eq!(removed.unwrap(), b);
    assert_eq!(m.get_positions(), vec![a, c]);
}

#[test]
fn remove_positions_out_of_range_fails_without_change() {
    let a = Vec3::new(1.0, 0.0, 0.0);
    let mut m = ScriptedMesh::new();
    m.insert_position(a);
    let too_big = m.remove_positions(1);
    assert!(too_big.is_err());
    let err = too_big.unwrap_err();
    assert_eq!(err.index, 1);
    assert_eq!(err.len, 1);
    let negative = m.remove_positions(-1);
    assert!(negative.is_err());
    assert_eq!(m.get_positions(), vec![a]);
}

#[test]
fn remove_index_and_normal() {
    let mut m = ScriptedMesh::new();
    m.insert_index_set(10, 11, 12);
    assert_eq!(m.remove_index(0).unwrap(), 10u32);
    assert_eq!(m.get_indices(), vec![11u32, 12u32]);
    assert!(m.remove_index(2).is_err());
    let n = Vec3::new(0.0, 0.0, 1.0);
    m.insert_normal(n);
    assert_eq!(m.remove_normal(0).unwrap(), n);
    assert!(m.remove_normal(0).is_err());
}

#[test]
fn set_positions_of_get_positions_is_no_op() {
    let mut m = ScriptedMesh::new();
    m.insert_position(Vec3::new(1.0, 2.0, 3.0));
    m.insert_position(Vec3::new(4.0, 5.0, 6.0));
    m.insert_index(0);
    m.insert_normal(Vec3::new(0.0, 1.0, 0.0));
    let before = m.get_positions();
    let copy = m.get_positions();
    m.set_positions(copy);
    assert_eq!(m.get_positions(), before);
    assert_eq!(m.get_indices(), vec![0u32]);
    assert_eq!(m.get_normals(), vec![Vec3::new(0.0, 1.0, 0.0)]);
}

#[test]
fn set_replaces_buffers_wholesale() {
    let mut m = ScriptedMesh::new();
    m.insert_position(Vec3::new(9.0, 9.0, 9.0));
    m.set_positions(vec![Vec3::new(1.0, 0.0, 0.0)]);
    assert_eq!(m.get_positions(), vec![Vec3::new(1.0, 0.0, 0.0)]);
    m.set_indices(vec![5u32, 6u32]);
    assert_eq!(m.get_indices(), vec![5u32, 6u32]);
    m.set_normals(vec![Vec3::new(0.0, 0.0, 1.0)]);
    assert_eq!(m.get_normals(), vec![Vec3::new(0.0, 0.0, 1.0)]);
}

#[test]
fn print_hooks() {
    let mut m = ScriptedMesh::new();
    m.insert_index(1);
    assert_eq!(m.to_string(), "");
    let dump = m.to_debug();
    assert!(dump.contains("positions"));
    assert!(dump.contains("indices"));
    assert!(dump.contains("normals"));
}
