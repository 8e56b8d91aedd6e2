use tracer_core::mesh::{group_triples, obj_to_buffers, MeshError, Triple};

const ONE_TRIANGLE: &[u8] = b"v 0.0 0.0 0.0\nv 1.0 0.0 0.0\nv 0.0 1.0 0.0\nf 1 2 3\n";

#[test]
fn single_mesh_loads() {
    let mesh = obj_to_buffers(ONE_TRIANGLE).expect("one triangle should load");
    assert_eq!(mesh.positions.len(), 9);
    assert_eq!(mesh.indices.len(), 3);
    assert_eq!(mesh.indices, vec![0, 1, 2]);
}

#[test]
fn positions_are_f32_bit_patterns() {
    let mesh = obj_to_buffers(ONE_TRIANGLE).expect("one triangle should load");
    let zero = 0.0f32.to_bits();
    let one = 1.0f32.to_bits();
    assert_eq!(
        mesh.positions,
        vec![zero, zero, zero, one, zero, zero, zero, one, zero]
    );
}

#[test]
fn triple_counts_match_scalar_counts() {
    let source = b"v 0 0 0\nv 1 0 0\nv 0 1 0\nv 1 1 0\nf 1 2 3\nf 2 3 4\n";
    let mesh = obj_to_buffers(source).expect("quad should load");
    let pos = group_triples(&mesh.positions).expect("positions come in threes");
    let idx = group_triples(&mesh.indices).expect("indices come in threes");
    assert_eq!(pos.len() * 3, mesh.positions.len());
    assert_eq!(idx.len() * 3, mesh.indices.len());
    assert_eq!(idx[0], Triple { v0: 0, v1: 1, v2: 2 });
    assert_eq!(idx[1], Triple { v0: 1, v1: 2, v2: 3 });
}

#[test]
fn zero_mesh_file_fails() {
    assert_eq!(obj_to_buffers(b""), Err(MeshError::NotExactlyOneMesh));
    assert_eq!(
        obj_to_buffers(b"# a comment, no geometry\n"),
        Err(MeshError::NotExactlyOneMesh)
    );
}

#[test]
fn multi_mesh_file_fails() {
    let two = b"o first\nv 0 0 0\nv 1 0 0\nv 0 1 0\nf 1 2 3\no second\nv 0 0 1\nv 1 0 1\nv 0 1 1\nf 4 5 6\n";
    assert_eq!(obj_to_buffers(two), Err(MeshError::NotExactlyOneMesh));
}

#[test]
fn malformed_file_fails() {
    let bad = b"v zero nought nil\nf 1 2 3\n";
    assert_eq!(obj_to_buffers(bad), Err(MeshError::Malformed));
    let oob = b"v 0 0 0\nf 1 2 9\n";
    assert_eq!(obj_to_buffers(oob), Err(MeshError::Malformed));
}

#[test]
fn quad_face_is_fanned_into_two_triangles() {
    let quad = b"v 0 0 0\nv 1 0 0\nv 1 1 0\nv 0 1 0\nf 1 2 3 4\n";
    let mesh = obj_to_buffers(quad).expect("quad face should load");
    assert_eq!(mesh.positions.len(), 12);
    assert_eq!(mesh.indices, vec![0, 1, 2, 0, 2, 3]);
}

#[test]
fn polygon_face_indices_come_in_threes() {
    let pentagon = b"v 0 0 0\nv 1 0 0\nv 2 1 0\nv 1 2 0\nv 0 1 0\nf 1 2 3 4 5\n";
    let mesh = obj_to_buffers(pentagon).expect("pentagon face should load");
    assert_eq!(mesh.indices.len(), 9);
    assert_eq!(mesh.indices, vec![0, 1, 2, 0, 2, 3, 0, 3, 4]);
}

#[test]
fn point_and_line_faces_become_degenerate_triangles() {
    let line = b"v 0 0 0\nv 1 0 0\nf 1 2\n";
    let mesh = obj_to_buffers(line).expect("line face should load");
    assert_eq!(mesh.indices.len() % 3, 0);
    let point = b"v 0 0 0\nf 1\n";
    let mesh = obj_to_buffers(point).expect("point face should load");
    assert_eq!(mesh.indices.len() % 3, 0);
}

#[test]
fn negative_slash_reference_is_declined() {
    // A negative texcoord reference would reach unchecked index arithmetic
    // in the parser; the loader declines the stream up front.
    let negative = b"v 0 0 0\nvt 0 0\nf 1/-3\n";
    assert_eq!(obj_to_buffers(negative), Err(MeshError::Malformed));
}

#[test]
fn outsized_slash_reference_is_declined() {
    let outsized = b"v 0 0 0\nvn 0 0 1\nf 1//9223372036854775807\n";
    assert_eq!(obj_to_buffers(outsized), Err(MeshError::Malformed));
}

#[test]
fn in_range_slash_references_load() {
    let source = b"v 0 0 0\nv 1 0 0\nv 0 1 0\nvt 0 0\nvn 0 0 1\nf 1/1/1 2/1/1 3/1/1\n";
    let mesh = obj_to_buffers(source).expect("textured triangle should load");
    assert_eq!(mesh.positions.len(), 9);
    assert_eq!(mesh.indices, vec![0, 1, 2]);
}

#[test]
fn positions_come_in_threes_and_indices_stay_in_range() {
    let source = b"v 0 0 0\nv 1 0 0\nv 0 1 0\nv 1 1 0\nf 1 2 3\nf 2 3 4\n";
    let mesh = obj_to_buffers(source).expect("quad should load");
    assert_eq!(mesh.positions.len() % 3, 0);
    let vertex_count = (mesh.positions.len() / 3) as u32;
    assert!(mesh.indices.iter().all(|&i| i < vertex_count));
}

#[test]
fn grouping_rejects_ragged_buffers() {
    assert!(group_triples(&vec![1, 2, 3, 4]).is_none());
    assert!(group_triples(&vec![1]).is_none());
}

#[test]
fn grouping_preserves_order_and_contents() {
    let flat = vec![9, 8, 7, 6, 5, 4];
    let triples = group_triples(&flat).expect("six scalars");
    assert_eq!(triples.len(), 2);
    assert_eq!(triples[0], Triple { v0: 9, v1: 8, v2: 7 });
    assert_eq!(triples[1], Triple { v0: 6, v1: 5, v2: 4 });
}

#[test]
fn grouping_empty_buffer() {
    let triples = group_triples(&Vec::new()).expect("zero is a multiple of three");
    assert!(triples.is_empty());
}
