use landon::error::Invariant;
use landon::{BlenderError, BlenderMesh, BoneInfluencesPerVertex, CreateSingleIndexConfig};

fn bits(vals: &[f32]) -> Vec<u32> {
    vals.iter().map(|v| v.to_bits()).collect()
}

#[test]
fn set_joints_per_vert() {
    let mut start_mesh = BlenderMesh {
        vertex_group_indices: Some(vec![0, 2, 3, 4, 0, 1, 3, 2]),
        bone_influences_per_vertex: Some(vec![1, 3, 4].into()),
        vertex_group_weights: Some(bits(&[1.0, 0.5, 0.2, 0.3, 0.6, 0.15, 0.1, 0.15])),
        ..BlenderMesh::default()
    };

    start_mesh.set_bone_influences_per_vertex(3);
    let three_joints_per_vert = start_mesh;

    let expected_mesh = BlenderMesh {
        vertex_group_indices: Some(vec![0, 0, 0, 2, 4, 3, 0, 1, 2]),
        bone_influences_per_vertex: Some(BoneInfluencesPerVertex::Uniform(3)),
        vertex_group_weights: Some(bits(&[1.0, 0.0, 0.0, 0.5, 0.3, 0.2, 0.6, 0.15, 0.15])),
        ..BlenderMesh::default()
    };

    assert_eq!(three_joints_per_vert, expected_mesh);
}

#[test]
fn influence_pad_case() {
    // One influence, target count three: pad with (bone 0, weight 0.0).
    let mut mesh = BlenderMesh {
        vertex_group_indices: Some(vec![5]),
        bone_influences_per_vertex: Some(vec![1].into()),
        vertex_group_weights: Some(bits(&[0.7])),
        ..BlenderMesh::default()
    };

    mesh.set_bone_influences_per_vertex(3);

    assert_eq!(mesh.vertex_group_indices, Some(vec![5, 0, 0]));
    assert_eq!(mesh.vertex_group_weights, Some(bits(&[0.7, 0.0, 0.0])));
    assert_eq!(
        mesh.bone_influences_per_vertex,
        Some(BoneInfluencesPerVertex::Uniform(3))
    );
}

#[test]
fn influence_truncate_case() {
    // Five influences, target count three: keep the three heaviest, in
    // descending weight order, and drop the rest without renormalizing.
    let mut mesh = BlenderMesh {
        vertex_group_indices: Some(vec![0, 1, 2, 3, 4]),
        bone_influences_per_vertex: Some(vec![5].into()),
        vertex_group_weights: Some(bits(&[1.0, 0.5, 0.2, 0.3, 0.6])),
        ..BlenderMesh::default()
    };

    mesh.set_bone_influences_per_vertex(3);

    assert_eq!(mesh.vertex_group_indices, Some(vec![0, 4, 1]));
    assert_eq!(mesh.vertex_group_weights, Some(bits(&[1.0, 0.6, 0.5])));
    assert_eq!(
        mesh.bone_influences_per_vertex,
        Some(BoneInfluencesPerVertex::Uniform(3))
    );
}

/// Two triangles sharing an edge, where the shared corners reference the same
/// position but different normals, so they stay distinct output vertices,
/// while the repeated (position, normal) pairs of the second triangle
/// collapse onto the first triangle's vertices where they match.
fn multi_indexed_mesh() -> BlenderMesh {
    BlenderMesh {
        vertex_positions: bits(&[0.0, 0.0, 0.0, 1.0, 0.0, 0.0, 0.0, 1.0, 0.0, 1.0, 1.0, 0.0]),
        vertex_position_indices: vec![0, 1, 2, 1, 3, 2],
        num_vertices_in_each_face: vec![3, 3],
        vertex_normals: bits(&[0.0, 0.0, 1.0, 0.0, 1.0, 0.0]),
        vertex_normal_indices: vec![0, 0, 0, 1, 1, 1],
        ..BlenderMesh::default()
    }
}

#[test]
fn combine_assigns_one_index_per_attribute_combination() {
    let mut mesh = multi_indexed_mesh();
    mesh.combine_vertex_indices(&CreateSingleIndexConfig {
        bone_influences_per_vertex: None,
    });

    // Six corners, six distinct (position, normal) combinations in first-use
    // order: (0,n0) (1,n0) (2,n0) (1,n1) (3,n1) (2,n1).
    assert_eq!(mesh.vertex_position_indices, vec![0, 1, 2, 3, 4, 5]);
    assert_eq!(
        mesh.vertex_positions,
        bits(&[
            0.0, 0.0, 0.0, 1.0, 0.0, 0.0, 0.0, 1.0, 0.0, 1.0, 0.0, 0.0, 1.0, 1.0, 0.0, 0.0,
            1.0, 0.0
        ])
    );
    assert_eq!(
        mesh.vertex_normals,
        bits(&[
            0.0, 0.0, 1.0, 0.0, 0.0, 1.0, 0.0, 0.0, 1.0, 0.0, 1.0, 0.0, 0.0, 1.0, 0.0, 0.0,
            1.0, 0.0
        ])
    );
    assert_eq!(mesh.vertex_normal_indices, Vec::<u16>::new());
}

#[test]
fn combine_reuses_index_for_repeated_combination() {
    // The second face repeats the first face's corners exactly, so no new
    // output vertex is created for it.
    let mut mesh = multi_indexed_mesh();
    mesh.vertex_normal_indices = vec![0, 0, 0, 0, 0, 0];
    mesh.vertex_position_indices = vec![0, 1, 2, 1, 0, 2];
    mesh.combine_vertex_indices(&CreateSingleIndexConfig {
        bone_influences_per_vertex: None,
    });

    assert_eq!(mesh.vertex_position_indices, vec![0, 1, 2, 1, 0, 2]);
    assert_eq!(mesh.vertex_positions.len(), 9);
}

#[test]
fn combine_is_deterministic() {
    let mesh_a = multi_indexed_mesh();
    let mesh_b = multi_indexed_mesh();
    let config = CreateSingleIndexConfig {
        bone_influences_per_vertex: None,
    };

    let mut first = mesh_a.clone();
    first.combine_vertex_indices(&config);
    let mut second = mesh_a.clone();
    second.combine_vertex_indices(&config);
    let mut third = mesh_b;
    third.combine_vertex_indices(&config);

    assert_eq!(first, second);
    assert_eq!(first, third);

    // Every output index addresses an output vertex.
    let vertex_count = (first.vertex_positions.len() / 3) as u16;
    for index in first.vertex_position_indices.iter() {
        assert!(*index < vertex_count);
    }
}

#[test]
fn combine_remaps_and_uniformizes_influences() {
    let mut mesh = multi_indexed_mesh();
    mesh.bone_influences_per_vertex = Some(vec![1, 2, 1, 1].into());
    mesh.vertex_group_indices = Some(vec![7, 3, 4, 9, 2]);
    mesh.vertex_group_weights = Some(bits(&[1.0, 0.25, 0.75, 1.0, 1.0]));

    mesh.combine_vertex_indices(&CreateSingleIndexConfig {
        bone_influences_per_vertex: Some(2),
    });

    // Output vertices reference positions 0, 1, 2, 1, 3, 2 in first-use
    // order; each inherits that position's influences, sorted by weight
    // descending and padded or truncated to two entries.
    assert_eq!(
        mesh.bone_influences_per_vertex,
        Some(BoneInfluencesPerVertex::Uniform(2))
    );
    assert_eq!(
        mesh.vertex_group_indices,
        Some(vec![7, 0, 4, 3, 9, 0, 4, 3, 2, 0, 9, 0])
    );
    assert_eq!(
        mesh.vertex_group_weights,
        Some(bits(&[
            1.0, 0.0, 0.75, 0.25, 1.0, 0.0, 0.75, 0.25, 1.0, 0.0, 1.0, 0.0
        ]))
    );
}

#[test]
fn triangulate_quad_to_fan() {
    let mut mesh = BlenderMesh {
        vertex_positions: bits(&[
            0.0, 0.0, 0.0, 1.0, 0.0, 0.0, 1.0, 1.0, 0.0, 0.0, 1.0, 0.0,
        ]),
        vertex_position_indices: vec![0, 1, 2, 3],
        num_vertices_in_each_face: vec![4],
        vertex_normals: bits(&[0.0, 0.0, 1.0]),
        vertex_normal_indices: vec![0, 0, 0, 0],
        ..BlenderMesh::default()
    };

    mesh.triangulate();

    assert_eq!(mesh.vertex_position_indices, vec![0, 1, 2, 0, 2, 3]);
    assert_eq!(mesh.vertex_normal_indices, vec![0, 0, 0, 0, 0, 0]);
    assert_eq!(mesh.num_vertices_in_each_face, vec![3, 3]);
}

#[test]
fn y_up_swaps_and_negates() {
    let mut mesh = BlenderMesh {
        vertex_positions: bits(&[1.0, 2.0, 3.0, -4.0, 0.5, -0.25]),
        vertex_normals: bits(&[0.0, 1.0, 0.0]),
        ..BlenderMesh::default()
    };

    mesh.y_up();

    assert_eq!(mesh.vertex_positions, bits(&[1.0, 3.0, -2.0, -4.0, -0.25, -0.5]));
    assert_eq!(mesh.vertex_normals, bits(&[0.0, 0.0, -1.0]));
}

#[test]
fn validate_reports_vertex_group_mismatch() {
    let mesh = BlenderMesh {
        vertex_group_indices: Some(vec![0, 1]),
        vertex_group_weights: Some(bits(&[1.0, 0.5])),
        bone_influences_per_vertex: Some(vec![1].into()),
        ..BlenderMesh::default()
    };
    assert_eq!(
        mesh.validate("Cube"),
        Err(BlenderError::Malformed(
            "Cube".to_string(),
            Invariant::VertexGroupArrayMismatch
        ))
    );
}

#[test]
fn validate_reports_index_stream_mismatch() {
    let mesh = BlenderMesh {
        vertex_positions: bits(&[0.0, 0.0, 0.0]),
        vertex_position_indices: vec![0, 0, 1],
        num_vertices_in_each_face: vec![3],
        vertex_normals: bits(&[0.0, 0.0, 1.0]),
        vertex_normal_indices: vec![0, 0, 0],
        ..BlenderMesh::default()
    };
    assert_eq!(
        mesh.validate("Cube"),
        Err(BlenderError::Malformed(
            "Cube".to_string(),
            Invariant::IndexStreamMismatch
        ))
    );
}

#[test]
fn validate_accepts_well_formed_mesh() {
    let mesh = multi_indexed_mesh();
    assert_eq!(mesh.validate("Cube"), Ok(()));
}

#[test]
fn default_influence_count_is_uniform_zero() {
    assert_eq!(
        BoneInfluencesPerVertex::default(),
        BoneInfluencesPerVertex::Uniform(0)
    );
}

#[test]
fn influence_counts_from_vec_are_non_uniform() {
    let influences: BoneInfluencesPerVertex = vec![1, 3, 4].into();
    assert_eq!(influences, BoneInfluencesPerVertex::NonUniform(vec![1, 3, 4]));
}
