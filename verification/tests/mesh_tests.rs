use twigs::material::{Material, Rgb};
use twigs::mesh::{Element, Mesh, MeshError};
use twigs::render::vertex::Vertex;
use twigs::vec3d::Vec3d;
use twigs::DISPLAY_SCALE;

fn v(x: f64, y: f64, z: f64) -> Vec3d {
    Vec3d::new(x.to_bits(), y.to_bits(), z.to_bits())
}

fn unit_cube_nodes() -> Vec<Vec3d> {
    vec![
        v(0.0, 0.0, 0.0),
        v(1.0, 0.0, 0.0),
        v(1.0, 1.0, 0.0),
        v(0.0, 1.0, 0.0),
        v(0.0, 0.0, 1.0),
        v(1.0, 0.0, 1.0),
        v(1.0, 1.0, 1.0),
        v(0.0, 1.0, 1.0),
    ]
}

#[test]
fn unit_cube_render_data() {
    let nodes = unit_cube_nodes();
    let elements = vec![Element::new(vec![0, 1, 2, 3, 4, 5, 6, 7])];
    let mesh = Mesh::from_parts(nodes.clone(), elements, Material::aluminum_6061()).unwrap();
    let (vertices, indices) = mesh.render_data();

    assert_eq!(vertices.len(), 8);
    for (i, vertex) in vertices.iter().enumerate() {
        assert_eq!(vertex.position, nodes[i]);
        assert_eq!(vertex.color, Rgb { r: 800, g: 800, b: 900 });
        assert_eq!(vertex.color.r as f32 / 1000.0, 0.8);
        assert_eq!(vertex.color.g as f32 / 1000.0, 0.8);
        assert_eq!(vertex.color.b as f32 / 1000.0, 0.9);
    }

    let expected: Vec<u16> = vec![
        0, 1, 0, 3, 0, 4, 1, 2, 1, 5, 2, 3, 2, 6, 3, 7, 4, 5, 4, 7, 5, 6, 6, 7,
    ];
    assert_eq!(indices, expected);
    assert_eq!(indices.len(), 24);
    for &index in &indices {
        assert!(index < 8);
    }
}

#[test]
fn counts_match_nodes_and_elements() {
    let mut nodes = unit_cube_nodes();
    nodes.extend(unit_cube_nodes().iter().map(|n| {
        Vec3d::new(
            (f64::from_bits(n.x) + 2.0).to_bits(),
            n.y,
            n.z,
        )
    }));
    let elements = vec![
        Element::new(vec![0, 1, 2, 3, 4, 5, 6, 7]),
        Element::new(vec![8, 9, 10, 11, 12, 13, 14, 15]),
    ];
    let mesh = Mesh::from_parts(nodes, elements, Material::aluminum_7075()).unwrap();
    let (vertices, indices) = mesh.render_data();
    assert_eq!(vertices.len(), 16);
    assert_eq!(indices.len(), 48);
    for &index in &indices {
        assert!(index < 16);
    }
}

#[test]
fn render_data_is_deterministic() {
    let nodes = unit_cube_nodes();
    let elements = vec![Element::new(vec![0, 1, 2, 3, 4, 5, 6, 7])];
    let mesh = Mesh::from_parts(nodes, elements, Material::aluminum_6061()).unwrap();
    let (vertices_a, indices_a) = mesh.render_data();
    let (vertices_b, indices_b) = mesh.render_data();
    assert_eq!(vertices_a, vertices_b);
    assert_eq!(indices_a, indices_b);
}

#[test]
fn second_element_indices_follow_first() {
    let nodes = unit_cube_nodes();
    let elements = vec![
        Element::new(vec![0, 1, 2, 3, 4, 5, 6, 7]),
        Element::new(vec![7, 6, 5, 4, 3, 2, 1, 0]),
    ];
    let mesh = Mesh::from_parts(nodes, elements, Material::aluminum_6061()).unwrap();
    let (_, indices) = mesh.render_data();
    let second = &indices[24..48];
    let expected: Vec<u16> = vec![
        7, 6, 7, 4, 7, 3, 6, 5, 6, 2, 5, 4, 5, 1, 4, 0, 3, 2, 3, 0, 2, 1, 1, 0,
    ];
    assert_eq!(second, expected.as_slice());
}

#[test]
fn new_stores_validated_parts() {
    let nodes = unit_cube_nodes();
    let elements = vec![Element::new(vec![0, 1, 2, 3, 4, 5, 6, 7])];
    let mesh = Mesh::new(nodes.clone(), elements, Material::aluminum_7075());
    assert_eq!(mesh.nodes, nodes);
    assert_eq!(mesh.elements.len(), 1);
    assert_eq!(mesh.material.name, "7075 T6 Aluminum");
    let (vertices, indices) = mesh.render_data();
    assert_eq!(vertices.len(), 8);
    assert_eq!(indices.len(), 24);
}

#[test]
fn from_parts_rejects_out_of_range_index() {
    let nodes = unit_cube_nodes();
    let elements = vec![Element::new(vec![0, 1, 2, 3, 4, 5, 6, 8])];
    let result = Mesh::from_parts(nodes, elements, Material::aluminum_6061());
    assert_eq!(result.unwrap_err(), MeshError::NodeIndexOutOfRange);
}

#[test]
fn from_parts_rejects_wrong_element_length() {
    let nodes = unit_cube_nodes();
    let elements = vec![Element::new(vec![0, 1, 2, 3, 4, 5, 6])];
    let result = Mesh::from_parts(nodes, elements, Material::aluminum_6061());
    assert_eq!(result.unwrap_err(), MeshError::WrongElementLength);
}

#[test]
fn from_parts_rejects_too_many_nodes() {
    let nodes = vec![v(0.0, 0.0, 0.0); 65537];
    let result = Mesh::from_parts(nodes, Vec::new(), Material::aluminum_6061());
    assert_eq!(result.unwrap_err(), MeshError::TooManyNodes);
}

#[test]
fn from_parts_accepts_largest_index_width() {
    let nodes = vec![v(0.0, 0.0, 0.0); 65536];
    let elements = vec![Element::new(vec![65535, 1, 2, 3, 4, 5, 6, 7])];
    let mesh = Mesh::from_parts(nodes, elements, Material::aluminum_6061()).unwrap();
    let (_, indices) = mesh.render_data();
    assert_eq!(indices[0], 65535u16);
}

#[test]
fn from_one_based_converts_references() {
    let element = Element::from_one_based(&vec![1, 2, 3, 4, 5, 6, 7, 8]).unwrap();
    assert_eq!(element.nodes, vec![0, 1, 2, 3, 4, 5, 6, 7]);
}

#[test]
fn from_one_based_rejects_zero_reference() {
    let result = Element::from_one_based(&vec![1, 2, 0, 4, 5, 6, 7, 8]);
    assert_eq!(result.unwrap_err(), MeshError::ZeroNodeReference);
}

#[test]
fn from_one_based_rejects_wrong_length() {
    let result = Element::from_one_based(&vec![1, 2, 3, 4, 5, 6, 7, 8, 9]);
    assert_eq!(result.unwrap_err(), MeshError::WrongElementLength);
}

#[test]
fn node_at_returns_global_index() {
    let element = Element::new(vec![3, 1, 4, 1, 5, 2, 6, 5]);
    assert_eq!(element.node_at(0), 3);
    assert_eq!(element.node_at(7), 5);
}

#[test]
fn display_scale_is_fifty() {
    assert_eq!(DISPLAY_SCALE, 50);
    let node = v(10.0, -25.0, 75.0);
    let scaled = f64::from_bits(node.x) as f32 / DISPLAY_SCALE as f32;
    assert_eq!(scaled, 0.2);
}

#[test]
fn vertex_mirror_negates_y_encoding() {
    let vertex = Vertex::from_vec3d(&v(1.5, 2.5, -3.5), Rgb { r: 800, g: 800, b: 900 });
    let mirrored = vertex.mirror();
    assert_eq!(mirrored.position.x, 1.5f64.to_bits());
    assert_eq!(mirrored.position.y, (-2.5f64).to_bits());
    assert_eq!(mirrored.position.z, (-3.5f64).to_bits());
    assert_eq!(mirrored.color, vertex.color);
    assert_eq!(mirrored.mirror(), vertex);
}
