use fourdeers::rotation4d::RotationPlane;
use fourdeers::camera::SignedAxis;
use fourdeers::tetrahedron::{axis_char, compute_edges, ComponentColor};

fn edges_count() {
    assert_eq!(compute_edges().len(), 6);
}

fn vertex_labels() {
    let labels: Vec<String> = (0..4).map(|i| axis_char(i).to_string()).collect();
    assert!(labels.contains(&"X".to_string()));
    assert!(labels.contains(&"Y".to_string()));
    assert!(labels.contains(&"Z".to_string()));
    assert!(labels.contains(&"W".to_string()));
}

fn vertex_axes() {
    let axes: Vec<char> = (0..4).map(axis_char).collect();
    assert!(axes.contains(&'X'));
    assert!(axes.contains(&'Y'));
    assert!(axes.contains(&'Z'));
    assert!(axes.contains(&'W'));
}

fn edge_connectivity() {
    for edge in &compute_edges() {
        assert!(edge.vertex_indices[0] < 4);
        assert!(edge.vertex_indices[1] < 4);
        assert_ne!(edge.vertex_indices[0], edge.vertex_indices[1]);
    }
}

fn edges_unique() {
    let mut edges_seen = std::collections::HashSet::new();
    for edge in &compute_edges() {
        let mut sorted = edge.vertex_indices;
        sorted.sort();
        assert!(!edges_seen.contains(&sorted), "Duplicate edge found: {:?}", sorted);
        edges_seen.insert(sorted);
    }
}

#[test]
fn tetrahedron_test_tetrahedron_edges_count() {
    edges_count();
}

#[test]
fn mod_test_tetrahedron_edges_count() {
    edges_count();
}

#[test]
fn tetrahedron_test_tetrahedron_vertex_labels() {
    vertex_labels();
}

#[test]
fn mod_test_tetrahedron_vertex_labels() {
    vertex_labels();
}

#[test]
fn tetrahedron_test_tetrahedron_vertex_axes() {
    vertex_axes();
}

#[test]
fn mod_test_tetrahedron_vertex_axes() {
    vertex_axes();
}

#[test]
fn tetrahedron_test_tetrahedron_edge_connectivity() {
    edge_connectivity();
}

#[test]
fn mod_test_tetrahedron_edge_connectivity() {
    edge_connectivity();
}

#[test]
fn tetrahedron_test_tetrahedron_edges_unique() {
    edges_unique();
}

#[test]
fn mod_test_tetrahedron_edges_unique() {
    edges_unique();
}

#[test]
fn axis_letters_in_order() {
    assert_eq!([axis_char(0), axis_char(1), axis_char(2), axis_char(3)], ['X', 'Y', 'Z', 'W']);
    let edges = compute_edges();
    assert_eq!(edges[0].vertex_indices, [0, 1]);
    assert_eq!(edges[5].vertex_indices, [2, 3]);
    let c = ComponentColor { r: 255, g: 255, b: 255, a: 220 };
    assert_eq!(c, ComponentColor { r: 255, g: 255, b: 255, a: 220 });
}

#[test]
fn rotation_plane_encoding() {
    assert!(RotationPlane::XY.is_spatial());
    assert!(!RotationPlane::ZW.is_spatial());
    assert_eq!(RotationPlane::XY.quaternion_component(), SignedAxis { axis: 2, positive: true });
    assert_eq!(RotationPlane::XZ.quaternion_component(), SignedAxis { axis: 1, positive: true });
    assert_eq!(RotationPlane::YZ.quaternion_component(), SignedAxis { axis: 0, positive: true });
    assert_eq!(RotationPlane::XW.quaternion_component(), SignedAxis { axis: 0, positive: false });
    assert_eq!(RotationPlane::YW.quaternion_component(), SignedAxis { axis: 1, positive: false });
    assert_eq!(RotationPlane::ZW.quaternion_component(), SignedAxis { axis: 2, positive: false });
}
