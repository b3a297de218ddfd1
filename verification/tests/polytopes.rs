use fourdeers::map::{edge_axis, TESSERACT_EDGE_COUNT};
use fourdeers::polytopes::{
    create_16_cell, create_24_cell, create_5_cell_edges, create_8_cell, create_polytope,
    PolytopeType,
};

fn distance_sq(v1: &[i8; 4], v2: &[i8; 4]) -> i32 {
    (0..4).map(|i| (v1[i] as i32 - v2[i] as i32).pow(2)).sum()
}

fn coordinate_sums(vertices: &[[i8; 4]]) -> [i32; 4] {
    let mut c = [0i32; 4];
    for v in vertices {
        for i in 0..4 {
            c[i] += v[i] as i32;
        }
    }
    c
}

fn count_antipodal_pairs(vertices: &[[i8; 4]]) -> usize {
    let mut count = 0;
    for i in 0..vertices.len() {
        for j in (i + 1)..vertices.len() {
            if (0..4).all(|k| vertices[i][k] as i32 + vertices[j][k] as i32 == 0) {
                count += 1;
            }
        }
    }
    count
}

fn uniform_edge_lengths(vertices: &[[i8; 4]], indices: &[u16]) -> bool {
    if indices.len() < 2 {
        return true;
    }
    let first = distance_sq(&vertices[indices[0] as usize], &vertices[indices[1] as usize]);
    indices
        .chunks(2)
        .all(|c| distance_sq(&vertices[c[0] as usize], &vertices[c[1] as usize]) == first)
}

fn compute_vertex_degrees(vertex_count: usize, indices: &[u16]) -> Vec<usize> {
    let mut degrees = vec![0usize; vertex_count];
    for chunk in indices.chunks(2) {
        degrees[chunk[0] as usize] += 1;
        degrees[chunk[1] as usize] += 1;
    }
    degrees
}

#[test]
fn test_polytope_type_metadata() {
    assert_eq!(PolytopeType::FiveCell.vertex_count(), 5);
    assert_eq!(PolytopeType::FiveCell.edge_count(), 10);

    assert_eq!(PolytopeType::EightCell.vertex_count(), 16);
    assert_eq!(PolytopeType::EightCell.edge_count(), 32);

    assert_eq!(PolytopeType::SixteenCell.vertex_count(), 8);
    assert_eq!(PolytopeType::SixteenCell.edge_count(), 24);

    assert_eq!(PolytopeType::TwentyFourCell.vertex_count(), 24);
    assert_eq!(PolytopeType::TwentyFourCell.edge_count(), 96);
}

#[test]
fn polytope_names_and_order() {
    assert_eq!(PolytopeType::FiveCell.name(), "5-cell (Pentachoron)");
    assert_eq!(PolytopeType::EightCell.name(), "8-cell (Tesseract)");
    assert_eq!(PolytopeType::EightCell.short_name(), "tesseract");
    assert_eq!(PolytopeType::SixHundredCell.short_name(), "600-cell");
    assert_eq!(PolytopeType::OneHundredTwentyCell.vertex_count(), 600);
    assert_eq!(PolytopeType::SixHundredCell.edge_count(), 720);
    assert_eq!(PolytopeType::default(), PolytopeType::EightCell);
    let all = PolytopeType::all();
    assert_eq!(all.len(), 6);
    assert_eq!(all[0], PolytopeType::FiveCell);
    assert_eq!(all[5], PolytopeType::SixHundredCell);
}

#[test]
fn test_5_cell_edge_count() {
    let indices = create_5_cell_edges();
    assert_eq!(indices.len(), 20);
}

#[test]
fn test_5_cell_vertex_degrees() {
    let indices = create_5_cell_edges();
    let degrees = compute_vertex_degrees(PolytopeType::FiveCell.vertex_count(), &indices);
    for (i, &deg) in degrees.iter().enumerate() {
        assert_eq!(deg, 4, "Vertex {} should have degree 4, got {}", i, deg);
    }
}

#[test]
fn test_8_cell_vertex_count() {
    let (vertices, _) = create_8_cell();
    assert_eq!(vertices.len(), 16);
}

#[test]
fn test_8_cell_edge_count() {
    let (_, indices) = create_8_cell();
    assert_eq!(indices.len(), 64);
}

#[test]
fn test_8_cell_centered_at_origin() {
    let (vertices, _) = create_8_cell();
    assert_eq!(coordinate_sums(&vertices), [0, 0, 0, 0]);
}

#[test]
fn test_8_cell_uniform_edges() {
    let (vertices, indices) = create_8_cell();
    assert!(uniform_edge_lengths(&vertices, &indices), "8-cell edges not uniform");
}

#[test]
fn test_8_cell_antipodal_pairs() {
    let (vertices, _) = create_8_cell();
    assert_eq!(count_antipodal_pairs(&vertices), 8, "8-cell should have 8 antipodal pairs");
}

#[test]
fn test_8_cell_vertex_degrees() {
    let (vertices, indices) = create_8_cell();
    let degrees = compute_vertex_degrees(vertices.len(), &indices);
    for (i, &deg) in degrees.iter().enumerate() {
        assert_eq!(deg, 4, "Vertex {} should have degree 4, got {}", i, deg);
    }
}

#[test]
fn test_16_cell_vertex_count() {
    let (vertices, _) = create_16_cell();
    assert_eq!(vertices.len(), 8);
}

#[test]
fn test_16_cell_edge_count() {
    let (_, indices) = create_16_cell();
    assert_eq!(indices.len(), 48);
}

#[test]
fn test_16_cell_centered_at_origin() {
    let (vertices, _) = create_16_cell();
    assert_eq!(coordinate_sums(&vertices), [0, 0, 0, 0]);
}

#[test]
fn test_16_cell_uniform_edges() {
    let (vertices, indices) = create_16_cell();
    assert!(uniform_edge_lengths(&vertices, &indices), "16-cell edges not uniform");
}

#[test]
fn test_16_cell_antipodal_pairs() {
    let (vertices, _) = create_16_cell();
    assert_eq!(count_antipodal_pairs(&vertices), 4, "16-cell should have 4 antipodal pairs");
}

#[test]
fn test_16_cell_vertex_degrees() {
    let (vertices, indices) = create_16_cell();
    let degrees = compute_vertex_degrees(vertices.len(), &indices);
    for (i, &deg) in degrees.iter().enumerate() {
        assert_eq!(deg, 6, "Vertex {} should have degree 6, got {}", i, deg);
    }
}

#[test]
fn test_24_cell_vertex_count() {
    let (vertices, _) = create_24_cell();
    assert_eq!(vertices.len(), 24);
}

#[test]
fn test_24_cell_edge_count() {
    let (_, indices) = create_24_cell();
    assert_eq!(indices.len(), 192);
}

#[test]
fn test_24_cell_centered_at_origin() {
    let (vertices, _) = create_24_cell();
    assert_eq!(coordinate_sums(&vertices), [0, 0, 0, 0]);
}

#[test]
fn test_24_cell_uniform_edges() {
    let (vertices, indices) = create_24_cell();
    assert!(uniform_edge_lengths(&vertices, &indices), "24-cell edges not uniform");
}

#[test]
fn test_24_cell_antipodal_pairs() {
    let (vertices, _) = create_24_cell();
    assert_eq!(count_antipodal_pairs(&vertices), 12, "24-cell should have 12 antipodal pairs");
}

#[test]
fn test_24_cell_vertex_degrees() {
    let (vertices, indices) = create_24_cell();
    let degrees = compute_vertex_degrees(vertices.len(), &indices);
    for (i, &deg) in degrees.iter().enumerate() {
        assert_eq!(deg, 8, "Vertex {} should have degree 8, got {}", i, deg);
    }
}

#[test]
fn exact_vertex_coordinates() {
    let (cube, cube_edges) = create_8_cell();
    assert_eq!(cube[0], [-1, -1, -1, -1]);
    assert_eq!(cube[5], [1, -1, 1, -1]);
    assert_eq!(cube[15], [1, 1, 1, 1]);
    assert_eq!(&cube_edges[0..8], &[0, 1, 0, 2, 0, 4, 0, 8]);
    let (cross, cross_edges) = create_16_cell();
    assert_eq!(cross[0], [1, 0, 0, 0]);
    assert_eq!(cross[3], [0, -1, 0, 0]);
    assert_eq!(&cross_edges[0..4], &[0, 2, 0, 3]);
    let (cell24, _) = create_24_cell();
    assert_eq!(cell24[0], [1, 1, 0, 0]);
    assert_eq!(cell24[7], [-1, 0, -1, 0]);
    assert_eq!(cell24[23], [0, 0, -1, -1]);
    assert_eq!(&create_5_cell_edges()[0..6], &[0, 1, 0, 2, 0, 3]);
}

#[test]
fn create_polytope_dispatch() {
    let (vs, es) = create_polytope(PolytopeType::FiveCell);
    assert!(vs.is_none());
    assert_eq!(es, create_5_cell_edges());
    for kind in PolytopeType::all() {
        let (vs, es) = create_polytope(kind);
        if let Some(vs) = &vs {
            for pair in es.chunks(2) {
                assert!(pair[0] < pair[1]);
                assert!((pair[1] as usize) < vs.len());
            }
        }
    }
    assert!(create_polytope(PolytopeType::OneHundredTwentyCell).0.is_none());
    assert!(create_polytope(PolytopeType::SixHundredCell).0.is_none());
    for kind in PolytopeType::all() {
        assert_eq!(create_polytope(kind).1.len(), 2 * kind.edge_count());
    }
}

fn structure_invariants() {
    let (vertices, indices) = create_polytope(PolytopeType::EightCell);
    let vertices = vertices.unwrap();
    assert_eq!(vertices.len(), 16);
    assert_eq!(indices.len() / 2, TESSERACT_EDGE_COUNT);
    let mut degrees = vec![0u16; vertices.len()];
    for chunk in indices.chunks(2) {
        if chunk.len() == 2 {
            degrees[chunk[0] as usize] += 1;
            degrees[chunk[1] as usize] += 1;
        }
    }
    for (i, &d) in degrees.iter().enumerate() {
        assert_eq!(d, 4, "tesseract vertex {} should have degree 4", i);
    }
}

#[test]
fn map_test_8_cell_structure_invariants() {
    structure_invariants();
}

#[test]
fn slice_test_8_cell_structure_invariants() {
    structure_invariants();
}

#[test]
fn edge_axis_labels_tesseract_edges() {
    let (vertices, indices) = create_8_cell();
    for pair in indices.chunks(2) {
        let (a, b) = (pair[0] as usize, pair[1] as usize);
        let axis = edge_axis(&vertices, a, b).expect("tesseract edges are axis-parallel");
        assert_eq!(b - a, 1 << axis);
    }
    assert_eq!(edge_axis(&vertices, 0, 0), None);
    assert_eq!(edge_axis(&vertices, 0, 3), None);
    assert_eq!(edge_axis(&vertices, 0, 8), Some(3));
}
