use fourdeers::golden::{
    create_120_cell, create_5_cell, create_600_cell, hundred_twenty_cell_is_regular, six_hundred_cell_is_regular,
    vertex_degrees,
};
use fourdeers::polytopes::create_5_cell_edges;
use fourdeers::polytopes::{create_polytope, PolytopeType};

/// (a + bφ) as a float.
fn value(x: (i8, i8)) -> f64 {
    let phi = (1.0 + 5f64.sqrt()) / 2.0;
    x.0 as f64 + x.1 as f64 * phi
}

fn degrees(n: usize, edges: &[u16]) -> Vec<usize> {
    let mut d = vec![0; n];
    for pair in edges.chunks(2) {
        d[pair[0] as usize] += 1;
        d[pair[1] as usize] += 1;
    }
    d
}

fn norm_sq(v: &[(i8, i8); 4]) -> f64 {
    v.iter().map(|&c| value(c) * value(c)).sum()
}

fn dist_sq(u: &[(i8, i8); 4], w: &[(i8, i8); 4]) -> f64 {
    (0..4).map(|k| (value(u[k]) - value(w[k])).powi(2)).sum()
}

fn antipodal_pairs(vs: &[[(i8, i8); 4]]) -> usize {
    let mut count = 0;
    for i in 0..vs.len() {
        for j in (i + 1)..vs.len() {
            if (0..4).all(|k| vs[i][k].0 == -vs[j][k].0 && vs[i][k].1 == -vs[j][k].1) {
                count += 1;
            }
        }
    }
    count
}

#[test]
fn six_hundred_cell_has_120_vertices_and_720_edges_of_degree_12() {
    let (vs, es) = create_600_cell();
    assert_eq!(vs.len(), PolytopeType::SixHundredCell.vertex_count());
    assert_eq!(es.len(), 2 * PolytopeType::SixHundredCell.edge_count());
    assert!(degrees(120, &es).iter().all(|&d| d == 12));
    assert_eq!(create_polytope(PolytopeType::SixHundredCell).1, es);
}

#[test]
fn six_hundred_cell_geometry() {
    let (vs, es) = create_600_cell();
    assert!(vs.iter().all(|v| (norm_sq(v) - 4.0).abs() < 1e-9));
    let edge = 2.0 / ((1.0 + 5f64.sqrt()) / 2.0);
    for pair in es.chunks(2) {
        assert!(pair[0] < pair[1]);
        assert!((dist_sq(&vs[pair[0] as usize], &vs[pair[1] as usize]) - edge * edge).abs() < 1e-9);
    }
    assert_eq!(antipodal_pairs(&vs), 60);
    assert_eq!(vs[0], [(2, 0), (0, 0), (0, 0), (0, 0)]);
    assert_eq!(vs[8], [(1, 0), (1, 0), (1, 0), (1, 0)]);
    assert_eq!(vs[24], [(0, 1), (1, 0), (-1, 1), (0, 0)]);
}

#[test]
fn hundred_twenty_cell_has_600_vertices_and_1200_edges_of_degree_4() {
    let (vs, es) = create_120_cell();
    assert_eq!(vs.len(), PolytopeType::OneHundredTwentyCell.vertex_count());
    assert_eq!(es.len(), 2 * PolytopeType::OneHundredTwentyCell.edge_count());
    assert!(degrees(600, &es).iter().all(|&d| d == 4));
    assert_eq!(create_polytope(PolytopeType::OneHundredTwentyCell).1, es);
}

#[test]
fn hundred_twenty_cell_geometry() {
    let (vs, es) = create_120_cell();
    assert!(vs.iter().all(|v| (norm_sq(v) - 8.0).abs() < 1e-9));
    let phi = (1.0 + 5f64.sqrt()) / 2.0;
    let edge = 2.0 / (phi * phi);
    for pair in es.chunks(2) {
        assert!((dist_sq(&vs[pair[0] as usize], &vs[pair[1] as usize]) - edge * edge).abs() < 1e-9);
    }
    assert_eq!(antipodal_pairs(&vs), 300);
    let mut sorted = vs.clone();
    sorted.sort();
    sorted.dedup();
    assert_eq!(sorted.len(), 600);
}

#[test]
fn five_cell_is_regular_and_centered() {
    let (vs, es) = create_5_cell();
    assert_eq!(vs.len(), 5);
    assert_eq!(es, create_5_cell_edges());
    for pair in es.chunks(2) {
        assert!((dist_sq(&vs[pair[0] as usize], &vs[pair[1] as usize]) - 40.0).abs() < 1e-9);
    }
    for k in 0..4 {
        let a: i32 = vs.iter().map(|v| v[k].0 as i32).sum();
        let b: i32 = vs.iter().map(|v| v[k].1 as i32).sum();
        assert_eq!((a, b), (0, 0));
    }
    assert_eq!(antipodal_pairs(&vs), 0);
    assert!(vs.iter().all(|v| (norm_sq(v) - 16.0).abs() < 1e-9));
}

#[test]
fn six_hundred_cell_counted_regular() {
    assert!(six_hundred_cell_is_regular());
}

#[test]
fn hundred_twenty_cell_counted_regular() {
    assert!(hundred_twenty_cell_is_regular());
}

#[test]
fn degrees_count_entries() {
    assert_eq!(vertex_degrees(&vec![0, 1, 0, 2, 1, 2, 7, 1], 4), vec![2, 3, 2, 0]);
    assert_eq!(vertex_degrees(&vec![], 2), vec![0, 0]);
}

#[test]
fn no_edge_list_repeats_an_edge() {
    for kind in PolytopeType::all() {
        let (_, es) = create_polytope(kind);
        let pairs: Vec<(u16, u16)> = es.chunks(2).map(|c| (c[0], c[1])).collect();
        assert!(pairs.windows(2).all(|w| w[0] < w[1]), "{:?} edges not strictly increasing", kind);
    }
}
