//! The tetrahedron gadget's combinatorics: its vertices stand for the four 4D axes and every
//! two of them are joined by an edge; plus the color type of its component labels.
use vstd::prelude::*;

verus! {

/// The letter of each 4D axis: X, Y, Z, W.
pub open spec fn axis_letter(axis: int) -> char {
    if axis == 0 {
        'X'
    } else if axis == 1 {
        'Y'
    } else if axis == 2 {
        'Z'
    } else {
        'W'
    }
}

/// The letter labelling a 4D axis (and the tetrahedron vertex standing for it).
pub fn axis_char(axis: usize) -> (r: char)
    requires
        axis < 4,
    ensures
        r == axis_letter(axis as int),
{
    if axis == 0 {
        'X'
    } else if axis == 1 {
        'Y'
    } else if axis == 2 {
        'Z'
    } else {
        'W'
    }
}

/// An edge connecting two vertices of the tetrahedron.
#[derive(Debug, Clone, Copy)]
pub struct TetrahedronEdge {
    pub vertex_indices: [usize; 2],
}

/// The endpoints of the tetrahedron's six edges: every pair of its four vertices, in
/// lexicographic order.
pub open spec fn tetrahedron_edge_list() -> Seq<Seq<usize>> {
    seq![
        seq![0usize, 1],
        seq![0usize, 2],
        seq![0usize, 3],
        seq![1usize, 2],
        seq![1usize, 3],
        seq![2usize, 3],
    ]
}

/// The six edges of the tetrahedron: every pair of its four vertices, in lexicographic order.
pub fn compute_edges() -> (r: [TetrahedronEdge; 6])
    ensures
        forall|k: int| 0 <= k < 6 ==> (#[trigger] r[k]).vertex_indices@ == tetrahedron_edge_list()[k],
{
    let r = [
        TetrahedronEdge { vertex_indices: [0, 1] },
        TetrahedronEdge { vertex_indices: [0, 2] },
        TetrahedronEdge { vertex_indices: [0, 3] },
        TetrahedronEdge { vertex_indices: [1, 2] },
        TetrahedronEdge { vertex_indices: [1, 3] },
        TetrahedronEdge { vertex_indices: [2, 3] },
    ];
    assert(r[0].vertex_indices@ =~= seq![0usize, 1]);
    assert(r[1].vertex_indices@ =~= seq![0usize, 2]);
    assert(r[2].vertex_indices@ =~= seq![0usize, 3]);
    assert(r[3].vertex_indices@ =~= seq![1usize, 2]);
    assert(r[4].vertex_indices@ =~= seq![1usize, 3]);
    assert(r[5].vertex_indices@ =~= seq![2usize, 3]);
    assert forall|k: int| 0 <= k < 6 implies (#[trigger] r[k]).vertex_indices@ == tetrahedron_edge_list()[k] by {
        if k == 0 {} else if k == 1 {} else if k == 2 {} else if k == 3 {} else if k == 4 {} else {}
    }
    r
}

/// Whether some edge of the tetrahedron runs from vertex `a` to vertex `b`.
pub open spec fn tetrahedron_joins(a: usize, b: usize) -> bool {
    exists|k: int| 0 <= k < 6 && tetrahedron_edge_list()[k][0] == a && tetrahedron_edge_list()[k][1] == b
}

/// The tetrahedron's edge list joins every pair of distinct vertices exactly once: each edge
/// has two distinct endpoints below 4, and the six edges are pairwise different even when
/// read in either direction.
pub proof fn law_tetrahedron_edges_complete()
    ensures
        forall|k: int|
            0 <= k < 6 ==> #[trigger] tetrahedron_edge_list()[k][0] < 4 && tetrahedron_edge_list()[k][1] < 4
                && tetrahedron_edge_list()[k][0] != tetrahedron_edge_list()[k][1],
        forall|k: int, l: int|
            0 <= k < l < 6 ==> !(#[trigger] tetrahedron_edge_list()[k][0] == #[trigger] tetrahedron_edge_list()[l][0]
                && tetrahedron_edge_list()[k][1] == tetrahedron_edge_list()[l][1]) && !(tetrahedron_edge_list()[k][0]
                == tetrahedron_edge_list()[l][1] && tetrahedron_edge_list()[k][1] == tetrahedron_edge_list()[l][0]),
        forall|a: usize, b: usize| a < b < 4 ==> #[trigger] tetrahedron_joins(a, b),
{
    let e = tetrahedron_edge_list();
    assert forall|a: usize, b: usize| a < b < 4 implies #[trigger] tetrahedron_joins(a, b) by {
        if a == 0 && b == 1 {
            assert(e[0][0] == a && e[0][1] == b);
        } else if a == 0 && b == 2 {
            assert(e[1][0] == a && e[1][1] == b);
        } else if a == 0 && b == 3 {
            assert(e[2][0] == a && e[2][1] == b);
        } else if a == 1 && b == 2 {
            assert(e[3][0] == a && e[3][1] == b);
        } else if a == 1 && b == 3 {
            assert(e[4][0] == a && e[4][1] == b);
        } else {
            assert(e[5][0] == a && e[5][1] == b);
        }
    }
}

/// An RGBA color of a component label.
#[derive(Debug, Clone, Copy, PartialEq, Eq, Structural)]
pub struct ComponentColor {
    pub r: u8,
    pub g: u8,
    pub b: u8,
    pub a: u8,
}

} // verus!
