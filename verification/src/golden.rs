//! The 600-cell, the 120-cell and the 5-cell with exact vertex coordinates.
//!
//! Their coordinates involve the golden ratio φ = (1 + √5) / 2 (the 5-cell's, scaled by √5,
//! involve √5 = 2φ - 1), so each coordinate is held
//! as a number `a + bφ` of ℤ[φ], written as the pair `(a, b)`. Since φ² = φ + 1, squares
//! and sums stay in ℤ[φ], and since φ is irrational, two such numbers are equal exactly
//! when both parts are. Vertices come in families: a base vector of four coordinates,
//! placed on the axes by each of a set of permutations, with every choice of signs on its
//! signed entries.
use vstd::prelude::*;

use crate::polytopes::{
    bit_of, bit_value, create_5_cell_edges, five_cell_edge_spec, occurrences, scan_edges, scan_row,
};

verus! {

/// `-x` in ℤ[φ].
pub open spec fn golden_neg(x: (int, int)) -> (int, int) {
    (-x.0, -x.1)
}

/// `x - y` in ℤ[φ].
pub open spec fn golden_sub(x: (int, int), y: (int, int)) -> (int, int) {
    (x.0 - y.0, x.1 - y.1)
}

/// `x²` in ℤ[φ]: (a + bφ)² = a² + b² + (2ab + b²)φ, since φ² = φ + 1.
pub open spec fn golden_sq(x: (int, int)) -> (int, int) {
    (x.0 * x.0 + x.1 * x.1, 2 * x.0 * x.1 + x.1 * x.1)
}

/// The squared distance of two points with coordinates in ℤ[φ].
pub open spec fn golden_dist(u: Seq<(int, int)>, v: Seq<(int, int)>) -> (int, int) {
    let d0 = golden_sq(golden_sub(u[0], v[0]));
    let d1 = golden_sq(golden_sub(u[1], v[1]));
    let d2 = golden_sq(golden_sub(u[2], v[2]));
    let d3 = golden_sq(golden_sub(u[3], v[3]));
    (d0.0 + d1.0 + d2.0 + d3.0, d0.1 + d1.1 + d2.1 + d3.1)
}

/// The coordinates of a vertex as numbers of ℤ[φ].
pub open spec fn golden_coords(v: [(i8, i8); 4]) -> Seq<(int, int)> {
    Seq::new(4, |k: int| (v[k].0 as int, v[k].1 as int))
}

/// How the four entries of a base vector are placed on the axes.
#[derive(Debug, Clone, Copy, PartialEq, Eq, Structural)]
pub enum Placement {
    /// The last entry on each of the four axes, the others on the remaining axes in order.
    Single,
    /// The last two entries on each of the six axis pairs, the others on the remaining axes.
    Pair,
    /// As given.
    Identity,
    /// By each of the twelve even permutations.
    Even,
}

/// Number of placements of each kind.
pub open spec fn placement_count(p: Placement) -> int {
    match p {
        Placement::Single => 4,
        Placement::Pair => 6,
        Placement::Identity => 1,
        Placement::Even => 12,
    }
}

/// The axes that the entries of the base vector go to under placement `q`.
pub open spec fn placement_axes(p: Placement, q: int) -> Seq<int> {
    match p {
        Placement::Single => if q == 0 {
            seq![1, 2, 3, 0]
        } else if q == 1 {
            seq![0, 2, 3, 1]
        } else if q == 2 {
            seq![0, 1, 3, 2]
        } else {
            seq![0, 1, 2, 3]
        },
        Placement::Pair => if q == 0 {
            seq![2, 3, 0, 1]
        } else if q == 1 {
            seq![1, 3, 0, 2]
        } else if q == 2 {
            seq![1, 2, 0, 3]
        } else if q == 3 {
            seq![0, 3, 1, 2]
        } else if q == 4 {
            seq![0, 2, 1, 3]
        } else {
            seq![0, 1, 2, 3]
        },
        Placement::Identity => seq![0, 1, 2, 3],
        Placement::Even => if q == 0 {
            seq![0, 1, 2, 3]
        } else if q == 1 {
            seq![0, 2, 3, 1]
        } else if q == 2 {
            seq![0, 3, 1, 2]
        } else if q == 3 {
            seq![1, 0, 3, 2]
        } else if q == 4 {
            seq![1, 2, 0, 3]
        } else if q == 5 {
            seq![1, 3, 2, 0]
        } else if q == 6 {
            seq![2, 0, 1, 3]
        } else if q == 7 {
            seq![2, 1, 3, 0]
        } else if q == 8 {
            seq![2, 3, 0, 1]
        } else if q == 9 {
            seq![3, 0, 2, 1]
        } else if q == 10 {
            seq![3, 1, 0, 2]
        } else {
            seq![3, 2, 1, 0]
        },
    }
}

/// Number of sign choices on `z` signed entries.
pub open spec fn sign_choices(z: int) -> int {
    if z <= 0 {
        1
    } else if z == 1 {
        2
    } else if z == 2 {
        4
    } else if z == 3 {
        8
    } else {
        16
    }
}

/// Entry `k` of the base vector under sign choice `s`: the entries from `lead` on are
/// signed, entry `lead + r` negated when bit `r` of `s` is set.
pub open spec fn signed_entry(base: Seq<(int, int)>, lead: int, s: int, k: int) -> (int, int) {
    if k >= lead && bit_of(s, k - lead) {
        golden_neg(base[k])
    } else {
        base[k]
    }
}

/// Vertex `j` of a family: placement `j / sign_choices(z)`, sign choice
/// `j % sign_choices(z)`.
pub open spec fn family_vertex(base: Seq<(int, int)>, p: Placement, lead: int, z: int, j: int) -> Seq<(int, int)> {
    let q = j / sign_choices(z);
    let s = j % sign_choices(z);
    let axes = placement_axes(p, q);
    seq![(0int, 0int), (0int, 0int), (0int, 0int), (0int, 0int)].update(axes[0], signed_entry(base, lead, s, 0)).update(
        axes[1],
        signed_entry(base, lead, s, 1),
    ).update(axes[2], signed_entry(base, lead, s, 2)).update(axes[3], signed_entry(base, lead, s, 3))
}

/// Number of vertices of a family.
pub open spec fn family_size(p: Placement, z: int) -> int {
    placement_count(p) * sign_choices(z)
}

/// Vertex `i` of the 600-cell, scaled to circumradius 2: the 8 points ±2 on one axis, the
/// 16 points (±1, ±1, ±1, ±1), and the 96 even permutations of (±φ, ±1, ±φ⁻¹, 0).
pub open spec fn cell600_vertex(i: int) -> Seq<(int, int)> {
    if i < 8 {
        family_vertex(seq![(0, 0), (0, 0), (0, 0), (2, 0)], Placement::Single, 3, 1, i)
    } else if i < 24 {
        family_vertex(seq![(1, 0), (1, 0), (1, 0), (1, 0)], Placement::Identity, 0, 4, i - 8)
    } else {
        family_vertex(seq![(0, 1), (1, 0), (-1, 1), (0, 0)], Placement::Even, 0, 3, i - 24)
    }
}

/// Vertex `i` of the 120-cell, scaled to circumradius 2√2: the permutations of
/// (0, 0, ±2, ±2), (±1, ±1, ±1, ±√5), (±φ, ±φ, ±φ, ±φ⁻²) and (±φ⁻¹, ±φ⁻¹, ±φ⁻¹, ±φ²), and the
/// even permutations of (0, ±φ⁻², ±1, ±φ²), (0, ±φ⁻¹, ±φ, ±√5) and (±φ⁻¹, ±1, ±φ, ±2).
/// (φ⁻¹ = φ - 1, φ⁻² = 2 - φ, φ² = φ + 1, √5 = 2φ - 1.)
pub open spec fn cell120_vertex(i: int) -> Seq<(int, int)> {
    if i < 24 {
        family_vertex(seq![(0, 0), (0, 0), (2, 0), (2, 0)], Placement::Pair, 2, 2, i)
    } else if i < 88 {
        family_vertex(seq![(1, 0), (1, 0), (1, 0), (-1, 2)], Placement::Single, 0, 4, i - 24)
    } else if i < 152 {
        family_vertex(seq![(0, 1), (0, 1), (0, 1), (2, -1)], Placement::Single, 0, 4, i - 88)
    } else if i < 216 {
        family_vertex(seq![(-1, 1), (-1, 1), (-1, 1), (1, 1)], Placement::Single, 0, 4, i - 152)
    } else if i < 312 {
        family_vertex(seq![(0, 0), (2, -1), (1, 0), (1, 1)], Placement::Even, 1, 3, i - 216)
    } else if i < 408 {
        family_vertex(seq![(0, 0), (-1, 1), (0, 1), (-1, 2)], Placement::Even, 1, 3, i - 312)
    } else {
        family_vertex(seq![(-1, 1), (1, 0), (0, 1), (2, 0)], Placement::Even, 0, 4, i - 408)
    }
}

/// Squared edge length of the 600-cell at circumradius 2: (2/φ)² = 8 - 4φ.
pub open spec fn cell600_edge_sq() -> (int, int) {
    (8, -4)
}

/// Squared edge length of the 120-cell at circumradius 2√2: (2/φ²)² = 20 - 12φ.
pub open spec fn cell120_edge_sq() -> (int, int) {
    (20, -12)
}

/// Vertices of the 600-cell are joined when at edge length.
pub open spec fn cell600_adj() -> spec_fn(int, int) -> bool {
    |a: int, b: int| golden_dist(cell600_vertex(a), cell600_vertex(b)) == cell600_edge_sq()
}

/// Vertices of the 120-cell are joined when at edge length.
pub open spec fn cell120_adj() -> spec_fn(int, int) -> bool {
    |a: int, b: int| golden_dist(cell120_vertex(a), cell120_vertex(b)) == cell120_edge_sq()
}

/// The flat edge list of the 600-cell.
pub open spec fn six_hundred_cell_edge_spec() -> Seq<u16> {
    scan_edges(120, 120, cell600_adj())
}

/// The flat edge list of the 120-cell.
pub open spec fn hundred_twenty_cell_edge_spec() -> Seq<u16> {
    scan_edges(600, 600, cell120_adj())
}

fn placement_axes_exec(p: Placement, q: usize) -> (r: [usize; 4])
    requires
        q < placement_count(p),
    ensures
        forall|k: int| 0 <= k < 4 ==> r[k] as int == #[trigger] placement_axes(p, q as int)[k],
        forall|k: int| 0 <= k < 4 ==> r[k] < 4,
{
    match p {
        Placement::Single => if q == 0 {
            [1, 2, 3, 0]
        } else if q == 1 {
            [0, 2, 3, 1]
        } else if q == 2 {
            [0, 1, 3, 2]
        } else {
            [0, 1, 2, 3]
        },
        Placement::Pair => if q == 0 {
            [2, 3, 0, 1]
        } else if q == 1 {
            [1, 3, 0, 2]
        } else if q == 2 {
            [1, 2, 0, 3]
        } else if q == 3 {
            [0, 3, 1, 2]
        } else if q == 4 {
            [0, 2, 1, 3]
        } else {
            [0, 1, 2, 3]
        },
        Placement::Identity => [0, 1, 2, 3],
        Placement::Even => if q == 0 {
            [0, 1, 2, 3]
        } else if q == 1 {
            [0, 2, 3, 1]
        } else if q == 2 {
            [0, 3, 1, 2]
        } else if q == 3 {
            [1, 0, 3, 2]
        } else if q == 4 {
            [1, 2, 0, 3]
        } else if q == 5 {
            [1, 3, 2, 0]
        } else if q == 6 {
            [2, 0, 1, 3]
        } else if q == 7 {
            [2, 1, 3, 0]
        } else if q == 8 {
            [2, 3, 0, 1]
        } else if q == 9 {
            [3, 0, 2, 1]
        } else if q == 10 {
            [3, 1, 0, 2]
        } else {
            [3, 2, 1, 0]
        },
    }
}

fn placement_count_exec(p: Placement) -> (r: usize)
    ensures
        r == placement_count(p),
{
    match p {
        Placement::Single => 4,
        Placement::Pair => 6,
        Placement::Identity => 1,
        Placement::Even => 12,
    }
}

fn sign_choices_exec(z: usize) -> (r: usize)
    requires
        z <= 4,
    ensures
        r == sign_choices(z as int),
        r >= 1,
{
    if z == 0 {
        1
    } else if z == 1 {
        2
    } else if z == 2 {
        4
    } else if z == 3 {
        8
    } else {
        16
    }
}

/// Whether bit `r` (below 4) of `s` is set.
fn bit_set(s: usize, r: usize) -> (b: bool)
    requires
        r < 4,
    ensures
        b == bit_of(s as int, r as int),
{
    let v: usize = if r == 0 {
        1
    } else if r == 1 {
        2
    } else if r == 2 {
        4
    } else {
        8
    };
    assert(v == bit_value(r as int));
    (s / v) % 2 == 1
}

fn signed_entry_exec(base: &[(i8, i8); 4], lead: usize, s: usize, k: usize) -> (e: (i8, i8))
    requires
        k < 4,
        forall|m: int| 0 <= m < 4 ==> -127 <= #[trigger] base[m].0 && -127 <= base[m].1,
    ensures
        (e.0 as int, e.1 as int) == signed_entry(golden_coords(*base), lead as int, s as int, k as int),
        -127 <= e.0 && -127 <= e.1,
{
    let b = base[k];
    if k >= lead && bit_set(s, k - lead) {
        (-b.0, -b.1)
    } else {
        b
    }
}

/// Vertex `j` of a family.
fn family_vertex_exec(base: &[(i8, i8); 4], p: Placement, lead: usize, z: usize, j: usize) -> (v: [(i8, i8); 4])
    requires
        z <= 4,
        j < family_size(p, z as int),
        forall|m: int| 0 <= m < 4 ==> -127 <= #[trigger] base[m].0 && -127 <= base[m].1,
    ensures
        golden_coords(v) == family_vertex(golden_coords(*base), p, lead as int, z as int, j as int),
{
    let choices = sign_choices_exec(z);
    let q = j / choices;
    let s = j % choices;
    assert(q < placement_count(p)) by (nonlinear_arith)
        requires
            j < placement_count(p) * choices,
            choices >= 1,
            q == j / choices,
    ;
    let axes = placement_axes_exec(p, q);
    let e0 = signed_entry_exec(base, lead, s, 0);
    let e1 = signed_entry_exec(base, lead, s, 1);
    let e2 = signed_entry_exec(base, lead, s, 2);
    let e3 = signed_entry_exec(base, lead, s, 3);
    let mut v: [(i8, i8); 4] = [(0, 0); 4];
    v[axes[0]] = e0;
    v[axes[1]] = e1;
    v[axes[2]] = e2;
    v[axes[3]] = e3;
    proof {
        let spec_axes = placement_axes(p, q as int);
        assert(spec_axes[0] == axes[0] as int && spec_axes[1] == axes[1] as int);
        assert(spec_axes[2] == axes[2] as int && spec_axes[3] == axes[3] as int);
        assert(golden_coords(v) =~= family_vertex(golden_coords(*base), p, lead as int, z as int, j as int));
    }
    v
}

/// Appends the vertices of a family, in order.
fn push_family(vertices: &mut Vec<[(i8, i8); 4]>, base: [(i8, i8); 4], p: Placement, lead: usize, z: usize)
    requires
        z <= 4,
        old(vertices)@.len() + family_size(p, z as int) <= 1000,
        forall|m: int| 0 <= m < 4 ==> -127 <= #[trigger] base[m].0 && -127 <= base[m].1,
    ensures
        final(vertices)@.len() == old(vertices)@.len() + family_size(p, z as int),
        forall|m: int| 0 <= m < old(vertices)@.len() ==> final(vertices)@[m] == old(vertices)@[m],
        forall|j: int|
            0 <= j < family_size(p, z as int) ==> golden_coords(#[trigger] final(vertices)@[old(vertices)@.len() + j])
                == family_vertex(golden_coords(base), p, lead as int, z as int, j),
{
    let size = placement_count_exec(p) * sign_choices_exec(z);
    let start = vertices.len();
    let mut j: usize = 0;
    while j < size
        invariant
            z <= 4,
            size == family_size(p, z as int),
            start == old(vertices)@.len(),
            j <= size,
            vertices@.len() == start + j,
            forall|m: int| 0 <= m < 4 ==> -127 <= #[trigger] base[m].0 && -127 <= base[m].1,
            forall|m: int| 0 <= m < start ==> vertices@[m] == old(vertices)@[m],
            forall|i: int|
                0 <= i < j ==> golden_coords(#[trigger] vertices@[start + i]) == family_vertex(
                    golden_coords(base),
                    p,
                    lead as int,
                    z as int,
                    i,
                ),
        decreases size - j,
    {
        let v = family_vertex_exec(&base, p, lead, z, j);
        vertices.push(v);
        proof {
            assert(vertices@[start + j as int] == v);
        }
        j = j + 1;
    }
}

fn golden_sq_exec(a: i32, b: i32) -> (r: (i32, i32))
    requires
        -255 <= a <= 255,
        -255 <= b <= 255,
    ensures
        (r.0 as int, r.1 as int) == golden_sq((a as int, b as int)),
        0 <= r.0 <= 130050,
        -195075 <= r.1 <= 195075,
{
    assert(0 <= a * a <= 65025 && 0 <= b * b <= 65025 && -65025 <= a * b <= 65025) by (nonlinear_arith)
        requires
            -255 <= a <= 255,
            -255 <= b <= 255,
    ;
    let ab = a * b;
    assert(2 * (a as int) * (b as int) == 2 * (ab as int)) by (nonlinear_arith)
        requires
            ab == a * b,
    ;
    (a * a + b * b, 2 * ab + b * b)
}

/// Squared distance of two vertices with coordinates in ℤ[φ].
fn golden_dist_exec(u: &[(i8, i8); 4], v: &[(i8, i8); 4]) -> (r: (i32, i32))
    ensures
        (r.0 as int, r.1 as int) == golden_dist(golden_coords(*u), golden_coords(*v)),
{
    let d0 = golden_sq_exec(u[0].0 as i32 - v[0].0 as i32, u[0].1 as i32 - v[0].1 as i32);
    let d1 = golden_sq_exec(u[1].0 as i32 - v[1].0 as i32, u[1].1 as i32 - v[1].1 as i32);
    let d2 = golden_sq_exec(u[2].0 as i32 - v[2].0 as i32, u[2].1 as i32 - v[2].1 as i32);
    let d3 = golden_sq_exec(u[3].0 as i32 - v[3].0 as i32, u[3].1 as i32 - v[3].1 as i32);
    (d0.0 + d1.0 + d2.0 + d3.0, d0.1 + d1.1 + d2.1 + d3.1)
}

/// The flat edge list of the pairs of `vertices` at squared distance `target`, in
/// lexicographic order.
fn golden_edges(vertices: &Vec<[(i8, i8); 4]>, n: u16, target: (i32, i32), Ghost(vertex): Ghost<
    spec_fn(int) -> Seq<(int, int)>,
>) -> (r: Vec<u16>)
    requires
        vertices@.len() == n,
        forall|m: int| 0 <= m < n ==> golden_coords(#[trigger] vertices@[m]) == vertex(m),
    ensures
        r@ == scan_edges(
            n as int,
            n as int,
            |a: int, b: int| golden_dist(vertex(a), vertex(b)) == (target.0 as int, target.1 as int),
        ),
{
    let ghost adj = |a: int, b: int| golden_dist(vertex(a), vertex(b)) == (target.0 as int, target.1 as int);
    let mut indices: Vec<u16> = Vec::new();
    let mut i: u16 = 0;
    while i < n
        invariant
            i <= n,
            vertices@.len() == n,
            forall|m: int| 0 <= m < n ==> golden_coords(#[trigger] vertices@[m]) == vertex(m),
            adj == (|a: int, b: int| golden_dist(vertex(a), vertex(b)) == (target.0 as int, target.1 as int)),
            indices@ == scan_edges(n as int, i as int, adj),
        decreases n - i,
    {
        let mut j: u16 = i + 1;
        while j < n
            invariant
                i < n,
                i + 1 <= j <= n,
                vertices@.len() == n,
                forall|m: int| 0 <= m < n ==> golden_coords(#[trigger] vertices@[m]) == vertex(m),
                adj == (|a: int, b: int| golden_dist(vertex(a), vertex(b)) == (target.0 as int, target.1 as int)),
                indices@ == scan_edges(n as int, i as int, adj) + scan_row(i as int, j as int, adj),
            decreases n - j,
        {
            let d = golden_dist_exec(&vertices[i as usize], &vertices[j as usize]);
            if d.0 == target.0 && d.1 == target.1 {
                indices.push(i);
                indices.push(j);
            }
            proof {
                assert(golden_coords(vertices@[i as int]) == vertex(i as int));
                assert(golden_coords(vertices@[j as int]) == vertex(j as int));
                assert(indices@ =~= scan_edges(n as int, i as int, adj) + scan_row(i as int, j + 1, adj));
            }
            j = j + 1;
        }
        proof {
            assert(scan_edges(n as int, i + 1, adj) == scan_edges(n as int, i as int, adj) + scan_row(i as int, n as int, adj));
        }
        i = i + 1;
    }
    indices
}

/// The 600-cell: its 120 vertices (see `cell600_vertex`) and its edges, the pairs at
/// squared distance 8 - 4φ.
pub fn create_600_cell() -> (r: (Vec<[(i8, i8); 4]>, Vec<u16>))
    ensures
        r.0@.len() == 120,
        forall|i: int| 0 <= i < 120 ==> golden_coords(#[trigger] r.0@[i]) == cell600_vertex(i),
        r.1@ == six_hundred_cell_edge_spec(),
{
    let base0: [(i8, i8); 4] = [(0, 0), (0, 0), (0, 0), (2, 0)];
    let base1: [(i8, i8); 4] = [(1, 0), (1, 0), (1, 0), (1, 0)];
    let base2: [(i8, i8); 4] = [(0, 1), (1, 0), (-1, 1), (0, 0)];
    let mut vertices: Vec<[(i8, i8); 4]> = Vec::new();
    let ghost before0 = vertices@;
    push_family(&mut vertices, base0, Placement::Single, 3, 1);
    proof {
        assert(golden_coords(base0) =~= seq![(0int, 0int), (0, 0), (0, 0), (2, 0)]);
        assert forall|i: int| 0 <= i < 8 implies golden_coords(#[trigger] vertices@[i]) == cell600_vertex(i) by {
            assert(vertices@[i] == vertices@[0 + i]);
        }
    }
    let ghost before1 = vertices@;
    push_family(&mut vertices, base1, Placement::Identity, 0, 4);
    proof {
        assert(golden_coords(base1) =~= seq![(1int, 0int), (1, 0), (1, 0), (1, 0)]);
        assert forall|i: int| 0 <= i < 24 implies golden_coords(#[trigger] vertices@[i]) == cell600_vertex(i) by {
            if i < 8 {
                assert(vertices@[i] == before1[i]);
            } else {
                assert(vertices@[i] == vertices@[8 + (i - 8)]);
            }
        }
    }
    let ghost before2 = vertices@;
    push_family(&mut vertices, base2, Placement::Even, 0, 3);
    proof {
        assert(golden_coords(base2) =~= seq![(0int, 1int), (1, 0), (-1, 1), (0, 0)]);
        assert forall|i: int| 0 <= i < 120 implies golden_coords(#[trigger] vertices@[i]) == cell600_vertex(i) by {
            if i < 24 {
                assert(vertices@[i] == before2[i]);
            } else {
                assert(vertices@[i] == vertices@[24 + (i - 24)]);
            }
        }
    }
    let edges = golden_edges(&vertices, 120, (8, -4), Ghost(|i: int| cell600_vertex(i)));
    proof {
        assert((|a: int, b: int|
            golden_dist((|i: int| cell600_vertex(i))(a), (|i: int| cell600_vertex(i))(b)) == (8int, -4int))
            =~= cell600_adj());
    }
    (vertices, edges)
}

/// The 120-cell: its 600 vertices (see `cell120_vertex`) and its edges, the pairs at
/// squared distance 20 - 12φ.
pub fn create_120_cell() -> (r: (Vec<[(i8, i8); 4]>, Vec<u16>))
    ensures
        r.0@.len() == 600,
        forall|i: int| 0 <= i < 600 ==> golden_coords(#[trigger] r.0@[i]) == cell120_vertex(i),
        r.1@ == hundred_twenty_cell_edge_spec(),
{
    let base0: [(i8, i8); 4] = [(0, 0), (0, 0), (2, 0), (2, 0)];
    let base1: [(i8, i8); 4] = [(1, 0), (1, 0), (1, 0), (-1, 2)];
    let base2: [(i8, i8); 4] = [(0, 1), (0, 1), (0, 1), (2, -1)];
    let base3: [(i8, i8); 4] = [(-1, 1), (-1, 1), (-1, 1), (1, 1)];
    let base4: [(i8, i8); 4] = [(0, 0), (2, -1), (1, 0), (1, 1)];
    let base5: [(i8, i8); 4] = [(0, 0), (-1, 1), (0, 1), (-1, 2)];
    let base6: [(i8, i8); 4] = [(-1, 1), (1, 0), (0, 1), (2, 0)];
    let mut vertices: Vec<[(i8, i8); 4]> = Vec::new();
    let ghost before0 = vertices@;
    push_family(&mut vertices, base0, Placement::Pair, 2, 2);
    proof {
        assert(golden_coords(base0) =~= seq![(0int, 0int), (0, 0), (2, 0), (2, 0)]);
        assert forall|i: int| 0 <= i < 24 implies golden_coords(#[trigger] vertices@[i]) == cell120_vertex(i) by {
            assert(vertices@[i] == vertices@[0 + i]);
        }
    }
    let ghost before1 = vertices@;
    push_family(&mut vertices, base1, Placement::Single, 0, 4);
    proof {
        assert(golden_coords(base1) =~= seq![(1int, 0int), (1, 0), (1, 0), (-1, 2)]);
        assert forall|i: int| 0 <= i < 88 implies golden_coords(#[trigger] vertices@[i]) == cell120_vertex(i) by {
            if i < 24 {
                assert(vertices@[i] == before1[i]);
            } else {
                assert(vertices@[i] == vertices@[24 + (i - 24)]);
            }
        }
    }
    let ghost before2 = vertices@;
    push_family(&mut vertices, base2, Placement::Single, 0, 4);
    proof {
        assert(golden_coords(base2) =~= seq![(0int, 1int), (0, 1), (0, 1), (2, -1)]);
        assert forall|i: int| 0 <= i < 152 implies golden_coords(#[trigger] vertices@[i]) == cell120_vertex(i) by {
            if i < 88 {
                assert(vertices@[i] == before2[i]);
            } else {
                assert(vertices@[i] == vertices@[88 + (i - 88)]);
            }
        }
    }
    let ghost before3 = vertices@;
    push_family(&mut vertices, base3, Placement::Single, 0, 4);
    proof {
        assert(golden_coords(base3) =~= seq![(-1int, 1int), (-1, 1), (-1, 1), (1, 1)]);
        assert forall|i: int| 0 <= i < 216 implies golden_coords(#[trigger] vertices@[i]) == cell120_vertex(i) by {
            if i < 152 {
                assert(vertices@[i] == before3[i]);
            } else {
                assert(vertices@[i] == vertices@[152 + (i - 152)]);
            }
        }
    }
    let ghost before4 = vertices@;
    push_family(&mut vertices, base4, Placement::Even, 1, 3);
    proof {
        assert(golden_coords(base4) =~= seq![(0int, 0int), (2, -1), (1, 0), (1, 1)]);
        assert forall|i: int| 0 <= i < 312 implies golden_coords(#[trigger] vertices@[i]) == cell120_vertex(i) by {
            if i < 216 {
                assert(vertices@[i] == before4[i]);
            } else {
                assert(vertices@[i] == vertices@[216 + (i - 216)]);
            }
        }
    }
    let ghost before5 = vertices@;
    push_family(&mut vertices, base5, Placement::Even, 1, 3);
    proof {
        assert(golden_coords(base5) =~= seq![(0int, 0int), (-1, 1), (0, 1), (-1, 2)]);
        assert forall|i: int| 0 <= i < 408 implies golden_coords(#[trigger] vertices@[i]) == cell120_vertex(i) by {
            if i < 312 {
                assert(vertices@[i] == before5[i]);
            } else {
                assert(vertices@[i] == vertices@[312 + (i - 312)]);
            }
        }
    }
    let ghost before6 = vertices@;
    push_family(&mut vertices, base6, Placement::Even, 0, 4);
    proof {
        assert(golden_coords(base6) =~= seq![(-1int, 1int), (1, 0), (0, 1), (2, 0)]);
        assert forall|i: int| 0 <= i < 600 implies golden_coords(#[trigger] vertices@[i]) == cell120_vertex(i) by {
            if i < 408 {
                assert(vertices@[i] == before6[i]);
            } else {
                assert(vertices@[i] == vertices@[408 + (i - 408)]);
            }
        }
    }
    let edges = golden_edges(&vertices, 600, (20, -12), Ghost(|i: int| cell120_vertex(i)));
    proof {
        assert((|a: int, b: int|
            golden_dist((|i: int| cell120_vertex(i))(a), (|i: int| cell120_vertex(i))(b)) == (20int, -12int))
            =~= cell120_adj());
    }
    (vertices, edges)
}

} // verus!
verus! {

/// `x²` for |x| ≤ 16, by table.
pub open spec fn small_sq(x: int) -> int {
    let y = if x < 0 { -x } else { x };
    if y == 0 { 0 } else if y == 1 { 1 } else if y == 2 { 4 } else if y == 3 { 9 } else if y == 4 { 16 }
    else if y == 5 { 25 } else if y == 6 { 36 } else if y == 7 { 49 } else if y == 8 { 64 }
    else if y == 9 { 81 } else if y == 10 { 100 } else if y == 11 { 121 } else if y == 12 { 144 }
    else if y == 13 { 169 } else if y == 14 { 196 } else if y == 15 { 225 } else { 256 }
}

proof fn lemma_small_sq(x: int)
    requires
        -16 <= x <= 16,
    ensures
        x * x == small_sq(x),
{
    let y = if x < 0 { -x } else { x };
    assert(x * x == y * y) by (nonlinear_arith)
        requires
            y == x || y == -x,
    ;    if y == 0 {
    } else if y == 1 {
    } else if y == 2 {
    } else if y == 3 {
    } else if y == 4 {
    } else if y == 5 {
    } else if y == 6 {
    } else if y == 7 {
    } else if y == 8 {
    } else if y == 9 {
    } else if y == 10 {
    } else if y == 11 {
    } else if y == 12 {
    } else if y == 13 {
    } else if y == 14 {
    } else if y == 15 {
    } else {
        assert(y == 16);
    }
}

/// `x²` in ℤ[φ] by table: a² + b² and 2ab + b² = (a + b)² - a².
pub open spec fn golden_sq_by_table(x: (int, int)) -> (int, int) {
    (small_sq(x.0) + small_sq(x.1), small_sq(x.0 + x.1) - small_sq(x.0))
}

proof fn lemma_golden_sq_by_table(x: (int, int))
    requires
        -8 <= x.0 <= 8,
        -8 <= x.1 <= 8,
    ensures
        golden_sq(x) == golden_sq_by_table(x),
{
    lemma_small_sq(x.0);
    lemma_small_sq(x.1);
    lemma_small_sq(x.0 + x.1);
    assert((x.0 + x.1) * (x.0 + x.1) == x.0 * x.0 + 2 * x.0 * x.1 + x.1 * x.1) by (nonlinear_arith);
}

/// Every coordinate `a + bφ` of the point has |a|, |b| ≤ 4.
pub open spec fn small_coords(u: Seq<(int, int)>) -> bool {
    forall|k: int| 0 <= k < 4 ==> -4 <= #[trigger] u[k].0 <= 4 && -4 <= u[k].1 <= 4
}

/// The squared distance of two points, with squares taken from a table.
pub open spec fn golden_dist_by_table(u: Seq<(int, int)>, v: Seq<(int, int)>) -> (int, int) {
    let d0 = golden_sq_by_table(golden_sub(u[0], v[0]));
    let d1 = golden_sq_by_table(golden_sub(u[1], v[1]));
    let d2 = golden_sq_by_table(golden_sub(u[2], v[2]));
    let d3 = golden_sq_by_table(golden_sub(u[3], v[3]));
    (d0.0 + d1.0 + d2.0 + d3.0, d0.1 + d1.1 + d2.1 + d3.1)
}

/// For points with small coordinates the squared distance can be read off the table.
pub proof fn lemma_golden_dist_by_table(u: Seq<(int, int)>, v: Seq<(int, int)>)
    requires
        small_coords(u),
        small_coords(v),
    ensures
        golden_dist(u, v) == golden_dist_by_table(u, v),
{
    assert(-4 <= u[0].0 <= 4 && -4 <= u[0].1 <= 4 && -4 <= v[0].0 <= 4 && -4 <= v[0].1 <= 4);
    assert(-4 <= u[1].0 <= 4 && -4 <= u[1].1 <= 4 && -4 <= v[1].0 <= 4 && -4 <= v[1].1 <= 4);
    assert(-4 <= u[2].0 <= 4 && -4 <= u[2].1 <= 4 && -4 <= v[2].0 <= 4 && -4 <= v[2].1 <= 4);
    assert(-4 <= u[3].0 <= 4 && -4 <= u[3].1 <= 4 && -4 <= v[3].0 <= 4 && -4 <= v[3].1 <= 4);
    lemma_golden_sq_by_table(golden_sub(u[0], v[0]));
    lemma_golden_sq_by_table(golden_sub(u[1], v[1]));
    lemma_golden_sq_by_table(golden_sub(u[2], v[2]));
    lemma_golden_sq_by_table(golden_sub(u[3], v[3]));
}

/// Vertex `i` of the 5-cell, scaled by √5 (√5 = 2φ - 1): the four points
/// (±√5, ±√5, ±√5, -1) with an even number of minus signs among the first three, and
/// (0, 0, 0, 4).
pub open spec fn cell5_vertex(i: int) -> Seq<(int, int)> {
    if i == 0 {
        seq![(-1, 2), (-1, 2), (-1, 2), (-1, 0)]
    } else if i == 1 {
        seq![(-1, 2), (1, -2), (1, -2), (-1, 0)]
    } else if i == 2 {
        seq![(1, -2), (-1, 2), (1, -2), (-1, 0)]
    } else if i == 3 {
        seq![(1, -2), (1, -2), (-1, 2), (-1, 0)]
    } else {
        seq![(0, 0), (0, 0), (0, 0), (4, 0)]
    }
}

/// Squared edge length of the 5-cell at this scale: 40 (edge length 2√10).
pub open spec fn cell5_edge_sq() -> (int, int) {
    (40, 0)
}

/// The 5-cell: its five vertices (see `cell5_vertex`) and its ten edges, all pairs.
pub fn create_5_cell() -> (r: (Vec<[(i8, i8); 4]>, Vec<u16>))
    ensures
        r.0@.len() == 5,
        forall|i: int| 0 <= i < 5 ==> golden_coords(#[trigger] r.0@[i]) == cell5_vertex(i),
        r.1@ == five_cell_edge_spec(),
{
    let v0: [(i8, i8); 4] = [(-1, 2), (-1, 2), (-1, 2), (-1, 0)];
    let v1: [(i8, i8); 4] = [(-1, 2), (1, -2), (1, -2), (-1, 0)];
    let v2: [(i8, i8); 4] = [(1, -2), (-1, 2), (1, -2), (-1, 0)];
    let v3: [(i8, i8); 4] = [(1, -2), (1, -2), (-1, 2), (-1, 0)];
    let v4: [(i8, i8); 4] = [(0, 0), (0, 0), (0, 0), (4, 0)];
    let vertices = vec![v0, v1, v2, v3, v4];
    proof {
        assert(golden_coords(v0) =~= cell5_vertex(0));
        assert(golden_coords(v1) =~= cell5_vertex(1));
        assert(golden_coords(v2) =~= cell5_vertex(2));
        assert(golden_coords(v3) =~= cell5_vertex(3));
        assert(golden_coords(v4) =~= cell5_vertex(4));
    }
    (vertices, create_5_cell_edges())
}

/// How many entries of a flat edge list name each vertex below `n`: the vertex degrees.
pub fn vertex_degrees(edges: &Vec<u16>, n: usize) -> (r: Vec<usize>)
    ensures
        r@.len() == n,
        forall|v: int| 0 <= v < n ==> #[trigger] r@[v] as int == occurrences(edges@, v),
{
    let mut counts: Vec<usize> = Vec::new();
    let mut v: usize = 0;
    while v < n
        invariant
            v <= n,
            counts@.len() == v,
            forall|w: int| 0 <= w < v ==> counts@[w] == 0,
        decreases n - v,
    {
        counts.push(0);
        v = v + 1;
    }
    proof {
        assert(edges@.take(0) =~= Seq::<u16>::empty());
    }
    let mut k: usize = 0;
    while k < edges.len()
        invariant
            k <= edges@.len(),
            counts@.len() == n,
            forall|w: int| 0 <= w < n ==> #[trigger] counts@[w] as int == occurrences(edges@.take(k as int), w),
            forall|w: int| 0 <= w < n ==> counts@[w] <= k,
        decreases edges@.len() - k,
    {
        let e = edges[k] as usize;
        proof {
            let next = edges@.take(k + 1);
            assert(next.drop_last() =~= edges@.take(k as int));
            assert(next.last() == edges@[k as int]);
        }
        if e < n {
            let c = counts[e];
            counts.set(e, c + 1);
        }
        k = k + 1;
    }
    proof {
        assert(edges@.take(edges@.len() as int) =~= edges@);
    }
    counts
}

/// Whether a flat edge list holds `edge_count` edges and names each vertex below `n`
/// exactly `degree` times.
fn is_regular_edge_list(edges: &Vec<u16>, n: usize, edge_count: usize, degree: usize) -> (r: bool)
    requires
        edge_count <= usize::MAX / 2,
    ensures
        r == (edges@.len() == 2 * edge_count && forall|v: int| 0 <= v < n ==> #[trigger] occurrences(edges@, v) == degree),
{
    if edges.len() != 2 * edge_count {
        return false;
    }
    let degrees = vertex_degrees(edges, n);
    let mut v: usize = 0;
    while v < n
        invariant
            v <= n,
            degrees@.len() == n,
            forall|w: int| 0 <= w < n ==> #[trigger] degrees@[w] as int == occurrences(edges@, w),
            forall|w: int| 0 <= w < v ==> #[trigger] occurrences(edges@, w) == degree,
        decreases n - v,
    {
        if degrees[v] != degree {
            proof {
                assert(degrees@[v as int] as int == occurrences(edges@, v as int));
            }
            return false;
        }
        v = v + 1;
    }
    true
}

/// Whether the 600-cell's edge list holds its 720 edges and every vertex lies on exactly 12
/// of them, decided by counting.
pub fn six_hundred_cell_is_regular() -> (r: bool)
    ensures
        r == (six_hundred_cell_edge_spec().len() == 1440 && forall|v: int|
            0 <= v < 120 ==> #[trigger] occurrences(six_hundred_cell_edge_spec(), v) == 12),
{
    let (_, edges) = create_600_cell();
    is_regular_edge_list(&edges, 120, 720, 12)
}

/// Whether the 120-cell's edge list holds its 1200 edges and every vertex lies on exactly 4
/// of them, decided by counting.
pub fn hundred_twenty_cell_is_regular() -> (r: bool)
    ensures
        r == (hundred_twenty_cell_edge_spec().len() == 2400 && forall|v: int|
            0 <= v < 600 ==> #[trigger] occurrences(hundred_twenty_cell_edge_spec(), v) == 4),
{
    let (_, edges) = create_120_cell();
    is_regular_edge_list(&edges, 600, 1200, 4)
}

} // verus!
