//! Regular convex 4-polytopes, centered at the origin: their catalogue and their
//! combinatorics.
//!
//! | Name | Vertices | Edges | Cells |
//! |------|----------|-------|-------|
//! | 5-cell (pentachoron) | 5 | 10 | 5 |
//! | 8-cell (tesseract) | 16 | 32 | 8 |
//! | 16-cell | 8 | 24 | 16 |
//! | 24-cell | 24 | 96 | 24 |
//! | 120-cell | 600 | 1200 | 120 |
//! | 600-cell | 120 | 720 | 600 |
//!
//! The 8-, 16- and 24-cell have integer vertex coordinates (every coordinate is -1, 0 or 1),
//! which are computed here exactly; the 120-cell's and 600-cell's are computed exactly in
//! ℤ[φ] (see the `golden` module). Edge lists are flat: edge `k` joins the vertices at
//! positions `2k` and `2k + 1`.
use vstd::prelude::*;

use crate::golden::{
    cell120_adj, cell120_edge_sq, cell120_vertex, cell5_edge_sq, cell5_vertex, cell600_adj, cell600_edge_sq,
    cell600_vertex, create_120_cell, create_600_cell, golden_dist, golden_neg, hundred_twenty_cell_edge_spec,
    lemma_golden_dist_by_table, six_hundred_cell_edge_spec, small_coords,
};

verus! {

/// The six regular convex 4-polytopes.
#[derive(Clone, Copy, Debug, PartialEq, Eq, Structural)]
pub enum PolytopeType {
    FiveCell,
    EightCell,
    SixteenCell,
    TwentyFourCell,
    OneHundredTwentyCell,
    SixHundredCell,
}

impl Default for PolytopeType {
    fn default() -> (r: Self)
        ensures
            r == PolytopeType::EightCell,
    {
        PolytopeType::EightCell
    }
}

/// Number of vertices of each polytope.
pub open spec fn spec_vertex_count(p: PolytopeType) -> int {
    match p {
        PolytopeType::FiveCell => 5,
        PolytopeType::EightCell => 16,
        PolytopeType::SixteenCell => 8,
        PolytopeType::TwentyFourCell => 24,
        PolytopeType::OneHundredTwentyCell => 600,
        PolytopeType::SixHundredCell => 120,
    }
}

/// Number of edges of each polytope.
pub open spec fn spec_edge_count(p: PolytopeType) -> int {
    match p {
        PolytopeType::FiveCell => 10,
        PolytopeType::EightCell => 32,
        PolytopeType::SixteenCell => 24,
        PolytopeType::TwentyFourCell => 96,
        PolytopeType::OneHundredTwentyCell => 1200,
        PolytopeType::SixHundredCell => 720,
    }
}

impl PolytopeType {
    /// Full display name.
    pub fn name(&self) -> (r: &'static str)
        ensures
            r@ == match *self {
                PolytopeType::FiveCell => "5-cell (Pentachoron)"@,
                PolytopeType::EightCell => "8-cell (Tesseract)"@,
                PolytopeType::SixteenCell => "16-cell"@,
                PolytopeType::TwentyFourCell => "24-cell"@,
                PolytopeType::OneHundredTwentyCell => "120-cell"@,
                PolytopeType::SixHundredCell => "600-cell"@,
            },
    {
        match self {
            PolytopeType::FiveCell => "5-cell (Pentachoron)",
            PolytopeType::EightCell => "8-cell (Tesseract)",
            PolytopeType::SixteenCell => "16-cell",
            PolytopeType::TwentyFourCell => "24-cell",
            PolytopeType::OneHundredTwentyCell => "120-cell",
            PolytopeType::SixHundredCell => "600-cell",
        }
    }

    /// Short display name.
    pub fn short_name(&self) -> (r: &'static str)
        ensures
            r@ == match *self {
                PolytopeType::FiveCell => "5-cell"@,
                PolytopeType::EightCell => "tesseract"@,
                PolytopeType::SixteenCell => "16-cell"@,
                PolytopeType::TwentyFourCell => "24-cell"@,
                PolytopeType::OneHundredTwentyCell => "120-cell"@,
                PolytopeType::SixHundredCell => "600-cell"@,
            },
    {
        match self {
            PolytopeType::FiveCell => "5-cell",
            PolytopeType::EightCell => "tesseract",
            PolytopeType::SixteenCell => "16-cell",
            PolytopeType::TwentyFourCell => "24-cell",
            PolytopeType::OneHundredTwentyCell => "120-cell",
            PolytopeType::SixHundredCell => "600-cell",
        }
    }

    /// Number of vertices of the polytope.
    pub fn vertex_count(&self) -> (r: usize)
        ensures
            r == spec_vertex_count(*self),
    {
        match self {
            PolytopeType::FiveCell => 5,
            PolytopeType::EightCell => 16,
            PolytopeType::SixteenCell => 8,
            PolytopeType::TwentyFourCell => 24,
            PolytopeType::OneHundredTwentyCell => 600,
            PolytopeType::SixHundredCell => 120,
        }
    }

    /// Number of edges of the polytope.
    pub fn edge_count(&self) -> (r: usize)
        ensures
            r == spec_edge_count(*self),
    {
        match self {
            PolytopeType::FiveCell => 10,
            PolytopeType::EightCell => 32,
            PolytopeType::SixteenCell => 24,
            PolytopeType::TwentyFourCell => 96,
            PolytopeType::OneHundredTwentyCell => 1200,
            PolytopeType::SixHundredCell => 720,
        }
    }

    /// All six polytopes, smallest cell count first.
    pub fn all() -> (r: [PolytopeType; 6])
        ensures
            r@ == seq![
                PolytopeType::FiveCell,
                PolytopeType::EightCell,
                PolytopeType::SixteenCell,
                PolytopeType::TwentyFourCell,
                PolytopeType::OneHundredTwentyCell,
                PolytopeType::SixHundredCell,
            ],
    {
        [
            PolytopeType::FiveCell,
            PolytopeType::EightCell,
            PolytopeType::SixteenCell,
            PolytopeType::TwentyFourCell,
            PolytopeType::OneHundredTwentyCell,
            PolytopeType::SixHundredCell,
        ]
    }
}

// ---------------------------------------------------------------------------------------
// Edge lists built by scanning pairs
// ---------------------------------------------------------------------------------------

/// The flat edge list of row `i` of a pair scan: `(i, k)` for every `i < k < j` that
/// `adj` accepts, in increasing `k`.
pub open spec fn scan_row(i: int, j: int, adj: spec_fn(int, int) -> bool) -> Seq<u16>
    decreases j - i,
{
    if j <= i + 1 {
        seq![]
    } else {
        scan_row(i, j - 1, adj) + if adj(i, j - 1) {
            seq![i as u16, (j - 1) as u16]
        } else {
            seq![]
        }
    }
}

/// The flat edge list of the first `i` rows of a pair scan over `n` vertices: every pair
/// `(a, b)` with `a < i`, `a < b < n` that `adj` accepts, in lexicographic order.
pub open spec fn scan_edges(n: int, i: int, adj: spec_fn(int, int) -> bool) -> Seq<u16>
    decreases i,
{
    if i <= 0 {
        seq![]
    } else {
        scan_edges(n, i - 1, adj) + scan_row(i - 1, n, adj)
    }
}

/// Every two vertices are adjacent.
pub open spec fn complete_adj() -> spec_fn(int, int) -> bool {
    |a: int, b: int| true
}

/// 16-cell vertices are adjacent unless they lie on the same axis.
pub open spec fn cross_adj() -> spec_fn(int, int) -> bool {
    |a: int, b: int| a / 2 != b / 2
}

/// The flat edge list of the 5-cell: all ten pairs of its five vertices.
pub open spec fn five_cell_edge_spec() -> Seq<u16> {
    scan_edges(5, 5, complete_adj())
}

/// Edge list of the 5-cell: every pair of its five vertices, in lexicographic order.
pub fn create_5_cell_edges() -> (r: Vec<u16>)
    ensures
        r@ == five_cell_edge_spec(),
{
    let mut indices: Vec<u16> = Vec::new();
    let mut i: u16 = 0;
    while i < 5
        invariant
            i <= 5,
            indices@ == scan_edges(5, i as int, complete_adj()),
        decreases 5 - i,
    {
        let mut j: u16 = i + 1;
        while j < 5
            invariant
                i < 5,
                i + 1 <= j <= 5,
                indices@ == scan_edges(5, i as int, complete_adj()) + scan_row(i as int, j as int, complete_adj()),
            decreases 5 - j,
        {
            indices.push(i);
            indices.push(j);
            proof {
                assert(indices@ =~= scan_edges(5, i as int, complete_adj()) + scan_row(i as int, j + 1, complete_adj()));
            }
            j = j + 1;
        }
        i = i + 1;
    }
    indices
}

// ---------------------------------------------------------------------------------------
// Lattice vertices
// ---------------------------------------------------------------------------------------

/// Squared euclidean distance between two lattice points.
pub open spec fn dist_sq(a: Seq<int>, b: Seq<int>) -> int {
    (a[0] - b[0]) * (a[0] - b[0]) + (a[1] - b[1]) * (a[1] - b[1]) + (a[2] - b[2]) * (a[2] - b[2])
        + (a[3] - b[3]) * (a[3] - b[3])
}

/// The integer coordinates of a lattice vertex.
pub open spec fn coords(v: [i8; 4]) -> Seq<int> {
    Seq::new(4, |k: int| v[k] as int)
}

/// Vertex `i` of the 16-cell: the unit vector along axis `i / 2`, positive for even `i`.
pub open spec fn cross_vertex(i: int) -> Seq<int> {
    Seq::new(4, |k: int| if k == i / 2 { if i % 2 == 0 { 1 } else { -1 } } else { 0 })
}

/// The flat edge list of the 16-cell.
pub open spec fn sixteen_cell_edge_spec() -> Seq<u16> {
    scan_edges(8, 8, cross_adj())
}

/// The 16-cell: the eight unit vectors along the positive and negative axes, joined
/// whenever they do not lie on the same axis.
pub fn create_16_cell() -> (r: (Vec<[i8; 4]>, Vec<u16>))
    ensures
        r.0@.len() == 8,
        forall|i: int| 0 <= i < 8 ==> coords(#[trigger] r.0@[i]) == cross_vertex(i),
        r.1@ == sixteen_cell_edge_spec(),
{
    let mut vertices: Vec<[i8; 4]> = Vec::new();
    let mut i: usize = 0;
    while i < 8
        invariant
            i <= 8,
            vertices@.len() == i,
            forall|m: int| 0 <= m < i ==> coords(#[trigger] vertices@[m]) == cross_vertex(m),
        decreases 8 - i,
    {
        let axis = i / 2;
        let sign: i8 = if i % 2 == 0 { 1 } else { -1 };
        let mut pos: [i8; 4] = [0; 4];
        pos[axis] = sign;
        vertices.push(pos);
        proof {
            assert(coords(vertices@[i as int]) =~= cross_vertex(i as int));
        }
        i = i + 1;
    }

    let mut indices: Vec<u16> = Vec::new();
    let mut i: u16 = 0;
    while i < 8
        invariant
            i <= 8,
            indices@ == scan_edges(8, i as int, cross_adj()),
        decreases 8 - i,
    {
        let mut j: u16 = i + 1;
        while j < 8
            invariant
                i < 8,
                i + 1 <= j <= 8,
                indices@ == scan_edges(8, i as int, cross_adj()) + scan_row(i as int, j as int, cross_adj()),
            decreases 8 - j,
        {
            if (i / 2) != (j / 2) {
                indices.push(i);
                indices.push(j);
            }
            proof {
                assert(indices@ =~= scan_edges(8, i as int, cross_adj()) + scan_row(i as int, j + 1, cross_adj()));
            }
            j = j + 1;
        }
        i = i + 1;
    }
    (vertices, indices)
}

/// `2^b` for the four bit positions of a tesseract vertex index.
pub open spec fn bit_value(b: int) -> int {
    if b == 0 {
        1
    } else if b == 1 {
        2
    } else if b == 2 {
        4
    } else {
        8
    }
}

/// Whether bit `b` of `i` is set.
pub open spec fn bit_of(i: int, b: int) -> bool {
    (i / bit_value(b)) % 2 == 1
}

/// Vertex `i` of the tesseract: coordinate `k` is 1 when bit `k` of `i` is set, -1 otherwise.
pub open spec fn cube_vertex(i: int) -> Seq<int> {
    Seq::new(4, |k: int| if bit_of(i, k) { 1 } else { -1 })
}

/// Edges from tesseract vertex `i` across its first `b` bits: to `i + 2^k` for each clear
/// bit `k < b`, in bit order.
pub open spec fn cube_row(i: int, b: int) -> Seq<u16>
    decreases b,
{
    if b <= 0 {
        seq![]
    } else {
        cube_row(i, b - 1) + if !bit_of(i, b - 1) {
            seq![i as u16, (i + bit_value(b - 1)) as u16]
        } else {
            seq![]
        }
    }
}

/// Edges of the tesseract leaving vertices below `i` towards larger indices.
pub open spec fn cube_edges(i: int) -> Seq<u16>
    decreases i,
{
    if i <= 0 {
        seq![]
    } else {
        cube_edges(i - 1) + cube_row(i - 1, 4)
    }
}

/// The flat edge list of the tesseract.
pub open spec fn eight_cell_edge_spec() -> Seq<u16> {
    cube_edges(16)
}

/// Flipping bit `bit` of a tesseract vertex index moves up exactly when the bit is clear,
/// and then moves up by `2^bit`.
proof fn lemma_flip_bit(i: u16, bit: u16)
    requires
        i < 16,
        bit < 4,
    ensures
        (i ^ (1u16 << bit)) < 16,
        (i < (i ^ (1u16 << bit))) == !bit_of(i as int, bit as int),
        i < (i ^ (1u16 << bit)) ==> (i ^ (1u16 << bit)) as int == i + bit_value(bit as int),
{
    if bit == 0 {
        assert((i ^ (1u16 << 0u16)) < 16 && ((i < (i ^ (1u16 << 0u16))) == (i % 2 == 0)) && (i < (
        i ^ (1u16 << 0u16)) ==> (i ^ (1u16 << 0u16)) == i + 1)) by (bit_vector)
            requires
                i < 16,
        ;
    } else if bit == 1 {
        assert((i ^ (1u16 << 1u16)) < 16 && ((i < (i ^ (1u16 << 1u16))) == ((i / 2) % 2 == 0)) && (i
            < (i ^ (1u16 << 1u16)) ==> (i ^ (1u16 << 1u16)) == i + 2)) by (bit_vector)
            requires
                i < 16,
        ;
    } else if bit == 2 {
        assert((i ^ (1u16 << 2u16)) < 16 && ((i < (i ^ (1u16 << 2u16))) == ((i / 4) % 2 == 0)) && (i
            < (i ^ (1u16 << 2u16)) ==> (i ^ (1u16 << 2u16)) == i + 4)) by (bit_vector)
            requires
                i < 16,
        ;
    } else {
        assert((i ^ (1u16 << 3u16)) < 16 && ((i < (i ^ (1u16 << 3u16))) == ((i / 8) % 2 == 0)) && (i
            < (i ^ (1u16 << 3u16)) ==> (i ^ (1u16 << 3u16)) == i + 8)) by (bit_vector)
            requires
                i < 16,
        ;
    }
}

/// The mask tests of a vertex index agree with its bits.
proof fn lemma_mask_bits(i: u16)
    requires
        i < 16,
    ensures
        ((i & 1) != 0) == bit_of(i as int, 0),
        ((i & 2) != 0) == bit_of(i as int, 1),
        ((i & 4) != 0) == bit_of(i as int, 2),
        ((i & 8) != 0) == bit_of(i as int, 3),
{
    assert(((i & 1) != 0) == (i % 2 == 1) && ((i & 2) != 0) == ((i / 2) % 2 == 1) && ((i & 4) != 0)
        == ((i / 4) % 2 == 1) && ((i & 8) != 0) == ((i / 8) % 2 == 1)) by (bit_vector)
        requires
            i < 16,
    ;
}

/// The 8-cell (tesseract): the sixteen points with all coordinates ±1, vertex `i` having
/// coordinate `k` positive exactly when bit `k` of `i` is set; two vertices are joined
/// when their indices differ in a single bit.
pub fn create_8_cell() -> (r: (Vec<[i8; 4]>, Vec<u16>))
    ensures
        r.0@.len() == 16,
        forall|i: int| 0 <= i < 16 ==> coords(#[trigger] r.0@[i]) == cube_vertex(i),
        r.1@ == eight_cell_edge_spec(),
{
    let mut vertices: Vec<[i8; 4]> = Vec::new();
    let mut i: u16 = 0;
    while i < 16
        invariant
            i <= 16,
            vertices@.len() == i,
            forall|m: int| 0 <= m < i ==> coords(#[trigger] vertices@[m]) == cube_vertex(m),
        decreases 16 - i,
    {
        proof {
            lemma_mask_bits(i);
        }
        let x: i8 = if (i & 1) != 0 { 1 } else { -1 };
        let y: i8 = if (i & 2) != 0 { 1 } else { -1 };
        let z: i8 = if (i & 4) != 0 { 1 } else { -1 };
        let w: i8 = if (i & 8) != 0 { 1 } else { -1 };
        vertices.push([x, y, z, w]);
        proof {
            assert(coords(vertices@[i as int]) =~= cube_vertex(i as int));
        }
        i = i + 1;
    }

    let mut indices: Vec<u16> = Vec::new();
    let mut i: u16 = 0;
    while i < 16
        invariant
            i <= 16,
            indices@ == cube_edges(i as int),
        decreases 16 - i,
    {
        let mut bit: u16 = 0;
        while bit < 4
            invariant
                i < 16,
                bit <= 4,
                indices@ == cube_edges(i as int) + cube_row(i as int, bit as int),
            decreases 4 - bit,
        {
            proof {
                lemma_flip_bit(i, bit);
            }
            let j = i ^ (1u16 << bit);
            if i < j {
                indices.push(i);
                indices.push(j);
            }
            proof {
                assert(indices@ =~= cube_edges(i as int) + cube_row(i as int, bit + 1));
            }
            bit = bit + 1;
        }
        i = i + 1;
    }
    (vertices, indices)
}

/// Number of axis pairs `(a, b)`, `a < b < 4`, whose first axis is below `i`.
pub open spec fn pairs_before_axis(i: int) -> int {
    if i <= 0 {
        0
    } else if i == 1 {
        3
    } else if i == 2 {
        5
    } else {
        6
    }
}

/// The axes of the `p`-th axis pair in lexicographic order: (0,1), (0,2), (0,3), (1,2),
/// (1,3), (2,3).
pub open spec fn axis_pair(p: int) -> (int, int) {
    if p == 0 {
        (0, 1)
    } else if p == 1 {
        (0, 2)
    } else if p == 2 {
        (0, 3)
    } else if p == 3 {
        (1, 2)
    } else if p == 4 {
        (1, 3)
    } else {
        (2, 3)
    }
}

/// Vertex `v` of the 24-cell: the point with coordinates ±1 on the two axes of pair `v / 4`
/// and 0 elsewhere; the first of them is negative when bit 1 of `v` is set, the second
/// when bit 0 is set.
pub open spec fn cell24_vertex(v: int) -> Seq<int> {
    let (a, b) = axis_pair(v / 4);
    let sa: int = if (v / 2) % 2 == 0 { 1 } else { -1 };
    let sb: int = if v % 2 == 0 { 1 } else { -1 };
    Seq::new(4, |k: int| if k == a { sa } else if k == b { sb } else { 0 })
}

/// 24-cell vertices are joined when their squared distance is 2, the edge length.
pub open spec fn cell24_adj() -> spec_fn(int, int) -> bool {
    |a: int, b: int| dist_sq(cell24_vertex(a), cell24_vertex(b)) == 2
}

/// The flat edge list of the 24-cell.
pub open spec fn twenty_four_cell_edge_spec() -> Seq<u16> {
    scan_edges(24, 24, cell24_adj())
}

/// Squared distance between two lattice vertices.
fn lattice_dist_sq(a: &[i8; 4], b: &[i8; 4]) -> (r: i32)
    ensures
        r == dist_sq(coords(*a), coords(*b)),
{
    let d0 = a[0] as i32 - b[0] as i32;
    let d1 = a[1] as i32 - b[1] as i32;
    let d2 = a[2] as i32 - b[2] as i32;
    let d3 = a[3] as i32 - b[3] as i32;
    assert(d0 * d0 <= 65536 && d1 * d1 <= 65536 && d2 * d2 <= 65536 && d3 * d3 <= 65536
        && d0 * d0 >= 0 && d1 * d1 >= 0 && d2 * d2 >= 0 && d3 * d3 >= 0) by (nonlinear_arith)
        requires
            -256 <= d0 <= 256,
            -256 <= d1 <= 256,
            -256 <= d2 <= 256,
            -256 <= d3 <= 256,
    ;
    d0 * d0 + d1 * d1 + d2 * d2 + d3 * d3
}

/// The 24-cell: the 24 points with ±1 on two axes and 0 on the others (axis pairs in
/// lexicographic order, signs (+,+), (+,-), (-,+), (-,-)), joined when at distance √2.
pub fn create_24_cell() -> (r: (Vec<[i8; 4]>, Vec<u16>))
    ensures
        r.0@.len() == 24,
        forall|v: int| 0 <= v < 24 ==> coords(#[trigger] r.0@[v]) == cell24_vertex(v),
        r.1@ == twenty_four_cell_edge_spec(),
{
    let mut vertices: Vec<[i8; 4]> = Vec::new();
    let mut i: usize = 0;
    while i < 4
        invariant
            i <= 4,
            vertices@.len() == 4 * pairs_before_axis(i as int),
            forall|m: int| 0 <= m < vertices@.len() ==> coords(#[trigger] vertices@[m]) == cell24_vertex(m),
        decreases 4 - i,
    {
        let mut j: usize = i + 1;
        while j < 4
            invariant
                i < 4,
                i + 1 <= j <= 4,
                vertices@.len() == 4 * (pairs_before_axis(i as int) + j - i - 1),
                forall|m: int| 0 <= m < vertices@.len() ==> coords(#[trigger] vertices@[m]) == cell24_vertex(m),
            decreases 4 - j,
        {
            let mut si: usize = 0;
            while si < 2
                invariant
                    i < j < 4,
                    si <= 2,
                    vertices@.len() == 4 * (pairs_before_axis(i as int) + j - i - 1) + 2 * si,
                    forall|m: int| 0 <= m < vertices@.len() ==> coords(#[trigger] vertices@[m]) == cell24_vertex(m),
                decreases 2 - si,
            {
                let mut sj: usize = 0;
                while sj < 2
                    invariant
                        i < j < 4,
                        si < 2,
                        sj <= 2,
                        vertices@.len() == 4 * (pairs_before_axis(i as int) + j - i - 1) + 2 * si + sj,
                        forall|m: int| 0 <= m < vertices@.len() ==> coords(#[trigger] vertices@[m]) == cell24_vertex(m),
                    decreases 2 - sj,
                {
                    let sign_i: i8 = if si == 0 { 1 } else { -1 };
                    let sign_j: i8 = if sj == 0 { 1 } else { -1 };
                    let mut pos: [i8; 4] = [0; 4];
                    pos[i] = sign_i;
                    pos[j] = sign_j;
                    let ghost v = vertices@.len() as int;
                    vertices.push(pos);
                    proof {
                        assert(v / 4 == pairs_before_axis(i as int) + j - i - 1);
                        assert((v / 2) % 2 == si as int);
                        assert(v % 2 == sj as int);
                        assert(axis_pair(v / 4) == (i as int, j as int));
                        assert(coords(vertices@[v]) =~= cell24_vertex(v));
                    }
                    sj = sj + 1;
                }
                si = si + 1;
            }
            j = j + 1;
        }
        i = i + 1;
    }

    let mut indices: Vec<u16> = Vec::new();
    let mut i: u16 = 0;
    while i < 24
        invariant
            i <= 24,
            vertices@.len() == 24,
            forall|m: int| 0 <= m < 24 ==> coords(#[trigger] vertices@[m]) == cell24_vertex(m),
            indices@ == scan_edges(24, i as int, cell24_adj()),
        decreases 24 - i,
    {
        let mut j: u16 = i + 1;
        while j < 24
            invariant
                i < 24,
                i + 1 <= j <= 24,
                vertices@.len() == 24,
                forall|m: int| 0 <= m < 24 ==> coords(#[trigger] vertices@[m]) == cell24_vertex(m),
                indices@ == scan_edges(24, i as int, cell24_adj()) + scan_row(i as int, j as int, cell24_adj()),
            decreases 24 - j,
        {
            let d = lattice_dist_sq(&vertices[i as usize], &vertices[j as usize]);
            if d == 2 {
                indices.push(i);
                indices.push(j);
            }
            proof {
                assert(indices@ =~= scan_edges(24, i as int, cell24_adj()) + scan_row(i as int, j + 1, cell24_adj()));
            }
            j = j + 1;
        }
        i = i + 1;
    }
    (vertices, indices)
}

/// The flat edge list that `create_polytope` returns for each polytope.
pub open spec fn polytope_edge_spec(kind: PolytopeType) -> Seq<u16> {
    match kind {
        PolytopeType::FiveCell => five_cell_edge_spec(),
        PolytopeType::EightCell => eight_cell_edge_spec(),
        PolytopeType::SixteenCell => sixteen_cell_edge_spec(),
        PolytopeType::TwentyFourCell => twenty_four_cell_edge_spec(),
        PolytopeType::OneHundredTwentyCell => hundred_twenty_cell_edge_spec(),
        PolytopeType::SixHundredCell => six_hundred_cell_edge_spec(),
    }
}

/// The polytopes whose vertices have integer coordinates: the 8-cell, the 16-cell and the
/// 24-cell. (The 5-cell's involve 1/√5, the 120-cell's and the 600-cell's the golden ratio.)
pub open spec fn has_lattice_vertices(kind: PolytopeType) -> bool {
    kind == PolytopeType::EightCell || kind == PolytopeType::SixteenCell || kind == PolytopeType::TwentyFourCell
}

/// The lattice vertex `i` of each polytope with integer coordinates.
pub open spec fn polytope_lattice_vertex(kind: PolytopeType, i: int) -> Seq<int> {
    match kind {
        PolytopeType::EightCell => cube_vertex(i),
        PolytopeType::SixteenCell => cross_vertex(i),
        _ => cell24_vertex(i),
    }
}

/// Vertices and edges of a polytope. The vertices are given as integer coordinates for
/// the polytopes that have them (see `has_lattice_vertices`) and are `None` for the others,
/// whose coordinates involve √5: `create_5_cell`, `create_120_cell` and `create_600_cell`
/// give them exactly in ℤ[φ].
pub fn create_polytope(kind: PolytopeType) -> (r: (Option<Vec<[i8; 4]>>, Vec<u16>))
    ensures
        r.1@ == polytope_edge_spec(kind),
        r.0 is Some <==> has_lattice_vertices(kind),
        r.0 matches Some(vs) ==> vs@.len() == spec_vertex_count(kind) && forall|i: int|
            0 <= i < vs@.len() ==> coords(#[trigger] vs@[i]) == polytope_lattice_vertex(kind, i),
{
    match kind {
        PolytopeType::FiveCell => (None, create_5_cell_edges()),
        PolytopeType::OneHundredTwentyCell => (None, create_120_cell().1),
        PolytopeType::SixHundredCell => (None, create_600_cell().1),
        PolytopeType::EightCell => {
            let (vs, es) = create_8_cell();
            (Some(vs), es)
        },
        PolytopeType::SixteenCell => {
            let (vs, es) = create_16_cell();
            (Some(vs), es)
        },
        PolytopeType::TwentyFourCell => {
            let (vs, es) = create_24_cell();
            (Some(vs), es)
        },
    }
}

// ---------------------------------------------------------------------------------------
// Laws of the edge lists
// ---------------------------------------------------------------------------------------

/// A flat edge list holds whole pairs, and every pair `(a, b)` satisfies `p`.
pub open spec fn pairs_satisfy(s: Seq<u16>, p: spec_fn(int, int) -> bool) -> bool {
    &&& s.len() % 2 == 0
    &&& forall|k: int| 0 <= k < s.len() && k % 2 == 0 ==> p(#[trigger] s[k] as int, s[k + 1] as int)
}

proof fn lemma_pairs_concat(a: Seq<u16>, b: Seq<u16>, p: spec_fn(int, int) -> bool)
    requires
        pairs_satisfy(a, p),
        pairs_satisfy(b, p),
    ensures
        pairs_satisfy(a + b, p),
{
    let s = a + b;
    assert forall|k: int| 0 <= k < s.len() && k % 2 == 0 implies p(#[trigger] s[k] as int, s[k + 1] as int) by {
        if k < a.len() {
            assert(s[k] == a[k]);
            assert(s[k + 1] == a[k + 1]);
        } else {
            let k2 = k - a.len();
            assert(s[k] == b[k2]);
            assert(s[k + 1] == b[k2 + 1]);
        }
    }
}

/// The pairs that a scan accepts: ordered, below `n`, and adjacent.
pub open spec fn scan_pair(n: int, adj: spec_fn(int, int) -> bool) -> spec_fn(int, int) -> bool {
    |a: int, b: int| 0 <= a < b < n && adj(a, b)
}

proof fn lemma_scan_row_pairs(n: int, i: int, j: int, adj: spec_fn(int, int) -> bool)
    requires
        0 <= i,
        j <= n <= 65536,
    ensures
        pairs_satisfy(scan_row(i, j, adj), scan_pair(n, adj)),
    decreases j - i,
{
    if j > i + 1 {
        lemma_scan_row_pairs(n, i, j - 1, adj);
        let tail: Seq<u16> = if adj(i, j - 1) { seq![i as u16, (j - 1) as u16] } else { seq![] };
        assert(pairs_satisfy(tail, scan_pair(n, adj)));
        lemma_pairs_concat(scan_row(i, j - 1, adj), tail, scan_pair(n, adj));
    }
}

proof fn lemma_scan_edges_pairs(n: int, i: int, adj: spec_fn(int, int) -> bool)
    requires
        i <= n <= 65536,
    ensures
        pairs_satisfy(scan_edges(n, i, adj), scan_pair(n, adj)),
    decreases i,
{
    if i > 0 {
        lemma_scan_edges_pairs(n, i - 1, adj);
        lemma_scan_row_pairs(n, i - 1, n, adj);
        lemma_pairs_concat(scan_edges(n, i - 1, adj), scan_row(i - 1, n, adj), scan_pair(n, adj));
    }
}

/// The pairs of the tesseract edge list: `b` is `a` with one clear bit set.
pub open spec fn cube_pair() -> spec_fn(int, int) -> bool {
    |a: int, b: int|
        0 <= a < b < 16 && exists|k: int| 0 <= k < 4 && !bit_of(a, k) && b == a + bit_value(k)
}

proof fn lemma_cube_row_pairs(i: int, b: int)
    requires
        0 <= i < 16,
        b <= 4,
    ensures
        pairs_satisfy(cube_row(i, b), cube_pair()),
    decreases b,
{
    if b > 0 {
        lemma_cube_row_pairs(i, b - 1);
        let tail: Seq<u16> = if !bit_of(i, b - 1) {
            seq![i as u16, (i + bit_value(b - 1)) as u16]
        } else {
            seq![]
        };
        if !bit_of(i, b - 1) {
            lemma_clear_bit_room(i, b - 1);
            assert(cube_pair()(i, i + bit_value(b - 1)));
        }
        assert(pairs_satisfy(tail, cube_pair()));
        lemma_pairs_concat(cube_row(i, b - 1), tail, cube_pair());
    }
}

proof fn lemma_cube_edges_pairs(i: int)
    requires
        i <= 16,
    ensures
        pairs_satisfy(cube_edges(i), cube_pair()),
    decreases i,
{
    if i > 0 {
        lemma_cube_edges_pairs(i - 1);
        lemma_cube_row_pairs(i - 1, 4);
        lemma_pairs_concat(cube_edges(i - 1), cube_row(i - 1, 4), cube_pair());
    }
}

/// A vertex index with bit `k` clear stays a vertex index when the bit is set.
proof fn lemma_clear_bit_room(i: int, k: int)
    requires
        0 <= i < 16,
        0 <= k < 4,
        !bit_of(i, k),
    ensures
        i + bit_value(k) < 16,
{
    let iu = i as u16;
    if k == 0 {
        assert((iu as int / 1) % 2 == 0 ==> iu + 1 < 16) by (bit_vector) requires iu < 16;
    } else if k == 1 {
        assert((iu as int / 2) % 2 == 0 ==> iu + 2 < 16) by (bit_vector) requires iu < 16;
    } else if k == 2 {
        assert((iu as int / 4) % 2 == 0 ==> iu + 4 < 16) by (bit_vector) requires iu < 16;
    } else {
        assert((iu as int / 8) % 2 == 0 ==> iu + 8 < 16) by (bit_vector) requires iu < 16;
    }
}

/// Setting a clear bit `k` of a tesseract vertex index changes its coordinate `k` from -1
/// to 1 and no other coordinate.
proof fn lemma_cube_neighbor(a: int, k: int)
    requires
        0 <= a < 16,
        0 <= k < 4,
        !bit_of(a, k),
    ensures
        forall|m: int| 0 <= m < 4 ==> #[trigger] bit_of(a + bit_value(k), m) == (m == k || bit_of(a, m)),
{
    assert forall|m: int| 0 <= m < 4 implies #[trigger] bit_of(a + bit_value(k), m) == (m == k || bit_of(a, m)) by {
        let au = a as u16;
        if k == 0 {
            assert(((au as int / 1) % 2 == 0) ==> (((au + 1) as int / 1) % 2 == 1 && ((au + 1) as int / 2) % 2 == (au as int / 2) % 2
                && ((au + 1) as int / 4) % 2 == (au as int / 4) % 2 && ((au + 1) as int / 8) % 2 == (au as int / 8) % 2)) by (bit_vector)
                requires au < 16;
        } else if k == 1 {
            assert(((au as int / 2) % 2 == 0) ==> (((au + 2) as int / 1) % 2 == (au as int / 1) % 2 && ((au + 2) as int / 2) % 2 == 1
                && ((au + 2) as int / 4) % 2 == (au as int / 4) % 2 && ((au + 2) as int / 8) % 2 == (au as int / 8) % 2)) by (bit_vector)
                requires au < 16;
        } else if k == 2 {
            assert(((au as int / 4) % 2 == 0) ==> (((au + 4) as int / 1) % 2 == (au as int / 1) % 2 && ((au + 4) as int / 2) % 2 == (au as int / 2) % 2
                && ((au + 4) as int / 4) % 2 == 1 && ((au + 4) as int / 8) % 2 == (au as int / 8) % 2)) by (bit_vector)
                requires au < 16;
        } else {
            assert(((au as int / 8) % 2 == 0) ==> (((au + 8) as int / 1) % 2 == (au as int / 1) % 2 && ((au + 8) as int / 2) % 2 == (au as int / 2) % 2
                && ((au + 8) as int / 4) % 2 == (au as int / 4) % 2 && ((au + 8) as int / 8) % 2 == 1)) by (bit_vector)
                requires au < 16;
        }
    }
}

proof fn lemma_complete_row_len(i: int, j: int)
    requires
        0 <= i,
        i + 1 <= j,
    ensures
        scan_row(i, j, complete_adj()).len() == 2 * (j - i - 1),
    decreases j - i,
{
    if j > i + 1 {
        lemma_complete_row_len(i, j - 1);
    }
}

proof fn lemma_cross_row_len(i: int, j: int)
    requires
        0 <= i,
        i + 1 <= j,
    ensures
        scan_row(i, j, cross_adj()).len() == 2 * (j - i - 1) - if i % 2 == 0 && j > i + 1 { 2int } else { 0int },
    decreases j - i,
{
    if j > i + 1 {
        lemma_cross_row_len(i, j - 1);
        assert(cross_adj()(i, j - 1) == !(i % 2 == 0 && j - 1 == i + 1));
    }
}

/// Number of clear bits of `i` below bit `b`.
pub open spec fn clear_bits(i: int, b: int) -> int
    decreases b,
{
    if b <= 0 {
        0
    } else {
        clear_bits(i, b - 1) + if bit_of(i, b - 1) { 0int } else { 1int }
    }
}

proof fn lemma_cube_row_len(i: int, b: int)
    ensures
        cube_row(i, b).len() == 2 * clear_bits(i, b),
    decreases b,
{
    if b > 0 {
        lemma_cube_row_len(i, b - 1);
    }
}

/// Number of clear bits over the first `i` tesseract vertex indices.
pub open spec fn clear_total(i: int) -> int
    decreases i,
{
    if i <= 0 {
        0
    } else {
        clear_total(i - 1) + clear_bits(i - 1, 4)
    }
}

proof fn lemma_cube_edges_len(i: int)
    ensures
        cube_edges(i).len() == 2 * clear_total(i),
    decreases i,
{
    if i > 0 {
        lemma_cube_edges_len(i - 1);
        lemma_cube_row_len(i - 1, 4);
    }
}

/// Lengths of the rows of a pair scan: `row_len(r)` for the rows `r < i`, summed.
pub open spec fn row_total(i: int, row_len: spec_fn(int) -> int) -> int
    decreases i,
{
    if i <= 0 {
        0
    } else {
        row_total(i - 1, row_len) + row_len(i - 1)
    }
}

proof fn lemma_complete_edges_len(i: int)
    requires
        0 <= i <= 5,
    ensures
        scan_edges(5, i, complete_adj()).len() == row_total(i, |r: int| 2 * (5 - r - 1)),
    decreases i,
{
    if i > 0 {
        lemma_complete_edges_len(i - 1);
        lemma_complete_row_len(i - 1, 5);
    }
}

proof fn lemma_cross_edges_len(i: int)
    requires
        0 <= i <= 8,
    ensures
        scan_edges(8, i, cross_adj()).len() == row_total(
            i,
            |r: int| 2 * (8 - r - 1) - if r % 2 == 0 && 8 > r + 1 { 2int } else { 0int },
        ),
    decreases i,
{
    if i > 0 {
        lemma_cross_edges_len(i - 1);
        lemma_cross_row_len(i - 1, 8);
    }
}

/// The sixteen tesseract vertex indices have 32 clear bits in all.
proof fn lemma_clear_total()
    ensures
        clear_total(16) == 32,
{
    assert(clear_bits(0, 4) == 4) by { reveal_with_fuel(clear_bits, 5); }
    assert(clear_bits(1, 4) == 3) by { reveal_with_fuel(clear_bits, 5); }
    assert(clear_bits(2, 4) == 3) by { reveal_with_fuel(clear_bits, 5); }
    assert(clear_bits(3, 4) == 2) by { reveal_with_fuel(clear_bits, 5); }
    assert(clear_bits(4, 4) == 3) by { reveal_with_fuel(clear_bits, 5); }
    assert(clear_bits(5, 4) == 2) by { reveal_with_fuel(clear_bits, 5); }
    assert(clear_bits(6, 4) == 2) by { reveal_with_fuel(clear_bits, 5); }
    assert(clear_bits(7, 4) == 1) by { reveal_with_fuel(clear_bits, 5); }
    assert(clear_bits(8, 4) == 3) by { reveal_with_fuel(clear_bits, 5); }
    assert(clear_bits(9, 4) == 2) by { reveal_with_fuel(clear_bits, 5); }
    assert(clear_bits(10, 4) == 2) by { reveal_with_fuel(clear_bits, 5); }
    assert(clear_bits(11, 4) == 1) by { reveal_with_fuel(clear_bits, 5); }
    assert(clear_bits(12, 4) == 2) by { reveal_with_fuel(clear_bits, 5); }
    assert(clear_bits(13, 4) == 1) by { reveal_with_fuel(clear_bits, 5); }
    assert(clear_bits(14, 4) == 1) by { reveal_with_fuel(clear_bits, 5); }
    assert(clear_bits(15, 4) == 0) by { reveal_with_fuel(clear_bits, 5); }
    reveal_with_fuel(clear_total, 17);
}

/// Every tesseract edge joins two vertices that differ in exactly one coordinate.
pub proof fn lemma_tesseract_edge_axes()
    ensures
        pairs_satisfy(
            eight_cell_edge_spec(),
            |a: int, b: int| exists|k: int| crate::map::differs_only_in(cube_vertex(a), cube_vertex(b), k),
        ),
{
    let s = eight_cell_edge_spec();
    lemma_cube_edges_pairs(16);
    assert forall|k: int| 0 <= k < s.len() && k % 2 == 0 implies exists|kk: int|
        #![trigger crate::map::differs_only_in(cube_vertex(s[k] as int), cube_vertex(s[k + 1] as int), kk)]
        crate::map::differs_only_in(cube_vertex(#[trigger] s[k] as int), cube_vertex(s[k + 1] as int), kk) by {
        let a = s[k] as int;
        let b = s[k + 1] as int;
        assert(cube_pair()(a, b));
        let kk = choose|kk: int| 0 <= kk < 4 && !bit_of(a, kk) && b == a + bit_value(kk);
        lemma_cube_neighbor(a, kk);
        let va = cube_vertex(a);
        let vb = cube_vertex(b);
        assert(bit_of(b, kk));
        assert(va[kk] != vb[kk]);
        assert forall|m: int| 0 <= m < 4 && m != kk implies va[m] == vb[m] by {
            assert(bit_of(b, m) == bit_of(a, m));
        }
        assert(crate::map::differs_only_in(va, vb, kk));
    }
}

/// Coordinate `k` of 24-cell vertex `v` (the entries of `cell24_vertex(v)`).
pub open spec fn cell24_coord(v: int, k: int) -> int {
    let (a, b) = axis_pair(v / 4);
    if k == a {
        if (v / 2) % 2 == 0 { 1 } else { -1 }
    } else if k == b {
        if v % 2 == 0 { 1 } else { -1 }
    } else {
        0
    }
}

/// `(x - y)²` for `x` and `y` in {-1, 0, 1}, without multiplication.
pub open spec fn unit_diff_sq(x: int, y: int) -> int {
    if x == y {
        0
    } else if x + y == 0 {
        4
    } else {
        1
    }
}

/// The squared distance of two 24-cell vertices, coordinate by coordinate.
pub open spec fn cell24_dist(a: int, b: int) -> int {
    unit_diff_sq(cell24_coord(a, 0), cell24_coord(b, 0)) + unit_diff_sq(cell24_coord(a, 1), cell24_coord(b, 1))
        + unit_diff_sq(cell24_coord(a, 2), cell24_coord(b, 2)) + unit_diff_sq(
        cell24_coord(a, 3),
        cell24_coord(b, 3),
    )
}

/// How many of the vertices `i + 1 .. j` of the 24-cell are joined to vertex `i`.
pub open spec fn cell24_count(i: int, j: int) -> int
    decreases j - i,
{
    if j <= i + 1 {
        0
    } else {
        cell24_count(i, j - 1) + if cell24_dist(i, j - 1) == 2 { 1int } else { 0int }
    }
}

proof fn lemma_unit_diff_sq(x: int, y: int)
    requires
        -1 <= x <= 1,
        -1 <= y <= 1,
    ensures
        (x - y) * (x - y) == unit_diff_sq(x, y),
{
    assert((x - y) * (x - y) == unit_diff_sq(x, y)) by (nonlinear_arith)
        requires
            -1 <= x <= 1,
            -1 <= y <= 1,
    ;
}

/// 24-cell adjacency, evaluated coordinate by coordinate.
proof fn lemma_cell24_adj_eval(a: int, b: int)
    ensures
        cell24_adj()(a, b) == (cell24_dist(a, b) == 2),
{
    let (va, vb) = (cell24_vertex(a), cell24_vertex(b));
    assert forall|k: int| 0 <= k < 4 implies va[k] == cell24_coord(a, k) && vb[k] == cell24_coord(b, k) by {}
    lemma_unit_diff_sq(va[0], vb[0]);
    lemma_unit_diff_sq(va[1], vb[1]);
    lemma_unit_diff_sq(va[2], vb[2]);
    lemma_unit_diff_sq(va[3], vb[3]);
}

proof fn lemma_cell24_row_len(i: int, j: int)
    requires
        0 <= i,
        i + 1 <= j,
    ensures
        scan_row(i, j, cell24_adj()).len() == 2 * cell24_count(i, j),
    decreases j - i,
{
    if j > i + 1 {
        lemma_cell24_row_len(i, j - 1);
        lemma_cell24_adj_eval(i, j - 1);
    }
}

/// Each 24-cell vertex is joined to the later vertices of the axis pairs after its own
/// that share one of its axes, two per such pair.
#[verifier::rlimit(50)]
proof fn lemma_cell24_counts()
    ensures
        forall|i: int| 0 <= i < 24 ==> #[trigger] cell24_count(i, 24) == 2 * (
        if i < 4 { 4int } else if i < 8 { 3int } else if i < 16 { 2int } else if i < 20 { 1int } else { 0int }),
{
    assert(cell24_count(0, 24) == 8) by {
        reveal_with_fuel(cell24_count, 24);
    }
    assert(cell24_count(1, 24) == 8) by {
        reveal_with_fuel(cell24_count, 24);
    }
    assert(cell24_count(2, 24) == 8) by {
        reveal_with_fuel(cell24_count, 24);
    }
    assert(cell24_count(3, 24) == 8) by {
        reveal_with_fuel(cell24_count, 24);
    }
    assert(cell24_count(4, 24) == 6) by {
        reveal_with_fuel(cell24_count, 24);
    }
    assert(cell24_count(5, 24) == 6) by {
        reveal_with_fuel(cell24_count, 24);
    }
    assert(cell24_count(6, 24) == 6) by {
        reveal_with_fuel(cell24_count, 24);
    }
    assert(cell24_count(7, 24) == 6) by {
        reveal_with_fuel(cell24_count, 24);
    }
    assert(cell24_count(8, 24) == 4) by {
        reveal_with_fuel(cell24_count, 24);
    }
    assert(cell24_count(9, 24) == 4) by {
        reveal_with_fuel(cell24_count, 24);
    }
    assert(cell24_count(10, 24) == 4) by {
        reveal_with_fuel(cell24_count, 24);
    }
    assert(cell24_count(11, 24) == 4) by {
        reveal_with_fuel(cell24_count, 24);
    }
    assert(cell24_count(12, 24) == 4) by {
        reveal_with_fuel(cell24_count, 24);
    }
    assert(cell24_count(13, 24) == 4) by {
        reveal_with_fuel(cell24_count, 24);
    }
    assert(cell24_count(14, 24) == 4) by {
        reveal_with_fuel(cell24_count, 24);
    }
    assert(cell24_count(15, 24) == 4) by {
        reveal_with_fuel(cell24_count, 24);
    }
    assert(cell24_count(16, 24) == 2) by {
        reveal_with_fuel(cell24_count, 24);
    }
    assert(cell24_count(17, 24) == 2) by {
        reveal_with_fuel(cell24_count, 24);
    }
    assert(cell24_count(18, 24) == 2) by {
        reveal_with_fuel(cell24_count, 24);
    }
    assert(cell24_count(19, 24) == 2) by {
        reveal_with_fuel(cell24_count, 24);
    }
    assert(cell24_count(20, 24) == 0) by {
        reveal_with_fuel(cell24_count, 24);
    }
    assert(cell24_count(21, 24) == 0) by {
        reveal_with_fuel(cell24_count, 24);
    }
    assert(cell24_count(22, 24) == 0) by {
        reveal_with_fuel(cell24_count, 24);
    }
    assert(cell24_count(23, 24) == 0) by {
        reveal_with_fuel(cell24_count, 24);
    }
}

proof fn lemma_cell24_edges_len(i: int)
    requires
        0 <= i <= 24,
    ensures
        scan_edges(24, i, cell24_adj()).len() == row_total(i, |r: int| 2 * cell24_count(r, 24)),
    decreases i,
{
    if i > 0 {
        lemma_cell24_edges_len(i - 1);
        lemma_cell24_row_len(i - 1, 24);
    }
}

/// The edge lists of the 5-, 8-, 16- and 24-cell hold exactly their numbers of edges (two
/// entries per edge).
pub proof fn law_edge_counts(kind: PolytopeType)
    requires
        kind != PolytopeType::OneHundredTwentyCell,
        kind != PolytopeType::SixHundredCell,
    ensures
        polytope_edge_spec(kind).len() == 2 * spec_edge_count(kind),
{
    match kind {
        PolytopeType::FiveCell => {
            lemma_complete_edges_len(5);
            reveal_with_fuel(row_total, 6);
        },
        PolytopeType::SixteenCell => {
            lemma_cross_edges_len(8);
            reveal_with_fuel(row_total, 9);
        },
        PolytopeType::TwentyFourCell => {
            lemma_cell24_edges_len(24);
            lemma_cell24_counts();
            reveal_with_fuel(row_total, 25);
        },
        _ => {
            lemma_cube_edges_len(16);
            lemma_clear_total();
        },
    }
}

/// `(x0, x1)` comes strictly before `(y0, y1)` in lexicographic order.
pub open spec fn lex_less(x0: int, x1: int, y0: int, y1: int) -> bool {
    x0 < y0 || (x0 == y0 && x1 < y1)
}

/// The pairs of a flat edge list are in strictly increasing lexicographic order.
pub open spec fn sorted_pairs(s: Seq<u16>) -> bool {
    &&& s.len() % 2 == 0
    &&& forall|k: int, m: int|
        #![trigger s[k], s[m]]
        0 <= k < m && m + 1 < s.len() && k % 2 == 0 && m % 2 == 0 ==> lex_less(s[k] as int, s[k + 1] as int, s[m] as int, s[m + 1] as int)
}

/// The pairs of a flat edge list all start at `start`, and their second entries lie in
/// `lo .. hi`.
pub open spec fn pairs_from(s: Seq<u16>, start: int, lo: int, hi: int) -> bool {
    forall|k: int| 0 <= k && k + 1 < s.len() && k % 2 == 0 ==> #[trigger] pair_from(s, k, start, lo, hi)
}

/// The pair at position `k` starts at `start` and its second entry lies in `lo .. hi`.
pub open spec fn pair_from(s: Seq<u16>, k: int, start: int, lo: int, hi: int) -> bool {
    s[k] as int == start && lo <= s[k + 1] as int && (s[k + 1] as int) < hi
}

/// The pairs of a flat edge list all start below `bound`.
pub open spec fn firsts_below(s: Seq<u16>, bound: int) -> bool {
    forall|k: int| 0 <= k && k + 1 < s.len() && k % 2 == 0 ==> #[trigger] first_below(s, k, bound)
}

/// The pair at position `k` starts below `bound`.
pub open spec fn first_below(s: Seq<u16>, k: int, bound: int) -> bool {
    (s[k] as int) < bound
}

proof fn lemma_sorted_concat(a: Seq<u16>, b: Seq<u16>)
    requires
        sorted_pairs(a),
        sorted_pairs(b),
        forall|k: int, m: int|
            #![trigger a[k], b[m]]
            0 <= k && k + 1 < a.len() && 0 <= m && m + 1 < b.len() && k % 2 == 0 && m % 2 == 0 ==> lex_less(
                a[k] as int,
                a[k + 1] as int,
                b[m] as int,
                b[m + 1] as int,
            ),
    ensures
        sorted_pairs(a + b),
{
    let s = a + b;
    assert forall|k: int, m: int|
        #![trigger s[k], s[m]]
        0 <= k < m && m + 1 < s.len() && k % 2 == 0 && m % 2 == 0 implies lex_less(s[k] as int, s[k + 1] as int, s[m] as int, s[m + 1] as int) by {
        if m < a.len() {
            assert(s[k] == a[k] && s[k + 1] == a[k + 1] && s[m] == a[m] && s[m + 1] == a[m + 1]);
        } else if k < a.len() {
            assert(s[k] == a[k] && s[k + 1] == a[k + 1]);
            assert(s[m] == b[m - a.len()] && s[m + 1] == b[m - a.len() + 1]);
        } else {
            assert(s[k] == b[k - a.len()] && s[k + 1] == b[k - a.len() + 1]);
            assert(s[m] == b[m - a.len()] && s[m + 1] == b[m - a.len() + 1]);
        }
    }
}

/// Appending a pair that comes after every pair of a sorted list keeps it sorted.
proof fn lemma_sorted_push_pair(a: Seq<u16>, x: u16, y: u16)
    requires
        sorted_pairs(a),
        forall|k: int| 0 <= k && k + 1 < a.len() && k % 2 == 0 ==> lex_less(#[trigger] a[k] as int, a[k + 1] as int, x as int, y as int),
    ensures
        sorted_pairs(a + seq![x, y]),
{
    let t = seq![x, y];
    assert(sorted_pairs(t));
    assert forall|k: int, m: int|
        #![trigger a[k], t[m]]
        0 <= k && k + 1 < a.len() && 0 <= m && m + 1 < t.len() && k % 2 == 0 && m % 2 == 0 implies lex_less(
            a[k] as int,
            a[k + 1] as int,
            t[m] as int,
            t[m + 1] as int,
        ) by {
        assert(m == 0);
    }
    lemma_sorted_concat(a, t);
}

/// Appending a pair starting at `first` to a list of pairs starting at `first`.
proof fn lemma_pairs_from_push(a: Seq<u16>, start: int, lo: int, hi: int, y: u16)
    requires
        pairs_from(a, start, lo, hi),
        a.len() % 2 == 0,
        0 <= start < 65536,
        lo <= y < hi,
    ensures
        pairs_from(a + seq![start as u16, y], start, lo, hi),
{
    let s = a + seq![start as u16, y];
    assert forall|k: int| 0 <= k && k + 1 < s.len() && k % 2 == 0 implies #[trigger] pair_from(s, k, start, lo, hi) by {
        if k < a.len() {
            assert(pair_from(a, k, start, lo, hi));
            assert(s[k] == a[k] && s[k + 1] == a[k + 1]);
        } else {
            assert(k == a.len());
        }
    }
}

proof fn lemma_pairs_from_widen(a: Seq<u16>, start: int, lo: int, hi: int, hi2: int)
    requires
        pairs_from(a, start, lo, hi),
        hi <= hi2,
    ensures
        pairs_from(a, start, lo, hi2),
{
    assert forall|k: int| 0 <= k && k + 1 < a.len() && k % 2 == 0 implies #[trigger] pair_from(a, k, start, lo, hi2) by {
        assert(pair_from(a, k, start, lo, hi));
    }
}

proof fn lemma_scan_row_sorted(i: int, j: int, adj: spec_fn(int, int) -> bool)
    requires
        0 <= i,
        i + 1 <= j <= 65536,
    ensures
        sorted_pairs(scan_row(i, j, adj)),
        pairs_from(scan_row(i, j, adj), i, i + 1, j),
    decreases j - i,
{
    if j > i + 1 {
        lemma_scan_row_sorted(i, j - 1, adj);
        let a = scan_row(i, j - 1, adj);
        lemma_pairs_len_even(i, j - 1, adj);
        if adj(i, j - 1) {
            assert forall|k: int| 0 <= k && k + 1 < a.len() && k % 2 == 0 implies lex_less(#[trigger] a[k] as int, a[k + 1] as int, i, j - 1) by {
                assert(pair_from(a, k, i, i + 1, j - 1));
            }
            lemma_sorted_push_pair(a, i as u16, (j - 1) as u16);
            lemma_pairs_from_widen(a, i, i + 1, j - 1, j);
            lemma_pairs_from_push(a, i, i + 1, j, (j - 1) as u16);
            assert(scan_row(i, j, adj) == a + seq![i as u16, (j - 1) as u16]);
        } else {
            lemma_pairs_from_widen(a, i, i + 1, j - 1, j);
            assert(scan_row(i, j, adj) =~= a);
        }
    }
}

proof fn lemma_pairs_len_even(i: int, j: int, adj: spec_fn(int, int) -> bool)
    ensures
        scan_row(i, j, adj).len() % 2 == 0,
    decreases j - i,
{
    if j > i + 1 {
        lemma_pairs_len_even(i, j - 1, adj);
    }
}

proof fn lemma_scan_edges_sorted(n: int, i: int, adj: spec_fn(int, int) -> bool)
    requires
        0 <= i <= n <= 65536,
    ensures
        sorted_pairs(scan_edges(n, i, adj)),
        firsts_below(scan_edges(n, i, adj), i),
    decreases i,
{
    if i > 0 {
        lemma_scan_edges_sorted(n, i - 1, adj);
        let a = scan_edges(n, i - 1, adj);
        lemma_scan_row_sorted(i - 1, n, adj);
        let b = scan_row(i - 1, n, adj);
        assert forall|k: int, m: int|
            #![trigger a[k], b[m]]
            0 <= k && k + 1 < a.len() && 0 <= m && m + 1 < b.len() && k % 2 == 0 && m % 2 == 0 implies lex_less(
                a[k] as int,
                a[k + 1] as int,
                b[m] as int,
                b[m + 1] as int,
            ) by {
            assert(first_below(a, k, i - 1));
            assert(pair_from(b, m, i - 1, i, n));
        }
        lemma_sorted_concat(a, b);
        let s = a + b;
        assert forall|k: int| 0 <= k && k + 1 < s.len() && k % 2 == 0 implies #[trigger] first_below(s, k, i) by {
            if k < a.len() {
                assert(first_below(a, k, i - 1));
                assert(s[k] == a[k]);
            } else {
                assert(pair_from(b, k - a.len(), i - 1, i, n));
                assert(s[k] == b[k - a.len()]);
            }
        }
    }
}

proof fn lemma_cube_row_sorted(i: int, b: int)
    requires
        0 <= i < 16,
        0 <= b <= 4,
    ensures
        sorted_pairs(cube_row(i, b)),
        pairs_from(cube_row(i, b), i, i + 1, i + cube_reach(b)),
        cube_row(i, b).len() % 2 == 0,
    decreases b,
{
    if b > 0 {
        lemma_cube_row_sorted(i, b - 1);
        let a = cube_row(i, b - 1);
        assert(bit_value(b - 1) == cube_reach(b - 1) && bit_value(b - 1) < cube_reach(b));
        if !bit_of(i, b - 1) {
            let y = i + bit_value(b - 1);
            assert forall|k: int| 0 <= k && k + 1 < a.len() && k % 2 == 0 implies lex_less(#[trigger] a[k] as int, a[k + 1] as int, i, y) by {
                assert(pair_from(a, k, i, i + 1, i + cube_reach(b - 1)));
            }
            lemma_sorted_push_pair(a, i as u16, y as u16);
            lemma_pairs_from_widen(a, i, i + 1, i + cube_reach(b - 1), i + cube_reach(b));
            lemma_pairs_from_push(a, i, i + 1, i + cube_reach(b), y as u16);
            assert(cube_row(i, b) == a + seq![i as u16, y as u16]);
        } else {
            lemma_pairs_from_widen(a, i, i + 1, i + cube_reach(b - 1), i + cube_reach(b));
            assert(cube_row(i, b) =~= a);
        }
    } else {
        assert(cube_row(i, b) =~= Seq::<u16>::empty());
    }
}

/// One more than the largest step `2^k`, `k < b`, of a tesseract row: 2^b.
spec fn cube_reach(b: int) -> int {
    if b <= 0 {
        1
    } else if b == 1 {
        2
    } else if b == 2 {
        4
    } else if b == 3 {
        8
    } else {
        16
    }
}

proof fn lemma_cube_edges_sorted(i: int)
    requires
        0 <= i <= 16,
    ensures
        sorted_pairs(cube_edges(i)),
        firsts_below(cube_edges(i), i),
    decreases i,
{
    if i > 0 {
        lemma_cube_edges_sorted(i - 1);
        lemma_cube_row_sorted(i - 1, 4);
        let a = cube_edges(i - 1);
        let b = cube_row(i - 1, 4);
        assert forall|k: int, m: int|
            #![trigger a[k], b[m]]
            0 <= k && k + 1 < a.len() && 0 <= m && m + 1 < b.len() && k % 2 == 0 && m % 2 == 0 implies lex_less(
                a[k] as int,
                a[k + 1] as int,
                b[m] as int,
                b[m + 1] as int,
            ) by {
            assert(first_below(a, k, i - 1));
            assert(pair_from(b, m, i - 1, i, i - 1 + cube_reach(4)));
        }
        lemma_sorted_concat(a, b);
        let s = a + b;
        assert forall|k: int| 0 <= k && k + 1 < s.len() && k % 2 == 0 implies #[trigger] first_below(s, k, i) by {
            if k < a.len() {
                assert(first_below(a, k, i - 1));
                assert(s[k] == a[k]);
            } else {
                assert(pair_from(b, k - a.len(), i - 1, i, i - 1 + cube_reach(4)));
                assert(s[k] == b[k - a.len()]);
            }
        }
    }
}

/// No polytope's edge list names an edge twice: its pairs are in strictly increasing
/// lexicographic order, so any two of them differ.
pub proof fn law_edges_distinct(kind: PolytopeType)
    ensures
        sorted_pairs(polytope_edge_spec(kind)),
        forall|k: int, m: int|
            #![trigger polytope_edge_spec(kind)[k], polytope_edge_spec(kind)[m]]
            0 <= k < m && m + 1 < polytope_edge_spec(kind).len() && k % 2 == 0 && m % 2 == 0 ==> !(polytope_edge_spec(kind)[k]
                == polytope_edge_spec(kind)[m] && polytope_edge_spec(kind)[k + 1] == polytope_edge_spec(kind)[m + 1]),
{
    match kind {
        PolytopeType::FiveCell => lemma_scan_edges_sorted(5, 5, complete_adj()),
        PolytopeType::EightCell => lemma_cube_edges_sorted(16),
        PolytopeType::SixteenCell => lemma_scan_edges_sorted(8, 8, cross_adj()),
        PolytopeType::TwentyFourCell => lemma_scan_edges_sorted(24, 24, cell24_adj()),
        PolytopeType::OneHundredTwentyCell => lemma_scan_edges_sorted(600, 600, cell120_adj()),
        PolytopeType::SixHundredCell => lemma_scan_edges_sorted(120, 120, cell600_adj()),
    }
}

/// Every edge of every polytope joins two distinct vertices, listed in increasing order,
/// both among the vertices of the geometry shown for it.
pub proof fn law_edges_are_ordered_vertex_pairs(kind: PolytopeType)
    ensures
        pairs_satisfy(
            polytope_edge_spec(kind),
            |a: int, b: int| 0 <= a < b < spec_vertex_count(kind),
        ),
{
    let n = spec_vertex_count(kind);
    let target = |a: int, b: int| 0 <= a < b < n;
    let s = polytope_edge_spec(kind);
    match kind {
        PolytopeType::FiveCell => lemma_scan_edges_pairs(5, 5, complete_adj()),
        PolytopeType::EightCell => lemma_cube_edges_pairs(16),
        PolytopeType::SixteenCell => lemma_scan_edges_pairs(8, 8, cross_adj()),
        PolytopeType::OneHundredTwentyCell => lemma_scan_edges_pairs(600, 600, cell120_adj()),
        PolytopeType::SixHundredCell => lemma_scan_edges_pairs(120, 120, cell600_adj()),
        PolytopeType::TwentyFourCell => lemma_scan_edges_pairs(24, 24, cell24_adj()),
    }
    assert forall|k: int| 0 <= k < s.len() && k % 2 == 0 implies target(#[trigger] s[k] as int, s[k + 1] as int) by {
    }
}

/// How often vertex `v` occurs in a flat edge list: the number of edges at `v`, its degree.
pub open spec fn occurrences(s: Seq<u16>, v: int) -> int
    decreases s.len(),
{
    if s.len() == 0 {
        0
    } else {
        occurrences(s.drop_last(), v) + if s.last() as int == v { 1int } else { 0int }
    }
}

proof fn lemma_occurrences_concat(a: Seq<u16>, b: Seq<u16>, v: int)
    ensures
        occurrences(a + b, v) == occurrences(a, v) + occurrences(b, v),
    decreases b.len(),
{
    if b.len() > 0 {
        lemma_occurrences_concat(a, b.drop_last(), v);
        assert((a + b).drop_last() =~= a + b.drop_last());
    } else {
        assert(a + b =~= a);
    }
}

proof fn lemma_occurrences_pair(x: u16, y: u16, v: int)
    ensures
        occurrences(seq![x, y], v) == (if x as int == v { 1int } else { 0int }) + (if y as int == v { 1int } else { 0int }),
{
    assert(seq![x, y].drop_last() =~= seq![x]);
    assert(seq![x].drop_last() =~= Seq::<u16>::empty());
    assert(occurrences(Seq::<u16>::empty(), v) == 0);
    assert(seq![x].last() == x && seq![x, y].last() == y);
    assert(occurrences(seq![x], v) == if x as int == v { 1int } else { 0int });
}

/// Number of the vertices `i + 1 .. j` joined to vertex `i`.
pub open spec fn later_neighbors(i: int, j: int, adj: spec_fn(int, int) -> bool) -> int
    decreases j - i,
{
    if j <= i + 1 {
        0
    } else {
        later_neighbors(i, j - 1, adj) + if adj(i, j - 1) { 1int } else { 0int }
    }
}

/// Number of the vertices below both `k` and `v` joined to vertex `v`.
pub open spec fn earlier_neighbors(k: int, v: int, adj: spec_fn(int, int) -> bool) -> int
    decreases k,
{
    if k <= 0 {
        0
    } else {
        earlier_neighbors(k - 1, v, adj) + if k - 1 < v && adj(k - 1, v) { 1int } else { 0int }
    }
}

proof fn lemma_row_occurrences(i: int, j: int, adj: spec_fn(int, int) -> bool, v: int)
    requires
        0 <= i,
        j <= 65536,
    ensures
        occurrences(scan_row(i, j, adj), v) == (if v == i { later_neighbors(i, j, adj) } else { 0int }) + (
        if i < v < j && adj(i, v) { 1int } else { 0int }),
    decreases j - i,
{
    if j > i + 1 {
        lemma_row_occurrences(i, j - 1, adj, v);
        let tail: Seq<u16> = if adj(i, j - 1) { seq![i as u16, (j - 1) as u16] } else { seq![] };
        lemma_occurrences_concat(scan_row(i, j - 1, adj), tail, v);
        if adj(i, j - 1) {
            lemma_occurrences_pair(i as u16, (j - 1) as u16, v);
        }
    }
}

/// The degree of vertex `v` in a pair scan: its joined later vertices (its own row) and
/// its joined earlier vertices (one entry in each earlier row).
proof fn lemma_scan_degree(n: int, i: int, adj: spec_fn(int, int) -> bool, v: int)
    requires
        0 <= i <= n <= 65536,
        0 <= v < n,
    ensures
        occurrences(scan_edges(n, i, adj), v) == (if v < i { later_neighbors(v, n, adj) } else { 0int })
            + earlier_neighbors(i, v, adj),
    decreases i,
{
    if i > 0 {
        lemma_scan_degree(n, i - 1, adj, v);
        lemma_row_occurrences(i - 1, n, adj, v);
        lemma_occurrences_concat(scan_edges(n, i - 1, adj), scan_row(i - 1, n, adj), v);
    }
}

proof fn lemma_complete_neighbors(i: int, j: int, k: int, v: int)
    requires
        0 <= i < j,
        0 <= k <= v,
    ensures
        later_neighbors(i, j, complete_adj()) == j - i - 1,
        earlier_neighbors(k, v, complete_adj()) == k,
    decreases j - i + k,
{
    if j > i + 1 {
        lemma_complete_neighbors(i, j - 1, k, v);
    }
    if k > 0 {
        lemma_complete_neighbors(i, j, k - 1, v);
    }
}

/// Earlier 24-cell neighbours, coordinate by coordinate.
spec fn cell24_earlier(k: int, v: int) -> int
    decreases k,
{
    if k <= 0 {
        0
    } else {
        cell24_earlier(k - 1, v) + if k - 1 < v && cell24_dist(k - 1, v) == 2 { 1int } else { 0int }
    }
}

proof fn lemma_cell24_neighbors(i: int, j: int, k: int, v: int)
    requires
        0 <= i,
        i + 1 <= j,
    ensures
        later_neighbors(i, j, cell24_adj()) == cell24_count(i, j),
        earlier_neighbors(k, v, cell24_adj()) == cell24_earlier(k, v),
    decreases j - i + if k > 0 { k } else { 0 },
{
    if j > i + 1 {
        lemma_cell24_neighbors(i, j - 1, k, v);
        lemma_cell24_adj_eval(i, j - 1);
    }
    if k > 0 {
        lemma_cell24_neighbors(i, j, k - 1, v);
        lemma_cell24_adj_eval(k - 1, v);
    }
}

/// Each 24-cell vertex has 8 - `cell24_count(v, 24)` earlier neighbours: 0, 2, 4, 6 and 8
/// for the vertices of the axis pairs before which 4, 3, 2, 1 and 0 later sharing pairs come.
#[verifier::rlimit(50)]
proof fn lemma_cell24_earlier_counts()
    ensures
        forall|v: int| 0 <= v < 24 ==> #[trigger] cell24_earlier(24, v) == 2 * (
        if v < 4 { 0int } else if v < 8 { 1int } else if v < 16 { 2int } else if v < 20 { 3int } else { 4int }),
{
    assert(cell24_earlier(24, 0) == 0) by {
        reveal_with_fuel(cell24_earlier, 25);
    }
    assert(cell24_earlier(24, 1) == 0) by {
        reveal_with_fuel(cell24_earlier, 25);
    }
    assert(cell24_earlier(24, 2) == 0) by {
        reveal_with_fuel(cell24_earlier, 25);
    }
    assert(cell24_earlier(24, 3) == 0) by {
        reveal_with_fuel(cell24_earlier, 25);
    }
    assert(cell24_earlier(24, 4) == 2) by {
        reveal_with_fuel(cell24_earlier, 25);
    }
    assert(cell24_earlier(24, 5) == 2) by {
        reveal_with_fuel(cell24_earlier, 25);
    }
    assert(cell24_earlier(24, 6) == 2) by {
        reveal_with_fuel(cell24_earlier, 25);
    }
    assert(cell24_earlier(24, 7) == 2) by {
        reveal_with_fuel(cell24_earlier, 25);
    }
    assert(cell24_earlier(24, 8) == 4) by {
        reveal_with_fuel(cell24_earlier, 25);
    }
    assert(cell24_earlier(24, 9) == 4) by {
        reveal_with_fuel(cell24_earlier, 25);
    }
    assert(cell24_earlier(24, 10) == 4) by {
        reveal_with_fuel(cell24_earlier, 25);
    }
    assert(cell24_earlier(24, 11) == 4) by {
        reveal_with_fuel(cell24_earlier, 25);
    }
    assert(cell24_earlier(24, 12) == 4) by {
        reveal_with_fuel(cell24_earlier, 25);
    }
    assert(cell24_earlier(24, 13) == 4) by {
        reveal_with_fuel(cell24_earlier, 25);
    }
    assert(cell24_earlier(24, 14) == 4) by {
        reveal_with_fuel(cell24_earlier, 25);
    }
    assert(cell24_earlier(24, 15) == 4) by {
        reveal_with_fuel(cell24_earlier, 25);
    }
    assert(cell24_earlier(24, 16) == 6) by {
        reveal_with_fuel(cell24_earlier, 25);
    }
    assert(cell24_earlier(24, 17) == 6) by {
        reveal_with_fuel(cell24_earlier, 25);
    }
    assert(cell24_earlier(24, 18) == 6) by {
        reveal_with_fuel(cell24_earlier, 25);
    }
    assert(cell24_earlier(24, 19) == 6) by {
        reveal_with_fuel(cell24_earlier, 25);
    }
    assert(cell24_earlier(24, 20) == 8) by {
        reveal_with_fuel(cell24_earlier, 25);
    }
    assert(cell24_earlier(24, 21) == 8) by {
        reveal_with_fuel(cell24_earlier, 25);
    }
    assert(cell24_earlier(24, 22) == 8) by {
        reveal_with_fuel(cell24_earlier, 25);
    }
    assert(cell24_earlier(24, 23) == 8) by {
        reveal_with_fuel(cell24_earlier, 25);
    }
}

/// 16-cell vertex `v` is joined to every vertex off its own axis: its later and earlier
/// neighbours.
proof fn lemma_cross_neighbors(v: int)
    requires
        0 <= v < 8,
    ensures
        later_neighbors(v, 8, cross_adj()) + earlier_neighbors(8, v, cross_adj()) == 6,
{
    reveal_with_fuel(later_neighbors, 9);
    reveal_with_fuel(earlier_neighbors, 9);
    if v == 0 {
        assert(later_neighbors(0, 8, cross_adj()) + earlier_neighbors(8, 0, cross_adj()) == 6);
    } else if v == 1 {
        assert(later_neighbors(1, 8, cross_adj()) + earlier_neighbors(8, 1, cross_adj()) == 6);
    } else if v == 2 {
        assert(later_neighbors(2, 8, cross_adj()) + earlier_neighbors(8, 2, cross_adj()) == 6);
    } else if v == 3 {
        assert(later_neighbors(3, 8, cross_adj()) + earlier_neighbors(8, 3, cross_adj()) == 6);
    } else if v == 4 {
        assert(later_neighbors(4, 8, cross_adj()) + earlier_neighbors(8, 4, cross_adj()) == 6);
    } else if v == 5 {
        assert(later_neighbors(5, 8, cross_adj()) + earlier_neighbors(8, 5, cross_adj()) == 6);
    } else if v == 6 {
        assert(later_neighbors(6, 8, cross_adj()) + earlier_neighbors(8, 6, cross_adj()) == 6);
    } else {
        assert(later_neighbors(7, 8, cross_adj()) + earlier_neighbors(8, 7, cross_adj()) == 6);
    }
}

/// Number of the bits `k < b` clear in `i` with `v == i + 2^k`: whether `v` is a tesseract
/// neighbour of `i` above it.
spec fn up_hits(i: int, b: int, v: int) -> int
    decreases b,
{
    if b <= 0 {
        0
    } else {
        up_hits(i, b - 1, v) + if !bit_of(i, b - 1) && v == i + bit_value(b - 1) { 1int } else { 0int }
    }
}

/// Number of tesseract neighbours of `v` below it among the vertices below `m`.
spec fn down_hits(m: int, v: int) -> int
    decreases m,
{
    if m <= 0 {
        0
    } else {
        down_hits(m - 1, v) + up_hits(m - 1, 4, v)
    }
}

proof fn lemma_cube_row_occurrences(i: int, b: int, v: int)
    requires
        0 <= i < 16,
        0 <= b <= 4,
    ensures
        occurrences(cube_row(i, b), v) == (if v == i { clear_bits(i, b) } else { 0int }) + up_hits(i, b, v),
    decreases b,
{
    if b > 0 {
        lemma_cube_row_occurrences(i, b - 1, v);
        let tail: Seq<u16> = if !bit_of(i, b - 1) { seq![i as u16, (i + bit_value(b - 1)) as u16] } else { seq![] };
        lemma_occurrences_concat(cube_row(i, b - 1), tail, v);
        if !bit_of(i, b - 1) {
            lemma_occurrences_pair(i as u16, (i + bit_value(b - 1)) as u16, v);
            assert(bit_value(b - 1) >= 1);
        }
    }
}

proof fn lemma_cube_edges_occurrences(m: int, v: int)
    requires
        0 <= m <= 16,
        0 <= v < 16,
    ensures
        occurrences(cube_edges(m), v) == (if v < m { clear_bits(v, 4) } else { 0int }) + down_hits(m, v),
    decreases m,
{
    if m > 0 {
        lemma_cube_edges_occurrences(m - 1, v);
        lemma_cube_row_occurrences(m - 1, 4, v);
        lemma_occurrences_concat(cube_edges(m - 1), cube_row(m - 1, 4), v);
    }
}

/// Every tesseract vertex has as many neighbours below it as it has set bits.
proof fn lemma_cube_degree(v: int)
    requires
        0 <= v < 16,
    ensures
        clear_bits(v, 4) + down_hits(16, v) == 4,
{
    if v == 0 {
        assert(clear_bits(0, 4) + down_hits(16, 0) == 4) by {
            reveal_with_fuel(clear_bits, 5);
            reveal_with_fuel(up_hits, 5);
            reveal_with_fuel(down_hits, 17);
            assert(bit_value(0) == 1 && bit_value(1) == 2 && bit_value(2) == 4 && bit_value(3) == 8);
        }
    } else if v == 1 {
        assert(clear_bits(1, 4) + down_hits(16, 1) == 4) by {
            reveal_with_fuel(clear_bits, 5);
            reveal_with_fuel(up_hits, 5);
            reveal_with_fuel(down_hits, 17);
            assert(bit_value(0) == 1 && bit_value(1) == 2 && bit_value(2) == 4 && bit_value(3) == 8);
        }
    } else if v == 2 {
        assert(clear_bits(2, 4) + down_hits(16, 2) == 4) by {
            reveal_with_fuel(clear_bits, 5);
            reveal_with_fuel(up_hits, 5);
            reveal_with_fuel(down_hits, 17);
            assert(bit_value(0) == 1 && bit_value(1) == 2 && bit_value(2) == 4 && bit_value(3) == 8);
        }
    } else if v == 3 {
        assert(clear_bits(3, 4) + down_hits(16, 3) == 4) by {
            reveal_with_fuel(clear_bits, 5);
            reveal_with_fuel(up_hits, 5);
            reveal_with_fuel(down_hits, 17);
            assert(bit_value(0) == 1 && bit_value(1) == 2 && bit_value(2) == 4 && bit_value(3) == 8);
        }
    } else if v == 4 {
        assert(clear_bits(4, 4) + down_hits(16, 4) == 4) by {
            reveal_with_fuel(clear_bits, 5);
            reveal_with_fuel(up_hits, 5);
            reveal_with_fuel(down_hits, 17);
            assert(bit_value(0) == 1 && bit_value(1) == 2 && bit_value(2) == 4 && bit_value(3) == 8);
        }
    } else if v == 5 {
        assert(clear_bits(5, 4) + down_hits(16, 5) == 4) by {
            reveal_with_fuel(clear_bits, 5);
            reveal_with_fuel(up_hits, 5);
            reveal_with_fuel(down_hits, 17);
            assert(bit_value(0) == 1 && bit_value(1) == 2 && bit_value(2) == 4 && bit_value(3) == 8);
        }
    } else if v == 6 {
        assert(clear_bits(6, 4) + down_hits(16, 6) == 4) by {
            reveal_with_fuel(clear_bits, 5);
            reveal_with_fuel(up_hits, 5);
            reveal_with_fuel(down_hits, 17);
            assert(bit_value(0) == 1 && bit_value(1) == 2 && bit_value(2) == 4 && bit_value(3) == 8);
        }
    } else if v == 7 {
        assert(clear_bits(7, 4) + down_hits(16, 7) == 4) by {
            reveal_with_fuel(clear_bits, 5);
            reveal_with_fuel(up_hits, 5);
            reveal_with_fuel(down_hits, 17);
            assert(bit_value(0) == 1 && bit_value(1) == 2 && bit_value(2) == 4 && bit_value(3) == 8);
        }
    } else if v == 8 {
        assert(clear_bits(8, 4) + down_hits(16, 8) == 4) by {
            reveal_with_fuel(clear_bits, 5);
            reveal_with_fuel(up_hits, 5);
            reveal_with_fuel(down_hits, 17);
            assert(bit_value(0) == 1 && bit_value(1) == 2 && bit_value(2) == 4 && bit_value(3) == 8);
            assert(bit_of(8, 3) && !bit_of(0, 3));
            assert(up_hits(0, 4, 8) == 1);
            assert(clear_bits(8, 4) == 3);
        }
    } else if v == 9 {
        assert(clear_bits(9, 4) + down_hits(16, 9) == 4) by {
            reveal_with_fuel(clear_bits, 5);
            reveal_with_fuel(up_hits, 5);
            reveal_with_fuel(down_hits, 17);
            assert(bit_value(0) == 1 && bit_value(1) == 2 && bit_value(2) == 4 && bit_value(3) == 8);
        }
    } else if v == 10 {
        assert(clear_bits(10, 4) + down_hits(16, 10) == 4) by {
            reveal_with_fuel(clear_bits, 5);
            reveal_with_fuel(up_hits, 5);
            reveal_with_fuel(down_hits, 17);
            assert(bit_value(0) == 1 && bit_value(1) == 2 && bit_value(2) == 4 && bit_value(3) == 8);
        }
    } else if v == 11 {
        assert(clear_bits(11, 4) + down_hits(16, 11) == 4) by {
            reveal_with_fuel(clear_bits, 5);
            reveal_with_fuel(up_hits, 5);
            reveal_with_fuel(down_hits, 17);
            assert(bit_value(0) == 1 && bit_value(1) == 2 && bit_value(2) == 4 && bit_value(3) == 8);
        }
    } else if v == 12 {
        assert(clear_bits(12, 4) + down_hits(16, 12) == 4) by {
            reveal_with_fuel(clear_bits, 5);
            reveal_with_fuel(up_hits, 5);
            reveal_with_fuel(down_hits, 17);
            assert(bit_value(0) == 1 && bit_value(1) == 2 && bit_value(2) == 4 && bit_value(3) == 8);
        }
    } else if v == 13 {
        assert(clear_bits(13, 4) + down_hits(16, 13) == 4) by {
            reveal_with_fuel(clear_bits, 5);
            reveal_with_fuel(up_hits, 5);
            reveal_with_fuel(down_hits, 17);
            assert(bit_value(0) == 1 && bit_value(1) == 2 && bit_value(2) == 4 && bit_value(3) == 8);
        }
    } else if v == 14 {
        assert(clear_bits(14, 4) + down_hits(16, 14) == 4) by {
            reveal_with_fuel(clear_bits, 5);
            reveal_with_fuel(up_hits, 5);
            reveal_with_fuel(down_hits, 17);
            assert(bit_value(0) == 1 && bit_value(1) == 2 && bit_value(2) == 4 && bit_value(3) == 8);
        }
    } else {
        assert(clear_bits(15, 4) + down_hits(16, 15) == 4) by {
            reveal_with_fuel(clear_bits, 5);
            reveal_with_fuel(up_hits, 5);
            reveal_with_fuel(down_hits, 17);
            assert(bit_value(0) == 1 && bit_value(1) == 2 && bit_value(2) == 4 && bit_value(3) == 8);
        }
    }
}

/// The degree every vertex of a polytope has: 4 for the 5-cell and the 8-cell, 6 for the
/// 16-cell, 8 for the 24-cell, 4 for the 120-cell and 12 for the 600-cell.
pub open spec fn spec_vertex_degree(kind: PolytopeType) -> int {
    match kind {
        PolytopeType::FiveCell | PolytopeType::EightCell | PolytopeType::OneHundredTwentyCell => 4,
        PolytopeType::SixteenCell => 6,
        PolytopeType::TwentyFourCell => 8,
        PolytopeType::SixHundredCell => 12,
    }
}

/// The polytopes are regular: every vertex of the 5-, 8-, 16- and 24-cell lies on the same
/// number of edges of the polytope's edge list (4, 4, 6 and 8).
pub proof fn law_uniform_vertex_degree(kind: PolytopeType, v: int)
    requires
        kind != PolytopeType::OneHundredTwentyCell,
        kind != PolytopeType::SixHundredCell,
        0 <= v < spec_vertex_count(kind),
    ensures
        occurrences(polytope_edge_spec(kind), v) == spec_vertex_degree(kind),
{
    match kind {
        PolytopeType::FiveCell => {
            lemma_scan_degree(5, 5, complete_adj(), v);
            lemma_complete_neighbors(v, 5, v, v);
            assert(earlier_neighbors(5, v, complete_adj()) == earlier_neighbors(v, v, complete_adj())) by {
                lemma_earlier_saturates(v, 5, v, complete_adj());
            }
        },
        PolytopeType::SixteenCell => {
            lemma_scan_degree(8, 8, cross_adj(), v);
            lemma_cross_neighbors(v);
        },
        PolytopeType::EightCell => {
            lemma_cube_edges_occurrences(16, v);
            lemma_cube_degree(v);
        },
        _ => {
            lemma_scan_degree(24, 24, cell24_adj(), v);
            lemma_cell24_neighbors(v, 24, 24, v);
            lemma_cell24_counts();
            lemma_cell24_earlier_counts();
        },
    }
}

/// Earlier neighbours stop growing past `v`.
proof fn lemma_earlier_saturates(k: int, m: int, v: int, adj: spec_fn(int, int) -> bool)
    requires
        0 <= v <= k <= m,
    ensures
        earlier_neighbors(m, v, adj) == earlier_neighbors(k, v, adj),
    decreases m - k,
{
    if m > k {
        lemma_earlier_saturates(k, m - 1, v, adj);
    }
}

/// All edges of the 600-cell have squared length 8 - 4φ, and all edges of the 120-cell
/// squared length 20 - 12φ (in the exact coordinates of `cell600_vertex` and
/// `cell120_vertex`), and each joins two distinct vertices listed in increasing order.
pub proof fn law_golden_uniform_edge_lengths()
    ensures
        pairs_satisfy(
            six_hundred_cell_edge_spec(),
            |a: int, b: int|
                0 <= a < b < 120 && golden_dist(cell600_vertex(a), cell600_vertex(b)) == cell600_edge_sq(),
        ),
        pairs_satisfy(
            hundred_twenty_cell_edge_spec(),
            |a: int, b: int|
                0 <= a < b < 600 && golden_dist(cell120_vertex(a), cell120_vertex(b)) == cell120_edge_sq(),
        ),
{
    lemma_scan_edges_pairs(120, 120, cell600_adj());
    lemma_scan_edges_pairs(600, 600, cell120_adj());
    let s6 = six_hundred_cell_edge_spec();
    let s1 = hundred_twenty_cell_edge_spec();
    assert forall|k: int| 0 <= k < s6.len() && k % 2 == 0 implies 0 <= #[trigger] s6[k] as int && s6[k] < s6[k + 1] < 120
        && golden_dist(cell600_vertex(s6[k] as int), cell600_vertex(s6[k + 1] as int)) == cell600_edge_sq() by {
        assert(scan_pair(120, cell600_adj())(s6[k] as int, s6[k + 1] as int));
    }
    assert forall|k: int| 0 <= k < s1.len() && k % 2 == 0 implies 0 <= #[trigger] s1[k] as int && s1[k] < s1[k + 1] < 600
        && golden_dist(cell120_vertex(s1[k] as int), cell120_vertex(s1[k + 1] as int)) == cell120_edge_sq() by {
        assert(scan_pair(600, cell120_adj())(s1[k] as int, s1[k + 1] as int));
    }
}

proof fn lemma_cell5_dist(a: int, b: int)
    requires
        0 <= a < b < 5,
    ensures
        golden_dist(cell5_vertex(a), cell5_vertex(b)) == cell5_edge_sq(),
{
    let (u, v) = (cell5_vertex(a), cell5_vertex(b));
    assert(small_coords(u) && small_coords(v));
    lemma_golden_dist_by_table(u, v);
}

/// The 5-cell is regular and centered at the origin: in the exact coordinates of
/// `cell5_vertex`, all ten edges have squared length 40, and on each axis the coordinates
/// of the five vertices sum to zero.
pub proof fn law_five_cell_geometry()
    ensures
        pairs_satisfy(
            five_cell_edge_spec(),
            |a: int, b: int| 0 <= a < b < 5 && golden_dist(cell5_vertex(a), cell5_vertex(b)) == cell5_edge_sq(),
        ),
        forall|k: int|
            0 <= k < 4 ==> cell5_vertex(0)[k].0 + cell5_vertex(1)[k].0 + cell5_vertex(2)[k].0 + cell5_vertex(3)[k].0
                + #[trigger] cell5_vertex(4)[k].0 == 0 && cell5_vertex(0)[k].1 + cell5_vertex(1)[k].1
                + cell5_vertex(2)[k].1 + cell5_vertex(3)[k].1 + cell5_vertex(4)[k].1 == 0,
{
    lemma_scan_edges_pairs(5, 5, complete_adj());
    let s = five_cell_edge_spec();
    assert forall|k: int| 0 <= k < s.len() && k % 2 == 0 implies 0 <= #[trigger] s[k] as int && s[k] < s[k + 1] < 5
        && golden_dist(cell5_vertex(s[k] as int), cell5_vertex(s[k + 1] as int)) == cell5_edge_sq() by {
        assert(scan_pair(5, complete_adj())(s[k] as int, s[k + 1] as int));
        lemma_cell5_dist(s[k] as int, s[k + 1] as int);
    }
}

/// Whether two points with coordinates in ℤ[φ] are opposite each other through the origin.
pub open spec fn golden_antipodal(u: Seq<(int, int)>, w: Seq<(int, int)>) -> bool {
    u[0] == golden_neg(w[0]) && u[1] == golden_neg(w[1]) && u[2] == golden_neg(w[2]) && u[3] == golden_neg(w[3])
}

/// The 5-cell is not centrally symmetric: no two of its vertices are opposite each other.
pub proof fn law_five_cell_no_antipodal_pairs(a: int, b: int)
    requires
        0 <= a < 5,
        0 <= b < 5,
    ensures
        !golden_antipodal(cell5_vertex(a), cell5_vertex(b)),
{
    assert(cell5_vertex(a)[3].0 == -1 || cell5_vertex(a)[3].0 == 4);
    assert(cell5_vertex(b)[3].0 == -1 || cell5_vertex(b)[3].0 == 4);
}

/// The sum of coordinate `k` over the first `n` lattice vertices of a polytope.
pub open spec fn vertex_coordinate_sum(kind: PolytopeType, n: int, k: int) -> int
    decreases n,
{
    if n <= 0 {
        0
    } else {
        vertex_coordinate_sum(kind, n - 1, k) + polytope_lattice_vertex(kind, n - 1)[k]
    }
}

/// Coordinate `k` of lattice vertex `i` of a polytope, as a plain expression.
spec fn lattice_coord(kind: PolytopeType, i: int, k: int) -> int {
    match kind {
        PolytopeType::EightCell => if bit_of(i, k) { 1 } else { -1 },
        PolytopeType::SixteenCell => if k == i / 2 {
            if i % 2 == 0 { 1 } else { -1 }
        } else {
            0
        },
        _ => cell24_coord(i, k),
    }
}

spec fn lattice_coord_sum(kind: PolytopeType, n: int, k: int) -> int
    decreases n,
{
    if n <= 0 {
        0
    } else {
        lattice_coord_sum(kind, n - 1, k) + lattice_coord(kind, n - 1, k)
    }
}

proof fn lemma_coordinate_sum(kind: PolytopeType, n: int, k: int)
    requires
        0 <= k < 4,
    ensures
        vertex_coordinate_sum(kind, n, k) == lattice_coord_sum(kind, n, k),
    decreases n,
{
    if n > 0 {
        lemma_coordinate_sum(kind, n - 1, k);
        assert(polytope_lattice_vertex(kind, n - 1)[k] == lattice_coord(kind, n - 1, k));
    }
}

/// Every lattice polytope is centered at the origin: on each axis, the coordinates of its
/// vertices sum to zero.
pub proof fn law_centered_at_origin(kind: PolytopeType, k: int)
    requires
        has_lattice_vertices(kind),
        0 <= k < 4,
    ensures
        vertex_coordinate_sum(kind, spec_vertex_count(kind), k) == 0,
{
    lemma_coordinate_sum(kind, spec_vertex_count(kind), k);
    reveal_with_fuel(lattice_coord_sum, 25);
    if k == 0 {
        assert(lattice_coord_sum(kind, spec_vertex_count(kind), 0) == 0);
    } else if k == 1 {
        assert(lattice_coord_sum(kind, spec_vertex_count(kind), 1) == 0);
    } else if k == 2 {
        assert(lattice_coord_sum(kind, spec_vertex_count(kind), 2) == 0);
    } else if kind == PolytopeType::TwentyFourCell {
        assert(lattice_coord_sum(kind, 24, 3) == 0);
    } else if kind == PolytopeType::SixteenCell {
        assert(lattice_coord_sum(kind, 8, 3) == 0);
    } else {
        assert(bit_value(3) == 8);
        assert(lattice_coord_sum(kind, 16, 3) == 0);
    }
}

/// Whether two points are opposite each other through the origin.
pub open spec fn is_antipodal(u: Seq<int>, w: Seq<int>) -> bool {
    u[0] == -w[0] && u[1] == -w[1] && u[2] == -w[2] && u[3] == -w[3]
}

/// Number of the lattice vertices `i + 1 .. j` of a polytope opposite vertex `i`.
pub open spec fn antipodes_after(kind: PolytopeType, i: int, j: int) -> int
    decreases j - i,
{
    if j <= i + 1 {
        0
    } else {
        antipodes_after(kind, i, j - 1) + if is_antipodal(
            polytope_lattice_vertex(kind, i),
            polytope_lattice_vertex(kind, j - 1),
        ) {
            1int
        } else {
            0int
        }
    }
}

/// Number of pairs of opposite vertices among the first `i` lattice vertices of a
/// polytope with `n` vertices, each pair counted at its lower vertex.
pub open spec fn antipodal_pairs(kind: PolytopeType, i: int, n: int) -> int
    decreases i,
{
    if i <= 0 {
        0
    } else {
        antipodal_pairs(kind, i - 1, n) + antipodes_after(kind, i - 1, n)
    }
}

spec fn lattice_antipodes_after(kind: PolytopeType, i: int, j: int) -> int
    decreases j - i,
{
    if j <= i + 1 {
        0
    } else {
        lattice_antipodes_after(kind, i, j - 1) + if lattice_coord(kind, i, 0) == -lattice_coord(kind, j - 1, 0)
            && lattice_coord(kind, i, 1) == -lattice_coord(kind, j - 1, 1) && lattice_coord(kind, i, 2)
            == -lattice_coord(kind, j - 1, 2) && lattice_coord(kind, i, 3) == -lattice_coord(kind, j - 1, 3) {
            1int
        } else {
            0int
        }
    }
}

spec fn lattice_antipodal_pairs(kind: PolytopeType, i: int, n: int) -> int
    decreases i,
{
    if i <= 0 {
        0
    } else {
        lattice_antipodal_pairs(kind, i - 1, n) + lattice_antipodes_after(kind, i - 1, n)
    }
}

proof fn lemma_vertex_coords(kind: PolytopeType, i: int)
    ensures
        forall|k: int| 0 <= k < 4 ==> #[trigger] polytope_lattice_vertex(kind, i)[k] == lattice_coord(kind, i, k),
{
    assert forall|k: int| 0 <= k < 4 implies #[trigger] polytope_lattice_vertex(kind, i)[k] == lattice_coord(kind, i, k) by {}
}

proof fn lemma_antipodes_after(kind: PolytopeType, i: int, j: int)
    requires
        0 <= i,
    ensures
        antipodes_after(kind, i, j) == lattice_antipodes_after(kind, i, j),
    decreases j - i,
{
    if j > i + 1 {
        lemma_antipodes_after(kind, i, j - 1);
        lemma_vertex_coords(kind, i);
        lemma_vertex_coords(kind, j - 1);
    }
}

proof fn lemma_antipodal_pairs(kind: PolytopeType, m: int, n: int)
    ensures
        antipodal_pairs(kind, m, n) == lattice_antipodal_pairs(kind, m, n),
    decreases m,
{
    if m > 0 {
        lemma_antipodal_pairs(kind, m - 1, n);
        lemma_antipodes_after(kind, m - 1, n);
    }
}

/// Opposite vertices of the tesseract below each vertex `i`: one when `i < 8` (its
/// antipode is `15 - i`).
proof fn lemma_cube_antipode_rows()
    ensures
        forall|i: int| 0 <= i < 16 ==> #[trigger] lattice_antipodes_after(PolytopeType::EightCell, i, 16) == if i < 8 { 1int } else { 0int },
{
    assert(lattice_antipodes_after(PolytopeType::EightCell, 0, 16) == 1) by {
        reveal_with_fuel(lattice_antipodes_after, 17);
        assert(bit_value(0) == 1 && bit_value(1) == 2 && bit_value(2) == 4 && bit_value(3) == 8);
    }
    assert(lattice_antipodes_after(PolytopeType::EightCell, 1, 16) == 1) by {
        reveal_with_fuel(lattice_antipodes_after, 17);
        assert(bit_value(0) == 1 && bit_value(1) == 2 && bit_value(2) == 4 && bit_value(3) == 8);
    }
    assert(lattice_antipodes_after(PolytopeType::EightCell, 2, 16) == 1) by {
        reveal_with_fuel(lattice_antipodes_after, 17);
        assert(bit_value(0) == 1 && bit_value(1) == 2 && bit_value(2) == 4 && bit_value(3) == 8);
    }
    assert(lattice_antipodes_after(PolytopeType::EightCell, 3, 16) == 1) by {
        reveal_with_fuel(lattice_antipodes_after, 17);
        assert(bit_value(0) == 1 && bit_value(1) == 2 && bit_value(2) == 4 && bit_value(3) == 8);
    }
    assert(lattice_antipodes_after(PolytopeType::EightCell, 4, 16) == 1) by {
        reveal_with_fuel(lattice_antipodes_after, 17);
        assert(bit_value(0) == 1 && bit_value(1) == 2 && bit_value(2) == 4 && bit_value(3) == 8);
    }
    assert(lattice_antipodes_after(PolytopeType::EightCell, 5, 16) == 1) by {
        reveal_with_fuel(lattice_antipodes_after, 17);
        assert(bit_value(0) == 1 && bit_value(1) == 2 && bit_value(2) == 4 && bit_value(3) == 8);
    }
    assert(lattice_antipodes_after(PolytopeType::EightCell, 6, 16) == 1) by {
        reveal_with_fuel(lattice_antipodes_after, 17);
        assert(bit_value(0) == 1 && bit_value(1) == 2 && bit_value(2) == 4 && bit_value(3) == 8);
    }
    assert(lattice_antipodes_after(PolytopeType::EightCell, 7, 16) == 1) by {
        reveal_with_fuel(lattice_antipodes_after, 17);
        assert(bit_value(0) == 1 && bit_value(1) == 2 && bit_value(2) == 4 && bit_value(3) == 8);
    }
    assert(lattice_antipodes_after(PolytopeType::EightCell, 8, 16) == 0) by {
        reveal_with_fuel(lattice_antipodes_after, 17);
        assert(bit_value(0) == 1 && bit_value(1) == 2 && bit_value(2) == 4 && bit_value(3) == 8);
    }
    assert(lattice_antipodes_after(PolytopeType::EightCell, 9, 16) == 0) by {
        reveal_with_fuel(lattice_antipodes_after, 17);
        assert(bit_value(0) == 1 && bit_value(1) == 2 && bit_value(2) == 4 && bit_value(3) == 8);
    }
    assert(lattice_antipodes_after(PolytopeType::EightCell, 10, 16) == 0) by {
        reveal_with_fuel(lattice_antipodes_after, 17);
        assert(bit_value(0) == 1 && bit_value(1) == 2 && bit_value(2) == 4 && bit_value(3) == 8);
    }
    assert(lattice_antipodes_after(PolytopeType::EightCell, 11, 16) == 0) by {
        reveal_with_fuel(lattice_antipodes_after, 17);
        assert(bit_value(0) == 1 && bit_value(1) == 2 && bit_value(2) == 4 && bit_value(3) == 8);
    }
    assert(lattice_antipodes_after(PolytopeType::EightCell, 12, 16) == 0) by {
        reveal_with_fuel(lattice_antipodes_after, 17);
        assert(bit_value(0) == 1 && bit_value(1) == 2 && bit_value(2) == 4 && bit_value(3) == 8);
    }
    assert(lattice_antipodes_after(PolytopeType::EightCell, 13, 16) == 0) by {
        reveal_with_fuel(lattice_antipodes_after, 17);
        assert(bit_value(0) == 1 && bit_value(1) == 2 && bit_value(2) == 4 && bit_value(3) == 8);
    }
    assert(lattice_antipodes_after(PolytopeType::EightCell, 14, 16) == 0) by {
        reveal_with_fuel(lattice_antipodes_after, 17);
        assert(bit_value(0) == 1 && bit_value(1) == 2 && bit_value(2) == 4 && bit_value(3) == 8);
    }
    assert(lattice_antipodes_after(PolytopeType::EightCell, 15, 16) == 0) by {
        reveal_with_fuel(lattice_antipodes_after, 17);
        assert(bit_value(0) == 1 && bit_value(1) == 2 && bit_value(2) == 4 && bit_value(3) == 8);
    }
}

/// Opposite vertices of the 16-cell after each vertex `i`: one for even `i`.
proof fn lemma_cross_antipode_rows()
    ensures
        forall|i: int| 0 <= i < 8 ==> #[trigger] lattice_antipodes_after(PolytopeType::SixteenCell, i, 8) == if i % 2 == 0 { 1int } else { 0int },
{
    assert(lattice_antipodes_after(PolytopeType::SixteenCell, 0, 8) == 1) by {
        reveal_with_fuel(lattice_antipodes_after, 9);
        assert(bit_value(0) == 1 && bit_value(1) == 2 && bit_value(2) == 4 && bit_value(3) == 8);
    }
    assert(lattice_antipodes_after(PolytopeType::SixteenCell, 1, 8) == 0) by {
        reveal_with_fuel(lattice_antipodes_after, 9);
        assert(bit_value(0) == 1 && bit_value(1) == 2 && bit_value(2) == 4 && bit_value(3) == 8);
    }
    assert(lattice_antipodes_after(PolytopeType::SixteenCell, 2, 8) == 1) by {
        reveal_with_fuel(lattice_antipodes_after, 9);
        assert(bit_value(0) == 1 && bit_value(1) == 2 && bit_value(2) == 4 && bit_value(3) == 8);
    }
    assert(lattice_antipodes_after(PolytopeType::SixteenCell, 3, 8) == 0) by {
        reveal_with_fuel(lattice_antipodes_after, 9);
        assert(bit_value(0) == 1 && bit_value(1) == 2 && bit_value(2) == 4 && bit_value(3) == 8);
    }
    assert(lattice_antipodes_after(PolytopeType::SixteenCell, 4, 8) == 1) by {
        reveal_with_fuel(lattice_antipodes_after, 9);
        assert(bit_value(0) == 1 && bit_value(1) == 2 && bit_value(2) == 4 && bit_value(3) == 8);
    }
    assert(lattice_antipodes_after(PolytopeType::SixteenCell, 5, 8) == 0) by {
        reveal_with_fuel(lattice_antipodes_after, 9);
        assert(bit_value(0) == 1 && bit_value(1) == 2 && bit_value(2) == 4 && bit_value(3) == 8);
    }
    assert(lattice_antipodes_after(PolytopeType::SixteenCell, 6, 8) == 1) by {
        reveal_with_fuel(lattice_antipodes_after, 9);
        assert(bit_value(0) == 1 && bit_value(1) == 2 && bit_value(2) == 4 && bit_value(3) == 8);
    }
    assert(lattice_antipodes_after(PolytopeType::SixteenCell, 7, 8) == 0) by {
        reveal_with_fuel(lattice_antipodes_after, 9);
        assert(bit_value(0) == 1 && bit_value(1) == 2 && bit_value(2) == 4 && bit_value(3) == 8);
    }
}

/// Opposite vertices of the 24-cell after each vertex `i`: one when the first sign of `i`
/// is positive.
proof fn lemma_cell24_antipode_rows()
    ensures
        forall|i: int| 0 <= i < 24 ==> #[trigger] lattice_antipodes_after(PolytopeType::TwentyFourCell, i, 24) == if i % 4 < 2 { 1int } else { 0int },
{
    assert(lattice_antipodes_after(PolytopeType::TwentyFourCell, 0, 24) == 1) by {
        reveal_with_fuel(lattice_antipodes_after, 25);
        assert(bit_value(0) == 1 && bit_value(1) == 2 && bit_value(2) == 4 && bit_value(3) == 8);
    }
    assert(lattice_antipodes_after(PolytopeType::TwentyFourCell, 1, 24) == 1) by {
        reveal_with_fuel(lattice_antipodes_after, 25);
        assert(bit_value(0) == 1 && bit_value(1) == 2 && bit_value(2) == 4 && bit_value(3) == 8);
    }
    assert(lattice_antipodes_after(PolytopeType::TwentyFourCell, 2, 24) == 0) by {
        reveal_with_fuel(lattice_antipodes_after, 25);
        assert(bit_value(0) == 1 && bit_value(1) == 2 && bit_value(2) == 4 && bit_value(3) == 8);
    }
    assert(lattice_antipodes_after(PolytopeType::TwentyFourCell, 3, 24) == 0) by {
        reveal_with_fuel(lattice_antipodes_after, 25);
        assert(bit_value(0) == 1 && bit_value(1) == 2 && bit_value(2) == 4 && bit_value(3) == 8);
    }
    assert(lattice_antipodes_after(PolytopeType::TwentyFourCell, 4, 24) == 1) by {
        reveal_with_fuel(lattice_antipodes_after, 25);
        assert(bit_value(0) == 1 && bit_value(1) == 2 && bit_value(2) == 4 && bit_value(3) == 8);
    }
    assert(lattice_antipodes_after(PolytopeType::TwentyFourCell, 5, 24) == 1) by {
        reveal_with_fuel(lattice_antipodes_after, 25);
        assert(bit_value(0) == 1 && bit_value(1) == 2 && bit_value(2) == 4 && bit_value(3) == 8);
    }
    assert(lattice_antipodes_after(PolytopeType::TwentyFourCell, 6, 24) == 0) by {
        reveal_with_fuel(lattice_antipodes_after, 25);
        assert(bit_value(0) == 1 && bit_value(1) == 2 && bit_value(2) == 4 && bit_value(3) == 8);
    }
    assert(lattice_antipodes_after(PolytopeType::TwentyFourCell, 7, 24) == 0) by {
        reveal_with_fuel(lattice_antipodes_after, 25);
        assert(bit_value(0) == 1 && bit_value(1) == 2 && bit_value(2) == 4 && bit_value(3) == 8);
    }
    assert(lattice_antipodes_after(PolytopeType::TwentyFourCell, 8, 24) == 1) by {
        reveal_with_fuel(lattice_antipodes_after, 25);
        assert(bit_value(0) == 1 && bit_value(1) == 2 && bit_value(2) == 4 && bit_value(3) == 8);
    }
    assert(lattice_antipodes_after(PolytopeType::TwentyFourCell, 9, 24) == 1) by {
        reveal_with_fuel(lattice_antipodes_after, 25);
        assert(bit_value(0) == 1 && bit_value(1) == 2 && bit_value(2) == 4 && bit_value(3) == 8);
    }
    assert(lattice_antipodes_after(PolytopeType::TwentyFourCell, 10, 24) == 0) by {
        reveal_with_fuel(lattice_antipodes_after, 25);
        assert(bit_value(0) == 1 && bit_value(1) == 2 && bit_value(2) == 4 && bit_value(3) == 8);
    }
    assert(lattice_antipodes_after(PolytopeType::TwentyFourCell, 11, 24) == 0) by {
        reveal_with_fuel(lattice_antipodes_after, 25);
        assert(bit_value(0) == 1 && bit_value(1) == 2 && bit_value(2) == 4 && bit_value(3) == 8);
    }
    assert(lattice_antipodes_after(PolytopeType::TwentyFourCell, 12, 24) == 1) by {
        reveal_with_fuel(lattice_antipodes_after, 25);
        assert(bit_value(0) == 1 && bit_value(1) == 2 && bit_value(2) == 4 && bit_value(3) == 8);
    }
    assert(lattice_antipodes_after(PolytopeType::TwentyFourCell, 13, 24) == 1) by {
        reveal_with_fuel(lattice_antipodes_after, 25);
        assert(bit_value(0) == 1 && bit_value(1) == 2 && bit_value(2) == 4 && bit_value(3) == 8);
    }
    assert(lattice_antipodes_after(PolytopeType::TwentyFourCell, 14, 24) == 0) by {
        reveal_with_fuel(lattice_antipodes_after, 25);
        assert(bit_value(0) == 1 && bit_value(1) == 2 && bit_value(2) == 4 && bit_value(3) == 8);
    }
    assert(lattice_antipodes_after(PolytopeType::TwentyFourCell, 15, 24) == 0) by {
        reveal_with_fuel(lattice_antipodes_after, 25);
        assert(bit_value(0) == 1 && bit_value(1) == 2 && bit_value(2) == 4 && bit_value(3) == 8);
    }
    assert(lattice_antipodes_after(PolytopeType::TwentyFourCell, 16, 24) == 1) by {
        reveal_with_fuel(lattice_antipodes_after, 25);
        assert(bit_value(0) == 1 && bit_value(1) == 2 && bit_value(2) == 4 && bit_value(3) == 8);
    }
    assert(lattice_antipodes_after(PolytopeType::TwentyFourCell, 17, 24) == 1) by {
        reveal_with_fuel(lattice_antipodes_after, 25);
        assert(bit_value(0) == 1 && bit_value(1) == 2 && bit_value(2) == 4 && bit_value(3) == 8);
    }
    assert(lattice_antipodes_after(PolytopeType::TwentyFourCell, 18, 24) == 0) by {
        reveal_with_fuel(lattice_antipodes_after, 25);
        assert(bit_value(0) == 1 && bit_value(1) == 2 && bit_value(2) == 4 && bit_value(3) == 8);
    }
    assert(lattice_antipodes_after(PolytopeType::TwentyFourCell, 19, 24) == 0) by {
        reveal_with_fuel(lattice_antipodes_after, 25);
        assert(bit_value(0) == 1 && bit_value(1) == 2 && bit_value(2) == 4 && bit_value(3) == 8);
    }
    assert(lattice_antipodes_after(PolytopeType::TwentyFourCell, 20, 24) == 1) by {
        reveal_with_fuel(lattice_antipodes_after, 25);
        assert(bit_value(0) == 1 && bit_value(1) == 2 && bit_value(2) == 4 && bit_value(3) == 8);
    }
    assert(lattice_antipodes_after(PolytopeType::TwentyFourCell, 21, 24) == 1) by {
        reveal_with_fuel(lattice_antipodes_after, 25);
        assert(bit_value(0) == 1 && bit_value(1) == 2 && bit_value(2) == 4 && bit_value(3) == 8);
    }
    assert(lattice_antipodes_after(PolytopeType::TwentyFourCell, 22, 24) == 0) by {
        reveal_with_fuel(lattice_antipodes_after, 25);
        assert(bit_value(0) == 1 && bit_value(1) == 2 && bit_value(2) == 4 && bit_value(3) == 8);
    }
    assert(lattice_antipodes_after(PolytopeType::TwentyFourCell, 23, 24) == 0) by {
        reveal_with_fuel(lattice_antipodes_after, 25);
        assert(bit_value(0) == 1 && bit_value(1) == 2 && bit_value(2) == 4 && bit_value(3) == 8);
    }
}

/// The lattice polytopes are centrally symmetric: their vertices fall into pairs of
/// opposite points, 8 pairs for the 8-cell, 4 for the 16-cell and 12 for the 24-cell.
pub proof fn law_antipodal_pairs(kind: PolytopeType)
    requires
        has_lattice_vertices(kind),
    ensures
        2 * antipodal_pairs(kind, spec_vertex_count(kind), spec_vertex_count(kind)) == spec_vertex_count(kind),
{
    let n = spec_vertex_count(kind);
    lemma_antipodal_pairs(kind, n, n);
    if kind == PolytopeType::EightCell {
        lemma_cube_antipode_rows();
        assert(lattice_antipodal_pairs(kind, 16, 16) == 8) by {
            reveal_with_fuel(lattice_antipodal_pairs, 17);
        }
    } else if kind == PolytopeType::SixteenCell {
        lemma_cross_antipode_rows();
        assert(lattice_antipodal_pairs(kind, 8, 8) == 4) by {
            reveal_with_fuel(lattice_antipodal_pairs, 9);
        }
    } else {
        lemma_cell24_antipode_rows();
        assert(lattice_antipodal_pairs(kind, 24, 24) == 12) by {
            reveal_with_fuel(lattice_antipodal_pairs, 25);
        }
    }
}

/// All edges of each lattice polytope have the same length: squared length 4 for the
/// tesseract (side 2), 2 for the 16-cell and the 24-cell.
pub proof fn law_uniform_edge_lengths(kind: PolytopeType)
    requires
        has_lattice_vertices(kind),
    ensures
        pairs_satisfy(
            polytope_edge_spec(kind),
            |a: int, b: int| dist_sq(polytope_lattice_vertex(kind, a), polytope_lattice_vertex(kind, b))
                == if kind == PolytopeType::EightCell { 4int } else { 2int },
        ),
{
    let s = polytope_edge_spec(kind);
    let len = if kind == PolytopeType::EightCell { 4int } else { 2int };
    match kind {
        PolytopeType::EightCell => {
            lemma_cube_edges_pairs(16);
            assert forall|k: int| 0 <= k < s.len() && k % 2 == 0 implies dist_sq(
                cube_vertex(#[trigger] s[k] as int),
                cube_vertex(s[k + 1] as int),
            ) == 4 by {
                let a = s[k] as int;
                let b = s[k + 1] as int;
                assert(cube_pair()(a, b));
                let kk = choose|kk: int| 0 <= kk < 4 && !bit_of(a, kk) && b == a + bit_value(kk);
                lemma_cube_neighbor(a, kk);
                let va = cube_vertex(a);
                let vb = cube_vertex(b);
                assert forall|m: int| 0 <= m < 4 implies (#[trigger] va[m] - vb[m]) * (va[m] - vb[m])
                    == if m == kk { 4int } else { 0int } by {
                    assert(bit_of(b, m) == (m == kk || bit_of(a, m)));
                    let d = va[m] - vb[m];
                    if m == kk {
                        assert(va[m] == -1 && vb[m] == 1);
                        assert(d * d == 4) by (nonlinear_arith) requires d == -2;
                    } else {
                        assert(va[m] == vb[m]);
                        assert(d * d == 0) by (nonlinear_arith) requires d == 0;
                    }
                }
                assert((va[0] - vb[0]) * (va[0] - vb[0]) == if kk == 0 { 4int } else { 0int });
                assert((va[1] - vb[1]) * (va[1] - vb[1]) == if kk == 1 { 4int } else { 0int });
                assert((va[2] - vb[2]) * (va[2] - vb[2]) == if kk == 2 { 4int } else { 0int });
                assert((va[3] - vb[3]) * (va[3] - vb[3]) == if kk == 3 { 4int } else { 0int });
            }
        },
        PolytopeType::SixteenCell => {
            lemma_scan_edges_pairs(8, 8, cross_adj());
            assert forall|k: int| 0 <= k < s.len() && k % 2 == 0 implies dist_sq(
                cross_vertex(#[trigger] s[k] as int),
                cross_vertex(s[k + 1] as int),
            ) == 2 by {
                let a = s[k] as int;
                let b = s[k + 1] as int;
                assert(scan_pair(8, cross_adj())(a, b));
                let va = cross_vertex(a);
                let vb = cross_vertex(b);
                let ia = a / 2;
                let ib = b / 2;
                assert(0 <= ia < 4 && 0 <= ib < 4 && ia != ib);
                assert forall|m: int| 0 <= m < 4 implies (#[trigger] va[m] - vb[m]) * (va[m] - vb[m])
                    == if m == ia || m == ib { 1int } else { 0int } by {
                    let d = va[m] - vb[m];
                    if m == ia {
                        assert(va[m] == 1 || va[m] == -1);
                        assert(vb[m] == 0);
                        assert(d * d == 1) by (nonlinear_arith) requires d == 1 || d == -1;
                    } else if m == ib {
                        assert(vb[m] == 1 || vb[m] == -1);
                        assert(va[m] == 0);
                        assert(d * d == 1) by (nonlinear_arith) requires d == 1 || d == -1;
                    } else {
                        assert(va[m] == 0 && vb[m] == 0);
                        assert(d * d == 0) by (nonlinear_arith) requires d == 0;
                    }
                }
                assert((va[0] - vb[0]) * (va[0] - vb[0]) == if 0 == ia || 0 == ib { 1int } else { 0int });
                assert((va[1] - vb[1]) * (va[1] - vb[1]) == if 1 == ia || 1 == ib { 1int } else { 0int });
                assert((va[2] - vb[2]) * (va[2] - vb[2]) == if 2 == ia || 2 == ib { 1int } else { 0int });
                assert((va[3] - vb[3]) * (va[3] - vb[3]) == if 3 == ia || 3 == ib { 1int } else { 0int });
            }
        },
        _ => {
            lemma_scan_edges_pairs(24, 24, cell24_adj());
            assert forall|k: int| 0 <= k < s.len() && k % 2 == 0 implies dist_sq(
                cell24_vertex(#[trigger] s[k] as int),
                cell24_vertex(s[k + 1] as int),
            ) == 2 by {
                assert(scan_pair(24, cell24_adj())(s[k] as int, s[k + 1] as int));
            }
        },
    }
}

} // verus!
