//! Tap zones of a stereo view half: their names, grid layout and the movement each one
//! triggers.
use vstd::prelude::*;

use crate::camera::Direction4D;

verus! {

/// How many zones a view rect is divided into.
#[derive(Debug, Clone, Copy, PartialEq, Eq, Hash, Structural)]
pub enum ZoneMode {
    /// Four triangular zones (N/E/S/W) cut by the two diagonals.
    FourZones,
    /// Nine regions of a 3x3 grid.
    NineZones,
}

impl Default for ZoneMode {
    fn default() -> (r: Self)
        ensures
            r == ZoneMode::FourZones,
    {
        ZoneMode::FourZones
    }
}

/// A named region within a divided view rect.
#[derive(Debug, Clone, Copy, PartialEq, Eq, Hash, Structural)]
pub enum Zone {
    North,
    East,
    South,
    West,
    NorthWest,
    NorthEast,
    Center,
    SouthWest,
    SouthEast,
}

/// The movement direction bound to a tap zone: cardinal zones move up/down/left/right,
/// diagonal zones move forward/backward/kata/ana, and the center moves nowhere.
pub open spec fn zone_movement_spec(zone: Zone) -> Option<Direction4D> {
    match zone {
        Zone::North => Some(Direction4D::Up),
        Zone::South => Some(Direction4D::Down),
        Zone::West => Some(Direction4D::Left),
        Zone::East => Some(Direction4D::Right),
        Zone::NorthEast => Some(Direction4D::Forward),
        Zone::SouthWest => Some(Direction4D::Backward),
        Zone::NorthWest => Some(Direction4D::Kata),
        Zone::SouthEast => Some(Direction4D::Ana),
        Zone::Center => None,
    }
}

/// Maps a tap zone to a camera movement direction.
///
/// Cardinal zones map to directional moves, diagonal zones to forward/backward/kata/ana.
/// Returns `None` for `Center`.
pub fn zone_to_movement_action(zone: Zone) -> (r: Option<Direction4D>)
    ensures
        r == zone_movement_spec(zone),
        r is None <==> zone == Zone::Center,
        zone.is_cardinal_spec() ==> (r == Some(Direction4D::Up) || r == Some(Direction4D::Down)
            || r == Some(Direction4D::Left) || r == Some(Direction4D::Right)),
{
    match zone {
        Zone::North => Some(Direction4D::Up),
        Zone::South => Some(Direction4D::Down),
        Zone::West => Some(Direction4D::Left),
        Zone::East => Some(Direction4D::Right),
        Zone::NorthEast => Some(Direction4D::Forward),
        Zone::SouthWest => Some(Direction4D::Backward),
        Zone::NorthWest => Some(Direction4D::Kata),
        Zone::SouthEast => Some(Direction4D::Ana),
        Zone::Center => None,
    }
}

/// Row (0 = top) and column (0 = left) of a zone in the 3x3 grid.
pub open spec fn zone_cell(zone: Zone) -> (int, int) {
    match zone {
        Zone::NorthWest => (0, 0),
        Zone::North => (0, 1),
        Zone::NorthEast => (0, 2),
        Zone::West => (1, 0),
        Zone::Center => (1, 1),
        Zone::East => (1, 2),
        Zone::SouthWest => (2, 0),
        Zone::South => (2, 1),
        Zone::SouthEast => (2, 2),
    }
}

/// Position of a zone in grid order (row-major over the 3x3 grid).
pub open spec fn zone_index(zone: Zone) -> int {
    3 * zone_cell(zone).0 + zone_cell(zone).1
}

/// The display name of a zone.
pub open spec fn zone_name(zone: Zone) -> Seq<char> {
    match zone {
        Zone::North => "North"@,
        Zone::East => "East"@,
        Zone::South => "South"@,
        Zone::West => "West"@,
        Zone::NorthWest => "NorthWest"@,
        Zone::NorthEast => "NorthEast"@,
        Zone::Center => "Center"@,
        Zone::SouthWest => "SouthWest"@,
        Zone::SouthEast => "SouthEast"@,
    }
}

impl Zone {
    /// N/E/S/W: the cardinal directions.
    pub open spec fn is_cardinal_spec(self) -> bool {
        self == Zone::North || self == Zone::East || self == Zone::South || self == Zone::West
    }

    /// Returns true for N/E/S/W (cardinal directions), false for diagonals and center.
    pub fn is_cardinal(self) -> (r: bool)
        ensures
            r == self.is_cardinal_spec(),
    {
        matches!(self, Zone::North | Zone::East | Zone::South | Zone::West)
    }

    /// All 9 zones in grid order (NW, N, NE, W, C, E, SW, S, SE).
    pub fn all() -> (r: [Zone; 9])
        ensures
            r@ == seq![
                Zone::NorthWest,
                Zone::North,
                Zone::NorthEast,
                Zone::West,
                Zone::Center,
                Zone::East,
                Zone::SouthWest,
                Zone::South,
                Zone::SouthEast,
            ],
    {
        [
            Zone::NorthWest,
            Zone::North,
            Zone::NorthEast,
            Zone::West,
            Zone::Center,
            Zone::East,
            Zone::SouthWest,
            Zone::South,
            Zone::SouthEast,
        ]
    }

    /// The 4 cardinal zones: N, E, S, W.
    pub fn cardinals() -> (r: [Zone; 4])
        ensures
            r@ == seq![Zone::North, Zone::East, Zone::South, Zone::West],
    {
        [Zone::North, Zone::East, Zone::South, Zone::West]
    }

    /// The grid cell (row, column) of the zone, row 0 at the top and column 0 at the left.
    pub fn grid_cell(self) -> (r: (usize, usize))
        ensures
            r.0 == zone_cell(self).0,
            r.1 == zone_cell(self).1,
            r.0 < 3 && r.1 < 3,
    {
        match self {
            Zone::NorthWest => (0, 0),
            Zone::North => (0, 1),
            Zone::NorthEast => (0, 2),
            Zone::West => (1, 0),
            Zone::Center => (1, 1),
            Zone::East => (1, 2),
            Zone::SouthWest => (2, 0),
            Zone::South => (2, 1),
            Zone::SouthEast => (2, 2),
        }
    }

    /// The display name of the zone.
    pub fn to_string(&self) -> (r: String)
        ensures
            r@ == zone_name(*self),
    {
        match self {
            Zone::North => "North".to_owned(),
            Zone::East => "East".to_owned(),
            Zone::South => "South".to_owned(),
            Zone::West => "West".to_owned(),
            Zone::NorthWest => "NorthWest".to_owned(),
            Zone::NorthEast => "NorthEast".to_owned(),
            Zone::Center => "Center".to_owned(),
            Zone::SouthWest => "SouthWest".to_owned(),
            Zone::SouthEast => "SouthEast".to_owned(),
        }
    }
}

/// The zone of the 3x3 grid at the given row (0 = top) and column (0 = left).
pub open spec fn grid_zone(row: int, col: int) -> Zone {
    if row == 0 {
        if col == 0 { Zone::NorthWest } else if col == 1 { Zone::North } else { Zone::NorthEast }
    } else if row == 1 {
        if col == 0 { Zone::West } else if col == 1 { Zone::Center } else { Zone::East }
    } else {
        if col == 0 { Zone::SouthWest } else if col == 1 { Zone::South } else { Zone::SouthEast }
    }
}

/// Nine-way zone of a grid cell: the point's normalized coordinates have already been
/// sorted into thirds, `col` from the left and `row` from the top.
pub fn zone_9way(row: usize, col: usize) -> (r: Zone)
    requires
        row < 3,
        col < 3,
    ensures
        r == grid_zone(row as int, col as int),
        zone_cell(r) == (row as int, col as int),
{
    if row == 0 {
        if col == 0 {
            Zone::NorthWest
        } else if col == 1 {
            Zone::North
        } else {
            Zone::NorthEast
        }
    } else if row == 1 {
        if col == 0 {
            Zone::West
        } else if col == 1 {
            Zone::Center
        } else {
            Zone::East
        }
    } else {
        if col == 0 {
            Zone::SouthWest
        } else if col == 1 {
            Zone::South
        } else {
            Zone::SouthEast
        }
    }
}

/// The four-way zone of a point, from its side of the two diagonals: north lies above
/// both, south below both, west above the NW-SE diagonal only, east above the NE-SW
/// diagonal only.
pub open spec fn diagonal_zone(above_nw_se: bool, above_ne_sw: bool) -> Zone {
    if above_nw_se && above_ne_sw {
        Zone::North
    } else if !above_nw_se && !above_ne_sw {
        Zone::South
    } else if above_nw_se && !above_ne_sw {
        Zone::West
    } else {
        Zone::East
    }
}

/// Four-way zone of a point given which side of each diagonal of the rect it lies on.
pub fn zone_4way(above_nw_se: bool, above_ne_sw: bool) -> (r: Zone)
    ensures
        r == diagonal_zone(above_nw_se, above_ne_sw),
        r.is_cardinal_spec(),
{
    if above_nw_se && above_ne_sw {
        Zone::North
    } else if !above_nw_se && !above_ne_sw {
        Zone::South
    } else if above_nw_se && !above_ne_sw {
        Zone::West
    } else {
        Zone::East
    }
}

/// Which stereo view half a drag or tap occurred in.
#[derive(Debug, Clone, Copy, PartialEq, Eq, Structural)]
pub enum DragView {
    Left,
    Right,
}

/// Identifies a specific tetrahedron by its view half and zone.
#[derive(Debug, Clone, Copy, PartialEq, Eq, Hash, Structural)]
pub struct TetraId {
    pub is_left_view: bool,
    pub zone: Zone,
}

/// `Zone::all` lists the zones in grid order: the zone at position `3 * row + col` is the
/// one in that grid cell, and every zone appears exactly at its own grid position.
pub proof fn law_all_is_grid_order(row: int, col: int, zone: Zone)
    requires
        0 <= row < 3,
        0 <= col < 3,
    ensures
        seq![
            Zone::NorthWest,
            Zone::North,
            Zone::NorthEast,
            Zone::West,
            Zone::Center,
            Zone::East,
            Zone::SouthWest,
            Zone::South,
            Zone::SouthEast,
        ][3 * row + col] == grid_zone(row, col),
        0 <= zone_index(zone) < 9,
        grid_zone(zone_cell(zone).0, zone_cell(zone).1) == zone,
{
}

/// The cardinal zones are exactly the zones that `is_cardinal` accepts, and the four-way
/// division only ever yields cardinal zones.
pub proof fn law_cardinals_are_cardinal(zone: Zone, a: bool, b: bool)
    ensures
        seq![Zone::North, Zone::East, Zone::South, Zone::West].contains(zone)
            <==> zone.is_cardinal_spec(),
        diagonal_zone(a, b).is_cardinal_spec(),
{
    let s = seq![Zone::North, Zone::East, Zone::South, Zone::West];
    if zone.is_cardinal_spec() {
        if zone == Zone::North {
            assert(s[0] == zone);
        } else if zone == Zone::East {
            assert(s[1] == zone);
        } else if zone == Zone::South {
            assert(s[2] == zone);
        } else {
            assert(s[3] == zone);
        }
    }
}

/// Different zones trigger different movements: no two zones share a direction, and every
/// direction is triggered by some zone.
pub proof fn law_zone_movements_distinct(z1: Zone, z2: Zone, d: Direction4D)
    ensures
        zone_movement_spec(z1) is Some && zone_movement_spec(z1) == zone_movement_spec(z2) ==> z1 == z2,
        exists|z: Zone| zone_movement_spec(z) == Some(d),
{
    match d {
        Direction4D::Up => assert(zone_movement_spec(Zone::North) == Some(d)),
        Direction4D::Down => assert(zone_movement_spec(Zone::South) == Some(d)),
        Direction4D::Left => assert(zone_movement_spec(Zone::West) == Some(d)),
        Direction4D::Right => assert(zone_movement_spec(Zone::East) == Some(d)),
        Direction4D::Forward => assert(zone_movement_spec(Zone::NorthEast) == Some(d)),
        Direction4D::Backward => assert(zone_movement_spec(Zone::SouthWest) == Some(d)),
        Direction4D::Kata => assert(zone_movement_spec(Zone::NorthWest) == Some(d)),
        Direction4D::Ana => assert(zone_movement_spec(Zone::SouthEast) == Some(d)),
    }
}

} // verus!
