//! Labels and layout of the zone tetrahedra around the tesseract view.
use vstd::prelude::*;

use crate::input::zones::{zone_movement_spec, Zone};
use crate::camera::{direction_axis, Direction4D, SignedAxis};

verus! {

/// The one-letter label of the direction a zone moves in.
pub open spec fn direction_letter(zone: Zone) -> Seq<char> {
    match zone {
        Zone::North => "U"@,
        Zone::South => "D"@,
        Zone::West => "L"@,
        Zone::East => "R"@,
        Zone::NorthEast => "F"@,
        Zone::SouthWest => "B"@,
        Zone::NorthWest => "K"@,
        Zone::SouthEast => "A"@,
        Zone::Center => ""@,
    }
}

/// One-letter label of the movement a zone triggers (Up, Down, Left, Right, Forward, Back,
/// Kata, Ana); empty for the center.
pub fn zone_to_direction_label(zone: Zone) -> (r: &'static str)
    ensures
        r@ == direction_letter(zone),
{
    match zone {
        Zone::North => "U",
        Zone::South => "D",
        Zone::West => "L",
        Zone::East => "R",
        Zone::NorthEast => "F",
        Zone::SouthWest => "B",
        Zone::NorthWest => "K",
        Zone::SouthEast => "A",
        Zone::Center => "",
    }
}

/// The arrow and word shown on a zone.
pub open spec fn zone_label_spec(zone: Zone) -> (Seq<char>, Seq<char>) {
    match zone {
        Zone::North => ("\u{2191}"@, "Up"@),
        Zone::South => ("\u{2193}"@, "Down"@),
        Zone::West => ("\u{2190}"@, "Left"@),
        Zone::East => ("\u{2192}"@, "Right"@),
        Zone::NorthEast => ("\u{2197}"@, "Fwd"@),
        Zone::SouthWest => ("\u{2199}"@, "Back"@),
        Zone::NorthWest => ("\u{2196}"@, "Kata"@),
        Zone::SouthEast => ("\u{2198}"@, "Ana"@),
        Zone::Center => (""@, ""@),
    }
}

/// Arrow glyph pointing towards the zone, and the name of its movement; both empty for the
/// center.
pub fn zone_label_text(zone: Zone) -> (r: (&'static str, &'static str))
    ensures
        r.0@ == zone_label_spec(zone).0,
        r.1@ == zone_label_spec(zone).1,
{
    match zone {
        Zone::North => ("\u{2191}", "Up"),
        Zone::South => ("\u{2193}", "Down"),
        Zone::West => ("\u{2190}", "Left"),
        Zone::East => ("\u{2192}", "Right"),
        Zone::NorthEast => ("\u{2197}", "Fwd"),
        Zone::SouthWest => ("\u{2199}", "Back"),
        Zone::NorthWest => ("\u{2196}", "Kata"),
        Zone::SouthEast => ("\u{2198}", "Ana"),
        Zone::Center => ("", ""),
    }
}

/// The initial of a direction's name.
pub open spec fn direction_initial(d: Direction4D) -> Seq<char> {
    match d {
        Direction4D::Forward => "F"@,
        Direction4D::Backward => "B"@,
        Direction4D::Left => "L"@,
        Direction4D::Right => "R"@,
        Direction4D::Up => "U"@,
        Direction4D::Down => "D"@,
        Direction4D::Kata => "K"@,
        Direction4D::Ana => "A"@,
    }
}

/// A zone's letter is the initial of the movement the zone triggers, and only the center,
/// which triggers none, has no letter.
pub proof fn law_letter_names_movement(zone: Zone)
    ensures
        match zone_movement_spec(zone) {
            Some(d) => direction_letter(zone) == direction_initial(d),
            None => direction_letter(zone) == ""@,
        },
{
}

/// A zone's label word names the movement the zone triggers: it starts with that
/// direction's initial, and only the center, which triggers none, has no word (and no
/// arrow).
pub proof fn law_label_word_names_movement(zone: Zone)
    ensures
        match zone_movement_spec(zone) {
            Some(d) => zone_label_spec(zone).1.len() > 0 && zone_label_spec(zone).1.take(1) == direction_initial(d),
            None => zone_label_spec(zone).1 == Seq::<char>::empty() && zone_label_spec(zone).0 == Seq::<char>::empty(),
        },
{
    match zone {
        Zone::North => {
            reveal_strlit("Up");
            reveal_strlit("U");
            assert("Up"@.take(1) =~= "U"@);
        },
        Zone::South => {
            reveal_strlit("Down");
            reveal_strlit("D");
            assert("Down"@.take(1) =~= "D"@);
        },
        Zone::West => {
            reveal_strlit("Left");
            reveal_strlit("L");
            assert("Left"@.take(1) =~= "L"@);
        },
        Zone::East => {
            reveal_strlit("Right");
            reveal_strlit("R");
            assert("Right"@.take(1) =~= "R"@);
        },
        Zone::NorthEast => {
            reveal_strlit("Fwd");
            reveal_strlit("F");
            assert("Fwd"@.take(1) =~= "F"@);
        },
        Zone::SouthWest => {
            reveal_strlit("Back");
            reveal_strlit("B");
            assert("Back"@.take(1) =~= "B"@);
        },
        Zone::NorthWest => {
            reveal_strlit("Kata");
            reveal_strlit("K");
            assert("Kata"@.take(1) =~= "K"@);
        },
        Zone::SouthEast => {
            reveal_strlit("Ana");
            reveal_strlit("A");
            assert("Ana"@.take(1) =~= "A"@);
        },
        Zone::Center => {
            reveal_strlit("");
            assert(""@ =~= Seq::<char>::empty());
        },
    }
}

/// The zone tetrahedra around the tesseract view, in drawing order: each zone with the
/// signed camera basis vector its tetrahedron shows. North and south show ±up, west and
/// east ∓right, north-east and south-west ±forward, north-west and south-east ±w.
pub open spec fn zone_layout_spec() -> Seq<(Zone, SignedAxis)> {
    seq![
        (Zone::North, SignedAxis { axis: 1, positive: true }),
        (Zone::South, SignedAxis { axis: 1, positive: false }),
        (Zone::West, SignedAxis { axis: 0, positive: false }),
        (Zone::East, SignedAxis { axis: 0, positive: true }),
        (Zone::NorthEast, SignedAxis { axis: 2, positive: true }),
        (Zone::SouthWest, SignedAxis { axis: 2, positive: false }),
        (Zone::NorthWest, SignedAxis { axis: 3, positive: true }),
        (Zone::SouthEast, SignedAxis { axis: 3, positive: false }),
    ]
}

/// The zones of the tesseract view and the signed basis vector each zone's tetrahedron
/// shows, in drawing order (the screen positions are placed by the renderer).
pub fn compute_zone_layout() -> (r: [(Zone, SignedAxis); 8])
    ensures
        r@ == zone_layout_spec(),
{
    let r = [
        (Zone::North, SignedAxis { axis: 1, positive: true }),
        (Zone::South, SignedAxis { axis: 1, positive: false }),
        (Zone::West, SignedAxis { axis: 0, positive: false }),
        (Zone::East, SignedAxis { axis: 0, positive: true }),
        (Zone::NorthEast, SignedAxis { axis: 2, positive: true }),
        (Zone::SouthWest, SignedAxis { axis: 2, positive: false }),
        (Zone::NorthWest, SignedAxis { axis: 3, positive: true }),
        (Zone::SouthEast, SignedAxis { axis: 3, positive: false }),
    ];
    assert(r@ =~= zone_layout_spec());
    r
}

/// Each zone tetrahedron shows the basis vector of the direction its zone moves the camera
/// in, and every zone but the center has a tetrahedron.
pub proof fn law_zone_layout_shows_movement(k: int, zone: Zone)
    requires
        0 <= k < 8,
    ensures
        zone_movement_spec(zone_layout_spec()[k].0) matches Some(d) && direction_axis(d) == zone_layout_spec()[k].1,
        zone != Zone::Center ==> exists|m: int| 0 <= m < 8 && #[trigger] zone_layout_spec()[m].0 == zone,
{
    if zone == Zone::North {
        assert(zone_layout_spec()[0].0 == zone);
    } else if zone == Zone::South {
        assert(zone_layout_spec()[1].0 == zone);
    } else if zone == Zone::West {
        assert(zone_layout_spec()[2].0 == zone);
    } else if zone == Zone::East {
        assert(zone_layout_spec()[3].0 == zone);
    } else if zone == Zone::NorthEast {
        assert(zone_layout_spec()[4].0 == zone);
    } else if zone == Zone::SouthWest {
        assert(zone_layout_spec()[5].0 == zone);
    } else if zone == Zone::NorthWest {
        assert(zone_layout_spec()[6].0 == zone);
    } else if zone == Zone::SouthEast {
        assert(zone_layout_spec()[7].0 == zone);
    }
}

} // verus!
