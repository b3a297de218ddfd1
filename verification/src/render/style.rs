//! Compass frame modes and the packing of the w color table's entries.
use vstd::prelude::*;

verus! {

/// Which frame the compass shows directions in.
#[derive(Debug, Clone, Copy, PartialEq, Eq, Structural)]
pub enum CompassFrameMode {
    World,
    Camera,
}

impl Default for CompassFrameMode {
    fn default() -> (r: Self)
        ensures
            r == CompassFrameMode::World,
    {
        CompassFrameMode::World
    }
}

impl CompassFrameMode {
    /// The frame mode a toggle switches to.
    pub fn other(self) -> (r: Self)
        ensures
            r == other_spec(self),
    {
        match self {
            Self::World => Self::Camera,
            Self::Camera => Self::World,
        }
    }

    /// The label shown on the frame toggle.
    pub fn display_label(self) -> (r: &'static str)
        ensures
            r@ == match self {
                CompassFrameMode::World => "Frame: World"@,
                CompassFrameMode::Camera => "Frame: Camera"@,
            },
    {
        match self {
            Self::World => "Frame: World",
            Self::Camera => "Frame: Camera",
        }
    }
}

/// Switching the compass frame twice returns to the frame one started from.
pub proof fn law_other_is_an_involution(m: CompassFrameMode)
    ensures
        other_spec(other_spec(m)) == m,
        other_spec(m) != m,
{
}

/// The frame mode that `other` returns.
pub open spec fn other_spec(m: CompassFrameMode) -> CompassFrameMode {
    match m {
        CompassFrameMode::World => CompassFrameMode::Camera,
        CompassFrameMode::Camera => CompassFrameMode::World,
    }
}

/// The packed `0x00RRGGBB` value of a color.
pub open spec fn packed_rgb(r: u8, g: u8, b: u8) -> int {
    r as int * 65536 + g as int * 256 + b as int
}

/// Packs three color channels into one `u32` as `0x00RRGGBB`.
pub fn pack_rgb(r: u8, g: u8, b: u8) -> (p: u32)
    ensures
        p as int == packed_rgb(r, g, b),
{
    let p = ((r as u32) << 16) | ((g as u32) << 8) | (b as u32);
    assert(((r as u32) << 16) | ((g as u32) << 8) | (b as u32) == r as u32 * 65536 + g as u32 * 256
        + b as u32) by (bit_vector);
    p
}

/// The red, green and blue channels of a packed `0x??RRGGBB` color.
pub fn unpack_rgb(p: u32) -> (c: (u8, u8, u8))
    ensures
        c.0 as int == (p as int / 65536) % 256,
        c.1 as int == (p as int / 256) % 256,
        c.2 as int == p as int % 256,
{
    let r = ((p >> 16) & 0xFF) as u8;
    let g = ((p >> 8) & 0xFF) as u8;
    let b = (p & 0xFF) as u8;
    assert(((p >> 16) & 0xFF) == (p / 65536) % 256 && ((p >> 8) & 0xFF) == (p / 256) % 256 && (p
        & 0xFF) == p % 256) by (bit_vector);
    (r, g, b)
}

/// Unpacking a packed color gives back its channels.
pub proof fn law_unpack_inverts_pack(r: u8, g: u8, b: u8)
    ensures
        (packed_rgb(r, g, b) / 65536) % 256 == r,
        (packed_rgb(r, g, b) / 256) % 256 == g,
        packed_rgb(r, g, b) % 256 == b,
{
    assert(((r as u32 * 65536 + g as u32 * 256 + b as u32) / 65536) % 256 == r as u32 && ((r as u32
        * 65536 + g as u32 * 256 + b as u32) / 256) % 256 == g as u32 && (r as u32 * 65536 + g as u32
        * 256 + b as u32) % 256 == b as u32) by (bit_vector);
}

} // verus!
