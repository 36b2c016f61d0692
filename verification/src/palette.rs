//! The sixteen-swatch nebulaspace palette every colour of the client comes from, in the
//! palette's own order and named after hue rather than job.
use vstd::prelude::*;

verus! {

#[derive(Clone, Copy, Debug, PartialEq, Eq, Structural)]
pub enum Palette {
    Forest,
    Moss,
    Olive,
    Citron,
    Cream,
    Mint,
    Teal,
    Indigo,
    Navy,
    PlumBlack,
    Sand,
    Tan,
    Rose,
    Mulberry,
    Plum,
    Wine,
}

/// The published sRGB bytes of each swatch.
pub open spec fn swatch(p: Palette) -> (u8, u8, u8) {
    match p {
        Palette::Forest => (10, 64, 26),
        Palette::Moss => (109, 133, 44),
        Palette::Olive => (179, 167, 36),
        Palette::Citron => (230, 235, 106),
        Palette::Cream => (237, 232, 225),
        Palette::Mint => (167, 219, 187),
        Palette::Teal => (93, 133, 140),
        Palette::Indigo => (61, 71, 110),
        Palette::Navy => (50, 36, 77),
        Palette::PlumBlack => (39, 20, 43),
        Palette::Sand => (214, 194, 186),
        Palette::Tan => (191, 150, 132),
        Palette::Rose => (166, 99, 114),
        Palette::Mulberry => (115, 55, 84),
        Palette::Plum => (69, 30, 62),
        Palette::Wine => (46, 15, 41),
    }
}

impl Palette {
    /// The swatch as sRGB bytes (red, green, blue).
    pub fn color(self) -> (c: (u8, u8, u8))
        ensures
            c == swatch(self),
    {
        match self {
            Palette::Forest => (10, 64, 26),
            Palette::Moss => (109, 133, 44),
            Palette::Olive => (179, 167, 36),
            Palette::Citron => (230, 235, 106),
            Palette::Cream => (237, 232, 225),
            Palette::Mint => (167, 219, 187),
            Palette::Teal => (93, 133, 140),
            Palette::Indigo => (61, 71, 110),
            Palette::Navy => (50, 36, 77),
            Palette::PlumBlack => (39, 20, 43),
            Palette::Sand => (214, 194, 186),
            Palette::Tan => (191, 150, 132),
            Palette::Rose => (166, 99, 114),
            Palette::Mulberry => (115, 55, 84),
            Palette::Plum => (69, 30, 62),
            Palette::Wine => (46, 15, 41),
        }
    }
}

/// The local ship is drawn in teal and every other ship in rose.
pub fn ship_color(controlled: bool) -> (p: Palette)
    ensures
        p == (if controlled {
            Palette::Teal
        } else {
            Palette::Rose
        }),
{
    if controlled {
        Palette::Teal
    } else {
        Palette::Rose
    }
}

} // verus!
