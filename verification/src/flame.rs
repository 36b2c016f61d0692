//! The thruster flame of a ship: its colour, its animation frame and whether it shows.
use vstd::prelude::*;

verus! {

#[derive(Clone, Copy, Debug, PartialEq, Eq, Structural)]
pub enum FlameColor {
    Red,
    Blue,
}

/// The flame burns blue while boosting with charge left, red while thrusting along the aim,
/// and not at all otherwise. `thrusting_forward` says that the movement input points along the
/// aim (a positive dot product).
pub fn flame_color(boost_held: bool, boost_units: u8, thrusting_forward: bool) -> (c: Option<
    FlameColor,
>)
    ensures
        c == (if boost_held && boost_units > 0 {
            Some(FlameColor::Blue)
        } else if thrusting_forward {
            Some(FlameColor::Red)
        } else {
            None
        }),
{
    if boost_held && boost_units > 0 {
        Some(FlameColor::Blue)
    } else if thrusting_forward {
        Some(FlameColor::Red)
    } else {
        None
    }
}

/// Each flame sprite shows for this many milliseconds.
pub const SPRITE_INTERVAL_MILLIS: u128 = 90;

/// The animation frame at `elapsed_millis` of run time: the three sprites cycle every
/// `SPRITE_INTERVAL_MILLIS`.
pub fn sprite_index(elapsed_millis: u128) -> (i: usize)
    ensures
        i == (elapsed_millis / SPRITE_INTERVAL_MILLIS) % 3,
        i < 3,
{
    ((elapsed_millis / SPRITE_INTERVAL_MILLIS) % 3) as usize
}

/// The frame to draw: frame `index` of the colour's sprites, once that sprite has been
/// rasterised; nothing without a colour.
pub fn flame_frame<'a, T>(
    red: &'a [Option<T>],
    blue: &'a [Option<T>],
    color: Option<FlameColor>,
    index: usize,
) -> (r: Option<&'a T>)
    ensures
        r == match color {
            None => None,
            Some(c) => {
                let frames = if c == FlameColor::Red {
                    red@
                } else {
                    blue@
                };
                if index < frames.len() && frames[index as int] is Some {
                    Some(&frames[index as int]->0)
                } else {
                    None
                }
            },
        },
{
    let frames = match color {
        None => return None,
        Some(FlameColor::Red) => red,
        Some(FlameColor::Blue) => blue,
    };
    if index < frames.len() {
        match &frames[index] {
            Some(frame) => Some(frame),
            None => None,
        }
    } else {
        None
    }
}

} // verus!
