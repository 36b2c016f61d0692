//! The text of the heads-up display and which of its nodes follow the local player.
use vstd::prelude::*;
use crate::text::{append_decimal, chars_of, decimal, digit_char, same_text, string_of};

verus! {

/// A charge reading: the units, zero-padded to three digits.
pub open spec fn charge_reading(units: u8) -> Seq<char> {
    seq![
        digit_char((units / 100) as nat),
        digit_char(((units / 10) % 10) as nat),
        digit_char((units % 10) as nat),
    ]
}

/// The readout of an ability's charge, such as `007`.
pub fn charge_text(units: u8) -> (s: String)
    ensures
        s@ == charge_reading(units),
{
    let mut chars: Vec<char> = Vec::new();
    chars.push(((48u8 + units / 100) as char));
    chars.push(((48u8 + (units / 10) % 10) as char));
    chars.push(((48u8 + units % 10) as char));
    assert(chars@ =~= charge_reading(units));
    string_of(chars.as_slice())
}

/// The player count line, such as `PLAYERS: 3`.
pub fn players_text(count: usize) -> (s: String)
    ensures
        s@ == "PLAYERS: "@ + decimal(count as nat),
{
    let mut chars = chars_of("PLAYERS: ");
    append_decimal(&mut chars, count as u128);
    string_of(chars.as_slice())
}

/// The round-trip line: the measured round trip in milliseconds, or dashes before one exists.
pub fn ping_text(rtt_millis: Option<u128>) -> (s: String)
    ensures
        s@ == match rtt_millis {
            Some(ms) => "Ping: "@ + decimal(ms as nat) + " ms"@,
            None => "Ping: -- Ms"@,
        },
{
    match rtt_millis {
        Some(ms) => {
            let mut chars = chars_of("Ping: ");
            append_decimal(&mut chars, ms);
            let mut unit = chars_of(" ms");
            chars.append(&mut unit);
            string_of(chars.as_slice())
        },
        None => "Ping: -- Ms".to_owned(),
    }
}

/// The hull reading: the health value in decimal.
pub fn health_text(health: u8) -> (s: String)
    ensures
        s@ == decimal(health as nat),
{
    let mut chars: Vec<char> = Vec::new();
    append_decimal(&mut chars, health as u128);
    assert(chars@ =~= decimal(health as nat));
    string_of(chars.as_slice())
}

/// The overlay roots and readouts that are hidden while the menu owns the screen.
pub open spec fn overlay_id(id: Seq<char>) -> bool {
    id == "hud"@ || id == "frame-layer"@ || id == "hud-map"@ || id == "hud-status"@ || id
        == "hud-abilities"@ || id == "hud-health"@ || id == "hud-alert"@
}

/// Whether the node `id` is one of the overlay nodes shown only while the local player flies.
pub fn is_overlay_id(id: &str) -> (r: bool)
    ensures
        r == overlay_id(id@),
{
    same_text(id, "hud") || same_text(id, "frame-layer") || same_text(id, "hud-map")
        || same_text(id, "hud-status") || same_text(id, "hud-abilities") || same_text(
        id,
        "hud-health",
    ) || same_text(id, "hud-alert")
}

} // verus!
