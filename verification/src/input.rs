//! The ability controls captured once per rendered frame for the fixed ticks that follow.
use vstd::prelude::*;

verus! {

/// Discrete presses are counted, so that a press survives zero or several fixed ticks in one
/// frame; the beam and the boost keep their current held state.
#[derive(Clone, Copy, Debug, PartialEq, Eq, Structural)]
pub struct AbilityInputs {
    pub blaster_clicks: u8,
    pub blaster_reload_requests: u8,
    pub phase_beam: bool,
    pub boost: bool,
}

pub open spec fn counted(count: u8, pressed: bool) -> u8 {
    if pressed {
        vstd::wrapping::u8_specs::wrapping_add(count, 1)
    } else {
        count
    }
}

impl AbilityInputs {
    /// Nothing pressed, nothing counted.
    pub fn new() -> (r: Self)
        ensures
            r == (AbilityInputs {
                blaster_clicks: 0,
                blaster_reload_requests: 0,
                phase_beam: false,
                boost: false,
            }),
    {
        AbilityInputs { blaster_clicks: 0, blaster_reload_requests: 0, phase_beam: false, boost: false }
    }

    /// Captures one frame of controls: without a local player everything resets; otherwise a
    /// fresh left click counts a shot, a fresh R counts a reload request (both wrapping), the
    /// beam follows the right mouse button and the boost follows Space.
    pub fn capture(
        &mut self,
        has_player: bool,
        fire_pressed: bool,
        reload_pressed: bool,
        beam_held: bool,
        boost_held: bool,
    )
        ensures
            !has_player ==> *final(self) == (AbilityInputs {
                blaster_clicks: 0,
                blaster_reload_requests: 0,
                phase_beam: false,
                boost: false,
            }),
            has_player ==> *final(self) == (AbilityInputs {
                blaster_clicks: counted(old(self).blaster_clicks, fire_pressed),
                blaster_reload_requests: counted(old(self).blaster_reload_requests, reload_pressed),
                phase_beam: beam_held,
                boost: boost_held,
            }),
    {
        if !has_player {
            *self = AbilityInputs::new();
            return;
        }
        self.blaster_clicks = self.blaster_clicks.wrapping_add(if fire_pressed {
            1u8
        } else {
            0u8
        });
        self.blaster_reload_requests = self.blaster_reload_requests.wrapping_add(
            if reload_pressed {
                1u8
            } else {
                0u8
            },
        );
        self.phase_beam = beam_held;
        self.boost = boost_held;
    }
}

/// Ordinary frames keep the captured presses: a counter only moves, by one and wrapping, on a
/// fresh press.
pub proof fn law_counters_move_only_on_presses(count: u8)
    ensures
        counted(count, false) == count,
        counted(count, true) == (if count == u8::MAX {
            0
        } else {
            count + 1
        }),
{
}

} // verus!
