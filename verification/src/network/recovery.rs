//! Recovery from suspension: a hidden page or a throttled, unfocused window stalls the frame
//! loop, and a session that fell that far behind wall time is retired rather than resumed.
use vstd::prelude::*;

verus! {

/// Frames this far apart (in nanoseconds) leave the input timeline behind wall time: the
/// engine clamps virtual time at 250 ms.
pub const MAX_FRAME_GAP: u128 = 250_000_000;

/// Time passed from `since` to `now`, or zero when `now` is earlier.
pub open spec fn elapsed(now: u128, since: u128) -> u128 {
    if now >= since {
        (now - since) as u128
    } else {
        0
    }
}

/// `now` minus `since`, saturating at zero.
pub fn elapsed_since(now: u128, since: u128) -> (r: u128)
    ensures
        r == elapsed(now, since),
{
    if now >= since {
        now - since
    } else {
        0
    }
}

/// What a frame asks of the network session.
#[derive(Clone, Copy, Debug, PartialEq, Eq, Structural)]
pub enum Recovery {
    Continue,
    Suspend,
    Reconnect,
}

/// Whether the client is hidden, since when, and whether the session was suspended for it.
/// Times are in nanoseconds of wall time.
#[derive(Clone, Copy, Debug, PartialEq, Eq, Structural)]
pub struct Suspension {
    pub hidden_since: Option<u128>,
    pub suspended: bool,
}

/// The state after a frame at `now`, `gap` after the previous one, and what the frame asks for.
pub open spec fn observed(s: Suspension, now: u128, gap: u128, hidden: bool) -> (Suspension, Recovery) {
    if hidden {
        let since = match s.hidden_since {
            Some(t) => t,
            None => now,
        };
        if !s.suspended && (gap >= MAX_FRAME_GAP || elapsed(now, since) >= MAX_FRAME_GAP) {
            (Suspension { hidden_since: Some(since), suspended: true }, Recovery::Suspend)
        } else {
            (Suspension { hidden_since: Some(since), suspended: s.suspended }, Recovery::Continue)
        }
    } else {
        let long_hidden = match s.hidden_since {
            Some(t) => elapsed(now, t) >= MAX_FRAME_GAP,
            None => false,
        };
        (
            Suspension { hidden_since: None, suspended: false },
            if s.suspended || long_hidden || gap >= MAX_FRAME_GAP {
                Recovery::Reconnect
            } else {
                Recovery::Continue
            },
        )
    }
}

impl Suspension {
    /// A client that has not been hidden.
    pub fn new() -> (r: Self)
        ensures
            r == (Suspension { hidden_since: None, suspended: false }),
    {
        Suspension { hidden_since: None, suspended: false }
    }

    /// Observes one frame at `now`, `gap` after the previous one. While hidden, a session is
    /// suspended once the frame gap or the time spent hidden reaches `MAX_FRAME_GAP`; once
    /// visible again it is reconnected if it was suspended, was hidden that long, or the gap
    /// alone was that long.
    pub fn observe(&mut self, now: u128, gap: u128, hidden: bool) -> (r: Recovery)
        ensures
            (*final(self), r) == observed(*old(self), now, gap, hidden),
    {
        if hidden {
            let since = match self.hidden_since {
                Some(t) => t,
                None => now,
            };
            self.hidden_since = Some(since);
            if !self.suspended && (gap >= MAX_FRAME_GAP || elapsed_since(now, since)
                >= MAX_FRAME_GAP) {
                self.suspended = true;
                Recovery::Suspend
            } else {
                Recovery::Continue
            }
        } else {
            let long_hidden = match self.hidden_since {
                Some(t) => elapsed_since(now, t) >= MAX_FRAME_GAP,
                None => false,
            };
            self.hidden_since = None;
            let was_suspended = self.suspended;
            self.suspended = false;
            if was_suspended || long_hidden || gap >= MAX_FRAME_GAP {
                Recovery::Reconnect
            } else {
                Recovery::Continue
            }
        }
    }

    pub fn is_suspended(&self) -> (r: bool)
        ensures
            r == self.suspended,
    {
        self.suspended
    }

    /// Whether an unfocused window is being throttled: it normally keeps running at full rate,
    /// so it only counts as inactive once a frame gap reaches `MAX_FRAME_GAP` or the session is
    /// already suspended. `window_unfocused` says that the primary window exists and lacks
    /// focus.
    pub fn throttled_unfocused(&self, window_unfocused: bool, gap: u128) -> (r: bool)
        ensures
            r == (window_unfocused && (gap >= MAX_FRAME_GAP || self.suspended)),
    {
        window_unfocused && (gap >= MAX_FRAME_GAP || self.suspended)
    }
}

/// A hidden client never asks to reconnect and a visible one never asks to suspend; a visible
/// frame always clears the hidden state.
pub proof fn law_recovery_follows_visibility(s: Suspension, now: u128, gap: u128, hidden: bool)
    ensures
        hidden ==> observed(s, now, gap, hidden).1 != Recovery::Reconnect,
        !hidden ==> observed(s, now, gap, hidden).1 != Recovery::Suspend,
        !hidden ==> observed(s, now, gap, hidden).0 == (Suspension {
            hidden_since: None,
            suspended: false,
        }),
{
}

/// A session is suspended at most once while the client stays hidden, and the first visible
/// frame after a suspension always reconnects.
pub proof fn law_suspend_once_then_reconnect(
    s: Suspension,
    now: u128,
    gap: u128,
    later: u128,
    later_gap: u128,
)
    ensures
        observed(s, now, gap, true).1 == Recovery::Suspend ==> {
            &&& observed(observed(s, now, gap, true).0, later, later_gap, true).1 == Recovery::Continue
            &&& observed(observed(s, now, gap, true).0, later, later_gap, false).1
                == Recovery::Reconnect
        },
        s.suspended ==> observed(s, now, gap, true).1 == Recovery::Continue,
{
}

/// On a visible frame the session reconnects exactly when it was suspended, when the frame gap
/// reached `MAX_FRAME_GAP`, or when the client had been hidden for at least `MAX_FRAME_GAP`.
pub proof fn law_visible_frame_reconnects_after_long_stall(s: Suspension, now: u128, gap: u128)
    ensures
        observed(s, now, gap, false).1 == Recovery::Reconnect <==> (s.suspended || gap
            >= MAX_FRAME_GAP || exists|t: u128|
            s.hidden_since == Some(t) && t <= now && now - t >= MAX_FRAME_GAP),
        observed(s, now, gap, false).1 != Recovery::Reconnect ==> observed(s, now, gap, false).1
            == Recovery::Continue,
        forall|t: u128|
            s.hidden_since == Some(t) && t + MAX_FRAME_GAP <= now ==> observed(s, now, gap, false).1
                == Recovery::Reconnect,
{
    if let Some(t) = s.hidden_since {
        if t <= now && now - t >= MAX_FRAME_GAP {
            assert(s.hidden_since == Some(t) && t <= now && now - t >= MAX_FRAME_GAP);
        }
    }
}

} // verus!
