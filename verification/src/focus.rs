//! Prediction availability driven by window focus. Losing focus suspends local simulation;
//! regaining it waits for an authoritative checkpoint that arrived afterwards, rolls back to it,
//! and only resumes prediction once that rollback has run to completion.
use vstd::prelude::*;

verus! {

/// Where prediction stands. Ticks are simulation ticks.
#[derive(Clone, Copy, Debug, PartialEq, Eq, Structural)]
pub enum PredictionPhase {
    /// Focused: simulation, prediction and input all run normally.
    Active,
    /// Unfocused: local simulation is gated and only authoritative state is presented.
    Suspended,
    /// Focused again, waiting for a checkpoint newer than `previous_checkpoint`.
    Waiting { previous_checkpoint: Option<u32> },
    /// A rollback to the checkpoint at `tick` was requested; `prepared` records whether the
    /// rollback was actually set up for exactly that tick.
    Restoring { tick: u32, prepared: bool },
}

/// Prediction availability, driven by window focus.
#[derive(Clone, Copy, Debug, PartialEq, Eq, Structural)]
pub struct FocusPrediction {
    pub phase: PredictionPhase,
}

/// The signed distance from tick `from` to tick `to`, saturated to the `i32` range, as the
/// networking crate's tick subtraction defines it.
pub open spec fn tick_distance(to: u32, from: u32) -> int {
    let d = to - from;
    if d < i32::MIN {
        i32::MIN as int
    } else if d > i32::MAX {
        i32::MAX as int
    } else {
        d
    }
}

/// Tick `to` minus tick `from`, saturated to the `i32` range.
pub fn tick_difference(to: u32, from: u32) -> (d: i32)
    ensures
        d == tick_distance(to, from),
{
    let d: i64 = to as i64 - from as i64;
    if d < i32::MIN as i64 {
        i32::MIN
    } else if d > i32::MAX as i64 {
        i32::MAX
    } else {
        d as i32
    }
}

/// The checkpoint to roll back to: the newest confirmed `checkpoint`, when it is not the one
/// known before focus returned and lies at most `max_depth` ticks behind `local`.
pub open spec fn usable_checkpoint(
    previous: Option<u32>,
    checkpoint: Option<u32>,
    local: u32,
    max_depth: u16,
) -> Option<u32> {
    match checkpoint {
        Some(c) => if Some(c) != previous && 0 <= tick_distance(local, c) <= max_depth {
            Some(c)
        } else {
            None
        },
        None => None,
    }
}

/// A checkpoint is usable when it arrived after focus returned and is recent enough to replay
/// within the rollback budget. A checkpoint ahead of the local timeline has a negative depth and
/// is rejected too.
pub fn recent_checkpoint(previous: Option<u32>, checkpoint: Option<u32>, local: u32, max_depth: u16) -> (r:
    Option<u32>)
    ensures
        r == usable_checkpoint(previous, checkpoint, local, max_depth),
        r matches Some(c) ==> checkpoint == Some(c) && previous != Some(c) && c <= local && local
            - c <= max_depth,
{
    let c = match checkpoint {
        Some(c) => c,
        None => return None,
    };
    let repeated = match previous {
        Some(p) => p == c,
        None => false,
    };
    if repeated {
        return None;
    }
    let depth = tick_difference(local, c);
    if 0 <= depth && depth <= max_depth as i32 {
        Some(c)
    } else {
        None
    }
}

/// Whether the forced rollback that was asked for was prepared: a rollback from state is under
/// way and it starts at exactly `tick`.
pub open spec fn prepared_for(from_state: bool, start_tick: Option<u32>, tick: u32) -> bool {
    from_state && start_tick == Some(tick)
}

/// Whether the rollback the networking layer set up is the forced rollback to `tick`:
/// `from_state` says that a rollback from state is pending, `start_tick` is the tick it starts
/// at, where it reports one.
pub fn rollback_prepared(from_state: bool, start_tick: Option<u32>, tick: u32) -> (r: bool)
    ensures
        r == prepared_for(from_state, start_tick, tick),
{
    from_state && match start_tick {
        Some(t) => t == tick,
        None => false,
    }
}

/// The requested rollback has run to completion: it was prepared, and no rollback is pending
/// any more.
pub fn rollback_finished(prepared: bool, rollback_pending: bool) -> (r: bool)
    ensures
        r == (prepared && !rollback_pending),
{
    prepared && !rollback_pending
}

/// The phase after a focus observation.
pub open spec fn after_focus(phase: PredictionPhase, focused: bool, last_confirmed: Option<u32>) -> PredictionPhase {
    if focused {
        if phase is Suspended {
            PredictionPhase::Waiting { previous_checkpoint: last_confirmed }
        } else {
            phase
        }
    } else {
        PredictionPhase::Suspended
    }
}

/// The phase after the networking layer reported on the rollback it set up.
pub open spec fn after_observation(phase: PredictionPhase, from_state: bool, start_tick: Option<u32>) -> PredictionPhase {
    match phase {
        PredictionPhase::Restoring { tick, prepared } => PredictionPhase::Restoring {
            tick,
            prepared: prepared_for(from_state, start_tick, tick),
        },
        _ => phase,
    }
}

/// The phase after the rollback pass of a frame.
pub open spec fn after_finish(phase: PredictionPhase, rollback_pending: bool, last_confirmed: Option<u32>) -> PredictionPhase {
    match phase {
        PredictionPhase::Restoring { tick, prepared } => if prepared && !rollback_pending {
            PredictionPhase::Active
        } else {
            PredictionPhase::Waiting { previous_checkpoint: last_confirmed }
        },
        _ => phase,
    }
}

/// The checkpoint a waiting client rolls back to, given whether the local timeline is
/// synchronized, the rollback budget (absent without a prediction manager), the newest
/// confirmed checkpoint and the local tick.
pub open spec fn restoration_target(
    phase: PredictionPhase,
    synced: bool,
    max_depth: Option<u16>,
    last_confirmed: Option<u32>,
    local: u32,
) -> Option<u32> {
    match phase {
        PredictionPhase::Waiting { previous_checkpoint } => if !synced {
            None
        } else {
            match max_depth {
                Some(depth) => usable_checkpoint(previous_checkpoint, last_confirmed, local, depth),
                None => None,
            }
        },
        _ => None,
    }
}

impl FocusPrediction {
    /// Prediction starts active.
    pub fn new() -> (r: Self)
        ensures
            r.phase == PredictionPhase::Active,
    {
        FocusPrediction { phase: PredictionPhase::Active }
    }

    /// Local controls are only meaningful while prediction is active.
    pub fn accepts_input(&self) -> (r: bool)
        ensures
            r == (self.phase is Active),
    {
        match self.phase {
            PredictionPhase::Active => true,
            _ => false,
        }
    }

    /// Local gameplay may only advance while prediction is active or being restored.
    pub fn simulating(&self) -> (r: bool)
        ensures
            r == (self.phase is Active || self.phase is Restoring),
    {
        match self.phase {
            PredictionPhase::Active => true,
            PredictionPhase::Restoring { .. } => true,
            _ => false,
        }
    }

    /// Stops simulating. Returns whether this was the transition into suspension, the one
    /// moment worth reporting.
    pub fn suspend(&mut self) -> (entered: bool)
        ensures
            final(self).phase == PredictionPhase::Suspended,
            entered == !(old(self).phase is Suspended),
    {
        let entered = match self.phase {
            PredictionPhase::Suspended => false,
            _ => true,
        };
        self.phase = PredictionPhase::Suspended;
        entered
    }

    /// Waits for a checkpoint newer than `previous_checkpoint` before resuming simulation.
    pub fn await_new_checkpoint(&mut self, previous_checkpoint: Option<u32>)
        ensures
            final(self).phase == (PredictionPhase::Waiting { previous_checkpoint }),
    {
        self.phase = PredictionPhase::Waiting { previous_checkpoint };
    }

    /// Focus regained: a suspended client waits for a checkpoint received after focus returned
    /// rather than the state at focus loss. Any other phase is left as it is.
    pub fn begin_recovery(&mut self, previous_checkpoint: Option<u32>)
        ensures
            final(self).phase == after_focus(old(self).phase, true, previous_checkpoint),
    {
        if let PredictionPhase::Suspended = self.phase {
            self.await_new_checkpoint(previous_checkpoint);
        }
    }

    /// Suspends prediction on focus loss and starts recovery on focus regain. Returns whether
    /// prediction was just suspended.
    pub fn observe_focus(&mut self, focused: bool, last_confirmed: Option<u32>) -> (entered: bool)
        ensures
            final(self).phase == after_focus(old(self).phase, focused, last_confirmed),
            entered == (!focused && !(old(self).phase is Suspended)),
    {
        if focused {
            self.begin_recovery(last_confirmed);
            return false;
        }
        self.suspend()
    }

    /// The checkpoint to roll back to, once one is usable.
    pub fn restoration_tick(
        &self,
        synced: bool,
        max_depth: Option<u16>,
        last_confirmed: Option<u32>,
        local: u32,
    ) -> (r: Option<u32>)
        ensures
            r == restoration_target(self.phase, synced, max_depth, last_confirmed, local),
    {
        let previous = match self.phase {
            PredictionPhase::Waiting { previous_checkpoint } => previous_checkpoint,
            _ => return None,
        };
        if !synced {
            return None;
        }
        match max_depth {
            Some(depth) => recent_checkpoint(previous, last_confirmed, local, depth),
            None => None,
        }
    }

    /// A forced rollback to `tick` has been requested; it is not yet known to be prepared.
    pub fn begin_restoring(&mut self, tick: u32)
        ensures
            final(self).phase == (PredictionPhase::Restoring { tick, prepared: false }),
    {
        self.phase = PredictionPhase::Restoring { tick, prepared: false };
    }

    /// Records whether the networking layer actually prepared the rollback that was asked for.
    /// Consuming the request is no proof that the rollback ran.
    pub fn observe_restoration(&mut self, from_state: bool, start_tick: Option<u32>)
        ensures
            final(self).phase == after_observation(old(self).phase, from_state, start_tick),
    {
        if let PredictionPhase::Restoring { tick, prepared: _ } = self.phase {
            self.phase = PredictionPhase::Restoring {
                tick,
                prepared: rollback_prepared(from_state, start_tick, tick),
            };
        }
    }

    /// Resumes prediction once the requested rollback has completed; a rejected or skipped
    /// rollback waits for another checkpoint instead of re-enabling stale simulation. Returns
    /// whether prediction resumed, when visual corrections have to be dropped.
    pub fn finish_restoration(&mut self, rollback_pending: bool, last_confirmed: Option<u32>) -> (resumed:
        bool)
        ensures
            final(self).phase == after_finish(old(self).phase, rollback_pending, last_confirmed),
            resumed == (old(self).phase is Restoring && final(self).phase is Active),
    {
        let prepared = match self.phase {
            PredictionPhase::Restoring { tick: _, prepared } => prepared,
            _ => return false,
        };
        if rollback_finished(prepared, rollback_pending) {
            self.phase = PredictionPhase::Active;
            true
        } else {
            self.await_new_checkpoint(last_confirmed);
            false
        }
    }
}

/// Prediction only becomes active again through a completed rollback: no focus observation,
/// rollback report or rollback request turns an inactive phase active, and the rollback pass
/// does so only for a rollback that was prepared and is no longer pending.
pub proof fn law_resume_only_after_completed_rollback(
    phase: PredictionPhase,
    focused: bool,
    last_confirmed: Option<u32>,
    from_state: bool,
    start_tick: Option<u32>,
    rollback_pending: bool,
)
    ensures
        after_focus(phase, focused, last_confirmed) is Active ==> phase is Active,
        after_observation(phase, from_state, start_tick) is Active ==> phase is Active,
        after_finish(phase, rollback_pending, last_confirmed) is Active ==> (phase is Active || (
        phase matches PredictionPhase::Restoring { prepared, .. } && prepared
            && !rollback_pending)),
{
}

/// Losing focus always suspends prediction, which refuses local input and stops local
/// simulation until a rollback has completed.
pub proof fn law_focus_loss_suspends(phase: PredictionPhase, last_confirmed: Option<u32>)
    ensures
        after_focus(phase, false, last_confirmed) == PredictionPhase::Suspended,
        !(FocusPrediction { phase: after_focus(phase, false, last_confirmed) }.phase is Active),
        after_focus(after_focus(phase, false, last_confirmed), true, last_confirmed)
            == (PredictionPhase::Waiting { previous_checkpoint: last_confirmed }),
{
}

/// A client only rolls back to a checkpoint that arrived after focus returned, once its
/// timeline is synchronized, and only as far back as the rollback budget allows.
pub proof fn law_restoration_target_is_fresh_and_recent(
    phase: PredictionPhase,
    synced: bool,
    max_depth: Option<u16>,
    last_confirmed: Option<u32>,
    local: u32,
)
    ensures
        restoration_target(phase, synced, max_depth, last_confirmed, local) matches Some(t) ==> {
            &&& synced
            &&& last_confirmed == Some(t)
            &&& phase matches PredictionPhase::Waiting { previous_checkpoint } && previous_checkpoint
                != Some(t)
            &&& max_depth matches Some(depth) && t <= local && local - t <= depth
        },
{
}

/// A waiting, synchronized client rolls back to the newest confirmed checkpoint whenever that
/// checkpoint differs from the one known when focus returned (in particular when none was
/// known) and lies within the budget behind the local tick; no such checkpoint is ever refused.
pub proof fn law_fresh_checkpoint_within_budget_is_used(
    previous_checkpoint: Option<u32>,
    depth: u16,
    c: u32,
    local: u32,
)
    ensures
        c <= local && local - c <= depth && previous_checkpoint != Some(c) ==> restoration_target(
            PredictionPhase::Waiting { previous_checkpoint },
            true,
            Some(depth),
            Some(c),
            local,
        ) == Some(c),
        c <= local && local - c <= depth ==> restoration_target(
            PredictionPhase::Waiting { previous_checkpoint: None },
            true,
            Some(depth),
            Some(c),
            local,
        ) == Some(c),
{
}

/// A rollback counts as the requested one only when a rollback from state is pending and it
/// starts at exactly the requested tick; a rollback starting at any other tick, earlier or
/// later, leaves the restoration unprepared.
pub proof fn law_prepared_only_for_exact_tick(
    from_state: bool,
    start_tick: Option<u32>,
    tick: u32,
    prepared: bool,
)
    ensures
        prepared_for(from_state, start_tick, tick) ==> from_state && start_tick == Some(tick),
        from_state && start_tick == Some(tick) ==> prepared_for(from_state, start_tick, tick),
        forall|t: u32|
            t != tick ==> !prepared_for(from_state, Some(t), tick),
        after_observation(
            PredictionPhase::Restoring { tick, prepared },
            from_state,
            start_tick,
        ) == (PredictionPhase::Restoring { tick, prepared: from_state && start_tick == Some(tick) }),
{
}

} // verus!
