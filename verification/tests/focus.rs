use space_game_client::focus::{
    recent_checkpoint, rollback_finished, rollback_prepared, tick_difference, FocusPrediction,
    PredictionPhase,
};

#[test]
fn tick_difference_saturates() {
    assert_eq!(tick_difference(10, 3), 7);
    assert_eq!(tick_difference(3, 10), -7);
    assert_eq!(tick_difference(u32::MAX, 0), i32::MAX);
    assert_eq!(tick_difference(0, u32::MAX), i32::MIN);
}

#[test]
fn recent_checkpoint_requires_a_new_recent_tick() {
    assert_eq!(recent_checkpoint(None, Some(100), 150, 90), Some(100));
    // The checkpoint known before focus returned is not usable.
    assert_eq!(recent_checkpoint(Some(100), Some(100), 150, 90), None);
    // Too old to replay.
    assert_eq!(recent_checkpoint(None, Some(10), 150, 90), None);
    // Exactly at the budget.
    assert_eq!(recent_checkpoint(None, Some(60), 150, 90), Some(60));
    // Ahead of the local timeline.
    assert_eq!(recent_checkpoint(None, Some(151), 150, 90), None);
    assert_eq!(recent_checkpoint(None, None, 150, 90), None);
}

#[test]
fn focus_cycle_resumes_only_after_a_completed_rollback() {
    let mut focus = FocusPrediction::new();
    assert!(focus.accepts_input());
    assert!(focus.observe_focus(false, Some(5)));
    assert_eq!(focus.phase, PredictionPhase::Suspended);
    assert!(!focus.accepts_input());
    assert!(!focus.simulating());
    // Staying unfocused is not a new transition.
    assert!(!focus.observe_focus(false, Some(6)));

    assert!(!focus.observe_focus(true, Some(7)));
    assert_eq!(focus.phase, PredictionPhase::Waiting { previous_checkpoint: Some(7) });

    // Not synchronized yet, or only the old checkpoint: nothing to restore.
    assert_eq!(focus.restoration_tick(false, Some(90), Some(9), 20), None);
    assert_eq!(focus.restoration_tick(true, Some(90), Some(7), 20), None);
    assert_eq!(focus.restoration_tick(true, None, Some(9), 20), None);
    let tick = focus.restoration_tick(true, Some(90), Some(9), 20).unwrap();
    assert_eq!(tick, 9);

    focus.begin_restoring(tick);
    assert!(focus.simulating());
    assert!(!focus.accepts_input());

    // A rollback prepared for another tick is not ours.
    focus.observe_restoration(true, Some(8));
    assert_eq!(focus.phase, PredictionPhase::Restoring { tick: 9, prepared: false });
    assert!(!focus.finish_restoration(false, Some(12)));
    assert_eq!(focus.phase, PredictionPhase::Waiting { previous_checkpoint: Some(12) });

    focus.begin_restoring(13);
    focus.observe_restoration(true, Some(13));
    assert_eq!(focus.phase, PredictionPhase::Restoring { tick: 13, prepared: true });
    // Still rolling back.
    assert!(!focus.finish_restoration(true, Some(13)));

    focus.begin_restoring(14);
    focus.observe_restoration(true, Some(14));
    assert!(focus.finish_restoration(false, Some(14)));
    assert_eq!(focus.phase, PredictionPhase::Active);
    // Focus events while active change nothing.
    focus.begin_recovery(Some(20));
    assert_eq!(focus.phase, PredictionPhase::Active);
}

#[test]
fn rollback_helpers() {
    assert!(rollback_prepared(true, Some(4), 4));
    assert!(!rollback_prepared(false, Some(4), 4));
    assert!(!rollback_prepared(true, None, 4));
    assert!(rollback_finished(true, false));
    assert!(!rollback_finished(true, true));
    assert!(!rollback_finished(false, false));
}
