use space_game_client::input::AbilityInputs;

#[test]
fn phase_beam_tracks_right_mouse_button_not_space() {
    let mut inputs = AbilityInputs::new();

    // Space held, no mouse button.
    inputs.capture(true, false, false, false, true);
    assert!(!inputs.phase_beam);
    assert!(inputs.boost);

    // Right mouse button pressed as well.
    inputs.capture(true, false, false, true, true);
    assert!(inputs.phase_beam);

    // Right mouse button released.
    inputs.capture(true, false, false, false, true);
    assert!(!inputs.phase_beam);

    // Space released.
    inputs.capture(true, false, false, false, false);
    assert!(!inputs.boost);
}

#[test]
fn clicks_are_counted_and_wrap() {
    let mut inputs = AbilityInputs::new();
    inputs.capture(true, true, false, false, false);
    inputs.capture(true, true, true, false, false);
    assert_eq!(inputs.blaster_clicks, 2);
    assert_eq!(inputs.blaster_reload_requests, 1);

    // Ordinary frames keep the counters.
    inputs.capture(true, false, false, false, false);
    assert_eq!(inputs.blaster_clicks, 2);
    assert_eq!(inputs.blaster_reload_requests, 1);

    inputs.blaster_clicks = 255;
    inputs.capture(true, true, false, false, false);
    assert_eq!(inputs.blaster_clicks, 0);
}

#[test]
fn inputs_reset_without_a_player() {
    let mut inputs = AbilityInputs::new();
    inputs.capture(true, true, true, true, true);
    inputs.capture(false, true, true, true, true);
    assert_eq!(inputs, AbilityInputs::new());
}
