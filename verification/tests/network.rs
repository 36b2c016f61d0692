use space_game_client::network::connection::{
    any_destroyed, session_ends, ClientStatus, ConnectionStep, GuestConnection, GuestPoll,
};
use space_game_client::network::recovery::{Recovery, Suspension, MAX_FRAME_GAP};

const MS: u128 = 1_000_000;
const S: u128 = 1_000_000_000;

#[test]
fn failure_announces_the_retry() {
    let mut c = GuestConnection::new();
    c.request(S, Err("This build has no guest endpoint configured".to_owned()));
    assert_eq!(
        c.message,
        "This build has no guest endpoint configured. Retrying in 4 seconds. Press R to retry now."
    );
    assert!(c.can_retry);
    assert!(!c.pending);
    assert!(!c.retry_due(false, 4 * S));
    assert!(c.retry_due(true, 2 * S));
    assert!(c.retry_due(false, 5 * S));
}

#[test]
fn request_then_credentials_then_connection() {
    let mut c = GuestConnection::new();
    c.request(0, Ok(()));
    assert!(c.pending);
    assert_eq!(c.message, "Requesting guest access...");
    assert_eq!(c.next_step(), ConnectionStep::PollGuest);

    c.handle_guest_result(GuestPoll::Empty, 10 * S);
    assert!(c.pending);
    c.handle_guest_result(GuestPoll::Accepted(Ok(77)), 11 * S);
    assert!(!c.pending);
    assert_eq!(c.client, Some(77));
    assert_eq!(c.message, "Connecting securely...");
    assert_eq!(c.next_step(), ConnectionStep::MonitorClient(77));

    assert_eq!(c.monitor_client(ClientStatus::Unsettled, 20 * S), None);
    assert_eq!(c.monitor_client(ClientStatus::Connected, 30 * S), None);
    assert_eq!(c.message, "");
}

#[test]
fn guest_request_times_out() {
    let mut c = GuestConnection::new();
    c.request(0, Ok(()));
    c.handle_guest_result(GuestPoll::Empty, 15 * S);
    assert!(c.pending);
    c.handle_guest_result(GuestPoll::Empty, 15 * S + 1);
    assert!(!c.pending);
    assert_eq!(c.message, "Guest request timed out. Retrying in 4 seconds. Press R to retry now.");
}

#[test]
fn guest_refusals_fail_the_attempt() {
    let mut c = GuestConnection::new();
    c.request(0, Ok(()));
    c.handle_guest_result(GuestPoll::Closed, S);
    assert_eq!(
        c.message,
        "Guest request ended unexpectedly. Retrying in 4 seconds. Press R to retry now."
    );
    c.request(2 * S, Ok(()));
    c.handle_guest_result(GuestPoll::Refused("Guest response is too large".to_owned()), 3 * S);
    assert_eq!(c.message, "Guest response is too large. Retrying in 4 seconds. Press R to retry now.");
    c.request(4 * S, Ok(()));
    c.handle_guest_result(GuestPoll::Accepted(Err("Invalid connection token: x".to_owned())), 5 * S);
    assert!(c.can_retry);
    assert_eq!(c.client, None);
    assert_eq!(c.next_step(), ConnectionStep::Idle);
}

#[test]
fn unsettled_client_times_out_and_is_disconnected() {
    let mut c = GuestConnection::new();
    c.accept_credentials(Ok(9), 0);
    assert_eq!(c.monitor_client(ClientStatus::Unsettled, 16 * S), Some(9));
    assert_eq!(c.message, "Secure connection timed out. Retrying in 4 seconds. Press R to retry now.");

    let mut d = GuestConnection::new();
    d.accept_credentials(Ok(9), 0);
    assert_eq!(d.monitor_client(ClientStatus::Disconnected, S), None);
    assert_eq!(d.message, "Disconnected from the server. Retrying in 4 seconds. Press R to retry now.");
}

#[test]
fn retired_session_ignores_late_answers() {
    let mut c = GuestConnection::new();
    c.started_by_play = true;
    c.request(0, Ok(()));
    c.accept_credentials(Ok(3), S);
    c.request(2 * S, Ok(()));
    assert_eq!(c.retire(), Some(3));
    assert_eq!(c.next_step(), ConnectionStep::Idle);
    assert_eq!(c.end_session(), None);
    assert!(!c.started_by_play);
}

#[test]
fn play_starts_once() {
    let mut c = GuestConnection::new();
    assert!(!c.play_clicked(false));
    assert!(c.play_clicked(true));
    assert!(!c.play_clicked(true));
    assert!(c.runs_this_frame(false));
    assert!(!c.runs_this_frame(true));
}

#[test]
fn recovery_is_acted_on_only_for_started_sessions() {
    let mut c = GuestConnection::new();
    assert!(!c.acts_on(Recovery::Reconnect));
    c.started_by_play = true;
    assert!(c.acts_on(Recovery::Suspend));
    assert!(!c.acts_on(Recovery::Continue));
    c.pause();
    assert_eq!(c.message, "Paused while client is inactive");
    assert!(!c.can_retry);
}

#[test]
fn hidden_client_suspends_once_then_reconnects() {
    let mut s = Suspension::new();
    assert_eq!(s.observe(0, 16 * MS, true), Recovery::Continue);
    assert_eq!(s.observe(100 * MS, 16 * MS, true), Recovery::Continue);
    assert_eq!(s.observe(250 * MS, 16 * MS, true), Recovery::Suspend);
    assert!(s.is_suspended());
    assert_eq!(s.observe(400 * MS, 16 * MS, true), Recovery::Continue);
    assert_eq!(s.observe(500 * MS, 16 * MS, false), Recovery::Reconnect);
    assert!(!s.is_suspended());
    assert_eq!(s.observe(516 * MS, 16 * MS, false), Recovery::Continue);
}

#[test]
fn long_frame_gap_suspends_and_reconnects() {
    let mut s = Suspension::new();
    assert_eq!(s.observe(S, MAX_FRAME_GAP, true), Recovery::Suspend);
    let mut t = Suspension::new();
    assert_eq!(t.observe(S, MAX_FRAME_GAP, false), Recovery::Reconnect);
    let mut u = Suspension::new();
    assert_eq!(u.observe(S, MAX_FRAME_GAP - 1, false), Recovery::Continue);
}

#[test]
fn throttling_needs_an_unfocused_window() {
    let s = Suspension::new();
    assert!(!s.throttled_unfocused(false, S));
    assert!(!s.throttled_unfocused(true, 16 * MS));
    assert!(s.throttled_unfocused(true, MAX_FRAME_GAP));
}

#[test]
fn dead_ship_ends_the_session_once() {
    assert!(any_destroyed(&[3, 0]));
    assert!(!any_destroyed(&[3, 1]));
    assert!(!any_destroyed(&[]));
    let mut ended = false;
    assert!(session_ends(&mut ended, true));
    assert!(!session_ends(&mut ended, true));
    assert!(!session_ends(&mut ended, false));
    assert!(session_ends(&mut ended, true));
}
