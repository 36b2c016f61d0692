//! Guest credential retrieval and the client link it produces, with the retry state machine.
//! The requests, the credential channel and the client entity live with the caller; this state
//! machine decides from what they report. Times are in nanoseconds of wall time.
use vstd::prelude::*;
use crate::network::recovery::{elapsed, elapsed_since, Recovery};
use crate::text::concat;

verus! {

/// A failed attempt is retried automatically after this long.
pub const RETRY_INTERVAL: u128 = 4_000_000_000;

/// A guest request or a secure connection that has not settled after this long has failed.
pub const SETTLE_TIMEOUT: u128 = 15_000_000_000;

/// What the state machine wants done next with the outside world.
#[derive(Clone, Copy, Debug, PartialEq, Eq, Structural)]
pub enum ConnectionStep {
    /// Check the pending guest request for its answer.
    PollGuest,
    /// Check on the client entity of this session.
    MonitorClient(u64),
    /// Nothing to do this frame.
    Idle,
}

/// The answer found on the pending guest request.
pub enum GuestPoll {
    /// Credentials arrived and a client was spawned from them: its entity, or why it could not
    /// be spawned.
    Accepted(Result<u64, String>),
    /// The endpoint refused, for this reason.
    Refused(String),
    /// The request ended without an answer.
    Closed,
    /// No answer yet.
    Empty,
}

/// The state of this session's client entity.
#[derive(Clone, Copy, Debug, PartialEq, Eq, Structural)]
pub enum ClientStatus {
    Connected,
    Disconnected,
    /// Neither connected nor disconnected yet, or gone.
    Unsettled,
}

/// The guest connection: a request in flight, the client entity it produced, when the current
/// attempt started, the status line, and whether a retry is allowed.
pub struct GuestConnection {
    pub pending: bool,
    pub client: Option<u64>,
    pub started: u128,
    pub message: String,
    pub can_retry: bool,
    pub started_by_play: bool,
}

/// What the state machine checks with the given request, retry and client state.
pub open spec fn step_for(pending: bool, can_retry: bool, client: Option<u64>) -> ConnectionStep {
    if pending {
        ConnectionStep::PollGuest
    } else if !can_retry && client is Some {
        ConnectionStep::MonitorClient(client->0)
    } else {
        ConnectionStep::Idle
    }
}

/// Whether a retry of the attempt started at `started` is due at `now`.
pub open spec fn retry_is_due(can_retry: bool, started: u128, retry_pressed: bool, now: u128) -> bool {
    can_retry && (retry_pressed || elapsed(now, started) >= RETRY_INTERVAL)
}

pub open spec fn retry_notice(reason: Seq<char>) -> Seq<char> {
    reason + ". Retrying in 4 seconds. Press R to retry now."@
}

impl GuestConnection {
    /// No request, no client, nothing to show.
    pub fn new() -> (r: Self)
        ensures
            !r.pending,
            r.client is None,
            r.started == 0,
            r.message@ == Seq::<char>::empty(),
            !r.can_retry,
            !r.started_by_play,
    {
        GuestConnection {
            pending: false,
            client: None,
            started: 0,
            message: String::new(),
            can_retry: false,
            started_by_play: false,
        }
    }

    /// The attempt failed for `reason`: drop the request, announce the retry and allow it.
    pub fn fail(&mut self, reason: &str, now: u128)
        ensures
            !final(self).pending,
            final(self).client == old(self).client,
            final(self).started == now,
            final(self).message@ == retry_notice(reason@),
            final(self).can_retry,
            final(self).started_by_play == old(self).started_by_play,
    {
        self.pending = false;
        self.started = now;
        self.message = concat(reason, ". Retrying in 4 seconds. Press R to retry now.");
        self.can_retry = true;
    }

    /// A guest request was started at `now`: `outcome` is whether it could be sent, or why not.
    pub fn request(&mut self, now: u128, outcome: Result<(), String>)
        ensures
            final(self).client == old(self).client,
            final(self).started == now,
            final(self).started_by_play == old(self).started_by_play,
            match outcome {
                Ok(()) => {
                    &&& final(self).pending
                    &&& !final(self).can_retry
                    &&& final(self).message@ == "Requesting guest access..."@
                },
                Err(reason) => {
                    &&& !final(self).pending
                    &&& final(self).can_retry
                    &&& final(self).message@ == retry_notice(reason@)
                },
            },
    {
        self.started = now;
        self.can_retry = false;
        match outcome {
            Ok(()) => {
                self.pending = true;
                self.message = "Requesting guest access...".to_owned();
            },
            Err(reason) => self.fail(reason.as_str(), now),
        }
    }

    /// A retry is due when one is allowed and either R was just pressed or the retry interval
    /// has passed since the failed attempt.
    pub fn retry_due(&self, retry_pressed: bool, now: u128) -> (r: bool)
        ensures
            r == retry_is_due(self.can_retry, self.started, retry_pressed, now),
    {
        self.can_retry && (retry_pressed || elapsed_since(now, self.started) >= RETRY_INTERVAL)
    }

    /// Whether the connection is driven this frame: only once Play started it, and not while
    /// the session is suspended.
    pub fn runs_this_frame(&self, suspended: bool) -> (r: bool)
        ensures
            r == (self.started_by_play && !suspended),
    {
        self.started_by_play && !suspended
    }

    /// What to check this frame: the pending request if there is one, otherwise the client,
    /// unless a retry is scheduled.
    pub fn next_step(&self) -> (r: ConnectionStep)
        ensures
            r == step_for(self.pending, self.can_retry, self.client),
    {
        if self.pending {
            ConnectionStep::PollGuest
        } else if !self.can_retry {
            match self.client {
                Some(entity) => ConnectionStep::MonitorClient(entity),
                None => ConnectionStep::Idle,
            }
        } else {
            ConnectionStep::Idle
        }
    }

    /// Credentials arrived and a client was spawned from them (`Ok` with its entity) or could
    /// not be (`Err` with the reason).
    pub fn accept_credentials(&mut self, spawned: Result<u64, String>, now: u128)
        ensures
            !final(self).pending,
            final(self).started == now,
            final(self).started_by_play == old(self).started_by_play,
            match spawned {
                Ok(entity) => {
                    &&& final(self).client == Some(entity)
                    &&& final(self).message@ == "Connecting securely..."@
                    &&& final(self).can_retry == old(self).can_retry
                },
                Err(reason) => {
                    &&& final(self).client == old(self).client
                    &&& final(self).message@ == retry_notice(reason@)
                    &&& final(self).can_retry
                },
            },
    {
        self.pending = false;
        match spawned {
            Ok(entity) => {
                self.client = Some(entity);
                self.started = now;
                self.message = "Connecting securely...".to_owned();
            },
            Err(reason) => self.fail(reason.as_str(), now),
        }
    }

    /// No answer yet: the request fails once it has been pending longer than the timeout.
    pub fn handle_empty_guest_response(&mut self, now: u128)
        ensures
            elapsed(now, old(self).started) > SETTLE_TIMEOUT ==> {
                &&& !final(self).pending
                &&& final(self).can_retry
                &&& final(self).started == now
                &&& final(self).message@ == retry_notice("Guest request timed out"@)
                &&& final(self).client == old(self).client
                &&& final(self).started_by_play == old(self).started_by_play
            },
            elapsed(now, old(self).started) <= SETTLE_TIMEOUT ==> *final(self) == *old(self),
    {
        if elapsed_since(now, self.started) > SETTLE_TIMEOUT {
            self.fail("Guest request timed out", now);
        }
    }

    /// Acts on what was found on the pending guest request.
    pub fn handle_guest_result(&mut self, poll: GuestPoll, now: u128)
        ensures
            match poll {
                GuestPoll::Accepted(spawned) => {
                    &&& !final(self).pending
                    &&& final(self).started == now
                    &&& final(self).started_by_play == old(self).started_by_play
                    &&& match spawned {
                        Ok(entity) => {
                            &&& final(self).client == Some(entity)
                            &&& final(self).message@ == "Connecting securely..."@
                            &&& final(self).can_retry == old(self).can_retry
                        },
                        Err(reason) => {
                            &&& final(self).client == old(self).client
                            &&& final(self).message@ == retry_notice(reason@)
                            &&& final(self).can_retry
                        },
                    }
                },
                GuestPoll::Refused(reason) => failed_with(*old(self), *final(self), reason@, now),
                GuestPoll::Closed => failed_with(
                    *old(self),
                    *final(self),
                    "Guest request ended unexpectedly"@,
                    now,
                ),
                GuestPoll::Empty => if elapsed(now, old(self).started) > SETTLE_TIMEOUT {
                    failed_with(*old(self), *final(self), "Guest request timed out"@, now)
                } else {
                    *final(self) == *old(self)
                },
            },
    {
        match poll {
            GuestPoll::Accepted(spawned) => self.accept_credentials(spawned, now),
            GuestPoll::Refused(reason) => self.fail(reason.as_str(), now),
            GuestPoll::Closed => self.fail("Guest request ended unexpectedly", now),
            GuestPoll::Empty => self.handle_empty_guest_response(now),
        }
    }

    /// Watches the session's client: a connected client clears the status line, a disconnected
    /// one schedules fresh credentials, and one that has not settled within the timeout is
    /// disconnected. Returns the client entity to disconnect, if any.
    pub fn monitor_client(&mut self, status: ClientStatus, now: u128) -> (disconnect: Option<u64>)
        ensures
            old(self).client is None ==> *final(self) == *old(self) && disconnect is None,
            old(self).client is Some ==> match status {
                ClientStatus::Connected => {
                    &&& final(self).message@ == Seq::<char>::empty()
                    &&& final(self).pending == old(self).pending
                    &&& final(self).client == old(self).client
                    &&& final(self).started == old(self).started
                    &&& final(self).can_retry == old(self).can_retry
                    &&& final(self).started_by_play == old(self).started_by_play
                    &&& disconnect is None
                },
                ClientStatus::Disconnected => failed_with(
                    *old(self),
                    *final(self),
                    "Disconnected from the server"@,
                    now,
                ) && disconnect is None,
                ClientStatus::Unsettled => if elapsed(now, old(self).started) > SETTLE_TIMEOUT {
                    failed_with(*old(self), *final(self), "Secure connection timed out"@, now)
                        && disconnect == old(self).client
                } else {
                    *final(self) == *old(self) && disconnect is None
                },
            },
    {
        let entity = match self.client {
            Some(entity) => entity,
            None => return None,
        };
        match status {
            ClientStatus::Connected => {
                self.message = String::new();
                None
            },
            ClientStatus::Disconnected => {
                self.fail("Disconnected from the server", now);
                None
            },
            ClientStatus::Unsettled => {
                if elapsed_since(now, self.started) > SETTLE_TIMEOUT {
                    self.fail("Secure connection timed out", now);
                    Some(entity)
                } else {
                    None
                }
            },
        }
    }

    /// Ends the session: the pending request is dropped, so a late credential response cannot
    /// restore it, and the client entity is handed back to be disconnected and despawned.
    pub fn retire(&mut self) -> (client: Option<u64>)
        ensures
            client == old(self).client,
            !final(self).pending,
            final(self).client is None,
            final(self).started == old(self).started,
            final(self).message == old(self).message,
            final(self).can_retry == old(self).can_retry,
            final(self).started_by_play == old(self).started_by_play,
    {
        self.pending = false;
        let client = self.client;
        self.client = None;
        client
    }

    /// The local ship was destroyed: the session is retired and the next one waits for Play.
    pub fn end_session(&mut self) -> (client: Option<u64>)
        ensures
            client == old(self).client,
            !final(self).pending,
            final(self).client is None,
            !final(self).started_by_play,
            final(self).started == old(self).started,
            final(self).message == old(self).message,
            final(self).can_retry == old(self).can_retry,
    {
        let client = self.retire();
        self.started_by_play = false;
        client
    }

    /// The session was suspended while the client is inactive: no retry until it is visible
    /// again.
    pub fn pause(&mut self)
        ensures
            !final(self).can_retry,
            final(self).message@ == "Paused while client is inactive"@,
            final(self).pending == old(self).pending,
            final(self).client == old(self).client,
            final(self).started == old(self).started,
            final(self).started_by_play == old(self).started_by_play,
    {
        self.can_retry = false;
        self.message = "Paused while client is inactive".to_owned();
    }

    /// Whether a frame's recovery verdict acts on this connection: only a connection that Play
    /// started is retired, and only when the frame asks to suspend or reconnect.
    pub fn acts_on(&self, recovery: Recovery) -> (r: bool)
        ensures
            r == (self.started_by_play && recovery != Recovery::Continue),
    {
        self.started_by_play && match recovery {
            Recovery::Continue => false,
            _ => true,
        }
    }

    /// A click on the menu's Play button starts the connection once; returns whether a guest
    /// request has to be sent now.
    pub fn play_clicked(&mut self, on_play_button: bool) -> (start: bool)
        ensures
            start == (on_play_button && !old(self).started_by_play),
            final(self).started_by_play == (old(self).started_by_play || on_play_button),
            final(self).pending == old(self).pending,
            final(self).client == old(self).client,
            final(self).started == old(self).started,
            final(self).message == old(self).message,
            final(self).can_retry == old(self).can_retry,
    {
        if self.started_by_play || !on_play_button {
            return false;
        }
        self.started_by_play = true;
        true
    }
}

/// `after` is `before` failed at `now` for `reason`.
pub open spec fn failed_with(before: GuestConnection, after: GuestConnection, reason: Seq<char>, now: u128) -> bool {
    &&& !after.pending
    &&& after.client == before.client
    &&& after.started == now
    &&& after.message@ == retry_notice(reason)
    &&& after.can_retry
    &&& after.started_by_play == before.started_by_play
}

/// Whether any of the local ship's health values reached zero.
pub fn any_destroyed(healths: &[u8]) -> (r: bool)
    ensures
        r == exists|i: int| 0 <= i < healths@.len() && healths@[i] == 0,
{
    let mut i: usize = 0;
    while i < healths.len()
        invariant
            i <= healths@.len(),
            forall|k: int| 0 <= k < i ==> healths@[k] != 0,
        decreases healths@.len() - i,
    {
        if healths[i] == 0 {
            return true;
        }
        i = i + 1;
    }
    false
}

/// Whether the session ends this frame: the local ship is destroyed and the session has not
/// already been ended for it. `ended` remembers that across frames and clears once no destroyed
/// ship remains.
pub fn session_ends(ended: &mut bool, destroyed: bool) -> (end: bool)
    ensures
        end == (destroyed && !*old(ended)),
        *final(ended) == destroyed,
{
    if !destroyed {
        *ended = false;
        false
    } else if !*ended {
        *ended = true;
        true
    } else {
        false
    }
}

/// A retired session cannot be restored by a late answer: with the request dropped and the
/// client gone, nothing is polled or monitored until a new request starts.
pub proof fn law_retired_session_is_idle(can_retry: bool)
    ensures
        step_for(false, can_retry, None) == ConnectionStep::Idle,
{
}

/// A failure is retried on R or once the retry interval has passed, never sooner, and an
/// attempt that is not marked retryable (a request in flight, a live client, a pause) is never
/// retried.
pub proof fn law_retry_schedule(started: u128, now: u128, retry_pressed: bool, can_retry: bool)
    ensures
        !can_retry ==> !retry_is_due(can_retry, started, retry_pressed, now),
        !retry_pressed && now >= started && now - started < RETRY_INTERVAL ==> !retry_is_due(
            can_retry,
            started,
            retry_pressed,
            now,
        ),
        can_retry && retry_pressed ==> retry_is_due(can_retry, started, retry_pressed, now),
        can_retry && now >= started + RETRY_INTERVAL ==> retry_is_due(
            can_retry,
            started,
            retry_pressed,
            now,
        ),
{
}

/// A client is monitored only while no request is pending and no retry is scheduled: with a
/// retry scheduled the connection waits, so the retry becomes due instead of the failed client
/// being checked (and failed) again every frame.
pub proof fn law_monitor_only_without_scheduled_retry(
    pending: bool,
    can_retry: bool,
    client: Option<u64>,
)
    ensures
        pending ==> step_for(pending, can_retry, client) == ConnectionStep::PollGuest,
        !pending && can_retry ==> step_for(pending, can_retry, client) == ConnectionStep::Idle,
        !pending && !can_retry && client == None::<u64> ==> step_for(pending, can_retry, client)
            == ConnectionStep::Idle,
        forall|e: u64|
            step_for(pending, can_retry, client) == ConnectionStep::MonitorClient(e) <==> (!pending
                && !can_retry && client == Some(e)),
{
}

} // verus!
