//! The framework menu: when it is retired, when it comes back, and what its status line says.
use vstd::prelude::*;
use crate::network::connection::GuestConnection;

verus! {

/// Whether the menu has been retired for the current session.
#[derive(Clone, Copy, Debug, PartialEq, Eq, Structural)]
pub struct MenuState {
    pub retired: bool,
}

/// What the menu needs this frame.
#[derive(Clone, Copy, Debug, PartialEq, Eq, Structural)]
pub enum MenuSync {
    /// Leave it as it is.
    Keep,
    /// The local player joined: retire the menu's source and slot.
    Retire,
    /// Still connecting: show the connection status.
    ShowStatus,
}

/// The status line: the connection's message, or a waiting note while it has none.
pub fn status_message(connection: &GuestConnection) -> (r: &str)
    ensures
        r@ == (if connection.message@.len() == 0 {
            "Waiting for your player…"@
        } else {
            connection.message@
        }),
{
    if connection.message.as_str().is_empty() {
        "Waiting for your player…"
    } else {
        connection.message.as_str()
    }
}

impl MenuState {
    /// The menu is on screen.
    pub fn new() -> (r: Self)
        ensures
            !r.retired,
    {
        MenuState { retired: false }
    }

    /// The session ended and the menu was rebuilt.
    pub fn reopen(&mut self)
        ensures
            !final(self).retired,
    {
        self.retired = false;
    }

    /// Nothing changes before Play started a connection or once the menu is retired; when the
    /// local player exists the menu is retired, so that asset reloads cannot bring it back
    /// mid-game; otherwise the status line follows the connection.
    pub fn sync(&mut self, connection: &GuestConnection, player_present: bool) -> (r: MenuSync)
        ensures
            r == (if !connection.started_by_play || old(self).retired {
                MenuSync::Keep
            } else if player_present {
                MenuSync::Retire
            } else {
                MenuSync::ShowStatus
            }),
            final(self).retired == (old(self).retired || r == MenuSync::Retire),
    {
        if !connection.started_by_play || self.retired {
            return MenuSync::Keep;
        }
        if player_present {
            self.retired = true;
            return MenuSync::Retire;
        }
        MenuSync::ShowStatus
    }
}

} // verus!
