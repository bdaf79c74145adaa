//! The server's side of a match: the authoritative session. It owns the
//! phase, the roster of connected players, the turn order and the marker of
//! the player whose turn it is. Events go in, and what the server is to send
//! or do comes out.

pub mod laws;
pub mod model;
pub mod session;

use vstd::prelude::*;

use crate::axial_coordinates::AxialCoordinates;
use crate::common::ServerEntity;
use crate::messages::{ServerMessage, ServerMessageView};

verus! {

/// The stage of a match. A match starts in the lobby and moves down this
/// list; the last two stages alternate for as long as the match lasts.
#[derive(Clone, Copy, Debug, Eq, Hash, PartialEq, Structural)]
pub enum ServerState {
    /// Players gather and declare themselves ready.
    Lobby,
    /// Every client loads the level.
    WaitingForLevelLoad,
    /// Every player places a character near the assigned spawn point.
    SpawnPhase,
    /// One player, the current one, acts.
    PlayerTurn,
    /// A turn has ended and the next has not begun.
    NextTurn,
}

/// Why a session could not move on.
#[derive(Clone, Copy, Debug, Eq, PartialEq, Structural)]
pub enum SessionError {
    /// A turn was to begin and there is no player to take it.
    TurnOrderEmpty,
    /// The level has fewer spawn points than the match has players.
    NotEnoughSpawnpoints,
    /// The order offered for the turns is not the roster's ids, each once.
    InvalidTurnOrder,
}

impl SessionError {
    /// The error in words.
    pub open spec fn message_spec(self) -> Seq<char> {
        match self {
            SessionError::TurnOrderEmpty => "Turn order is empty"@,
            SessionError::NotEnoughSpawnpoints => "Not enough spawn points for the players"@,
            SessionError::InvalidTurnOrder => "Turn order does not match the roster"@,
        }
    }

    /// The error in words, for the log.
    pub fn message(&self) -> (message: String)
        ensures
            message@ == self.message_spec(),
    {
        match self {
            SessionError::TurnOrderEmpty => "Turn order is empty".to_owned(),
            SessionError::NotEnoughSpawnpoints => "Not enough spawn points for the players"
                .to_owned(),
            SessionError::InvalidTurnOrder => "Turn order does not match the roster".to_owned(),
        }
    }
}

/// A cell is near enough to a spawn point when its distance from it is
/// below this.
pub const SPAWN_RADIUS: i32 = 8;

/// What the server is to do after an event.
#[derive(Debug, PartialEq, Eq)]
pub enum ServerAction {
    /// Send a message to one client.
    Send(u64, ServerMessage),
    /// Send a message to every client.
    Broadcast(ServerMessage),
    /// Take an object out of the world.
    Despawn(ServerEntity),
    /// Put a character for this owner into the world at a cell and
    /// elevation, and report its label back.
    SpawnCharacter(u64, AxialCoordinates, i32),
}

/// A [`ServerAction`] with its message as a [`ServerMessageView`].
pub enum ServerActionView {
    Send(u64, ServerMessageView),
    Broadcast(ServerMessageView),
    Despawn(ServerEntity),
    SpawnCharacter(u64, AxialCoordinates, i32),
}

impl View for ServerAction {
    type V = ServerActionView;

    open spec fn view(&self) -> ServerActionView {
        match *self {
            ServerAction::Send(client, message) => ServerActionView::Send(client, message@),
            ServerAction::Broadcast(message) => ServerActionView::Broadcast(message@),
            ServerAction::Despawn(entity) => ServerActionView::Despawn(entity),
            ServerAction::SpawnCharacter(owner, cell, elevation) =>
                ServerActionView::SpawnCharacter(owner, cell, elevation),
        }
    }
}

impl DeepView for ServerAction {
    type V = ServerActionView;

    open spec fn deep_view(&self) -> ServerActionView {
        self@
    }
}

} // verus!
