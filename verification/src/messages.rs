//! The two closed sets of messages on the wire, one for each direction.

use vstd::prelude::*;

use crate::axial_coordinates::AxialCoordinates;
use crate::common::ServerEntity;

verus! {

/// The two delivery classes of the transport.
#[derive(Clone, Copy, Debug, PartialEq, Eq, Structural)]
pub enum Channel {
    /// Delivered, and in the order sent.
    Reliable,
    /// May be lost or overtaken: for what is only shown.
    Unreliable,
}

/// What the server tells its clients.
#[derive(Debug, PartialEq, Eq)]
pub enum ServerMessage {
    /// A player is in the match: client id, display name, the server's label.
    PlayerConnected(u64, String, ServerEntity),
    PlayerDisconnected(u64),
    /// Whose turn it is now.
    PlayerTurn(u64),
    PlayerNameChanged(u64, String),
    /// The level that every client is to load.
    LoadLevel(String),
    /// Assigns a spawn point: the cell and its elevation.
    AssignSpawnpoint(AxialCoordinates, i32),
    /// A character has entered the world: owner, the server's label, cell,
    /// elevation.
    SpawnCharacter(u64, ServerEntity, AxialCoordinates, i32),
}

/// A [`ServerMessage`] with its strings as sequences of characters.
pub enum ServerMessageView {
    PlayerConnected(u64, Seq<char>, ServerEntity),
    PlayerDisconnected(u64),
    PlayerTurn(u64),
    PlayerNameChanged(u64, Seq<char>),
    LoadLevel(Seq<char>),
    AssignSpawnpoint(AxialCoordinates, i32),
    SpawnCharacter(u64, ServerEntity, AxialCoordinates, i32),
}

impl View for ServerMessage {
    type V = ServerMessageView;

    open spec fn view(&self) -> ServerMessageView {
        match *self {
            ServerMessage::PlayerConnected(id, name, entity) => ServerMessageView::PlayerConnected(
                id,
                name@,
                entity,
            ),
            ServerMessage::PlayerDisconnected(id) => ServerMessageView::PlayerDisconnected(id),
            ServerMessage::PlayerTurn(id) => ServerMessageView::PlayerTurn(id),
            ServerMessage::PlayerNameChanged(id, name) => ServerMessageView::PlayerNameChanged(
                id,
                name@,
            ),
            ServerMessage::LoadLevel(level) => ServerMessageView::LoadLevel(level@),
            ServerMessage::AssignSpawnpoint(cell, elevation) => ServerMessageView::AssignSpawnpoint(
                cell,
                elevation,
            ),
            ServerMessage::SpawnCharacter(owner, entity, cell, elevation) =>
                ServerMessageView::SpawnCharacter(owner, entity, cell, elevation),
        }
    }
}

impl DeepView for ServerMessage {
    type V = ServerMessageView;

    open spec fn deep_view(&self) -> ServerMessageView {
        self@
    }
}

impl ServerMessageView {
    /// The channel a message of this kind travels on: a changed name is only
    /// shown, so it alone goes unreliably.
    pub open spec fn channel(self) -> Channel {
        if self is PlayerNameChanged {
            Channel::Unreliable
        } else {
            Channel::Reliable
        }
    }
}

impl ServerMessage {
    pub fn channel(&self) -> (channel: Channel)
        ensures
            channel == self@.channel(),
    {
        match self {
            ServerMessage::PlayerNameChanged(_, _) => Channel::Unreliable,
            _ => Channel::Reliable,
        }
    }
}

/// What a client tells the server.
#[derive(Debug, PartialEq, Eq)]
pub enum ClientMessage {
    /// Flips the sender's readiness.
    ClientReady,
    ChangeName(String),
    EndTurn,
    LevelLoaded,
    /// Asks for the sender's character at a cell and elevation.
    TrySpawnCharacter(AxialCoordinates, i32),
}

/// A [`ClientMessage`] with its strings as sequences of characters.
pub enum ClientMessageView {
    ClientReady,
    ChangeName(Seq<char>),
    EndTurn,
    LevelLoaded,
    TrySpawnCharacter(AxialCoordinates, i32),
}

impl View for ClientMessage {
    type V = ClientMessageView;

    open spec fn view(&self) -> ClientMessageView {
        match *self {
            ClientMessage::ClientReady => ClientMessageView::ClientReady,
            ClientMessage::ChangeName(name) => ClientMessageView::ChangeName(name@),
            ClientMessage::EndTurn => ClientMessageView::EndTurn,
            ClientMessage::LevelLoaded => ClientMessageView::LevelLoaded,
            ClientMessage::TrySpawnCharacter(cell, elevation) =>
                ClientMessageView::TrySpawnCharacter(cell, elevation),
        }
    }
}

impl DeepView for ClientMessage {
    type V = ClientMessageView;

    open spec fn deep_view(&self) -> ClientMessageView {
        self@
    }
}

impl ClientMessageView {
    /// The channel a message of this kind travels on: a change of name is
    /// only shown, so it alone goes unreliably.
    pub open spec fn channel(self) -> Channel {
        if self is ChangeName {
            Channel::Unreliable
        } else {
            Channel::Reliable
        }
    }
}

impl ClientMessage {
    pub fn channel(&self) -> (channel: Channel)
        ensures
            channel == self@.channel(),
    {
        match self {
            ClientMessage::ChangeName(_) => Channel::Unreliable,
            _ => Channel::Reliable,
        }
    }
}

#[derive(Debug, PartialEq, Eq)]
pub enum ChatMessage {
    Public(String),
    Private(u64, String),
}

} // verus!
