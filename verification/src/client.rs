//! The client's side of a match: a mirror of the server's session, as far as
//! one player needs it. It follows what the server says and decides nothing
//! about the match itself.

use vstd::prelude::*;

use crate::axial_coordinates::{hex_distance, AxialCoordinates};
use crate::common::{OwnedBy, PlayerSpawnpoint, ServerEntity, Username};
use crate::messages::{ClientMessage, ClientMessageView, ServerMessage, ServerMessageView};
use crate::resources::{LevelName, Players};
use crate::server::model::SessionView;
use crate::server::SPAWN_RADIUS;

verus! {

/// The stage of a match as one client sees it.
#[derive(Clone, Copy, Debug, Eq, Hash, PartialEq, Structural)]
pub enum ClientState {
    /// The server has not yet confirmed this client.
    WaitingToConnect,
    Lobby,
    /// The level named by the server is being loaded.
    LoadingLevel,
    /// The level is loaded and the server has been told.
    LevelLoaded,
    /// A click near the assigned spawn point asks for a character there.
    SpawnPhase,
    /// It is another player's turn.
    Idling,
    /// It is this player's turn.
    Acting,
}

/// What the client is to show after a message from the server.
#[derive(Debug, PartialEq, Eq)]
pub enum ClientAction {
    /// Show a player: the server's label and the display name.
    ShowPlayer(ServerEntity, String),
    /// Take what carries this label out of the local world.
    Despawn(ServerEntity),
    /// Show a new name on what carries this label.
    Rename(ServerEntity, String),
    /// Turn the camera to a spawn point: cell and elevation.
    LookAt(AxialCoordinates, i32),
    /// Show a character: owner, the server's label, cell, elevation.
    ShowCharacter(OwnedBy, ServerEntity, AxialCoordinates, i32),
}

/// A [`ClientAction`] with its strings as sequences of characters.
pub enum ClientActionView {
    ShowPlayer(ServerEntity, Seq<char>),
    Despawn(ServerEntity),
    Rename(ServerEntity, Seq<char>),
    LookAt(AxialCoordinates, i32),
    ShowCharacter(OwnedBy, ServerEntity, AxialCoordinates, i32),
}

impl View for ClientAction {
    type V = ClientActionView;

    open spec fn view(&self) -> ClientActionView {
        match *self {
            ClientAction::ShowPlayer(entity, name) => ClientActionView::ShowPlayer(entity, name@),
            ClientAction::Despawn(entity) => ClientActionView::Despawn(entity),
            ClientAction::Rename(entity, name) => ClientActionView::Rename(entity, name@),
            ClientAction::LookAt(cell, elevation) => ClientActionView::LookAt(cell, elevation),
            ClientAction::ShowCharacter(owner, entity, cell, elevation) =>
                ClientActionView::ShowCharacter(owner, entity, cell, elevation),
        }
    }
}

impl DeepView for ClientAction {
    type V = ClientActionView;

    open spec fn deep_view(&self) -> ClientActionView {
        self@
    }
}

/// What one client knows of a match.
pub struct ClientView {
    pub state: ClientState,
    /// This client's own id.
    pub id: u64,
    /// The players this client has been told of, each with the server's
    /// label.
    pub players: Map<u64, ServerEntity>,
    /// The level named by the server.
    pub level: Seq<char>,
    /// The spawn point assigned by the server.
    pub spawnpoint: Option<PlayerSpawnpoint>,
}

/// A client after a message, with what it is to show.
pub struct Shown {
    pub client: ClientView,
    pub action: Option<ClientActionView>,
}

impl ClientView {
    /// A client that waits to be confirmed and knows of nobody.
    pub open spec fn new(id: u64) -> ClientView {
        ClientView {
            state: ClientState::WaitingToConnect,
            id,
            players: Map::empty(),
            level: Seq::empty(),
            spawnpoint: None,
        }
    }

    /// A message arrives from the server. The client follows it whatever
    /// state it is in.
    pub open spec fn receive(self, message: ServerMessageView) -> Shown {
        match message {
            ServerMessageView::PlayerConnected(id, name, entity) => Shown {
                client: ClientView {
                    state: if id == self.id {
                        ClientState::Lobby
                    } else {
                        self.state
                    },
                    players: self.players.insert(id, entity),
                    ..self
                },
                action: Some(ClientActionView::ShowPlayer(entity, name)),
            },
            ServerMessageView::PlayerDisconnected(id) => Shown {
                client: ClientView { players: self.players.remove(id), ..self },
                action: if self.players.contains_key(id) {
                    Some(ClientActionView::Despawn(self.players[id]))
                } else {
                    None
                },
            },
            ServerMessageView::PlayerTurn(id) => Shown {
                client: ClientView {
                    state: if id == self.id {
                        ClientState::Acting
                    } else {
                        ClientState::Idling
                    },
                    ..self
                },
                action: None,
            },
            ServerMessageView::PlayerNameChanged(id, name) => Shown {
                client: self,
                action: if self.players.contains_key(id) {
                    Some(ClientActionView::Rename(self.players[id], name))
                } else {
                    None
                },
            },
            ServerMessageView::LoadLevel(level) => Shown {
                client: ClientView { state: ClientState::LoadingLevel, level, ..self },
                action: None,
            },
            ServerMessageView::AssignSpawnpoint(cell, elevation) => Shown {
                client: ClientView {
                    state: ClientState::SpawnPhase,
                    spawnpoint: Some(PlayerSpawnpoint(cell, elevation)),
                    ..self
                },
                action: Some(ClientActionView::LookAt(cell, elevation)),
            },
            ServerMessageView::SpawnCharacter(owner, entity, cell, elevation) => Shown {
                client: self,
                action: Some(
                    ClientActionView::ShowCharacter(OwnedBy(owner), entity, cell, elevation),
                ),
            },
        }
    }

    /// Whether a click on `cell` asks for a character: in the spawn phase,
    /// on a cell near enough to the assigned spawn point.
    pub open spec fn may_ask_for(self, cell: AxialCoordinates) -> bool {
        &&& self.state is SpawnPhase
        &&& self.spawnpoint matches Some(spawnpoint) && hex_distance(spawnpoint.0, cell)
            < SPAWN_RADIUS
    }
}

/// One client's mirror of the match.
pub struct ClientSession {
    state: ClientState,
    id: u64,
    players: Players,
    level_name: LevelName,
    spawnpoint: Option<PlayerSpawnpoint>,
}

impl View for ClientSession {
    type V = ClientView;

    closed spec fn view(&self) -> ClientView {
        ClientView {
            state: self.state,
            id: self.id,
            players: self.players@,
            level: self.level_name.0@,
            spawnpoint: self.spawnpoint,
        }
    }
}

impl ClientSession {
    /// A client with the given id that waits to be confirmed.
    pub fn new(id: u64) -> (client: Self)
        ensures
            client@ == ClientView::new(id),
    {
        ClientSession {
            state: ClientState::WaitingToConnect,
            id,
            players: Players::new(),
            level_name: LevelName(String::new()),
            spawnpoint: None,
        }
    }

    pub fn state(&self) -> (state: ClientState)
        ensures
            state == self@.state,
    {
        self.state
    }

    /// This client's own id.
    pub fn client_id(&self) -> (id: u64)
        ensures
            id == self@.id,
    {
        self.id
    }

    /// The players this client has been told of.
    pub fn players(&self) -> (players: &Players)
        ensures
            players@ == self@.players,
    {
        &self.players
    }

    /// The level named by the server.
    pub fn level_name(&self) -> (level: &LevelName)
        ensures
            level.0@ == self@.level,
    {
        &self.level_name
    }

    /// The spawn point assigned by the server.
    pub fn spawnpoint(&self) -> (spawnpoint: Option<PlayerSpawnpoint>)
        ensures
            spawnpoint == self@.spawnpoint,
    {
        self.spawnpoint
    }

    /// A message from the server has arrived. See [`ClientView::receive`].
    pub fn handle_message(&mut self, message: ServerMessage) -> (action: Option<ClientAction>)
        ensures
            final(self)@ == old(self)@.receive(message@).client,
            action.deep_view() == old(self)@.receive(message@).action,
    {
        broadcast use vstd::std_specs::hash::group_hash_axioms;

        match message {
            ServerMessage::PlayerConnected(id, name, entity) => {
                self.players.players.insert(id, entity);
                if id == self.id {
                    self.state = ClientState::Lobby;
                }
                Some(ClientAction::ShowPlayer(entity, name))
            },
            ServerMessage::PlayerDisconnected(id) => {
                match self.players.players.remove(&id) {
                    Some(entity) => Some(ClientAction::Despawn(entity)),
                    None => None,
                }
            },
            ServerMessage::PlayerTurn(id) => {
                if id == self.id {
                    self.state = ClientState::Acting;
                } else {
                    self.state = ClientState::Idling;
                }
                None
            },
            ServerMessage::PlayerNameChanged(id, name) => {
                match self.players.get(&id) {
                    Some(entity) => Some(ClientAction::Rename(*entity, name)),
                    None => None,
                }
            },
            ServerMessage::LoadLevel(level) => {
                self.level_name = LevelName(level);
                self.state = ClientState::LoadingLevel;
                None
            },
            ServerMessage::AssignSpawnpoint(cell, elevation) => {
                self.spawnpoint = Some(PlayerSpawnpoint(cell, elevation));
                self.state = ClientState::SpawnPhase;
                Some(ClientAction::LookAt(cell, elevation))
            },
            ServerMessage::SpawnCharacter(owner, entity, cell, elevation) => {
                Some(ClientAction::ShowCharacter(OwnedBy(owner), entity, cell, elevation))
            },
        }
    }

    /// Everything the level needs is loaded. While the level is being
    /// loaded this is news: the client notes it and has the server told.
    /// In any other state nothing changes and nothing is sent.
    pub fn assets_loaded(&mut self) -> (report: Option<ClientMessage>)
        ensures
            old(self)@.state is LoadingLevel ==> final(self)@ == (ClientView {
                state: ClientState::LevelLoaded,
                ..old(self)@
            }) && report.deep_view() == Some(ClientMessageView::LevelLoaded),
            !(old(self)@.state is LoadingLevel) ==> final(self)@ == old(self)@ && report is None,
    {
        if self.state == ClientState::LoadingLevel {
            self.state = ClientState::LevelLoaded;
            Some(ClientMessage::LevelLoaded)
        } else {
            None
        }
    }

    /// The player has pressed the ready button: in the lobby the server is
    /// told, elsewhere nothing is sent.
    pub fn ready_pressed(&self) -> (toggle: Option<ClientMessage>)
        ensures
            self@.state is Lobby ==> toggle.deep_view() == Some(ClientMessageView::ClientReady),
            !(self@.state is Lobby) ==> toggle is None,
    {
        if self.state == ClientState::Lobby {
            Some(ClientMessage::ClientReady)
        } else {
            None
        }
    }

    /// The player has pressed the button that ends the turn: during the
    /// player's own turn the server is told, otherwise nothing is sent.
    pub fn end_turn_pressed(&self) -> (end: Option<ClientMessage>)
        ensures
            self@.state is Acting ==> end.deep_view() == Some(ClientMessageView::EndTurn),
            !(self@.state is Acting) ==> end is None,
    {
        if self.state == ClientState::Acting {
            Some(ClientMessage::EndTurn)
        } else {
            None
        }
    }

    /// The player has clicked on a cell. In the spawn phase, on a cell near
    /// enough to the assigned spawn point, the server is asked for a
    /// character there. Any other click sends nothing.
    pub fn cell_clicked(&self, cell: AxialCoordinates, elevation: i32) -> (request: Option<
        ClientMessage,
    >)
        ensures
            self@.may_ask_for(cell) ==> request.deep_view() == Some(
                ClientMessageView::TrySpawnCharacter(cell, elevation),
            ),
            !self@.may_ask_for(cell) ==> request is None,
    {
        let near = match self.spawnpoint {
            Some(spawnpoint) => spawnpoint.0.is_within(&cell, SPAWN_RADIUS),
            None => false,
        };
        if self.state == ClientState::SpawnPhase && near {
            Some(ClientMessage::TrySpawnCharacter(cell, elevation))
        } else {
            None
        }
    }

    /// The player has chosen a new name: the server is told.
    pub fn name_chosen(&self, name: Username) -> (change: ClientMessage)
        ensures
            change@ == ClientMessageView::ChangeName(name.0@),
    {
        ClientMessage::ChangeName(name.0)
    }
}

/// The client asks for a character where the server grants one: while both
/// are in the spawn phase and hold the same spawn point for a player who has
/// no character yet, a click sends a request if and only if the server
/// accepts a request for that cell.
pub proof fn law_client_asks_where_the_server_grants(
    c: ClientView,
    s: SessionView,
    cell: AxialCoordinates,
)
    requires
        c.state is SpawnPhase,
        s.state is SpawnPhase,
        s.has(c.id),
        s.player(c.id).spawnpoint == c.spawnpoint,
        s.player(c.id).character is None,
    ensures
        c.may_ask_for(cell) == s.may_spawn_at(c.id, cell),
{
}

/// Hearing twice whose turn it is leaves the client where hearing it once
/// does.
pub proof fn law_player_turn_twice_is_once(c: ClientView, id: u64)
    ensures
        c.receive(ServerMessageView::PlayerTurn(id)).client.receive(
            ServerMessageView::PlayerTurn(id),
        ) == c.receive(ServerMessageView::PlayerTurn(id)),
{
}

/// During a match the client is acting exactly while the turn is its own:
/// after it has heard whose turn it is, it acts if that is its own id and
/// idles if it is another's.
pub proof fn law_acting_on_own_turn_only(c: ClientView, id: u64)
    ensures
        c.receive(ServerMessageView::PlayerTurn(id)).client.state == (if id == c.id {
            ClientState::Acting
        } else {
            ClientState::Idling
        }),
{
}

} // verus!
