//! The session as mathematics: what a session holds, when it is
//! well-formed, and what each event makes of it.

use vstd::prelude::*;

use crate::axial_coordinates::{hex_distance, AxialCoordinates};
use crate::common::{PlayerSpawnpoint, ServerEntity};
use crate::messages::{ClientMessageView, ServerMessageView};
use crate::resources::{is_permutation, without};
use crate::server::{ServerActionView, ServerState, SessionError, SPAWN_RADIUS};

verus! {

/// One connected player.
pub struct PlayerView {
    /// The client id: the key of the roster.
    pub id: u64,
    pub name: Seq<char>,
    pub readiness: bool,
    pub level_loaded: bool,
    /// The server's label for the player.
    pub entity: ServerEntity,
    /// The spawn point assigned for the spawn phase.
    pub spawnpoint: Option<PlayerSpawnpoint>,
    /// The server's label for the player's character, once it is in the
    /// world.
    pub character: Option<ServerEntity>,
}

/// A player as it is on connecting.
pub open spec fn new_player(id: u64, name: Seq<char>, entity: ServerEntity) -> PlayerView {
    PlayerView {
        id,
        name,
        readiness: false,
        level_loaded: false,
        entity,
        spawnpoint: None,
        character: None,
    }
}

/// A session: everything the server knows of a match.
pub struct SessionView {
    pub state: ServerState,
    /// The connected players, in the order in which they connected.
    pub roster: Seq<PlayerView>,
    /// The players whose turns are still to come, next first. The current
    /// player is not among them.
    pub turn_order: Seq<u64>,
    /// The player whose turn it is.
    pub current: Option<u64>,
    /// The level that the match is played on.
    pub level: Seq<char>,
}

/// A session after an event, with what the server is to do.
pub struct Step {
    pub session: SessionView,
    pub actions: Seq<ServerActionView>,
}

/// What comes into a session.
pub enum Event {
    /// A client has connected: id, display name, the server's label.
    Connected(u64, Seq<char>, ServerEntity),
    Disconnected(u64),
    /// A message from a client.
    Received(u64, ClientMessageView),
    /// The character asked for is in the world: owner, label, cell,
    /// elevation.
    CharacterSpawned(u64, ServerEntity, AxialCoordinates, i32),
    /// Every character is placed.
    SpawnCompleted,
    /// The periodic check, with the level's spawn points and an order for
    /// the turns.
    Tick(Seq<PlayerSpawnpoint>, Seq<u64>),
}

/// Whether a call that found the session as `before`, left it as `after`
/// and returned `result` has done what `expected` says: on success the step
/// is taken and its actions are returned, and on an error the session is as
/// it was.
pub open spec fn is_outcome(
    before: SessionView,
    after: SessionView,
    result: Result<Seq<ServerActionView>, SessionError>,
    expected: Result<Step, SessionError>,
) -> bool {
    match expected {
        Ok(step) => after == step.session && result == Ok::<_, SessionError>(step.actions),
        Err(error) => after == before && result == Err::<Seq<ServerActionView>, _>(error),
    }
}

impl SessionView {
    /// A session in the lobby, with nobody in it.
    pub open spec fn new(level: Seq<char>) -> SessionView {
        SessionView {
            state: ServerState::Lobby,
            roster: Seq::empty(),
            turn_order: Seq::empty(),
            current: None,
            level,
        }
    }

    /// The ids of the roster, in the order of connecting.
    pub open spec fn ids(self) -> Seq<u64> {
        self.roster.map_values(|p: PlayerView| p.id)
    }

    /// Whether a player with this id is connected.
    pub open spec fn has(self, id: u64) -> bool {
        self.ids().contains(id)
    }

    /// Where in the roster the player with this id stands.
    pub open spec fn index_of(self, id: u64) -> int
        recommends
            self.has(id),
    {
        self.ids().index_of(id)
    }

    /// The player with this id.
    pub open spec fn player(self, id: u64) -> PlayerView
        recommends
            self.has(id),
    {
        self.roster[self.index_of(id)]
    }

    /// The session with `player` in the place of the player with that id.
    pub open spec fn with_player(self, player: PlayerView) -> SessionView
        recommends
            self.has(player.id),
    {
        SessionView { roster: self.roster.update(self.index_of(player.id), player), ..self }
    }

    /// What holds of a session at all times.
    pub open spec fn wf(self) -> bool {
        &&& self.ids().no_duplicates()
        &&& self.turn_order.no_duplicates()
        &&& forall|i: int|
            0 <= i < self.turn_order.len() ==> self.ids().contains(#[trigger] self.turn_order[i])
        &&& self.current matches Some(c) ==> self.ids().contains(c) && !self.turn_order.contains(c)
        &&& (self.state is Lobby || self.state is WaitingForLevelLoad) ==> self.turn_order.len()
            == 0
        &&& (self.state is Lobby || self.state is WaitingForLevelLoad || self.state is SpawnPhase)
            ==> self.current is None
        &&& self.state is PlayerTurn ==> self.current is Some
    }

    /// The cycle of turns: the players whose turns are to come, and behind
    /// them the current player.
    pub open spec fn rotation(self) -> Seq<u64> {
        match self.current {
            Some(c) => self.turn_order.push(c),
            None => self.turn_order,
        }
    }

    /// Whether there are players and every one of them is ready.
    pub open spec fn all_ready(self) -> bool {
        &&& self.roster.len() > 0
        &&& forall|i: int| 0 <= i < self.roster.len() ==> (#[trigger] self.roster[i]).readiness
    }

    /// Whether there are players and every one of them has loaded the level.
    pub open spec fn all_loaded(self) -> bool {
        &&& self.roster.len() > 0
        &&& forall|i: int| 0 <= i < self.roster.len() ==> (#[trigger] self.roster[i]).level_loaded
    }

    /// Whether there are players and every one of them has a character in
    /// the world.
    pub open spec fn all_spawned(self) -> bool {
        &&& self.roster.len() > 0
        &&& forall|i: int|
            0 <= i < self.roster.len() ==> (#[trigger] self.roster[i]).character is Some
    }

    /// The session as it is; nothing to do.
    pub open spec fn unchanged(self) -> Step {
        Step { session: self, actions: Seq::empty() }
    }

    /// A client connects. If its id is free it joins the roster, unready: it
    /// is told of every player already there, in the order of connecting,
    /// and then everyone, the newcomer too, is told of the newcomer. If the
    /// id is taken nothing changes, and the label offered is to be dropped.
    pub open spec fn connect(self, id: u64, name: Seq<char>, entity: ServerEntity) -> Step {
        if self.has(id) {
            Step { session: self, actions: seq![ServerActionView::Despawn(entity)] }
        } else {
            Step {
                session: SessionView {
                    roster: self.roster.push(new_player(id, name, entity)),
                    ..self
                },
                actions: Seq::new(
                    self.roster.len(),
                    |i: int|
                        ServerActionView::Send(
                            id,
                            ServerMessageView::PlayerConnected(
                                self.roster[i].id,
                                self.roster[i].name,
                                self.roster[i].entity,
                            ),
                        ),
                ).push(
                    ServerActionView::Broadcast(
                        ServerMessageView::PlayerConnected(id, name, entity),
                    ),
                ),
            }
        }
    }

    /// What is to leave the world with the player of this id: the player's
    /// own label and the character's, if there is one.
    pub open spec fn belongings(self, id: u64) -> Seq<ServerActionView> {
        if !self.has(id) {
            Seq::empty()
        } else {
            match self.player(id).character {
                Some(character) => seq![
                    ServerActionView::Despawn(self.player(id).entity),
                    ServerActionView::Despawn(character),
                ],
                None => seq![ServerActionView::Despawn(self.player(id).entity)],
            }
        }
    }

    /// A client disconnects. It leaves the roster and the turn order; the
    /// others keep their places. If it was the current player the marker is
    /// dropped and, during a turn, the turn ends at once. What belonged to
    /// the player leaves the world, and everyone is told.
    pub open spec fn disconnect(self, id: u64) -> Step {
        let held = self.current == Some(id);
        Step {
            session: SessionView {
                state: if held && self.state is PlayerTurn {
                    ServerState::NextTurn
                } else {
                    self.state
                },
                roster: if self.has(id) {
                    self.roster.remove(self.index_of(id))
                } else {
                    self.roster
                },
                turn_order: without(self.turn_order, id),
                current: if held {
                    None
                } else {
                    self.current
                },
                level: self.level,
            },
            actions: self.belongings(id).push(
                ServerActionView::Broadcast(ServerMessageView::PlayerDisconnected(id)),
            ),
        }
    }

    /// Whether a request for a character at `cell` is granted to the player
    /// with this id: in the spawn phase, to a player who has a spawn point
    /// and no character yet, for a cell near enough to that spawn point. The
    /// server measures the distance itself, whatever the client has done.
    pub open spec fn may_spawn_at(self, id: u64, cell: AxialCoordinates) -> bool {
        &&& self.state is SpawnPhase
        &&& self.has(id)
        &&& self.player(id).character is None
        &&& self.player(id).spawnpoint matches Some(spawnpoint) && hex_distance(spawnpoint.0, cell)
            < SPAWN_RADIUS
    }

    /// A message arrives from a client. What does not fit the sender or the
    /// phase changes nothing.
    pub open spec fn receive(self, sender: u64, message: ClientMessageView) -> Step {
        if !self.has(sender) {
            self.unchanged()
        } else {
            let player = self.player(sender);
            match message {
                ClientMessageView::ClientReady => if self.state is Lobby {
                    self.with_player(
                        PlayerView { readiness: !player.readiness, ..player },
                    ).unchanged()
                } else {
                    self.unchanged()
                },
                ClientMessageView::LevelLoaded => if self.state is WaitingForLevelLoad {
                    self.with_player(PlayerView { level_loaded: true, ..player }).unchanged()
                } else {
                    self.unchanged()
                },
                ClientMessageView::EndTurn => if self.state is PlayerTurn && self.current == Some(
                    sender,
                ) {
                    (SessionView { state: ServerState::NextTurn, ..self }).unchanged()
                } else {
                    self.unchanged()
                },
                ClientMessageView::ChangeName(name) => Step {
                    session: self.with_player(PlayerView { name, ..player }),
                    actions: seq![
                        ServerActionView::Broadcast(
                            ServerMessageView::PlayerNameChanged(sender, name),
                        ),
                    ],
                },
                ClientMessageView::TrySpawnCharacter(cell, elevation) => if self.may_spawn_at(
                    sender,
                    cell,
                ) {
                    Step {
                        session: self,
                        actions: seq![ServerActionView::SpawnCharacter(sender, cell, elevation)],
                    }
                } else {
                    self.unchanged()
                },
            }
        }
    }

    /// A character is in the world. In the spawn phase, for an owner who is
    /// connected and has none, it becomes the owner's and everyone is told.
    /// Otherwise nobody owns it, and it is to leave the world again.
    pub open spec fn character_spawned(
        self,
        owner: u64,
        entity: ServerEntity,
        cell: AxialCoordinates,
        elevation: i32,
    ) -> Step {
        if self.state is SpawnPhase && self.has(owner) && self.player(owner).character is None {
            Step {
                session: self.with_player(
                    PlayerView { character: Some(entity), ..self.player(owner) },
                ),
                actions: seq![
                    ServerActionView::Broadcast(
                        ServerMessageView::SpawnCharacter(owner, entity, cell, elevation),
                    ),
                ],
            }
        } else {
            Step { session: self, actions: seq![ServerActionView::Despawn(entity)] }
        }
    }

    /// A turn begins. The player whose turn has ended goes to the back of the
    /// turn order, the player at its front becomes the current one, and
    /// everyone is told whose turn it is. With nobody to take the turn it is
    /// an error.
    pub open spec fn start_turn(self) -> Result<Step, SessionError> {
        let rotation = self.rotation();
        if rotation.len() == 0 {
            Err(SessionError::TurnOrderEmpty)
        } else {
            Ok(
                Step {
                    session: SessionView {
                        state: ServerState::PlayerTurn,
                        turn_order: rotation.drop_first(),
                        current: Some(rotation[0]),
                        ..self
                    },
                    actions: seq![
                        ServerActionView::Broadcast(ServerMessageView::PlayerTurn(rotation[0])),
                    ],
                },
            )
        }
    }

    /// The spawn phase is over: the first turn begins. In any other phase
    /// nothing changes.
    pub open spec fn complete_spawn(self) -> Result<Step, SessionError> {
        if self.state is SpawnPhase {
            self.start_turn()
        } else {
            Ok(self.unchanged())
        }
    }

    /// Leaving the lobby: nobody has loaded the level yet, and everyone is
    /// told which level to load.
    pub open spec fn enter_level_load(self) -> Step {
        Step {
            session: SessionView {
                state: ServerState::WaitingForLevelLoad,
                roster: self.roster.map_values(
                    |p: PlayerView| PlayerView { level_loaded: false, ..p },
                ),
                ..self
            },
            actions: seq![ServerActionView::Broadcast(ServerMessageView::LoadLevel(self.level))],
        }
    }

    /// Entering the spawn phase: `order` becomes the turn order, and the
    /// players get the spawn points one each, the first to the first: each is
    /// told of its own. Too few spawn points are an error, and so is an order
    /// that is not the roster's ids, each once.
    pub open spec fn enter_spawn_phase(
        self,
        spawnpoints: Seq<PlayerSpawnpoint>,
        order: Seq<u64>,
    ) -> Result<Step, SessionError> {
        if spawnpoints.len() < self.roster.len() {
            Err(SessionError::NotEnoughSpawnpoints)
        } else if !is_permutation(order, self.ids()) {
            Err(SessionError::InvalidTurnOrder)
        } else {
            Ok(
                Step {
                    session: SessionView {
                        state: ServerState::SpawnPhase,
                        roster: Seq::new(
                            self.roster.len(),
                            |i: int|
                                PlayerView { spawnpoint: Some(spawnpoints[i]), ..self.roster[i] },
                        ),
                        turn_order: order,
                        ..self
                    },
                    actions: Seq::new(
                        self.roster.len(),
                        |i: int|
                            ServerActionView::Send(
                                self.roster[i].id,
                                ServerMessageView::AssignSpawnpoint(
                                    spawnpoints[i].0,
                                    spawnpoints[i].1,
                                ),
                            ),
                    ),
                },
            )
        }
    }

    /// The periodic check, the only place where a barrier opens. The lobby
    /// is left once everyone is ready, the level load once everyone has
    /// loaded, and after a turn has ended the next begins. `spawnpoints` and
    /// `order` are looked at on entering the spawn phase only.
    pub open spec fn tick(self, spawnpoints: Seq<PlayerSpawnpoint>, order: Seq<u64>) -> Result<
        Step,
        SessionError,
    > {
        match self.state {
            ServerState::Lobby => if self.all_ready() {
                Ok(self.enter_level_load())
            } else {
                Ok(self.unchanged())
            },
            ServerState::WaitingForLevelLoad => if self.all_loaded() {
                self.enter_spawn_phase(spawnpoints, order)
            } else {
                Ok(self.unchanged())
            },
            ServerState::SpawnPhase => Ok(self.unchanged()),
            ServerState::PlayerTurn => Ok(self.unchanged()),
            ServerState::NextTurn => self.start_turn(),
        }
    }

    /// The session after an event. An event that ends in an error leaves the
    /// session as it was.
    pub open spec fn after(self, event: Event) -> SessionView {
        match event {
            Event::Connected(id, name, entity) => self.connect(id, name, entity).session,
            Event::Disconnected(id) => self.disconnect(id).session,
            Event::Received(sender, message) => self.receive(sender, message).session,
            Event::CharacterSpawned(owner, entity, cell, elevation) => self.character_spawned(
                owner,
                entity,
                cell,
                elevation,
            ).session,
            Event::SpawnCompleted => match self.complete_spawn() {
                Ok(step) => step.session,
                Err(_) => self,
            },
            Event::Tick(spawnpoints, order) => match self.tick(spawnpoints, order) {
                Ok(step) => step.session,
                Err(_) => self,
            },
        }
    }

    /// The session after a run of events, the first of them first.
    pub open spec fn after_all(self, events: Seq<Event>) -> SessionView
        decreases events.len(),
    {
        if events.len() == 0 {
            self
        } else {
            self.after_all(events.drop_last()).after(events.last())
        }
    }
}

} // verus!
