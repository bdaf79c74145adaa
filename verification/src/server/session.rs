//! The session that the server runs.

use vstd::prelude::*;

use crate::axial_coordinates::AxialCoordinates;
use crate::common::{
    CurrentPlayer, LevelLoaded, Player, PlayerSpawnpoint, Readiness, ServerEntity, Username,
};
use crate::messages::{ClientMessage, ServerMessage, ServerMessageView};
use crate::resources::{is_permutation, is_permutation_of, shuffled, LevelName, TurnOrder};
use crate::server::laws::{
    law_spawn_phase_begins_with_a_permutation, lemma_character_spawned_wf, lemma_connect_wf,
    lemma_disconnect_wf, lemma_receive_wf, lemma_start_turn_wf, lemma_tick_wf,
};
use crate::server::model::{is_outcome, PlayerView, SessionView};
use crate::server::{ServerAction, ServerActionView, ServerState, SessionError, SPAWN_RADIUS};

verus! {

/// The authoritative state of one match. Each event is one call; the session
/// changes, and what the server is to send or do is returned.
pub struct ServerSession {
    state: ServerState,
    roster: Vec<Player>,
    turn_order: TurnOrder,
    current: Option<CurrentPlayer>,
    level_name: LevelName,
}

impl View for ServerSession {
    type V = SessionView;

    closed spec fn view(&self) -> SessionView {
        SessionView {
            state: self.state,
            roster: self.roster.deep_view(),
            turn_order: self.turn_order@,
            current: match self.current {
                Some(marker) => Some(marker.0),
                None => None,
            },
            level: self.level_name.0@,
        }
    }
}

/// What a call returned, with the actions as [`ServerActionView`]s.
pub open spec fn returned(result: Result<Vec<ServerAction>, SessionError>) -> Result<
    Seq<ServerActionView>,
    SessionError,
> {
    match result {
        Ok(actions) => Ok(actions.deep_view()),
        Err(error) => Err(error),
    }
}

impl ServerSession {
    /// What holds of a session at all times: see [`SessionView::wf`].
    pub open spec fn wf(&self) -> bool {
        self@.wf()
    }

    /// A session in the lobby, with nobody in it.
    pub fn new(level_name: LevelName) -> (session: Self)
        ensures
            session@ == SessionView::new(level_name.0@),
            session.wf(),
    {
        let session = ServerSession {
            state: ServerState::Lobby,
            roster: Vec::new(),
            turn_order: TurnOrder::new(),
            current: None,
            level_name,
        };
        assert(session@.roster =~= Seq::empty());
        session
    }

    /// The phase the match is in.
    pub fn state(&self) -> (state: ServerState)
        ensures
            state == self@.state,
    {
        self.state
    }

    /// The level that the match is played on.
    pub fn level_name(&self) -> (level: &LevelName)
        ensures
            level.0@ == self@.level,
    {
        &self.level_name
    }

    /// The connected players, in the order in which they connected.
    pub fn players(&self) -> (players: &Vec<Player>)
        ensures
            players.deep_view() == self@.roster,
    {
        &self.roster
    }

    /// The players whose turns are still to come, next first.
    pub fn turn_order(&self) -> (turns: &TurnOrder)
        ensures
            turns@ == self@.turn_order,
    {
        &self.turn_order
    }

    /// The marker of the player whose turn it is.
    pub fn current_player(&self) -> (current: Option<CurrentPlayer>)
        ensures
            current.is_some() == self@.current.is_some(),
            current.is_some() ==> current.unwrap().0 == self@.current.unwrap(),
    {
        self.current
    }

    /// The ids of the connected players, in the order in which they
    /// connected.
    pub fn ids(&self) -> (ids: Vec<u64>)
        ensures
            ids@ == self@.ids(),
    {
        let mut ids: Vec<u64> = Vec::new();
        let mut i: usize = 0;
        while i < self.roster.len()
            invariant
                i <= self.roster.len(),
                ids@ == self@.ids().take(i as int),
            decreases self.roster.len() - i,
        {
            ids.push(self.roster[i].id);
            i = i + 1;
        }
        ids
    }

    /// Where in the roster the player with this id stands.
    fn find(&self, id: u64) -> (found: Option<usize>)
        requires
            self.wf(),
        ensures
            found.is_some() == self@.has(id),
            found.is_some() ==> found.unwrap() == self@.index_of(id),
            found.is_some() ==> found.unwrap() < self.roster.len(),
    {
        let mut i: usize = 0;
        while i < self.roster.len()
            invariant
                self.wf(),
                i <= self.roster.len(),
                forall|j: int| 0 <= j < i ==> self@.ids()[j] != id,
            decreases self.roster.len() - i,
        {
            if self.roster[i].id == id {
                assert(self@.ids()[i as int] == id);
                return Some(i);
            }
            i = i + 1;
        }
        None
    }

    /// A client has connected. See [`SessionView::connect`].
    pub fn handle_connect(&mut self, id: u64, name: Username, entity: ServerEntity) -> (actions:
        Vec<ServerAction>)
        requires
            old(self).wf(),
        ensures
            final(self).wf(),
            final(self)@ == old(self)@.connect(id, name.0@, entity).session,
            actions.deep_view() == old(self)@.connect(id, name.0@, entity).actions,
    {
        let mut actions: Vec<ServerAction> = Vec::new();
        if self.find(id).is_some() {
            actions.push(ServerAction::Despawn(entity));
            return actions;
        }
        let mut i: usize = 0;
        while i < self.roster.len()
            invariant
                i <= self.roster.len(),
                *self == *old(self),
                actions@.len() == i,
                actions.deep_view() == old(self)@.connect(id, name.0@, entity).actions.take(
                    i as int,
                ),
                !self@.has(id),
            decreases self.roster.len() - i,
        {
            let player = &self.roster[i];
            actions.push(
                ServerAction::Send(
                    id,
                    ServerMessage::PlayerConnected(player.id, player.name.clone(), player.entity),
                ),
            );
            proof {
                let expected = old(self)@.connect(id, name.0@, entity).actions;
                assert forall|k: int| 0 <= k < i implies actions.deep_view()[k] == expected[k] by {
                    assert(expected.take(i as int)[k] == expected[k]);
                }
            }
            i = i + 1;
        }
        let ghost sent = actions.deep_view();
        actions.push(
            ServerAction::Broadcast(ServerMessage::PlayerConnected(id, name.0.clone(), entity)),
        );
        proof {
            let expected = old(self)@.connect(id, name.0@, entity).actions;
            assert forall|k: int| 0 <= k < i implies actions.deep_view()[k] == expected[k] by {
                assert(sent[k] == expected.take(i as int)[k]);
            }
        }
        self.roster.push(
            Player {
                id,
                name: name.0,
                readiness: Readiness(false),
                level_loaded: LevelLoaded(false),
                entity,
                spawnpoint: None,
                character: None,
            },
        );
        proof {
            assert(self@.roster =~= old(self)@.connect(id, name.0@, entity).session.roster);
            lemma_connect_wf(old(self)@, id, name.0@, entity);
        }
        actions
    }

    /// A client has disconnected. See [`SessionView::disconnect`].
    pub fn handle_disconnect(&mut self, id: u64) -> (actions: Vec<ServerAction>)
        requires
            old(self).wf(),
        ensures
            final(self).wf(),
            final(self)@ == old(self)@.disconnect(id).session,
            actions.deep_view() == old(self)@.disconnect(id).actions,
    {
        let mut actions: Vec<ServerAction> = Vec::new();
        match self.find(id) {
            Some(i) => {
                let player = self.roster.remove(i);
                actions.push(ServerAction::Despawn(player.entity));
                match player.character {
                    Some(character) => {
                        actions.push(ServerAction::Despawn(character));
                    },
                    None => {},
                }
                assert(self@.roster =~= old(self)@.roster.remove(i as int));
            },
            None => {},
        }
        self.turn_order.remove(id);
        let held = match self.current {
            Some(marker) => marker.0 == id,
            None => false,
        };
        if held {
            self.current = None;
            if self.state == ServerState::PlayerTurn {
                self.state = ServerState::NextTurn;
            }
        }
        actions.push(ServerAction::Broadcast(ServerMessage::PlayerDisconnected(id)));
        proof {
            lemma_disconnect_wf(old(self)@, id);
        }
        actions
    }

    /// A message from a client has arrived. See [`SessionView::receive`].
    pub fn handle_message(&mut self, sender: u64, message: ClientMessage) -> (actions: Vec<
        ServerAction,
    >)
        requires
            old(self).wf(),
        ensures
            final(self).wf(),
            final(self)@ == old(self)@.receive(sender, message@).session,
            actions.deep_view() == old(self)@.receive(sender, message@).actions,
    {
        let mut actions: Vec<ServerAction> = Vec::new();
        let ghost expected = old(self)@.receive(sender, message@);
        proof {
            lemma_receive_wf(old(self)@, sender, message@);
        }
        let i = match self.find(sender) {
            Some(i) => i,
            None => {
                return actions;
            },
        };
        match message {
            ClientMessage::ClientReady => {
                if self.state == ServerState::Lobby {
                    let ready = self.roster[i].readiness.0;
                    self.roster[i].readiness = Readiness(!ready);
                }
            },
            ClientMessage::LevelLoaded => {
                if self.state == ServerState::WaitingForLevelLoad {
                    self.roster[i].level_loaded = LevelLoaded(true);
                }
            },
            ClientMessage::EndTurn => {
                let current = match self.current {
                    Some(marker) => marker.0 == sender,
                    None => false,
                };
                if self.state == ServerState::PlayerTurn && current {
                    self.state = ServerState::NextTurn;
                }
            },
            ClientMessage::ChangeName(name) => {
                actions.push(
                    ServerAction::Broadcast(ServerMessage::PlayerNameChanged(sender, name.clone())),
                );
                self.roster[i].name = name;
            },
            ClientMessage::TrySpawnCharacter(cell, elevation) => {
                let near = match self.roster[i].spawnpoint {
                    Some(spawnpoint) => spawnpoint.0.is_within(&cell, SPAWN_RADIUS),
                    None => false,
                };
                if self.state == ServerState::SpawnPhase && self.roster[i].character.is_none()
                    && near {
                    actions.push(ServerAction::SpawnCharacter(sender, cell, elevation));
                }
            },
        }
        assert(self@.roster =~= expected.session.roster);
        actions
    }

    /// A character that was asked for is in the world. See
    /// [`SessionView::character_spawned`].
    pub fn character_spawned(
        &mut self,
        owner: u64,
        entity: ServerEntity,
        cell: AxialCoordinates,
        elevation: i32,
    ) -> (actions: Vec<ServerAction>)
        requires
            old(self).wf(),
        ensures
            final(self).wf(),
            final(self)@ == old(self)@.character_spawned(owner, entity, cell, elevation).session,
            actions.deep_view() == old(self)@.character_spawned(
                owner,
                entity,
                cell,
                elevation,
            ).actions,
    {
        let mut actions: Vec<ServerAction> = Vec::new();
        let ghost expected = old(self)@.character_spawned(owner, entity, cell, elevation);
        proof {
            lemma_character_spawned_wf(old(self)@, owner, entity, cell, elevation);
        }
        let place = if self.state == ServerState::SpawnPhase {
            self.find(owner)
        } else {
            None
        };
        match place {
            Some(i) => {
                if self.roster[i].character.is_none() {
                    self.roster[i].character = Some(entity);
                    actions.push(
                        ServerAction::Broadcast(
                            ServerMessage::SpawnCharacter(owner, entity, cell, elevation),
                        ),
                    );
                } else {
                    actions.push(ServerAction::Despawn(entity));
                }
            },
            None => {
                actions.push(ServerAction::Despawn(entity));
            },
        }
        assert(self@.roster =~= expected.session.roster);
        actions
    }

    /// Begins a turn. See [`SessionView::start_turn`].
    fn start_turn(&mut self) -> (result: Result<Vec<ServerAction>, SessionError>)
        requires
            old(self).wf(),
        ensures
            final(self).wf(),
            is_outcome(old(self)@, final(self)@, returned(result), old(self)@.start_turn()),
    {
        proof {
            lemma_start_turn_wf(old(self)@);
        }
        match self.current {
            Some(marker) => {
                self.turn_order.order.push_back(marker.0);
            },
            None => {},
        }
        match self.turn_order.order.pop_front() {
            Some(next) => {
                self.current = Some(CurrentPlayer(next));
                self.state = ServerState::PlayerTurn;
                let mut actions: Vec<ServerAction> = Vec::new();
                actions.push(ServerAction::Broadcast(ServerMessage::PlayerTurn(next)));
                assert(actions.deep_view() =~= old(self)@.start_turn()->Ok_0.actions);
                Ok(actions)
            },
            None => Err(SessionError::TurnOrderEmpty),
        }
    }

    /// The spawn phase is over. See [`SessionView::complete_spawn`].
    pub fn complete_spawn(&mut self) -> (result: Result<Vec<ServerAction>, SessionError>)
        requires
            old(self).wf(),
        ensures
            final(self).wf(),
            is_outcome(old(self)@, final(self)@, returned(result), old(self)@.complete_spawn()),
    {
        if self.state == ServerState::SpawnPhase {
            self.start_turn()
        } else {
            let actions: Vec<ServerAction> = Vec::new();
            assert(actions.deep_view() =~= Seq::empty());
            Ok(actions)
        }
    }

    /// Whether there are players and every one of them is ready.
    fn all_ready(&self) -> (ready: bool)
        ensures
            ready == self@.all_ready(),
    {
        if self.roster.len() == 0 {
            return false;
        }
        let mut i: usize = 0;
        while i < self.roster.len()
            invariant
                i <= self.roster.len(),
                forall|j: int| 0 <= j < i ==> (#[trigger] self@.roster[j]).readiness,
            decreases self.roster.len() - i,
        {
            if !self.roster[i].readiness.0 {
                return false;
            }
            assert(self@.roster[i as int].readiness);
            i = i + 1;
        }
        true
    }

    /// Whether there are players and every one of them has loaded the level.
    fn all_loaded(&self) -> (loaded: bool)
        ensures
            loaded == self@.all_loaded(),
    {
        if self.roster.len() == 0 {
            return false;
        }
        let mut i: usize = 0;
        while i < self.roster.len()
            invariant
                i <= self.roster.len(),
                forall|j: int| 0 <= j < i ==> (#[trigger] self@.roster[j]).level_loaded,
            decreases self.roster.len() - i,
        {
            if !self.roster[i].level_loaded.0 {
                return false;
            }
            assert(self@.roster[i as int].level_loaded);
            i = i + 1;
        }
        true
    }

    /// Whether there are players and every one of them has a character in
    /// the world: the spawn phase has nothing left to wait for.
    pub fn all_spawned(&self) -> (spawned: bool)
        ensures
            spawned == self@.all_spawned(),
    {
        if self.roster.len() == 0 {
            return false;
        }
        let mut i: usize = 0;
        while i < self.roster.len()
            invariant
                i <= self.roster.len(),
                forall|j: int| 0 <= j < i ==> (#[trigger] self@.roster[j]).character is Some,
            decreases self.roster.len() - i,
        {
            if self.roster[i].character.is_none() {
                return false;
            }
            assert(self@.roster[i as int].character is Some);
            i = i + 1;
        }
        true
    }

    /// Leaves the lobby. See [`SessionView::enter_level_load`].
    fn enter_level_load(&mut self) -> (actions: Vec<ServerAction>)
        requires
            old(self).wf(),
        ensures
            final(self)@ == old(self)@.enter_level_load().session,
            actions.deep_view() == old(self)@.enter_level_load().actions,
    {
        let mut i: usize = 0;
        while i < self.roster.len()
            invariant
                i <= self.roster.len(),
                self.roster.len() == old(self).roster.len(),
                self.state == old(self).state,
                self.turn_order == old(self).turn_order,
                self.current == old(self).current,
                self.level_name == old(self).level_name,
                forall|j: int|
                    0 <= j < i ==> (#[trigger] self.roster@[j])@ == (PlayerView {
                        level_loaded: false,
                        ..old(self).roster@[j]@
                    }),
                forall|j: int|
                    i <= j < self.roster.len() ==> #[trigger] self.roster@[j] == old(
                        self,
                    ).roster@[j],
            decreases self.roster.len() - i,
        {
            self.roster[i].level_loaded = LevelLoaded(false);
            i = i + 1;
        }
        self.state = ServerState::WaitingForLevelLoad;
        let mut actions: Vec<ServerAction> = Vec::new();
        actions.push(ServerAction::Broadcast(ServerMessage::LoadLevel(self.level_name.0.clone())));
        assert(self@.roster =~= old(self)@.enter_level_load().session.roster);
        actions
    }

    /// Enters the spawn phase. See [`SessionView::enter_spawn_phase`].
    fn enter_spawn_phase(
        &mut self,
        spawnpoints: &Vec<PlayerSpawnpoint>,
        order: &Vec<u64>,
    ) -> (result: Result<Vec<ServerAction>, SessionError>)
        requires
            old(self).wf(),
        ensures
            is_outcome(
                old(self)@,
                final(self)@,
                returned(result),
                old(self)@.enter_spawn_phase(spawnpoints@, order@),
            ),
    {
        if spawnpoints.len() < self.roster.len() {
            return Err(SessionError::NotEnoughSpawnpoints);
        }
        let ids = self.ids();
        if !is_permutation_of(order, &ids) {
            return Err(SessionError::InvalidTurnOrder);
        }
        let ghost expected = old(self)@.enter_spawn_phase(spawnpoints@, order@)->Ok_0;
        let mut actions: Vec<ServerAction> = Vec::new();
        let mut i: usize = 0;
        while i < self.roster.len()
            invariant
                i <= self.roster.len(),
                self.roster.len() == old(self).roster.len(),
                self.roster.len() <= spawnpoints.len(),
                self.state == old(self).state,
                self.turn_order == old(self).turn_order,
                self.current == old(self).current,
                self.level_name == old(self).level_name,
                old(self)@.enter_spawn_phase(spawnpoints@, order@) == Ok::<_, SessionError>(
                    expected,
                ),
                actions@.len() == i,
                forall|j: int|
                    0 <= j < i ==> (#[trigger] actions@[j])@ == ServerActionView::Send(
                        old(self).roster@[j].id,
                        ServerMessageView::AssignSpawnpoint(spawnpoints@[j].0, spawnpoints@[j].1),
                    ),
                forall|j: int|
                    0 <= j < i ==> (#[trigger] self.roster@[j])@ == (PlayerView {
                        spawnpoint: Some(spawnpoints@[j]),
                        ..old(self).roster@[j]@
                    }),
                forall|j: int|
                    i <= j < self.roster.len() ==> #[trigger] self.roster@[j] == old(
                        self,
                    ).roster@[j],
            decreases self.roster.len() - i,
        {
            let spawnpoint = spawnpoints[i];
            self.roster[i].spawnpoint = Some(spawnpoint);
            actions.push(
                ServerAction::Send(
                    self.roster[i].id,
                    ServerMessage::AssignSpawnpoint(spawnpoint.0, spawnpoint.1),
                ),
            );
            i = i + 1;
        }
        self.turn_order = TurnOrder::from_ids(order);
        self.state = ServerState::SpawnPhase;
        assert(self@.roster =~= expected.session.roster);
        assert(actions.deep_view() =~= expected.actions);
        Ok(actions)
    }

    /// The periodic check, with the order that the turns are to take should
    /// the spawn phase begin now. See [`SessionView::tick`].
    pub fn tick_with_order(
        &mut self,
        spawnpoints: &Vec<PlayerSpawnpoint>,
        order: &Vec<u64>,
    ) -> (result: Result<Vec<ServerAction>, SessionError>)
        requires
            old(self).wf(),
        ensures
            final(self).wf(),
            is_outcome(
                old(self)@,
                final(self)@,
                returned(result),
                old(self)@.tick(spawnpoints@, order@),
            ),
    {
        proof {
            lemma_tick_wf(old(self)@, spawnpoints@, order@);
        }
        let nothing: Vec<ServerAction> = Vec::new();
        assert(nothing.deep_view() =~= Seq::empty());
        match self.state {
            ServerState::Lobby => {
                if self.all_ready() {
                    Ok(self.enter_level_load())
                } else {
                    Ok(nothing)
                }
            },
            ServerState::WaitingForLevelLoad => {
                if self.all_loaded() {
                    self.enter_spawn_phase(spawnpoints, order)
                } else {
                    Ok(nothing)
                }
            },
            ServerState::SpawnPhase => Ok(nothing),
            ServerState::PlayerTurn => Ok(nothing),
            ServerState::NextTurn => self.start_turn(),
        }
    }

    /// The periodic check. Should the spawn phase begin now, the turns take
    /// a random order. Whatever that order, it is an order of the roster's
    /// ids, each once, and the session does with it what
    /// [`SessionView::tick`] says. So once everyone has loaded the level the
    /// spawn phase begins with such a turn order, unless the level has too
    /// few spawn points, which is an error and builds no order.
    pub fn tick(&mut self, spawnpoints: &Vec<PlayerSpawnpoint>) -> (result: Result<
        Vec<ServerAction>,
        SessionError,
    >)
        requires
            old(self).wf(),
        ensures
            final(self).wf(),
            exists|order: Seq<u64>|
                is_permutation(order, old(self)@.ids()) && #[trigger] is_outcome(
                    old(self)@,
                    final(self)@,
                    returned(result),
                    old(self)@.tick(spawnpoints@, order),
                ),
            old(self)@.state is WaitingForLevelLoad && old(self)@.all_loaded() && old(
                self,
            )@.roster.len() <= spawnpoints@.len() ==> {
                &&& result is Ok
                &&& final(self)@.state is SpawnPhase
                &&& final(self)@.ids() == old(self)@.ids()
                &&& is_permutation(final(self)@.turn_order, final(self)@.ids())
                &&& final(self)@.turn_order.no_duplicates()
            },
            old(self)@.state is WaitingForLevelLoad && old(self)@.all_loaded() && spawnpoints@.len()
                < old(self)@.roster.len() ==> {
                &&& returned(result) == Err::<Seq<ServerActionView>, _>(
                    SessionError::NotEnoughSpawnpoints,
                )
                &&& final(self)@ == old(self)@
            },
    {
        let order = shuffled(self.ids());
        proof {
            if self@.state is WaitingForLevelLoad && self@.all_loaded() {
                law_spawn_phase_begins_with_a_permutation(self@, spawnpoints@, order@);
            }
        }
        self.tick_with_order(spawnpoints, &order)
    }
}

} // verus!
