//! What holds of every session, whatever comes into it.

use vstd::prelude::*;

use crate::axial_coordinates::AxialCoordinates;
use crate::common::{PlayerSpawnpoint, ServerEntity};
use crate::messages::{ClientMessageView, ServerMessageView};
use crate::resources::{is_permutation, lemma_permutation, without};
use crate::server::model::{Event, PlayerView, SessionView, Step};
use crate::server::{ServerActionView, ServerState, SessionError};

verus! {

/// Taking an entry out of a sequence without repeats leaves the others, in
/// their order, and that entry nowhere.
pub proof fn lemma_without(s: Seq<u64>, x: u64)
    requires
        s.no_duplicates(),
    ensures
        without(s, x).no_duplicates(),
        !without(s, x).contains(x),
        forall|y: u64| y != x ==> (without(s, x).contains(y) <==> s.contains(y)),
{
    if s.contains(x) {
        let i = s.index_of(x);
        let t = s.remove(i);
        assert forall|y: u64| y != x && s.contains(y) implies t.contains(y) by {
            let j = s.index_of(y);
            if j < i {
                assert(t[j] == y);
            } else {
                assert(t[j - 1] == y);
            }
        }
    }
}

/// Replacing a player by one of the same id leaves the ids as they were.
pub proof fn lemma_with_player_ids(s: SessionView, player: PlayerView)
    requires
        s.has(player.id),
    ensures
        s.with_player(player).ids() == s.ids(),
{
}

/// A well-formed session is well-formed after a client connects.
pub proof fn lemma_connect_wf(s: SessionView, id: u64, name: Seq<char>, entity: ServerEntity)
    requires
        s.wf(),
    ensures
        s.connect(id, name, entity).session.wf(),
{
    if !s.has(id) {
        let t = s.connect(id, name, entity).session;
        assert(t.ids() =~= s.ids().push(id));
        assert forall|i: int| 0 <= i < t.turn_order.len() implies t.ids().contains(
            #[trigger] t.turn_order[i],
        ) by {
            let j = s.ids().index_of(s.turn_order[i]);
            assert(t.ids()[j] == t.turn_order[i]);
        }
        if let Some(c) = s.current {
            let j = s.ids().index_of(c);
            assert(t.ids()[j] == c);
        }
    }
}

/// A well-formed session is well-formed after a client disconnects.
pub proof fn lemma_disconnect_wf(s: SessionView, id: u64)
    requires
        s.wf(),
    ensures
        s.disconnect(id).session.wf(),
        !s.disconnect(id).session.has(id),
        !s.disconnect(id).session.turn_order.contains(id),
{
    let t = s.disconnect(id).session;
    lemma_without(s.turn_order, id);
    lemma_without(s.ids(), id);
    assert(t.ids() =~= without(s.ids(), id));
    assert forall|i: int| 0 <= i < t.turn_order.len() implies t.ids().contains(
        #[trigger] t.turn_order[i],
    ) by {
    }
}

/// A well-formed session is well-formed after a message from a client.
pub proof fn lemma_receive_wf(s: SessionView, sender: u64, message: ClientMessageView)
    requires
        s.wf(),
    ensures
        s.receive(sender, message).session.wf(),
{
    if s.has(sender) {
        let p = s.player(sender);
        lemma_with_player_ids(s, PlayerView { readiness: !p.readiness, ..p });
        lemma_with_player_ids(s, PlayerView { level_loaded: true, ..p });
        if let ClientMessageView::ChangeName(name) = message {
            lemma_with_player_ids(s, PlayerView { name, ..p });
        }
    }
}

/// A well-formed session is well-formed after a character is reported.
pub proof fn lemma_character_spawned_wf(
    s: SessionView,
    owner: u64,
    entity: ServerEntity,
    cell: AxialCoordinates,
    elevation: i32,
)
    requires
        s.wf(),
    ensures
        s.character_spawned(owner, entity, cell, elevation).session.wf(),
{
    if s.has(owner) {
        lemma_with_player_ids(s, PlayerView { character: Some(entity), ..s.player(owner) });
    }
}

/// A well-formed session is well-formed after a turn has begun.
pub proof fn lemma_start_turn_wf(s: SessionView)
    requires
        s.wf(),
    ensures
        s.start_turn() matches Ok(step) ==> step.session.wf(),
{
    if let Ok(step) = s.start_turn() {
        let t = step.session;
        let rotation = s.rotation();
        assert forall|i: int| 0 <= i < rotation.len() implies s.ids().contains(
            #[trigger] rotation[i],
        ) by {
            if i < s.turn_order.len() {
            }
        }
        assert forall|i: int| 0 <= i < t.turn_order.len() implies t.ids().contains(
            #[trigger] t.turn_order[i],
        ) by {
        }
    }
}

/// A well-formed session is well-formed after the periodic check.
pub proof fn lemma_tick_wf(s: SessionView, spawnpoints: Seq<PlayerSpawnpoint>, order: Seq<u64>)
    requires
        s.wf(),
    ensures
        s.tick(spawnpoints, order) matches Ok(step) ==> step.session.wf(),
{
    if let Ok(step) = s.tick(spawnpoints, order) {
        let t = step.session;
        match s.state {
            ServerState::Lobby => {
                assert(t.ids() =~= s.ids());
            },
            ServerState::WaitingForLevelLoad => {
                assert(t.ids() =~= s.ids());
                if s.all_loaded() {
                    lemma_permutation(order, s.ids());
                    assert forall|i: int| 0 <= i < t.turn_order.len() implies t.ids().contains(
                        #[trigger] t.turn_order[i],
                    ) by {
                    }
                }
            },
            ServerState::NextTurn => {
                lemma_start_turn_wf(s);
            },
            _ => {},
        }
    }
}

/// A well-formed session is well-formed after any event.
pub proof fn lemma_after_wf(s: SessionView, event: Event)
    requires
        s.wf(),
    ensures
        s.after(event).wf(),
{
    match event {
        Event::Connected(id, name, entity) => lemma_connect_wf(s, id, name, entity),
        Event::Disconnected(id) => lemma_disconnect_wf(s, id),
        Event::Received(sender, message) => lemma_receive_wf(s, sender, message),
        Event::CharacterSpawned(owner, entity, cell, elevation) => lemma_character_spawned_wf(
            s,
            owner,
            entity,
            cell,
            elevation,
        ),
        Event::SpawnCompleted => lemma_start_turn_wf(s),
        Event::Tick(spawnpoints, order) => lemma_tick_wf(s, spawnpoints, order),
    }
}

/// Whatever events come in, connects and disconnects among them, in
/// whatever order: a session that was well-formed stays so. In particular
/// everyone in the turn order is in the roster, and so is the current
/// player, in every phase.
pub proof fn law_turn_order_within_roster(s: SessionView, events: Seq<Event>)
    requires
        s.wf(),
    ensures
        s.after_all(events).wf(),
        forall|id: u64|
            s.after_all(events).turn_order.contains(id) ==> s.after_all(events).has(id),
        forall|id: u64| s.after_all(events).current == Some(id) ==> s.after_all(events).has(id),
    decreases events.len(),
{
    if events.len() > 0 {
        law_turn_order_within_roster(s, events.drop_last());
        lemma_after_wf(s.after_all(events.drop_last()), events.last());
    }
}

/// From the first moment of a match on, whatever comes in: the session is
/// well-formed, and during the turns, as in every other phase, everyone in
/// the turn order is in the roster.
pub proof fn law_every_session_is_well_formed(level: Seq<char>, events: Seq<Event>)
    ensures
        SessionView::new(level).after_all(events).wf(),
        forall|id: u64|
            SessionView::new(level).after_all(events).turn_order.contains(id)
                ==> SessionView::new(level).after_all(events).has(id),
{
    law_turn_order_within_roster(SessionView::new(level), events);
}

/// Two `ClientReady` in a row from one player leave the session as it was:
/// the second undoes the first.
pub proof fn law_ready_twice_restores(s: SessionView, sender: u64)
    ensures
        s.receive(sender, ClientMessageView::ClientReady).session.receive(
            sender,
            ClientMessageView::ClientReady,
        ).session == s,
{
    if s.has(sender) && s.state is Lobby {
        let p = s.player(sender);
        let q = PlayerView { readiness: !p.readiness, ..p };
        let t = s.receive(sender, ClientMessageView::ClientReady).session;
        lemma_with_player_ids(s, q);
        let u = t.receive(sender, ClientMessageView::ClientReady).session;
        assert(u.roster =~= s.roster);
    }
}

/// In the lobby the periodic check never fails, and it ends the lobby if and
/// only if there are players and every one of them is ready.
pub proof fn law_lobby_ends_when_all_are_ready(
    s: SessionView,
    spawnpoints: Seq<PlayerSpawnpoint>,
    order: Seq<u64>,
)
    requires
        s.state is Lobby,
    ensures
        s.tick(spawnpoints, order) is Ok,
        s.all_ready() ==> s.after(Event::Tick(spawnpoints, order)).state is WaitingForLevelLoad,
        !s.all_ready() ==> s.after(Event::Tick(spawnpoints, order)) == s,
{
}

/// Nothing but the periodic check ends the lobby: not a connect, not a
/// disconnect, not a message, whatever it says.
pub proof fn law_only_the_tick_ends_the_lobby(s: SessionView, event: Event)
    requires
        s.state is Lobby,
        !(event is Tick),
    ensures
        s.after(event).state is Lobby,
{
}

/// The turn order that the spawn phase begins with is the roster's ids at
/// that moment, each once: none twice, none left out, none added.
pub proof fn law_turn_order_is_a_permutation(
    s: SessionView,
    spawnpoints: Seq<PlayerSpawnpoint>,
    order: Seq<u64>,
)
    requires
        s.wf(),
        s.state is WaitingForLevelLoad,
        s.after(Event::Tick(spawnpoints, order)).state is SpawnPhase,
    ensures
        ({
            let t = s.after(Event::Tick(spawnpoints, order));
            &&& t.ids() == s.ids()
            &&& t.turn_order.to_multiset() == t.ids().to_multiset()
            &&& t.turn_order.no_duplicates()
            &&& t.turn_order.len() == t.roster.len()
            &&& forall|id: u64| t.turn_order.contains(id) <==> t.has(id)
        }),
{
    let t = s.after(Event::Tick(spawnpoints, order));
    assert(t.ids() =~= s.ids());
    lemma_permutation(order, s.ids());
}

/// Once everyone has loaded the level, the periodic check begins the spawn
/// phase, and the turn order it begins with is the order it was given: the
/// roster's ids, each once. Only a level with fewer spawn points than the
/// match has players stands in the way; then the check fails and builds no
/// order.
pub proof fn law_spawn_phase_begins_with_a_permutation(
    s: SessionView,
    spawnpoints: Seq<PlayerSpawnpoint>,
    order: Seq<u64>,
)
    requires
        s.wf(),
        s.state is WaitingForLevelLoad,
        s.all_loaded(),
        is_permutation(order, s.ids()),
    ensures
        spawnpoints.len() < s.roster.len() ==> s.tick(spawnpoints, order) == Err::<Step, _>(
            SessionError::NotEnoughSpawnpoints,
        ),
        spawnpoints.len() >= s.roster.len() ==> ({
            let t = s.after(Event::Tick(spawnpoints, order));
            &&& s.tick(spawnpoints, order) is Ok
            &&& t.state is SpawnPhase
            &&& t.ids() == s.ids()
            &&& t.turn_order == order
            &&& t.turn_order.to_multiset() == t.ids().to_multiset()
            &&& t.turn_order.no_duplicates()
            &&& t.turn_order.len() == t.roster.len()
            &&& forall|id: u64| t.turn_order.contains(id) <==> t.has(id)
        }),
{
    if spawnpoints.len() >= s.roster.len() {
        law_turn_order_is_a_permutation(s, spawnpoints, order);
    }
}

/// `cycle` moved on by `k` places: what was at `k` is at the front, and the
/// first `k` entries stand at the back in their order.
pub open spec fn rotated(cycle: Seq<u64>, k: int) -> Seq<u64>
    recommends
        0 <= k <= cycle.len(),
{
    cycle.subrange(k, cycle.len() as int) + cycle.subrange(0, k)
}

/// The session after the current player has ended the turn and the periodic
/// check has come round.
pub open spec fn after_end_turn(s: SessionView) -> SessionView {
    match s.current {
        Some(current) => s.after(Event::Received(current, ClientMessageView::EndTurn)).after(
            Event::Tick(Seq::empty(), Seq::empty()),
        ),
        None => s,
    }
}

/// The session after `n` turns have been ended, each by its current player.
pub open spec fn after_end_turns(s: SessionView, n: nat) -> SessionView
    decreases n,
{
    if n == 0 {
        s
    } else {
        after_end_turn(after_end_turns(s, (n - 1) as nat))
    }
}

/// When the current player ends the turn, the next periodic check gives the
/// turn to the player at the front of the turn order, and the player who has
/// ended it stands at the back. Nothing else changes, and everyone is told
/// whose turn it is.
pub proof fn law_end_turn_passes_the_turn(s: SessionView)
    requires
        s.wf(),
        s.state is PlayerTurn,
    ensures
        ({
            let ended = s.receive(s.current.unwrap(), ClientMessageView::EndTurn).session;
            let next = s.rotation()[0];
            &&& ended == SessionView { state: ServerState::NextTurn, ..s }
            &&& ended.tick(Seq::empty(), Seq::empty()) == Ok::<_, SessionError>(
                Step {
                    session: after_end_turn(s),
                    actions: seq![
                        ServerActionView::Broadcast(ServerMessageView::PlayerTurn(next)),
                    ],
                },
            )
            &&& after_end_turn(s) == SessionView {
                current: Some(next),
                turn_order: s.turn_order.push(s.current.unwrap()).drop_first(),
                ..s
            }
            &&& after_end_turn(s).rotation() == rotated(s.rotation(), 1)
            &&& after_end_turn(s).wf()
        }),
{
    let current = s.current.unwrap();
    lemma_receive_wf(s, current, ClientMessageView::EndTurn);
    lemma_start_turn_wf(s.receive(current, ClientMessageView::EndTurn).session);
}

/// The turns go round: after `n` turns have been ended, the cycle of turns
/// has moved on by `n` places, so the turn is with the `n`-th player of the
/// cycle; and once every player has had a turn the cycle stands as it stood.
pub proof fn law_round_robin(s: SessionView, n: nat)
    requires
        s.wf(),
        s.state is PlayerTurn,
        n <= s.rotation().len(),
    ensures
        after_end_turns(s, n).wf(),
        after_end_turns(s, n).state is PlayerTurn,
        after_end_turns(s, n).roster == s.roster,
        after_end_turns(s, n).level == s.level,
        after_end_turns(s, n).rotation() == rotated(s.rotation(), n as int),
        n >= 1 ==> after_end_turns(s, n).current == Some(s.rotation()[n - 1]),
        n == s.rotation().len() ==> after_end_turns(s, n) == s,
    decreases n,
{
    let cycle = s.rotation();
    if n > 0 {
        law_round_robin(s, (n - 1) as nat);
        law_end_turn_passes_the_turn(after_end_turns(s, (n - 1) as nat));
        assert(rotated(rotated(cycle, n - 1), 1) =~= rotated(cycle, n as int));
        if n == cycle.len() {
            let after = after_end_turns(s, n);
            assert(rotated(cycle, n as int) =~= cycle);
            assert(after.turn_order =~= after.rotation().drop_last());
            assert(s.turn_order =~= s.rotation().drop_last());
        }
    }
}

/// A change of name changes the name of the sender and nothing else: not
/// the phase, not the turn order, not the current player, nobody's
/// readiness, and nobody's report that the level is loaded.
pub proof fn law_rename_changes_only_the_name(s: SessionView, sender: u64, name: Seq<char>)
    ensures
        ({
            let t = s.receive(sender, ClientMessageView::ChangeName(name)).session;
            &&& t.state == s.state
            &&& t.turn_order == s.turn_order
            &&& t.current == s.current
            &&& t.level == s.level
            &&& t.roster.len() == s.roster.len()
            &&& forall|i: int|
                0 <= i < s.roster.len() ==> (#[trigger] t.roster[i]) == (PlayerView {
                    name: t.roster[i].name,
                    ..s.roster[i]
                })
            &&& forall|i: int|
                0 <= i < s.roster.len() && s.roster[i].id != sender ==> (#[trigger] t.roster[i])
                    == s.roster[i]
        }),
{
}

/// The roster stands in the order of connecting, whatever comes in: a
/// newcomer joins at the end, a player who leaves is taken out, and nothing
/// else moves anyone.
pub proof fn law_roster_keeps_the_order_of_connecting(s: SessionView, event: Event)
    requires
        s.wf(),
    ensures
        s.after(event).ids() == (match event {
            Event::Connected(id, _, _) => if s.has(id) {
                s.ids()
            } else {
                s.ids().push(id)
            },
            Event::Disconnected(id) => without(s.ids(), id),
            _ => s.ids(),
        }),
{
}

/// How far a match has come: the lobby stands at the start, and the turns,
/// begun or ended, at the end.
pub open spec fn progress(state: ServerState) -> int {
    match state {
        ServerState::Lobby => 0,
        ServerState::WaitingForLevelLoad => 1,
        ServerState::SpawnPhase => 2,
        ServerState::PlayerTurn => 3,
        ServerState::NextTurn => 3,
    }
}

/// A match never goes back, and it skips no stage: whatever comes in, it
/// stays where it is or moves on by one stage. Once the turns have begun
/// only they alternate.
pub proof fn law_phases_go_forward(s: SessionView, event: Event)
    ensures
        progress(s.state) <= progress(s.after(event).state) <= progress(s.state) + 1,
{
}

/// Silence changes nothing: where no barrier has opened and no turn has
/// ended, the periodic check leaves the session as it is and has nothing to
/// send.
pub proof fn law_tick_waits(s: SessionView, spawnpoints: Seq<PlayerSpawnpoint>, order: Seq<u64>)
    requires
        !(s.state is Lobby && s.all_ready()),
        !(s.state is WaitingForLevelLoad && s.all_loaded()),
        !(s.state is NextTurn),
    ensures
        s.tick(spawnpoints, order) == Ok::<_, SessionError>(s.unchanged()),
{
}

/// While the level is being loaded a report that it is loaded stands:
/// whatever comes in, a player who has reported and is still connected has
/// reported afterwards too.
pub proof fn law_level_loaded_stands(s: SessionView, event: Event, id: u64)
    requires
        s.wf(),
        s.state is WaitingForLevelLoad,
        s.has(id),
        s.player(id).level_loaded,
        s.after(event).has(id),
    ensures
        s.after(event).player(id).level_loaded,
{
    let t = s.after(event);
    let i = s.index_of(id);
    lemma_after_wf(s, event);
    match event {
        Event::Connected(other, name, entity) => {
            if !s.has(other) {
                // The newcomer stands behind: the player is where it was.
                assert(t.ids()[i] == id);
            }
        },
        Event::Disconnected(other) => {
            if s.has(other) {
                // The others close up, in their order.
                assert(t.ids() =~= s.ids().remove(s.index_of(other)));
            }
        },
        Event::Received(sender, message) => {
            if s.has(sender) {
                assert(t.ids() =~= s.ids());
            }
        },
        _ => {},
    }
}

} // verus!
