use fallout_equestria_tactics::axial_coordinates::AxialCoordinates;
use fallout_equestria_tactics::client::{ClientAction, ClientSession, ClientState};
use fallout_equestria_tactics::common::{OwnedBy, PlayerSpawnpoint, ServerEntity, Username};
use fallout_equestria_tactics::messages::{ClientMessage, ServerMessage};

const OWN: u64 = 42;

fn connected(id: u64, name: &str, entity: u64) -> ServerMessage {
    ServerMessage::PlayerConnected(id, name.to_string(), ServerEntity(entity))
}

#[test]
fn new_client_waits_to_connect() {
    let client = ClientSession::new(OWN);
    assert_eq!(client.state(), ClientState::WaitingToConnect);
    assert_eq!(client.client_id(), OWN);
    assert!(client.players().players.is_empty());
    assert_eq!(client.level_name().0, "");
    assert_eq!(client.spawnpoint(), None);
}

#[test]
fn own_connection_opens_the_lobby() {
    let mut client = ClientSession::new(OWN);
    assert_eq!(
        client.handle_message(connected(7, "Ann", 1)),
        Some(ClientAction::ShowPlayer(ServerEntity(1), "Ann".to_string()))
    );
    assert_eq!(client.state(), ClientState::WaitingToConnect);
    assert_eq!(
        client.handle_message(connected(OWN, "Me", 2)),
        Some(ClientAction::ShowPlayer(ServerEntity(2), "Me".to_string()))
    );
    assert_eq!(client.state(), ClientState::Lobby);
    assert_eq!(client.players().get(&7), Some(&ServerEntity(1)));
    assert_eq!(client.players().get(&OWN), Some(&ServerEntity(2)));
    assert_eq!(client.players().get(&8), None);
}

#[test]
fn disconnected_player_leaves_the_mirror() {
    let mut client = ClientSession::new(OWN);
    client.handle_message(connected(7, "Ann", 1));
    assert_eq!(
        client.handle_message(ServerMessage::PlayerDisconnected(7)),
        Some(ClientAction::Despawn(ServerEntity(1)))
    );
    assert_eq!(client.players().get(&7), None);
    assert_eq!(client.handle_message(ServerMessage::PlayerDisconnected(7)), None);
}

#[test]
fn changed_name_is_shown_for_known_players() {
    let mut client = ClientSession::new(OWN);
    client.handle_message(connected(7, "Ann", 1));
    assert_eq!(
        client.handle_message(ServerMessage::PlayerNameChanged(7, "Anna".to_string())),
        Some(ClientAction::Rename(ServerEntity(1), "Anna".to_string()))
    );
    assert_eq!(client.handle_message(ServerMessage::PlayerNameChanged(8, "Who".to_string())), None);
    assert_eq!(client.state(), ClientState::WaitingToConnect);
}

#[test]
fn load_level_stores_the_level() {
    let mut client = ClientSession::new(OWN);
    client.handle_message(connected(OWN, "Me", 2));
    assert_eq!(client.handle_message(ServerMessage::LoadLevel("arena".to_string())), None);
    assert_eq!(client.state(), ClientState::LoadingLevel);
    assert_eq!(client.level_name().0, "arena");
}

#[test]
fn loaded_assets_are_reported_once() {
    let mut client = ClientSession::new(OWN);
    assert_eq!(client.assets_loaded(), None);
    assert_eq!(client.state(), ClientState::WaitingToConnect);
    client.handle_message(ServerMessage::LoadLevel("arena".to_string()));
    assert_eq!(client.assets_loaded(), Some(ClientMessage::LevelLoaded));
    assert_eq!(client.state(), ClientState::LevelLoaded);
    assert_eq!(client.assets_loaded(), None);
    assert_eq!(client.state(), ClientState::LevelLoaded);
}

#[test]
fn assigned_spawnpoint_opens_the_spawn_phase() {
    let mut client = ClientSession::new(OWN);
    let cell = AxialCoordinates::new(3, -2);
    assert_eq!(
        client.handle_message(ServerMessage::AssignSpawnpoint(cell, 5)),
        Some(ClientAction::LookAt(cell, 5))
    );
    assert_eq!(client.state(), ClientState::SpawnPhase);
    assert_eq!(client.spawnpoint(), Some(PlayerSpawnpoint(cell, 5)));
}

#[test]
fn click_near_the_spawnpoint_asks_for_a_character() {
    let mut client = ClientSession::new(OWN);
    let near = AxialCoordinates::new(10, -7);
    assert_eq!(client.cell_clicked(near, 1), None);
    client.handle_message(ServerMessage::AssignSpawnpoint(AxialCoordinates::new(3, 0), 5));
    // differences: q 7, r 7, s 0
    assert_eq!(client.cell_clicked(near, 1), Some(ClientMessage::TrySpawnCharacter(near, 1)));
    // differences: q 8, r 8, s 0
    assert_eq!(client.cell_clicked(AxialCoordinates::new(11, -8), 1), None);
    // differences: q 7, r 7, s 14
    assert_eq!(client.cell_clicked(AxialCoordinates::new(-4, -7), 1), None);
    assert_eq!(client.cell_clicked(AxialCoordinates::new(10, 7), 1), None);
    client.handle_message(ServerMessage::PlayerTurn(OWN));
    assert_eq!(client.cell_clicked(near, 1), None);
}

#[test]
fn player_turn_switches_between_acting_and_idling() {
    let mut client = ClientSession::new(OWN);
    assert_eq!(client.handle_message(ServerMessage::PlayerTurn(7)), None);
    assert_eq!(client.state(), ClientState::Idling);
    client.handle_message(ServerMessage::PlayerTurn(8));
    assert_eq!(client.state(), ClientState::Idling);
    client.handle_message(ServerMessage::PlayerTurn(OWN));
    assert_eq!(client.state(), ClientState::Acting);
    client.handle_message(ServerMessage::PlayerTurn(OWN));
    assert_eq!(client.state(), ClientState::Acting);
    client.handle_message(ServerMessage::PlayerTurn(7));
    assert_eq!(client.state(), ClientState::Idling);
}

#[test]
fn buttons_speak_in_their_state_only() {
    let mut client = ClientSession::new(OWN);
    assert_eq!(client.ready_pressed(), None);
    assert_eq!(client.end_turn_pressed(), None);
    client.handle_message(connected(OWN, "Me", 2));
    assert_eq!(client.ready_pressed(), Some(ClientMessage::ClientReady));
    assert_eq!(client.end_turn_pressed(), None);
    client.handle_message(ServerMessage::PlayerTurn(7));
    assert_eq!(client.ready_pressed(), None);
    assert_eq!(client.end_turn_pressed(), None);
    client.handle_message(ServerMessage::PlayerTurn(OWN));
    assert_eq!(client.end_turn_pressed(), Some(ClientMessage::EndTurn));
    assert_eq!(client.state(), ClientState::Acting);
}

#[test]
fn spawned_character_is_shown_with_its_owner() {
    let mut client = ClientSession::new(OWN);
    let cell = AxialCoordinates::new(1, 1);
    assert_eq!(
        client.handle_message(ServerMessage::SpawnCharacter(7, ServerEntity(9), cell, 2)),
        Some(ClientAction::ShowCharacter(OwnedBy(7), ServerEntity(9), cell, 2))
    );
    assert_eq!(client.state(), ClientState::WaitingToConnect);
}

#[test]
fn chosen_name_goes_to_the_server() {
    let client = ClientSession::new(OWN);
    assert_eq!(
        client.name_chosen(Username("Velvet".to_string())),
        ClientMessage::ChangeName("Velvet".to_string())
    );
}
