//! Tests for the Player API endpoints against a seeded store.
use player_server::endpoints::{
    add_player, build_id_path, build_search_path, get_player, get_players, player_fetch_response,
    player_insert_response, players_list_response, ApiBody, ApiResponse, ID_PATH, PLAYERS_API,
    SEARCH_API, SEARCH_PATH,
};
use player_server::resources::{NewPlayer, Player, PlayerId};
use player_server::store::PlayerStore;

const NUM_SEED_PLAYER_ROWS: usize = 6;
const SEED_PLAYER_USER_NAME: &str = "kobe";

fn new_player(number: i32, name: &str, username: &str, email: Option<&str>) -> NewPlayer {
    NewPlayer {
        number,
        name: Some(name.to_string()),
        username: Some(username.to_string()),
        email: email.map(|e| e.to_string()),
    }
}

fn seeded_store() -> PlayerStore {
    let seed: [(i32, &str, &str, Option<&str>); 6] = [
        (8, "Kobe Bryant", "kobe", Some("kobe@lakers.com")),
        (34, "Shaquille O'Neal", "shaq", Some("shaq@lakers.com")),
        (32, "Magic Johnson", "magic", None),
        (33, "Kareem Abdul-Jabbar", "cap", None),
        (25, "Eddie Jones", "eddie", None),
        (21, "Michael Cooper", "coop", None),
    ];
    let mut store = PlayerStore::new();
    for (i, (number, name, username, email)) in seed.iter().enumerate() {
        let id = (i + 1) as PlayerId;
        store
            .insert(&new_player(*number, name, username, *email), id)
            .expect("seeding must succeed");
    }
    store
}

#[test]
fn endpoints_build_id_path() {
    let result = build_id_path(PLAYERS_API);
    assert_eq!(result, format!("{}{}", PLAYERS_API, ID_PATH));
}

#[test]
fn endpoints_build_search_path() {
    let result = build_search_path();
    assert_eq!(result, format!("{}{}", SEARCH_API, SEARCH_PATH));
}

/// The seeded store lists exactly its six players, one of them "kobe".
#[test]
fn endpoints_get_players_lists_seeded_rows() {
    let store = seeded_store();
    let resp: ApiResponse = get_players(&store);
    assert_eq!(resp.status, 200);
    match resp.body {
        ApiBody::Players(players) => {
            assert_eq!(players.len(), NUM_SEED_PLAYER_ROWS);
            let hits: Vec<&Player> = players
                .iter()
                .filter(|p| p.username == SEED_PLAYER_USER_NAME)
                .collect();
            assert_eq!(hits.len(), 1);
        }
        _ => panic!("expected a list of players"),
    }
}

/// Fetching a stored id returns that player; an unknown id is a failure.
#[test]
fn endpoints_get_player_by_id() {
    let store = seeded_store();
    let resp = get_player(&store, 3);
    assert_eq!(resp.status, 200);
    match resp.body {
        ApiBody::OnePlayer(p) => {
            assert_eq!(p.id, Some(3));
            assert_eq!(p.number, 32);
            assert_eq!(p.name, "Magic Johnson");
            assert_eq!(p.username, "magic");
            assert_eq!(p.email, None);
        }
        _ => panic!("expected one player"),
    }

    let missing = get_player(&store, 999);
    assert_eq!(missing.status, 500);
    match missing.body {
        ApiBody::ErrorText(t) => assert_eq!(t, "no player found for the requested id"),
        _ => panic!("expected an error body"),
    }
}

/// A valid payload is created: 201, a fresh id, the submitted fields kept,
/// and the player count grows by one.
#[test]
fn endpoints_add_player_creates_row() {
    let mut store = seeded_store();
    let payload = new_player(31, "Kurt Rambis", "rambo", Some("kurt@lakers.com"));
    let resp = add_player(&mut store, &payload);
    assert_eq!(resp.status, 201);
    match resp.body {
        ApiBody::OnePlayer(p) => {
            let id = p.id.expect("a created player carries an id");
            // The id is drawn as a version-4 UUID: version nibble 4,
            // variant bits 0b10.
            assert_eq!(id & 0xF0000000000000000000u128, 0x40000000000000000000u128);
            assert_eq!(id & 0xC000000000000000u128, 0x8000000000000000u128);
            assert_eq!(p.number, 31);
            assert_eq!(p.name, "Kurt Rambis");
            assert_eq!(p.username, "rambo");
            assert_eq!(p.email.as_deref(), Some("kurt@lakers.com"));
        }
        _ => panic!("expected the created player"),
    }
    assert_eq!(store.count(), NUM_SEED_PLAYER_ROWS + 1);
}

/// A payload duplicating a stored username is refused with 500 and the
/// player count is unchanged.
#[test]
fn endpoints_add_player_dupe_username_rejected() {
    let mut store = seeded_store();
    let payload = new_player(31, "Kurt Rambis", SEED_PLAYER_USER_NAME, Some("kurt@lakers.com"));
    let resp = add_player(&mut store, &payload);
    assert_eq!(resp.status, 500);
    match resp.body {
        ApiBody::ErrorText(t) => assert_eq!(t, "player username is already taken"),
        _ => panic!("expected an error body"),
    }
    assert_eq!(store.count(), NUM_SEED_PLAYER_ROWS);
}

/// A payload missing a required field is refused with 500, never 201, and
/// the player count is unchanged.
#[test]
fn endpoints_add_player_missing_data_rejected() {
    let mut store = seeded_store();

    let missing_username = NewPlayer {
        number: 31,
        name: Some("Kurt Rambis".to_string()),
        username: None,
        email: Some("kurt@lakers.com".to_string()),
    };
    let resp = add_player(&mut store, &missing_username);
    assert_eq!(resp.status, 500);
    match resp.body {
        ApiBody::ErrorText(t) => assert_eq!(t, "player username is required"),
        _ => panic!("expected an error body"),
    }

    let missing_name = NewPlayer {
        number: 31,
        name: None,
        username: Some("rambo".to_string()),
        email: None,
    };
    let resp = add_player(&mut store, &missing_name);
    assert_eq!(resp.status, 500);
    match resp.body {
        ApiBody::ErrorText(t) => assert_eq!(t, "player name is required"),
        _ => panic!("expected an error body"),
    }

    assert_eq!(store.count(), NUM_SEED_PLAYER_ROWS);
}

/// Fetching the id a successful add returned yields identical fields.
#[test]
fn endpoints_get_player_after_add_roundtrip() {
    let mut store = seeded_store();
    let payload = new_player(31, "Kurt Rambis", "rambo", Some("kurt@lakers.com"));
    let resp = add_player(&mut store, &payload);
    assert_eq!(resp.status, 201);
    let created = match resp.body {
        ApiBody::OnePlayer(p) => p,
        _ => panic!("expected the created player"),
    };
    let id = created.id.expect("a created player carries an id");

    let fetched = get_player(&store, id);
    assert_eq!(fetched.status, 200);
    match fetched.body {
        ApiBody::OnePlayer(p) => {
            assert_eq!(p.id, Some(id));
            assert_eq!(p.number, created.number);
            assert_eq!(p.name, created.name);
            assert_eq!(p.username, created.username);
            assert_eq!(p.email, created.email);
        }
        _ => panic!("expected one player"),
    }
}

/// The uniform error translation: a storage success maps to its success
/// status, any storage failure maps to 500 carrying the failure's text.
#[test]
fn endpoints_storage_outcome_translation() {
    let listed = players_list_response(Ok(vec![]));
    assert_eq!(listed.status, 200);
    match listed.body {
        ApiBody::Players(ps) => assert!(ps.is_empty()),
        _ => panic!("expected a list of players"),
    }

    let failed_list = players_list_response(Err("connection reset".to_string()));
    assert_eq!(failed_list.status, 500);
    match failed_list.body {
        ApiBody::ErrorText(t) => assert_eq!(t, "connection reset"),
        _ => panic!("expected an error body"),
    }

    let player = Player {
        id: Some(7),
        number: 31,
        name: "Kurt Rambis".to_string(),
        username: "rambo".to_string(),
        email: None,
    };
    let fetched = player_fetch_response(Ok(player));
    assert_eq!(fetched.status, 200);

    let failed_fetch = player_fetch_response(Err("no rows returned".to_string()));
    assert_eq!(failed_fetch.status, 500);

    let inserted = player_insert_response(Ok(Player {
        id: Some(8),
        number: 0,
        name: "Someone".to_string(),
        username: "someone".to_string(),
        email: None,
    }));
    assert_eq!(inserted.status, 201);

    let failed_insert = player_insert_response(Err("unique constraint violated".to_string()));
    assert_eq!(failed_insert.status, 500);
    match failed_insert.body {
        ApiBody::ErrorText(t) => assert_eq!(t, "unique constraint violated"),
        _ => panic!("expected an error body"),
    }
}
