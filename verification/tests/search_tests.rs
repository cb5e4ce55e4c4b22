//! Tests for the search index: id-keyed upserts and substring search.
use player_server::endpoints::{search_players, ApiBody};
use player_server::resources::Player;
use player_server::search::{SearchIndex, PLAYER_SEARCH_INDEX};

fn player(id: u128, number: i32, name: &str, username: &str, email: Option<&str>) -> Player {
    Player {
        id: Some(id),
        number,
        name: name.to_string(),
        username: username.to_string(),
        email: email.map(|e| e.to_string()),
    }
}

fn seeded_index() -> SearchIndex {
    let mut index = SearchIndex::new();
    index.upsert(&player(1, 8, "Kobe Bryant", "kobe", Some("kobe@lakers.com")));
    index.upsert(&player(2, 34, "Shaquille O'Neal", "shaq", Some("shaq@lakers.com")));
    index.upsert(&player(3, 32, "Magic Johnson", "magic", None));
    index.upsert(&player(4, 33, "Kareem Abdul-Jabbar", "cap", None));
    index.upsert(&player(5, 25, "Eddie Jones", "eddie", None));
    index.upsert(&player(6, 21, "Michael Cooper", "coop", None));
    index
}

#[test]
fn search_index_name_constant() {
    assert_eq!(PLAYER_SEARCH_INDEX, "players");
}

/// Against the seeded index, searching "kobe" hits exactly one player,
/// whose username is "kobe".
#[test]
fn search_player_search_seeded_index() {
    let index = seeded_index();
    let players = index.search("kobe");
    assert_eq!(players.len(), 1);
    assert_eq!(players.first().unwrap().username, "kobe");
}

/// Writing a player indexes it under its id, and writing the same id again
/// replaces the document instead of adding one.
#[test]
fn search_index_player_upserts_by_id() {
    let mut index = SearchIndex::new();
    let rambis = player(
        0xa1a2a3a4b1b2c1c2d1d2d3d4d5d6d7d8,
        31,
        "Kurt Rambis",
        "rambo",
        Some("kurt@lakers.com"),
    );
    index.upsert(&rambis);

    let players = index.search("rambo");
    assert_eq!(players.len(), 1);
    assert_eq!(players.first().unwrap().username, "rambo");

    // The same id written again replaces the document.
    let renumbered = player(
        0xa1a2a3a4b1b2c1c2d1d2d3d4d5d6d7d8,
        4,
        "Kurt Rambis",
        "rambo",
        Some("kurt@lakers.com"),
    );
    index.upsert(&renumbered);
    assert_eq!(index.count(), 1);
    let players = index.search("rambo");
    assert_eq!(players.len(), 1);
    assert_eq!(players.first().unwrap().number, 4);
}

/// A term without hits yields an empty list, a mid-word term matches by
/// containment, and a name is searched as well as a username.
#[test]
fn search_matching_rules() {
    let index = seeded_index();

    assert!(index.search("nowhere").is_empty());

    // "ap" occurs in the username "cap" and the name "Shaquille" does not
    // contain it; "Jo" occurs in the names "Magic Johnson" and
    // "Eddie Jones".
    let ap_hits = index.search("ap");
    assert_eq!(ap_hits.len(), 1);
    assert_eq!(ap_hits[0].username, "cap");

    let jo_hits = index.search("Jo");
    assert_eq!(jo_hits.len(), 2);
    assert_eq!(jo_hits[0].username, "magic");
    assert_eq!(jo_hits[1].username, "eddie");

    // The empty term hits every document.
    assert_eq!(index.search("").len(), 6);
}

/// The search endpoint always answers 200 with the hits.
#[test]
fn search_players_endpoint_returns_hits() {
    let index = seeded_index();
    let resp = search_players(&index, "kobe");
    assert_eq!(resp.status, 200);
    match resp.body {
        ApiBody::Players(players) => {
            assert_eq!(players.len(), 1);
            assert_eq!(players[0].username, "kobe");
        }
        _ => panic!("expected a list of players"),
    }
}
