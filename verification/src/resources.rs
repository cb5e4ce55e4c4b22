//! The entities that the public API serves: the `Player` roster entry, the
//! payload a caller submits to create one, and the search request shape.
use vstd::prelude::*;

verus! {

/// A player's identifier: the 128 bits of a UUID, packed big-endian.
/// The storage layer assigns one on insert; it is immutable afterwards.
pub type PlayerId = u128;

/// A single roster entry as the API returns it. `id` is `None` only on a
/// value that has not been stored yet.
#[derive(Debug, PartialEq)]
pub struct Player {
    pub id: Option<PlayerId>,
    pub number: i32,
    pub name: String,
    pub username: String,
    pub email: Option<String>,
}

/// The mathematical value of a [`Player`].
pub ghost struct PlayerView {
    pub id: Option<PlayerId>,
    pub number: int,
    pub name: Seq<char>,
    pub username: Seq<char>,
    pub email: Option<Seq<char>>,
}

impl View for Player {
    type V = PlayerView;

    open spec fn view(&self) -> PlayerView {
        PlayerView {
            id: self.id,
            number: self.number as int,
            name: self.name@,
            username: self.username@,
            email: match self.email {
                Some(e) => Some(e@),
                None => None,
            },
        }
    }
}

impl Clone for Player {
    fn clone(&self) -> (res: Self)
        ensures
            res@ == self@,
    {
        Player {
            id: self.id,
            number: self.number,
            name: self.name.clone(),
            username: self.username.clone(),
            email: match &self.email {
                Some(e) => Some(e.clone()),
                None => None,
            },
        }
    }
}

/// What a caller hands to the add-player operation, as the storage layer sees
/// it: a field absent from the submitted record is `None`. `name` and
/// `username` are mandatory; insertion fails when either is absent.
#[derive(Debug)]
pub struct NewPlayer {
    pub number: i32,
    pub name: Option<String>,
    pub username: Option<String>,
    pub email: Option<String>,
}

/// The mathematical value of a [`NewPlayer`].
pub ghost struct NewPlayerView {
    pub number: int,
    pub name: Option<Seq<char>>,
    pub username: Option<Seq<char>>,
    pub email: Option<Seq<char>>,
}

impl View for NewPlayer {
    type V = NewPlayerView;

    open spec fn view(&self) -> NewPlayerView {
        NewPlayerView {
            number: self.number as int,
            name: match self.name {
                Some(n) => Some(n@),
                None => None,
            },
            username: match self.username {
                Some(u) => Some(u@),
                None => None,
            },
            email: match self.email {
                Some(e) => Some(e@),
                None => None,
            },
        }
    }
}

/// A generic search request: the term to look up.
#[derive(Debug)]
pub struct SearchRequest {
    pub term: String,
}

impl View for SearchRequest {
    type V = Seq<char>;

    open spec fn view(&self) -> Seq<char> {
        self.term@
    }
}

/// Relies on `uuid::Uuid::new_v4`, which draws a random version-4 UUID, and
/// `uuid::Uuid::as_u128`, which packs its bytes big-endian. The result is
/// random; all that holds of every outcome is the fixed version nibble (4)
/// and variant bits (0b10) that `new_v4` sets.
#[verifier::external_body]
pub fn generate_player_id() -> (r: PlayerId)
    ensures
        r & 0xF0000000000000000000u128 == 0x40000000000000000000u128,
        r & 0xC000000000000000u128 == 0x8000000000000000u128,
{
    uuid::Uuid::new_v4().as_u128()
}

} // verus!
