//! The player store: the model of the one `player` table. The storage layer
//! enforces that `name` and `username` are present, that `username` is unique,
//! and that every stored player carries a unique id assigned on insert.
use crate::resources::{NewPlayer, NewPlayerView, Player, PlayerId, PlayerView};
use vstd::prelude::*;

verus! {

/// Why an insertion was refused. Matches the storage rules: both required
/// columns must be present, `username` must not collide, and the id assigned
/// to the new row must not collide.
#[derive(Clone, Copy, Debug, PartialEq, Eq, Structural)]
pub enum StoreError {
    MissingName,
    MissingUsername,
    DuplicateUsername,
    DuplicateId,
}

impl StoreError {
    /// The text a failure response carries for this error.
    pub open spec fn spec_describe(self) -> Seq<char> {
        match self {
            StoreError::MissingName => "player name is required"@,
            StoreError::MissingUsername => "player username is required"@,
            StoreError::DuplicateUsername => "player username is already taken"@,
            StoreError::DuplicateId => "player id is already taken"@,
        }
    }

    /// Renders the error as the text that a failure response carries.
    pub fn describe(&self) -> (r: String)
        ensures
            r@ == self.spec_describe(),
    {
        match self {
            StoreError::MissingName => "player name is required".to_owned(),
            StoreError::MissingUsername => "player username is required".to_owned(),
            StoreError::DuplicateUsername => "player username is already taken".to_owned(),
            StoreError::DuplicateId => "player id is already taken".to_owned(),
        }
    }
}

/// Whether some stored player already carries `id`.
pub open spec fn contains_id(s: Seq<PlayerView>, id: PlayerId) -> bool {
    exists|i: int| 0 <= i < s.len() && (#[trigger] s[i].id) == Some(id)
}

/// Whether some stored player already carries `username`.
pub open spec fn contains_username(s: Seq<PlayerView>, username: Seq<char>) -> bool {
    exists|i: int| 0 <= i < s.len() && (#[trigger] s[i].username) == username
}

/// The first stored player carrying `id`, if any.
pub open spec fn find_by_id(s: Seq<PlayerView>, id: PlayerId) -> Option<PlayerView>
    decreases s.len(),
{
    if s.len() == 0 {
        None
    } else if s[0].id == Some(id) {
        Some(s[0])
    } else {
        find_by_id(s.subrange(1, s.len() as int), id)
    }
}

/// The store's invariant: every player has an id, and no two players share
/// an id or a username.
pub open spec fn store_wf(s: Seq<PlayerView>) -> bool {
    &&& forall|i: int| 0 <= i < s.len() ==> (#[trigger] s[i].id) is Some
    &&& forall|i: int, j: int|
        0 <= i < j < s.len() ==> (#[trigger] s[i].id) != (#[trigger] s[j].id)
    &&& forall|i: int, j: int|
        0 <= i < j < s.len() ==> (#[trigger] s[i].username) != (#[trigger] s[j].username)
}

/// The player that an accepted payload becomes once the store stamps it
/// with `id`.
pub open spec fn created_player(new: NewPlayerView, id: PlayerId) -> PlayerView {
    PlayerView {
        id: Some(id),
        number: new.number,
        name: new.name.unwrap(),
        username: new.username.unwrap(),
        email: new.email,
    }
}

/// The error that inserting `new` under `id` runs into, if any, in the order
/// the store checks: required fields first, then username uniqueness, then id
/// uniqueness.
pub open spec fn insert_error(s: Seq<PlayerView>, new: NewPlayerView, id: PlayerId) -> Option<
    StoreError,
> {
    if new.name is None {
        Some(StoreError::MissingName)
    } else if new.username is None {
        Some(StoreError::MissingUsername)
    } else if contains_username(s, new.username.unwrap()) {
        Some(StoreError::DuplicateUsername)
    } else if contains_id(s, id) {
        Some(StoreError::DuplicateId)
    } else {
        None
    }
}

/// Whether inserting `new` under `id` succeeds.
pub open spec fn insert_accepted(s: Seq<PlayerView>, new: NewPlayerView, id: PlayerId) -> bool {
    insert_error(s, new, id) is None
}

/// The store's contents after an insertion attempt: grown by exactly the
/// created player when accepted, unchanged when refused.
pub open spec fn spec_insert(s: Seq<PlayerView>, new: NewPlayerView, id: PlayerId) -> Seq<
    PlayerView,
> {
    if insert_accepted(s, new, id) {
        s.push(created_player(new, id))
    } else {
        s
    }
}

/// The in-memory player store. It upholds [`store_wf`]: ids and usernames
/// are unique, and every stored player has an id.
pub struct PlayerStore {
    players: Vec<Player>,
}

impl View for PlayerStore {
    type V = Seq<PlayerView>;

    closed spec fn view(&self) -> Seq<PlayerView> {
        self.players@.map_values(|p: Player| p@)
    }
}

impl PlayerStore {
    pub open spec fn wf(&self) -> bool {
        store_wf(self@)
    }

    /// An empty store.
    pub fn new() -> (s: Self)
        ensures
            s@ == Seq::<PlayerView>::empty(),
            s.wf(),
    {
        let s = PlayerStore { players: Vec::new() };
        proof {
            assert(s@ =~= Seq::<PlayerView>::empty());
        }
        s
    }

    /// How many players are stored.
    pub fn count(&self) -> (n: usize)
        ensures
            n == self@.len(),
    {
        self.players.len()
    }

    /// Every stored player, in insertion order.
    pub fn list_players(&self) -> (r: Vec<Player>)
        ensures
            r@.map_values(|p: Player| p@) == self@,
    {
        let mut out: Vec<Player> = Vec::new();
        let n = self.players.len();
        for i in 0..n
            invariant
                n == self.players.len(),
                out@.len() == i,
                forall|j: int| 0 <= j < i ==> (#[trigger] out@[j])@ == self@[j],
        {
            out.push(self.players[i].clone());
        }
        proof {
            assert(out@.map_values(|p: Player| p@) =~= self@);
        }
        out
    }

    /// The stored player carrying `id`, if any.
    pub fn get_player(&self, id: PlayerId) -> (r: Option<Player>)
        ensures
            match r {
                Some(p) => find_by_id(self@, id) == Some(p@),
                None => find_by_id(self@, id) is None,
            },
    {
        let n = self.players.len();
        for i in 0..n
            invariant
                n == self.players.len(),
                forall|j: int| 0 <= j < i ==> (#[trigger] self@[j].id) != Some(id),
        {
            let matched = match self.players[i].id {
                Some(x) => x == id,
                None => false,
            };
            if matched {
                proof {
                    lemma_find_by_id_first_match(self@, id, i as int);
                }
                return Some(self.players[i].clone());
            }
        }
        proof {
            lemma_find_by_id_no_match(self@, id);
        }
        None
    }

    /// Inserts `new` as a player stamped with `id`: the model of the add
    /// operation, taken for every possible generated id. Refuses a payload
    /// missing `name` or `username`, a duplicate username, and a duplicate
    /// id; on refusal the store is unchanged.
    pub fn insert(&mut self, new: &NewPlayer, id: PlayerId) -> (r: Result<Player, StoreError>)
        requires
            old(self).wf(),
        ensures
            final(self).wf(),
            final(self)@ == spec_insert(old(self)@, new@, id),
            (r is Ok) <==> insert_accepted(old(self)@, new@, id),
            r matches Ok(p) ==> p@ == created_player(new@, id),
            r matches Err(e) ==> insert_error(old(self)@, new@, id) == Some(e),
    {
        let name = match &new.name {
            Some(n) => n,
            None => { return Err(StoreError::MissingName) },
        };
        let username = match &new.username {
            Some(u) => u,
            None => { return Err(StoreError::MissingUsername) },
        };
        let n = self.players.len();
        for i in 0..n
            invariant
                self.players == old(self).players,
                old(self).wf(),
                n == self.players.len(),
                new.name is Some,
                new.username matches Some(u) && u@ == username@,
                forall|j: int| 0 <= j < i ==> (#[trigger] self@[j].username) != username@,
        {
            if self.players[i].username.eq(username) {
                proof {
                    assert(old(self)@[i as int].username == username@);
                    assert(contains_username(old(self)@, username@));
                }
                return Err(StoreError::DuplicateUsername);
            }
        }
        for i in 0..n
            invariant
                self.players == old(self).players,
                old(self).wf(),
                n == self.players.len(),
                new.name is Some,
                new.username matches Some(u) && u@ == username@,
                !contains_username(old(self)@, username@),
                forall|j: int| 0 <= j < i ==> (#[trigger] self@[j].id) != Some(id),
        {
            let id_taken = match self.players[i].id {
                Some(x) => x == id,
                None => false,
            };
            if id_taken {
                proof {
                    assert(old(self)@[i as int].id == Some(id));
                    assert(contains_id(old(self)@, id));
                }
                return Err(StoreError::DuplicateId);
            }
        }
        let created = Player {
            id: Some(id),
            number: new.number,
            name: name.clone(),
            username: username.clone(),
            email: match &new.email {
                Some(e) => Some(e.clone()),
                None => None,
            },
        };
        let returned = created.clone();
        proof {
            assert(!contains_username(old(self)@, username@));
            assert(!contains_id(old(self)@, id));
            assert(created@ == created_player(new@, id));
        }
        self.players.push(created);
        proof {
            assert(self@ =~= old(self)@.push(created_player(new@, id)));
        }
        Ok(returned)
    }
}

/// If no player before position `i` carries `id` and the player at `i` does,
/// the lookup finds exactly that player.
proof fn lemma_find_by_id_first_match(s: Seq<PlayerView>, id: PlayerId, i: int)
    requires
        0 <= i < s.len(),
        forall|j: int| 0 <= j < i ==> (#[trigger] s[j].id) != Some(id),
        s[i].id == Some(id),
    ensures
        find_by_id(s, id) == Some(s[i]),
    decreases i,
{
    if i == 0 {
    } else {
        let rest = s.subrange(1, s.len() as int);
        assert(rest[i - 1] == s[i]);
        lemma_find_by_id_first_match(rest, id, i - 1);
    }
}

/// If no player at all carries `id`, the lookup finds none.
proof fn lemma_find_by_id_no_match(s: Seq<PlayerView>, id: PlayerId)
    requires
        forall|j: int| 0 <= j < s.len() ==> (#[trigger] s[j].id) != Some(id),
    ensures
        find_by_id(s, id) is None,
    decreases s.len(),
{
    if s.len() == 0 {
    } else {
        lemma_find_by_id_no_match(s.subrange(1, s.len() as int), id);
    }
}

/// Finding a player with `id` is the same as some player carrying `id`.
pub proof fn lemma_find_by_id_contains(s: Seq<PlayerView>, id: PlayerId)
    ensures
        (find_by_id(s, id) is Some) <==> contains_id(s, id),
        find_by_id(s, id) matches Some(p) ==> p.id == Some(id) && s.contains(p),
    decreases s.len(),
{
    if s.len() == 0 {
    } else if s[0].id == Some(id) {
    } else {
        let rest = s.subrange(1, s.len() as int);
        lemma_find_by_id_contains(rest, id);
        if contains_id(rest, id) {
            let i = choose|i: int| 0 <= i < rest.len() && (#[trigger] rest[i].id) == Some(id);
            assert(s[i + 1].id == Some(id));
        }
        if contains_id(s, id) {
            let i = choose|i: int| 0 <= i < s.len() && (#[trigger] s[i].id) == Some(id);
            assert(rest[i - 1].id == Some(id));
        }
        match find_by_id(rest, id) {
            Some(p) => {
                assert(rest.contains(p));
                let i = choose|i: int| 0 <= i < rest.len() && rest[i] == p;
                assert(s[i + 1] == p);
            },
            None => {},
        }
    }
}

/// Appending a player with a fresh id leaves it findable under that id.
proof fn lemma_find_by_id_push_fresh(s: Seq<PlayerView>, p: PlayerView, id: PlayerId)
    requires
        !contains_id(s, id),
        p.id == Some(id),
    ensures
        find_by_id(s.push(p), id) == Some(p),
    decreases s.len(),
{
    if s.len() == 0 {
        assert(s.push(p)[0] == p);
    } else {
        assert(s[0].id != Some(id));
        assert(s.push(p)[0] == s[0]);
        let rest = s.subrange(1, s.len() as int);
        assert(!contains_id(rest, id)) by {
            if contains_id(rest, id) {
                let i = choose|i: int| 0 <= i < rest.len() && (#[trigger] rest[i].id) == Some(id);
                assert(s[i + 1].id == Some(id));
            }
        }
        assert(s.push(p).subrange(1, s.push(p).len() as int) =~= rest.push(p));
        lemma_find_by_id_push_fresh(rest, p, id);
    }
}

/// A payload carrying both required fields and a username not yet stored is
/// accepted under every id not yet issued: creation is owed to each valid
/// payload whenever the drawn id is fresh.
pub proof fn law_valid_payload_accepted(s: Seq<PlayerView>, new: NewPlayerView, id: PlayerId)
    requires
        new.name is Some,
        new.username is Some,
        !contains_username(s, new.username.unwrap()),
        !contains_id(s, id),
    ensures
        insert_accepted(s, new, id),
{
}

/// Every player that the store accepts is stamped with an id that no earlier
/// player carries, so each successful add yields a fresh, non-null id, and
/// the store grows by exactly that player.
pub proof fn law_add_player_fresh_id(s: Seq<PlayerView>, new: NewPlayerView, id: PlayerId)
    requires
        insert_accepted(s, new, id),
    ensures
        !contains_id(s, id),
        find_by_id(s, id) is None,
        created_player(new, id).id == Some(id),
        spec_insert(s, new, id) == s.push(created_player(new, id)),
{
    lemma_find_by_id_contains(s, id);
}

/// A payload missing `name` or `username` is never accepted: the insertion
/// fails and the store is unchanged.
pub proof fn law_missing_field_rejected(s: Seq<PlayerView>, new: NewPlayerView, id: PlayerId)
    requires
        new.name is None || new.username is None,
    ensures
        !insert_accepted(s, new, id),
        spec_insert(s, new, id) == s,
        insert_error(s, new, id) == if new.name is None {
            Some(StoreError::MissingName)
        } else {
            Some(StoreError::MissingUsername)
        },
{
}

/// A payload whose `username` duplicates a stored player is never accepted:
/// the insertion fails and the store, hence its player count, is unchanged.
pub proof fn law_duplicate_username_rejected(s: Seq<PlayerView>, new: NewPlayerView, id: PlayerId)
    requires
        new.name is Some,
        new.username is Some,
        contains_username(s, new.username.unwrap()),
    ensures
        !insert_accepted(s, new, id),
        spec_insert(s, new, id) == s,
        spec_insert(s, new, id).len() == s.len(),
        insert_error(s, new, id) == Some(StoreError::DuplicateUsername),
{
}

/// Looking up the id that a successful add assigned returns a player with
/// exactly the submitted `number`, `name`, `username` and `email`.
pub proof fn law_get_player_after_add(s: Seq<PlayerView>, new: NewPlayerView, id: PlayerId)
    requires
        insert_accepted(s, new, id),
    ensures
        find_by_id(spec_insert(s, new, id), id) == Some(created_player(new, id)),
        created_player(new, id).number == new.number,
        created_player(new, id).name == new.name.unwrap(),
        created_player(new, id).username == new.username.unwrap(),
        created_player(new, id).email == new.email,
{
    lemma_find_by_id_push_fresh(s, created_player(new, id), id);
}

/// The player count grows by exactly one on each accepted insertion and by
/// zero on each refused one.
pub proof fn law_player_count_after_add(s: Seq<PlayerView>, new: NewPlayerView, id: PlayerId)
    ensures
        insert_accepted(s, new, id) ==> spec_insert(s, new, id).len() == s.len() + 1,
        !insert_accepted(s, new, id) ==> spec_insert(s, new, id) == s,
{
}

} // verus!
