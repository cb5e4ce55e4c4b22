//! The public API endpoints. Each handler is a function from the request's
//! values and the storage state to the response it owes: 200 with the data,
//! 201 with the created player, or 500 carrying the failure's text —
//! the uniform error-translation policy of this API.
use crate::resources::{generate_player_id, NewPlayer, Player, PlayerId, PlayerView};
use crate::search::{search_matches, SearchIndex};
use crate::store::{
    contains_username, created_player, find_by_id, insert_accepted, insert_error, spec_insert,
    PlayerStore, StoreError,
};
use crate::{STATUS_CREATED, STATUS_INTERNAL_SERVER_ERROR, STATUS_OK};
use vstd::prelude::*;
use vstd::string::StringExecFns;

verus! {

/// Base path of the Player API.
pub const PLAYERS_API: &'static str = "/api/players";

/// The trailing capture segment of a fetch-by-id route.
pub const ID_PATH: &'static str = "/:id";

/// Base path of the Search API.
pub const SEARCH_API: &'static str = "/api/search";

/// The trailing capture segment of a search route.
pub const SEARCH_PATH: &'static str = "/:term";

/// Returns the path for retrieving one resource by id under the given base
/// path.
pub fn build_id_path(resource_base_path: &str) -> (r: String)
    ensures
        r@ == resource_base_path@ + ID_PATH@,
{
    let mut r = resource_base_path.to_owned();
    r.append(ID_PATH);
    r
}

/// Returns the path for searching by term.
pub fn build_search_path() -> (r: String)
    ensures
        r@ == SEARCH_API@ + SEARCH_PATH@,
{
    let mut r = SEARCH_API.to_owned();
    r.append(SEARCH_PATH);
    r
}

/// What a response carries: a list of players, one player, or the text of
/// the failure it reports.
pub enum ApiBody {
    Players(Vec<Player>),
    OnePlayer(Player),
    ErrorText(String),
}

/// The mathematical value of an [`ApiBody`].
pub ghost enum ApiBodyView {
    Players(Seq<PlayerView>),
    OnePlayer(PlayerView),
    ErrorText(Seq<char>),
}

impl View for ApiBody {
    type V = ApiBodyView;

    open spec fn view(&self) -> ApiBodyView {
        match self {
            ApiBody::Players(ps) => ApiBodyView::Players(ps@.map_values(|p: Player| p@)),
            ApiBody::OnePlayer(p) => ApiBodyView::OnePlayer(p@),
            ApiBody::ErrorText(t) => ApiBodyView::ErrorText(t@),
        }
    }
}

/// A response of the Player API: a status code and a body.
pub struct ApiResponse {
    pub status: u16,
    pub body: ApiBody,
}

/// The mathematical value of an [`ApiResponse`].
pub ghost struct ApiResponseView {
    pub status: u16,
    pub body: ApiBodyView,
}

impl View for ApiResponse {
    type V = ApiResponseView;

    open spec fn view(&self) -> ApiResponseView {
        ApiResponseView { status: self.status, body: self.body@ }
    }
}

/// The text of the failure that a fetch of an unknown player id reports.
pub open spec fn player_not_found_text() -> Seq<char> {
    "no player found for the requested id"@
}

/// Returns all players: 200 with every stored player.
pub fn get_players(store: &PlayerStore) -> (r: ApiResponse)
    ensures
        r@.status == STATUS_OK,
        r@.body == ApiBodyView::Players(store@),
{
    ApiResponse { status: STATUS_OK, body: ApiBody::Players(store.list_players()) }
}

/// Returns the player carrying the requested id: 200 with the player when
/// it is stored, 500 with the failure's text when it is not. The API does
/// not distinguish not-found from other storage failures.
pub fn get_player(store: &PlayerStore, id: PlayerId) -> (r: ApiResponse)
    ensures
        find_by_id(store@, id) matches Some(p) ==> r@ == (ApiResponseView {
            status: STATUS_OK,
            body: ApiBodyView::OnePlayer(p),
        }),
        find_by_id(store@, id) is None ==> r@ == (ApiResponseView {
            status: STATUS_INTERNAL_SERVER_ERROR,
            body: ApiBodyView::ErrorText(player_not_found_text()),
        }),
{
    match store.get_player(id) {
        Some(p) => ApiResponse { status: STATUS_OK, body: ApiBody::OnePlayer(p) },
        None => ApiResponse {
            status: STATUS_INTERNAL_SERVER_ERROR,
            body: ApiBody::ErrorText("no player found for the requested id".to_owned()),
        },
    }
}

/// Creates a new player: the store stamps the payload with a freshly drawn
/// id. Returns 201 with the stored player — its id set — on success, and
/// 500 with the failure's text when a required field is missing, the
/// username collides, or the drawn id collides; on failure the store is
/// unchanged.
pub fn add_player(store: &mut PlayerStore, new: &NewPlayer) -> (r: ApiResponse)
    requires
        old(store).wf(),
    ensures
        final(store).wf(),
        r@.status == STATUS_CREATED || r@.status == STATUS_INTERNAL_SERVER_ERROR,
        r@.status == STATUS_CREATED ==> exists|id: PlayerId|
            insert_accepted(old(store)@, new@, id) && final(store)@ == #[trigger] spec_insert(
                old(store)@,
                new@,
                id,
            ) && r@.body == ApiBodyView::OnePlayer(created_player(new@, id)),
        r@.status == STATUS_INTERNAL_SERVER_ERROR ==> final(store)@ == old(store)@ && exists|
            id: PlayerId,
        |
            {
                &&& #[trigger] insert_error(old(store)@, new@, id) is Some
                &&& r@.body == ApiBodyView::ErrorText(
                    insert_error(old(store)@, new@, id).unwrap().spec_describe(),
                )
            },
        new@.name is None ==> r@.status == STATUS_INTERNAL_SERVER_ERROR && r@.body
            == ApiBodyView::ErrorText(StoreError::MissingName.spec_describe()),
        new@.name is Some && new@.username is None ==> r@.status == STATUS_INTERNAL_SERVER_ERROR
            && r@.body == ApiBodyView::ErrorText(StoreError::MissingUsername.spec_describe()),
        new@.name is Some && new@.username is Some && contains_username(
            old(store)@,
            new@.username.unwrap(),
        ) ==> r@.status == STATUS_INTERNAL_SERVER_ERROR && r@.body == ApiBodyView::ErrorText(
            StoreError::DuplicateUsername.spec_describe(),
        ),
        new@.name is Some && new@.username is Some && !contains_username(
            old(store)@,
            new@.username.unwrap(),
        ) ==> r@.status == STATUS_CREATED || r@.body == ApiBodyView::ErrorText(
            StoreError::DuplicateId.spec_describe(),
        ),
{
    let id = generate_player_id();
    match store.insert(new, id) {
        Ok(p) => {
            proof {
                assert(insert_accepted(old(store)@, new@, id) && store@ == spec_insert(
                    old(store)@,
                    new@,
                    id,
                ));
            }
            ApiResponse { status: STATUS_CREATED, body: ApiBody::OnePlayer(p) }
        },
        Err(e) => {
            proof {
                assert(insert_error(old(store)@, new@, id) is Some);
            }
            ApiResponse {
                status: STATUS_INTERNAL_SERVER_ERROR,
                body: ApiBody::ErrorText(e.describe()),
            }
        },
    }
}

/// Searches the player index: 200 with every hit, possibly none. A search
/// failure is never masked by a fallback to primary storage.
pub fn search_players(index: &SearchIndex, term: &str) -> (r: ApiResponse)
    ensures
        r@.status == STATUS_OK,
        r@.body == ApiBodyView::Players(
            index@.filter(|p: PlayerView| search_matches(p, term@)),
        ),
{
    ApiResponse { status: STATUS_OK, body: ApiBody::Players(index.search(term)) }
}

/// Translates the outcome of listing players in primary storage into the
/// response: 200 with the rows, or 500 with the failure's text.
pub fn players_list_response(result: Result<Vec<Player>, String>) -> (r: ApiResponse)
    ensures
        result matches Ok(ps) ==> r@ == (ApiResponseView {
            status: STATUS_OK,
            body: ApiBodyView::Players(ps@.map_values(|p: Player| p@)),
        }),
        result matches Err(m) ==> r@ == (ApiResponseView {
            status: STATUS_INTERNAL_SERVER_ERROR,
            body: ApiBodyView::ErrorText(m@),
        }),
{
    match result {
        Ok(ps) => ApiResponse { status: STATUS_OK, body: ApiBody::Players(ps) },
        Err(m) => ApiResponse {
            status: STATUS_INTERNAL_SERVER_ERROR,
            body: ApiBody::ErrorText(m),
        },
    }
}

/// Translates the outcome of fetching one player from primary storage into
/// the response: 200 with the player, or 500 with the failure's text.
pub fn player_fetch_response(result: Result<Player, String>) -> (r: ApiResponse)
    ensures
        result matches Ok(p) ==> r@ == (ApiResponseView {
            status: STATUS_OK,
            body: ApiBodyView::OnePlayer(p@),
        }),
        result matches Err(m) ==> r@ == (ApiResponseView {
            status: STATUS_INTERNAL_SERVER_ERROR,
            body: ApiBodyView::ErrorText(m@),
        }),
{
    match result {
        Ok(p) => ApiResponse { status: STATUS_OK, body: ApiBody::OnePlayer(p) },
        Err(m) => ApiResponse {
            status: STATUS_INTERNAL_SERVER_ERROR,
            body: ApiBody::ErrorText(m),
        },
    }
}

/// Translates the outcome of inserting a player into primary storage into
/// the response: 201 with the stored player, or 500 with the failure's text.
pub fn player_insert_response(result: Result<Player, String>) -> (r: ApiResponse)
    ensures
        result matches Ok(p) ==> r@ == (ApiResponseView {
            status: STATUS_CREATED,
            body: ApiBodyView::OnePlayer(p@),
        }),
        result matches Err(m) ==> r@ == (ApiResponseView {
            status: STATUS_INTERNAL_SERVER_ERROR,
            body: ApiBodyView::ErrorText(m@),
        }),
{
    match result {
        Ok(p) => ApiResponse { status: STATUS_CREATED, body: ApiBody::OnePlayer(p) },
        Err(m) => ApiResponse {
            status: STATUS_INTERNAL_SERVER_ERROR,
            body: ApiBody::ErrorText(m),
        },
    }
}

} // verus!
