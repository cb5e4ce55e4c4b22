//! The app server's composition layer: the route table, how a request's
//! method and path resolve to a route — any unmatched path falls back to the
//! single-page application's bootstrap file — and the lifecycle the server
//! walks from startup to graceful shutdown.
use crate::endpoints::{build_id_path, build_search_path, PLAYERS_API};
use vstd::prelude::*;

verus! {

/// The request methods the route table distinguishes.
#[derive(Clone, Copy, Debug, PartialEq, Eq, Structural)]
pub enum Method {
    Get,
    Put,
    Post,
    Other,
}

/// Where a request is routed.
#[derive(Debug, PartialEq)]
pub enum Route {
    /// `GET /api/players`: list every player.
    ListPlayers,
    /// `GET /api/players/{id}`: fetch one player; carries the id segment.
    GetPlayerById(String),
    /// `PUT /api/players`: create a player.
    AddPlayer,
    /// `POST /api/search/{term}`: search players; carries the term segment.
    SearchPlayers(String),
    /// `/other-index`: the one static page served outside the application.
    OtherIndex,
    /// Everything else: a static asset, or the single-page application's
    /// bootstrap file when no asset matches.
    SpaFallback,
}

/// The mathematical value of a [`Route`].
pub ghost enum RouteView {
    ListPlayers,
    GetPlayerById(Seq<char>),
    AddPlayer,
    SearchPlayers(Seq<char>),
    OtherIndex,
    SpaFallback,
}

impl View for Route {
    type V = RouteView;

    open spec fn view(&self) -> RouteView {
        match self {
            Route::ListPlayers => RouteView::ListPlayers,
            Route::GetPlayerById(id) => RouteView::GetPlayerById(id@),
            Route::AddPlayer => RouteView::AddPlayer,
            Route::SearchPlayers(term) => RouteView::SearchPlayers(term@),
            Route::OtherIndex => RouteView::OtherIndex,
            Route::SpaFallback => RouteView::SpaFallback,
        }
    }
}

/// Whether `p` extends `pre` by exactly one non-empty path segment: the
/// shape a capture route such as `/api/players/:id` accepts.
pub open spec fn captures_one_segment(p: Seq<char>, pre: Seq<char>) -> bool {
    &&& p.len() > pre.len()
    &&& p.subrange(0, pre.len() as int) == pre
    &&& forall|i: int| pre.len() <= i < p.len() ==> p[i] != '/'
}

/// How a request resolves against the route table, in registration order:
/// the four API routes, then the static page, then the fallback that hands
/// any other path to the single-page application.
pub open spec fn spec_match_route(m: Method, p: Seq<char>) -> RouteView {
    if m == Method::Get && p == "/api/players"@ {
        RouteView::ListPlayers
    } else if m == Method::Get && captures_one_segment(p, "/api/players/"@) {
        RouteView::GetPlayerById(p.subrange("/api/players/"@.len() as int, p.len() as int))
    } else if m == Method::Put && p == "/api/players"@ {
        RouteView::AddPlayer
    } else if m == Method::Post && captures_one_segment(p, "/api/search/"@) {
        RouteView::SearchPlayers(p.subrange("/api/search/"@.len() as int, p.len() as int))
    } else if p == "/other-index"@ {
        RouteView::OtherIndex
    } else {
        RouteView::SpaFallback
    }
}

/// Whether two strings hold the same characters.
fn str_eq(a: &str, b: &str) -> (r: bool)
    ensures
        r == (a@ == b@),
{
    let sa = a.to_owned();
    let sb = b.to_owned();
    sa.eq(&sb)
}

/// The single segment that `path` appends to `prefix`, when `path` is
/// `prefix` followed by one non-empty segment without a separator.
fn capture_after(path: &str, prefix: &str) -> (r: Option<String>)
    ensures
        r matches Some(rest) ==> captures_one_segment(path@, prefix@) && rest@ == path@.subrange(
            prefix@.len() as int,
            path@.len() as int,
        ),
        r is None ==> !captures_one_segment(path@, prefix@),
{
    let pl = path.unicode_len();
    let fl = prefix.unicode_len();
    if pl <= fl {
        return None;
    }
    let head = path.substring_char(0, fl);
    if !str_eq(head, prefix) {
        return None;
    }
    for i in fl..pl
        invariant
            fl < pl,
            pl == path@.len(),
            fl == prefix@.len(),
            path@.subrange(0, fl as int) == prefix@,
            forall|j: int| fl <= j < i ==> path@[j] != '/',
    {
        if path.get_char(i) == '/' {
            return None;
        }
    }
    Some(path.substring_char(fl, pl).to_owned())
}

/// Resolves a request's method and path to a route, exactly as
/// [`spec_match_route`] reads the table.
pub fn match_route(method: Method, path: &str) -> (r: Route)
    ensures
        r@ == spec_match_route(method, path@),
{
    match method {
        Method::Get => {
            if str_eq(path, PLAYERS_API) {
                return Route::ListPlayers;
            }
            if let Some(id) = capture_after(path, "/api/players/") {
                return Route::GetPlayerById(id);
            }
        },
        Method::Put => {
            if str_eq(path, PLAYERS_API) {
                return Route::AddPlayer;
            }
        },
        Method::Post => {
            if let Some(term) = capture_after(path, "/api/search/") {
                return Route::SearchPlayers(term);
            }
        },
        Method::Other => {},
    }
    if str_eq(path, "/other-index") {
        return Route::OtherIndex;
    }
    Route::SpaFallback
}

/// One route registration: a method and the pattern it serves.
pub struct RouteBinding {
    pub method: Method,
    pub pattern: String,
}

/// The assembled server: the API route table in registration order, and the
/// request-pipeline features applied uniformly to every route.
pub struct Router {
    pub routes: Vec<RouteBinding>,
    pub response_compression: bool,
    pub request_decompression: bool,
    pub request_tracing: bool,
    pub shutdown_timeout_secs: u32,
}

/// Builds the route table: list, fetch-by-id, create, and search, in that
/// order, with compression, decompression and tracing applied to all of
/// them, and the graceful-shutdown timeout taken from configuration.
pub fn init_router(shutdown_timeout_secs: u32) -> (r: Router)
    ensures
        r.routes@.len() == 4,
        r.routes@[0].method == Method::Get && r.routes@[0].pattern@ == "/api/players"@,
        r.routes@[1].method == Method::Get && r.routes@[1].pattern@ == "/api/players"@ + "/:id"@,
        r.routes@[2].method == Method::Put && r.routes@[2].pattern@ == "/api/players"@,
        r.routes@[3].method == Method::Post && r.routes@[3].pattern@ == "/api/search"@
            + "/:term"@,
        r.response_compression,
        r.request_decompression,
        r.request_tracing,
        r.shutdown_timeout_secs == shutdown_timeout_secs,
{
    let mut routes: Vec<RouteBinding> = Vec::new();
    routes.push(RouteBinding { method: Method::Get, pattern: PLAYERS_API.to_owned() });
    routes.push(RouteBinding { method: Method::Get, pattern: build_id_path(PLAYERS_API) });
    routes.push(RouteBinding { method: Method::Put, pattern: PLAYERS_API.to_owned() });
    routes.push(RouteBinding { method: Method::Post, pattern: build_search_path() });
    Router {
        routes,
        response_compression: true,
        request_decompression: true,
        request_tracing: true,
        shutdown_timeout_secs,
    }
}

/// The phases the server walks: routes are registered, the listener is
/// bound, and a shutdown signal starts the drain that ends the process.
#[derive(Clone, Copy, Debug, PartialEq, Eq, Structural)]
pub enum ServerPhase {
    Uninitialized,
    RoutesRegistered,
    Listening,
    Draining,
    Stopped,
}

/// What drives the lifecycle: registering the routes, binding the listener,
/// the shutdown signal, and the end of the drain window — whether because
/// in-flight requests finished or because the timeout elapsed.
#[derive(Clone, Copy, Debug, PartialEq, Eq, Structural)]
pub enum ServerEvent {
    RegisterRoutes,
    BindListener,
    ShutdownSignal,
    DrainFinished,
}

/// The lifecycle's transition relation. An event that does not apply to the
/// current phase leaves it unchanged; a failure to bind is fatal to the
/// process and is no transition.
pub open spec fn spec_server_step(phase: ServerPhase, event: ServerEvent) -> ServerPhase {
    match (phase, event) {
        (ServerPhase::Uninitialized, ServerEvent::RegisterRoutes) => ServerPhase::RoutesRegistered,
        (ServerPhase::RoutesRegistered, ServerEvent::BindListener) => ServerPhase::Listening,
        (ServerPhase::Listening, ServerEvent::ShutdownSignal) => ServerPhase::Draining,
        (ServerPhase::Draining, ServerEvent::DrainFinished) => ServerPhase::Stopped,
        _ => phase,
    }
}

/// Advances the lifecycle by one event, exactly as [`spec_server_step`]
/// says.
pub fn server_step(phase: ServerPhase, event: ServerEvent) -> (next: ServerPhase)
    ensures
        next == spec_server_step(phase, event),
{
    match (phase, event) {
        (ServerPhase::Uninitialized, ServerEvent::RegisterRoutes) => ServerPhase::RoutesRegistered,
        (ServerPhase::RoutesRegistered, ServerEvent::BindListener) => ServerPhase::Listening,
        (ServerPhase::Listening, ServerEvent::ShutdownSignal) => ServerPhase::Draining,
        (ServerPhase::Draining, ServerEvent::DrainFinished) => ServerPhase::Stopped,
        (p, _) => p,
    }
}

/// Stopped is terminal: no event moves the server out of it.
pub proof fn lemma_stopped_is_terminal(event: ServerEvent)
    ensures
        spec_server_step(ServerPhase::Stopped, event) == ServerPhase::Stopped,
{
}

} // verus!
