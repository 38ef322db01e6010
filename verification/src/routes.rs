//! The routes of the server.

use vstd::prelude::*;
use crate::message::Method;

verus! {

/// What a route leads to.
#[derive(Clone, Copy, Debug, PartialEq, Eq, Structural)]
pub enum Endpoint {
    Generate,
    ChatCompletions,
    Completions,
    Liveness,
    Readiness,
    Health,
    HealthGenerate,
    Models,
    ModelInfo,
    ServerInfo,
    AddWorker,
    RemoveWorker,
    ListWorkers,
    FlushCache,
    Loads,
}

/// A path, the method it takes, and what it leads to.
#[derive(Clone, Copy, Debug)]
pub struct Route {
    pub path: &'static str,
    pub method: Method,
    pub endpoint: Endpoint,
}

/// The contents of a [`Route`].
pub struct RouteView {
    pub path: Seq<char>,
    pub method: Method,
    pub endpoint: Endpoint,
}

impl View for Route {
    type V = RouteView;

    open spec fn view(&self) -> RouteView {
        RouteView { path: self.path@, method: self.method, endpoint: self.endpoint }
    }
}

/// Whether a route leads from a path, by a method, to an endpoint.
pub open spec fn leads(route: Route, path: Seq<char>, method: Method, endpoint: Endpoint) -> bool {
    route.path@ == path && route.method == method && route.endpoint == endpoint
}

/// The contents of a table of routes.
pub open spec fn table(routes: Seq<Route>) -> Seq<RouteView> {
    routes.map_values(|route: Route| route@)
}

/// The one path that leads to the endpoint.
pub open spec fn path_of(endpoint: Endpoint) -> Seq<char> {
    match endpoint {
        Endpoint::Generate => "/generate"@,
        Endpoint::ChatCompletions => "/v1/chat/completions"@,
        Endpoint::Completions => "/v1/completions"@,
        Endpoint::Liveness => "/liveness"@,
        Endpoint::Readiness => "/readiness"@,
        Endpoint::Health => "/health"@,
        Endpoint::HealthGenerate => "/health_generate"@,
        Endpoint::Models => "/v1/models"@,
        Endpoint::ModelInfo => "/get_model_info"@,
        Endpoint::ServerInfo => "/get_server_info"@,
        Endpoint::AddWorker => "/add_worker"@,
        Endpoint::RemoveWorker => "/remove_worker"@,
        Endpoint::ListWorkers => "/list_workers"@,
        Endpoint::FlushCache => "/flush_cache"@,
        Endpoint::Loads => "/get_loads"@,
    }
}

/// The method that the endpoint takes: `POST` for what generates or changes something.
pub open spec fn method_of(endpoint: Endpoint) -> Method {
    match endpoint {
        Endpoint::Generate
        | Endpoint::ChatCompletions
        | Endpoint::Completions
        | Endpoint::AddWorker
        | Endpoint::RemoveWorker
        | Endpoint::FlushCache => Method::Post,
        _ => Method::Get,
    }
}

/// The route to an endpoint.
pub open spec fn route_to(endpoint: Endpoint) -> RouteView {
    RouteView { path: path_of(endpoint), method: method_of(endpoint), endpoint }
}

/// The routes to some endpoints, in their order.
pub open spec fn routes_to(endpoints: Seq<Endpoint>) -> Seq<RouteView> {
    endpoints.map_values(|endpoint: Endpoint| route_to(endpoint))
}

/// The endpoints that generate.
pub open spec fn protected_endpoints() -> Seq<Endpoint> {
    seq![Endpoint::Generate, Endpoint::ChatCompletions, Endpoint::Completions]
}

/// The endpoints that report.
pub open spec fn public_endpoints() -> Seq<Endpoint> {
    seq![
        Endpoint::Liveness,
        Endpoint::Readiness,
        Endpoint::Health,
        Endpoint::HealthGenerate,
        Endpoint::Models,
        Endpoint::ModelInfo,
        Endpoint::ServerInfo,
    ]
}

/// The endpoints that manage the workers.
pub open spec fn admin_endpoints() -> Seq<Endpoint> {
    seq![
        Endpoint::AddWorker,
        Endpoint::RemoveWorker,
        Endpoint::ListWorkers,
        Endpoint::FlushCache,
        Endpoint::Loads,
    ]
}

/// All endpoints, group by group.
pub open spec fn all_endpoints() -> Seq<Endpoint> {
    protected_endpoints() + public_endpoints() + admin_endpoints()
}

/// Whether a path stands for itself alone: it starts at the root and holds lower-case letters,
/// digits, underscores and slashes, so that no part of it can be read as a pattern.
pub open spec fn literal_path(path: Seq<char>) -> bool {
    &&& path.len() > 0
    &&& path[0] == '/'
    &&& forall|i: int| 0 <= i < path.len() ==> literal_path_char(#[trigger] path[i])
}

/// Whether a character can stand in a [`literal_path`].
pub open spec fn literal_path_char(c: char) -> bool {
    c == '/' || c == '_' || ('a' <= c && c <= 'z') || ('0' <= c && c <= '9')
}

fn route(path: &'static str, method: Method, endpoint: Endpoint) -> (r: Route)
    ensures
        r@ == (RouteView { path: path@, method, endpoint }),
        leads(r, path@, method, endpoint),
{
    Route { path, method, endpoint }
}

/// The routes that generate.
pub fn protected_routes() -> (r: Vec<Route>)
    ensures
        table(r@) == routes_to(protected_endpoints()),
        r@.len() == 3,
        leads(r@[0], "/generate"@, Method::Post, Endpoint::Generate),
        leads(r@[1], "/v1/chat/completions"@, Method::Post, Endpoint::ChatCompletions),
        leads(r@[2], "/v1/completions"@, Method::Post, Endpoint::Completions),
{
    vec![
        route("/generate", Method::Post, Endpoint::Generate),
        route("/v1/chat/completions", Method::Post, Endpoint::ChatCompletions),
        route("/v1/completions", Method::Post, Endpoint::Completions),
    ]
}

/// The routes that report.
pub fn public_routes() -> (r: Vec<Route>)
    ensures
        table(r@) == routes_to(public_endpoints()),
        r@.len() == 7,
        leads(r@[0], "/liveness"@, Method::Get, Endpoint::Liveness),
        leads(r@[1], "/readiness"@, Method::Get, Endpoint::Readiness),
        leads(r@[2], "/health"@, Method::Get, Endpoint::Health),
        leads(r@[3], "/health_generate"@, Method::Get, Endpoint::HealthGenerate),
        leads(r@[4], "/v1/models"@, Method::Get, Endpoint::Models),
        leads(r@[5], "/get_model_info"@, Method::Get, Endpoint::ModelInfo),
        leads(r@[6], "/get_server_info"@, Method::Get, Endpoint::ServerInfo),
{
    vec![
        route("/liveness", Method::Get, Endpoint::Liveness),
        route("/readiness", Method::Get, Endpoint::Readiness),
        route("/health", Method::Get, Endpoint::Health),
        route("/health_generate", Method::Get, Endpoint::HealthGenerate),
        route("/v1/models", Method::Get, Endpoint::Models),
        route("/get_model_info", Method::Get, Endpoint::ModelInfo),
        route("/get_server_info", Method::Get, Endpoint::ServerInfo),
    ]
}

/// The routes that manage the workers.
pub fn admin_routes() -> (r: Vec<Route>)
    ensures
        table(r@) == routes_to(admin_endpoints()),
        r@.len() == 5,
        leads(r@[0], "/add_worker"@, Method::Post, Endpoint::AddWorker),
        leads(r@[1], "/remove_worker"@, Method::Post, Endpoint::RemoveWorker),
        leads(r@[2], "/list_workers"@, Method::Get, Endpoint::ListWorkers),
        leads(r@[3], "/flush_cache"@, Method::Post, Endpoint::FlushCache),
        leads(r@[4], "/get_loads"@, Method::Get, Endpoint::Loads),
{
    vec![
        route("/add_worker", Method::Post, Endpoint::AddWorker),
        route("/remove_worker", Method::Post, Endpoint::RemoveWorker),
        route("/list_workers", Method::Get, Endpoint::ListWorkers),
        route("/flush_cache", Method::Post, Endpoint::FlushCache),
        route("/get_loads", Method::Get, Endpoint::Loads),
    ]
}

/// All routes, group by group.
pub fn all_routes() -> (r: Vec<Route>)
    ensures
        table(r@) == routes_to(all_endpoints()),
        r@.len() == 15,
        leads(r@[0], "/generate"@, Method::Post, Endpoint::Generate),
        leads(r@[1], "/v1/chat/completions"@, Method::Post, Endpoint::ChatCompletions),
        leads(r@[2], "/v1/completions"@, Method::Post, Endpoint::Completions),
        leads(r@[3], "/liveness"@, Method::Get, Endpoint::Liveness),
        leads(r@[4], "/readiness"@, Method::Get, Endpoint::Readiness),
        leads(r@[5], "/health"@, Method::Get, Endpoint::Health),
        leads(r@[6], "/health_generate"@, Method::Get, Endpoint::HealthGenerate),
        leads(r@[7], "/v1/models"@, Method::Get, Endpoint::Models),
        leads(r@[8], "/get_model_info"@, Method::Get, Endpoint::ModelInfo),
        leads(r@[9], "/get_server_info"@, Method::Get, Endpoint::ServerInfo),
        leads(r@[10], "/add_worker"@, Method::Post, Endpoint::AddWorker),
        leads(r@[11], "/remove_worker"@, Method::Post, Endpoint::RemoveWorker),
        leads(r@[12], "/list_workers"@, Method::Get, Endpoint::ListWorkers),
        leads(r@[13], "/flush_cache"@, Method::Post, Endpoint::FlushCache),
        leads(r@[14], "/get_loads"@, Method::Get, Endpoint::Loads),
{
    let mut routes = protected_routes();
    let mut public = public_routes();
    let mut admin = admin_routes();
    let ghost groups = table(routes@) + table(public@) + table(admin@);
    routes.append(&mut public);
    routes.append(&mut admin);
    proof {
        assert(table(routes@) =~= groups);
        assert(groups =~= routes_to(all_endpoints()));
    }
    routes
}

proof fn path_fingerprints(endpoint: Endpoint)
    ensures
        literal_path(path_of(endpoint)),
        (path_of(endpoint).len(), path_of(endpoint)[1]) == match endpoint {
            Endpoint::Generate => (9nat, 'g'),
            Endpoint::ChatCompletions => (20nat, 'v'),
            Endpoint::Completions => (15nat, 'v'),
            Endpoint::Liveness => (9nat, 'l'),
            Endpoint::Readiness => (10nat, 'r'),
            Endpoint::Health => (7nat, 'h'),
            Endpoint::HealthGenerate => (16nat, 'h'),
            Endpoint::Models => (10nat, 'v'),
            Endpoint::ModelInfo => (15nat, 'g'),
            Endpoint::ServerInfo => (16nat, 'g'),
            Endpoint::AddWorker => (11nat, 'a'),
            Endpoint::RemoveWorker => (14nat, 'r'),
            Endpoint::ListWorkers => (13nat, 'l'),
            Endpoint::FlushCache => (12nat, 'f'),
            Endpoint::Loads => (10nat, 'g'),
        },
{
    reveal_strlit("/generate");
    reveal_strlit("/v1/chat/completions");
    reveal_strlit("/v1/completions");
    reveal_strlit("/liveness");
    reveal_strlit("/readiness");
    reveal_strlit("/health");
    reveal_strlit("/health_generate");
    reveal_strlit("/v1/models");
    reveal_strlit("/get_model_info");
    reveal_strlit("/get_server_info");
    reveal_strlit("/add_worker");
    reveal_strlit("/remove_worker");
    reveal_strlit("/list_workers");
    reveal_strlit("/flush_cache");
    reveal_strlit("/get_loads");
}

/// No two endpoints share a path.
pub proof fn paths_are_distinct(a: Endpoint, b: Endpoint)
    requires
        a != b,
    ensures
        path_of(a) != path_of(b),
{
    path_fingerprints(a);
    path_fingerprints(b);
}

/// The table can be registered route by route, and its groups merged: each path is literal, and
/// no path comes twice.
pub proof fn routes_do_not_collide()
    ensures
        forall|i: int|
            0 <= i < routes_to(all_endpoints()).len() ==> literal_path(
                (#[trigger] routes_to(all_endpoints())[i]).path,
            ),
        forall|i: int, j: int|
            0 <= i < j < routes_to(all_endpoints()).len() ==> (#[trigger] routes_to(
                all_endpoints(),
            )[i]).path != (#[trigger] routes_to(all_endpoints())[j]).path,
{
    let all = all_endpoints();
    assert forall|i: int| 0 <= i < routes_to(all).len() implies literal_path(
        (#[trigger] routes_to(all)[i]).path,
    ) by {
        path_fingerprints(all[i]);
    }
    assert forall|i: int, j: int| 0 <= i < j < routes_to(all).len() implies (#[trigger] routes_to(
        all,
    )[i]).path != (#[trigger] routes_to(all)[j]).path by {
        paths_are_distinct(all[i], all[j]);
    }
}

/// Every endpoint can be reached: its route stands in the table.
pub proof fn every_endpoint_is_routed(endpoint: Endpoint)
    ensures
        routes_to(all_endpoints()).contains(route_to(endpoint)),
{
    let all = all_endpoints();
    let i: int = match endpoint {
        Endpoint::Generate => 0,
        Endpoint::ChatCompletions => 1,
        Endpoint::Completions => 2,
        Endpoint::Liveness => 3,
        Endpoint::Readiness => 4,
        Endpoint::Health => 5,
        Endpoint::HealthGenerate => 6,
        Endpoint::Models => 7,
        Endpoint::ModelInfo => 8,
        Endpoint::ServerInfo => 9,
        Endpoint::AddWorker => 10,
        Endpoint::RemoveWorker => 11,
        Endpoint::ListWorkers => 12,
        Endpoint::FlushCache => 13,
        Endpoint::Loads => 14,
    };
    assert(all[i] == endpoint);
    assert(routes_to(all)[i] == route_to(endpoint));
}

} // verus!
