use sgl_router::message::Method;
use sgl_router::routes::{admin_routes, all_routes, protected_routes, public_routes, Endpoint};

#[test]
fn groups_make_up_the_table() {
    let expected = [
        ("/generate", Method::Post, Endpoint::Generate),
        ("/v1/chat/completions", Method::Post, Endpoint::ChatCompletions),
        ("/v1/completions", Method::Post, Endpoint::Completions),
        ("/liveness", Method::Get, Endpoint::Liveness),
        ("/readiness", Method::Get, Endpoint::Readiness),
        ("/health", Method::Get, Endpoint::Health),
        ("/health_generate", Method::Get, Endpoint::HealthGenerate),
        ("/v1/models", Method::Get, Endpoint::Models),
        ("/get_model_info", Method::Get, Endpoint::ModelInfo),
        ("/get_server_info", Method::Get, Endpoint::ServerInfo),
        ("/add_worker", Method::Post, Endpoint::AddWorker),
        ("/remove_worker", Method::Post, Endpoint::RemoveWorker),
        ("/list_workers", Method::Get, Endpoint::ListWorkers),
        ("/flush_cache", Method::Post, Endpoint::FlushCache),
        ("/get_loads", Method::Get, Endpoint::Loads),
    ];
    let table = all_routes();
    assert_eq!(table.len(), expected.len());
    for (route, (path, method, endpoint)) in table.iter().zip(expected.iter()) {
        assert_eq!(route.path, *path);
        assert_eq!(route.method, *method);
        assert_eq!(route.endpoint, *endpoint);
    }
    assert_eq!(protected_routes().len(), 3);
    assert_eq!(public_routes().len(), 7);
    assert_eq!(admin_routes().len(), 5);
}

#[test]
fn axum_takes_the_table_without_a_collision() {
    let mut router: axum::Router = axum::Router::new();
    for group in [protected_routes(), public_routes(), admin_routes()] {
        let mut part: axum::Router = axum::Router::new();
        for route in group {
            part = part.route(route.path, axum::routing::get(|| async { "" }));
        }
        router = router.merge(part);
    }
    assert!(router.has_routes());
}
