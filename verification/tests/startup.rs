use sgl_router::config::{ClientSettings, RouterConfig, ServerConfig, ServiceDiscoveryConfig};
use sgl_router::cors::Allowed;
use sgl_router::logging::LogLevel;
use sgl_router::message::Body;
use sgl_router::routes::all_routes;
use sgl_router::startup::{
    app_plan, shutdown_signal, startup, Action, BuildStep, Event, Layer, ShutdownSignal, Startup,
    StartupError,
};
use sgl_router::text::decimal_text;

type Config = ServerConfig<&'static str, &'static str, &'static str>;

fn config() -> Config {
    ServerConfig {
        host: "127.0.0.1".to_string(),
        port: 3002,
        router_config: RouterConfig {
            workers: "random",
            max_concurrent_requests: 64,
            cors_allowed_origins: vec![],
        },
        max_payload_size: 256 * 1024 * 1024,
        log_dir: None,
        log_level: None,
        service_discovery_config: None,
        prometheus_config: None,
        request_timeout_secs: 600,
        request_id_headers: None,
    }
}

fn full_config() -> Config {
    let mut config = config();
    config.log_level = Some("debug".to_string());
    config.service_discovery_config =
        Some(ServiceDiscoveryConfig { enabled: true, settings: "selector" });
    config.prometheus_config = Some("metrics");
    config
}

type Server<'a> = Startup<'a, &'static str, &'static str, &'static str, &'static str>;

#[test]
fn a_bare_server_comes_up() {
    let config = config();
    let server: Server = startup(&config, &mut true);
    let expected = ClientSettings { pool_idle_timeout_secs: 50, timeout_secs: 600 };
    assert!(matches!(server.action(), Action::BuildClient(settings) if settings == expected));
    let server = server.advance(Event::ClientBuilt);
    assert!(matches!(
        server.action(),
        Action::CreateRouter(router, 64) if router.workers == "random"
    ));
    let server = server.advance(Event::RouterCreated(Ok(())));
    assert!(matches!(server.action(), Action::BuildApp(plan) if plan.steps.len() == 20));
    let server = server.advance(Event::AppBuilt);
    assert!(matches!(server.action(), Action::Bind(address) if address == "127.0.0.1:3002"));
    let server = server.advance(Event::Bound(Ok(())));
    assert!(matches!(server.action(), Action::Serve));
    let server = server.advance(Event::Served(Ok(())));
    assert!(matches!(server.action(), Action::Finish));
    assert!(matches!(server.into_result(), Some(Ok(()))));
}

#[test]
fn a_full_server_comes_up_though_discovery_fails() {
    let config = full_config();
    for started in [true, false] {
        let server: Server = startup(&config, &mut false);
        assert!(matches!(
            server.action(),
            Action::InitLogging(logging) if logging.level == LogLevel::Debug
        ));
        let server = server.advance(Event::LoggingReady);
        assert!(matches!(server.action(), Action::StartMetrics(metrics) if *metrics == "metrics"));
        let server = server.advance(Event::MetricsStarted);
        assert!(matches!(server.action(), Action::BuildClient(_)));
        let server = server.advance(Event::ClientBuilt).advance(Event::RouterCreated(Ok(())));
        assert!(matches!(
            server.action(),
            Action::StartDiscovery(discovery) if discovery.settings == "selector"
        ));
        let server = server.advance(Event::DiscoveryStarted(started));
        assert!(matches!(server.action(), Action::BuildApp(_)));
        assert!(server.into_result().is_none());
    }
}

#[test]
fn discovery_that_is_not_enabled_is_skipped() {
    let mut config = full_config();
    config.service_discovery_config =
        Some(ServiceDiscoveryConfig { enabled: false, settings: "selector" });
    let server: Server = startup(&config, &mut true);
    assert!(matches!(server.action(), Action::StartMetrics(_)));
    let server = server
        .advance(Event::MetricsStarted)
        .advance(Event::ClientBuilt)
        .advance(Event::RouterCreated(Ok(())));
    assert!(matches!(server.action(), Action::BuildApp(_)));
}

#[test]
fn failures_end_the_startup() {
    let config = config();
    let ready = || -> Server { startup(&config, &mut true).advance(Event::ClientBuilt) };
    let failed = ready().advance(Event::RouterCreated(Err("no workers".to_string())));
    assert!(matches!(failed.action(), Action::Finish));
    assert!(matches!(
        failed.into_result(),
        Some(Err(StartupError::Router(message))) if message == "no workers"
    ));
    let failed = ready()
        .advance(Event::RouterCreated(Ok(())))
        .advance(Event::AppBuilt)
        .advance(Event::Bound(Err("in use")));
    assert!(matches!(failed.into_result(), Some(Err(StartupError::Bind("in use")))));
    let failed = ready()
        .advance(Event::RouterCreated(Ok(())))
        .advance(Event::AppBuilt)
        .advance(Event::Bound(Ok(())))
        .advance(Event::Served(Err("broken")));
    assert!(matches!(failed.into_result(), Some(Err(StartupError::Serve("broken")))));
}

#[test]
fn the_plan_is_routes_then_layers_then_the_fallback() {
    let mut config = config();
    config.router_config.cors_allowed_origins = vec!["https://a.example".to_string()];
    config.request_id_headers = Some(vec!["x-mine".to_string()]);
    let steps = app_plan(&config).steps;
    assert_eq!(steps.len(), 20);
    for (step, route) in steps.iter().zip(all_routes()) {
        assert!(matches!(step, BuildStep::Route(planned) if planned.path == route.path));
    }
    assert!(matches!(steps[15], BuildStep::Layer(Layer::BodyLimit(268435456))));
    assert!(matches!(steps[16], BuildStep::Layer(Layer::Logging)));
    assert!(matches!(
        &steps[17],
        BuildStep::Layer(Layer::RequestId(headers)) if headers[..] == ["x-mine"]
    ));
    assert!(matches!(
        &steps[18],
        BuildStep::Layer(Layer::Cors(policy))
            if matches!(&policy.origins, Allowed::Only(list) if list.len() == 1)
    ));
    assert!(matches!(
        &steps[19],
        BuildStep::Fallback(response)
            if response.status == 404 && matches!(response.body, Body::Empty)
    ));
}

#[test]
fn only_the_first_server_of_a_process_sets_up_the_logger() {
    let first = full_config();
    let later = config();
    let mut logging_initialized = false;
    let server: Server = startup(&first, &mut logging_initialized);
    assert!(logging_initialized);
    assert!(matches!(
        server.action(),
        Action::InitLogging(logging) if logging.level == LogLevel::Debug
    ));
    let failed = server
        .advance(Event::LoggingReady)
        .advance(Event::MetricsStarted)
        .advance(Event::ClientBuilt)
        .advance(Event::RouterCreated(Err("no workers".to_string())));
    assert!(matches!(failed.into_result(), Some(Err(_))));
    for _ in 0..2 {
        let server: Server = startup(&later, &mut logging_initialized);
        assert!(logging_initialized);
        assert!(matches!(server.action(), Action::BuildClient(_)));
    }
}

#[test]
fn the_limit_is_that_of_the_router() {
    assert_eq!(config().concurrency_limit(), 64);
}

#[test]
fn request_id_headers_have_defaults() {
    let mut config = config();
    assert_eq!(
        config.request_id_headers(),
        vec!["x-request-id", "x-correlation-id", "x-trace-id", "request-id"]
    );
    config.request_id_headers = Some(vec![]);
    assert!(config.request_id_headers().is_empty());
}

#[test]
fn addresses_hold_host_and_port() {
    let mut config = config();
    for (host, port, address) in [
        ("0.0.0.0", 0, "0.0.0.0:0"),
        ("::1", 65535, "::1:65535"),
        ("", 80, ":80"),
        ("localhost", 30000, "localhost:30000"),
    ] {
        config.host = host.to_string();
        config.port = port;
        assert_eq!(config.bind_address(), address);
    }
}

#[test]
fn numerals_are_those_of_std() {
    for n in [0, 9, 10, 99, 100, 3002, 10000, 65535] {
        assert_eq!(decimal_text(n), n.to_string());
    }
}

#[test]
fn payload_is_told_in_mebibytes() {
    let mut config = config();
    assert_eq!(config.max_payload_mebibytes(), 256);
    config.max_payload_size = 1024 * 1024 - 1;
    assert_eq!(config.max_payload_mebibytes(), 0);
}

#[test]
fn either_signal_is_told() {
    assert_eq!(
        shutdown_signal(ShutdownSignal::CtrlC),
        "Received Ctrl+C, starting graceful shutdown"
    );
    assert_eq!(
        shutdown_signal(ShutdownSignal::Terminate),
        "Received terminate signal, starting graceful shutdown"
    );
}
