//! The order in which the server comes up.
//!
//! A [`Startup`] knows what is to be done next. The server does it, reports what came of it, and
//! asks again, until there is nothing left to do.

use vstd::prelude::*;
use crate::config::{address, ClientSettings, RouterConfig, ServerConfig, ServiceDiscoveryConfig};
use crate::cors::{
    cors_policy, create_cors_layer, has_wildcard, usable_origins, Allowed, CorsPolicy,
    CorsPolicyView,
};
use crate::handlers::{not_found, sink_handler};
use crate::logging::{
    follows_ascii_setting, level_of_text, logging_config, logging_settings, uppercase,
    LoggingConfig, LoggingConfigView,
};
use crate::message::{Method, Response, ResponseView};
use crate::routes::{all_endpoints, all_routes, routes_to, table, Endpoint, Route, RouteView};

verus! {

/// Something that every request to a route passes through.
#[derive(Debug)]
pub enum Layer {
    /// Refuses a body of more bytes than this.
    BodyLimit(usize),
    /// Logs the request and its response.
    Logging,
    /// Gives the request an ID, taken from one of these headers where it has one.
    RequestId(Vec<String>),
    /// Keeps to the rules for other origins.
    Cors(CorsPolicy),
}

/// The contents of a [`Layer`].
pub enum LayerView {
    BodyLimit(usize),
    Logging,
    RequestId(Seq<Seq<char>>),
    Cors(CorsPolicyView),
}

impl View for Layer {
    type V = LayerView;

    open spec fn view(&self) -> LayerView {
        match self {
            Layer::BodyLimit(bytes) => LayerView::BodyLimit(*bytes),
            Layer::Logging => LayerView::Logging,
            Layer::RequestId(headers) => LayerView::RequestId(headers.deep_view()),
            Layer::Cors(policy) => LayerView::Cors(policy@),
        }
    }
}

/// A step in putting together what the server serves.
#[derive(Debug)]
pub enum BuildStep {
    /// Takes requests on one more path.
    Route(Route),
    /// Puts a layer around all that is there by now.
    Layer(Layer),
    /// Answers what no route takes.
    Fallback(Response),
}

/// The contents of a [`BuildStep`].
pub enum BuildStepView {
    Route(RouteView),
    Layer(LayerView),
    Fallback(ResponseView),
}

impl View for BuildStep {
    type V = BuildStepView;

    open spec fn view(&self) -> BuildStepView {
        match self {
            BuildStep::Route(route) => BuildStepView::Route(route@),
            BuildStep::Layer(layer) => BuildStepView::Layer(layer@),
            BuildStep::Fallback(response) => BuildStepView::Fallback(response@),
        }
    }
}

/// How to put together what the server serves: the steps, in their order.
#[derive(Debug)]
pub struct AppPlan {
    pub steps: Vec<BuildStep>,
}

impl View for AppPlan {
    type V = Seq<BuildStepView>;

    open spec fn view(&self) -> Seq<BuildStepView> {
        self.steps@.map_values(|step: BuildStep| step@)
    }
}

/// Who takes the requests on a path.
pub enum Taker {
    Nobody,
    Route(RouteView),
    Fallback(ResponseView),
}

/// Who takes the requests on a path, and the layers they pass, from the inside out.
pub struct Reach {
    pub taker: Taker,
    pub layers: Seq<LayerView>,
}

/// Who takes the requests on a path once some steps were taken. A layer goes around what was there
/// before it and around nothing that comes later; the fallback takes what no route does.
pub open spec fn reach(steps: Seq<BuildStepView>, path: Seq<char>) -> Reach
    decreases steps.len(),
{
    if steps.len() == 0 {
        Reach { taker: Taker::Nobody, layers: Seq::empty() }
    } else {
        let before = reach(steps.drop_last(), path);
        match steps.last() {
            BuildStepView::Route(route) => if route.path == path {
                Reach { taker: Taker::Route(route), layers: Seq::empty() }
            } else {
                before
            },
            BuildStepView::Layer(layer) => Reach {
                taker: before.taker,
                layers: before.layers.push(layer),
            },
            BuildStepView::Fallback(response) => if before.taker is Route {
                before
            } else {
                Reach { taker: Taker::Fallback(response), layers: Seq::empty() }
            },
        }
    }
}

/// The steps that take requests on some routes.
pub open spec fn route_steps(routes: Seq<RouteView>) -> Seq<BuildStepView> {
    routes.map_values(|route: RouteView| BuildStepView::Route(route))
}

/// The steps that put some layers around what is there, from the inside out.
pub open spec fn layer_steps(layers: Seq<LayerView>) -> Seq<BuildStepView> {
    layers.map_values(|layer: LayerView| BuildStepView::Layer(layer))
}

/// The layers around the routes under a configuration, from the inside out.
pub open spec fn planned_layers<W, D, M>(config: ServerConfig<W, D, M>) -> Seq<LayerView> {
    seq![
        LayerView::BodyLimit(config.max_payload_size),
        LayerView::Logging,
        LayerView::RequestId(config.id_headers()),
        LayerView::Cors(cors_policy(config.router_config.cors_allowed_origins.deep_view())),
    ]
}

/// How to put together what the server serves under a configuration: all routes, then the layers
/// around them, then what answers the rest.
pub open spec fn planned_app<W, D, M>(config: ServerConfig<W, D, M>) -> Seq<BuildStepView> {
    route_steps(routes_to(all_endpoints())) + layer_steps(planned_layers(config)) + seq![
        BuildStepView::Fallback(not_found()),
    ]
}

/// Whether a step makes a path lead, by a method, to an endpoint.
pub open spec fn steps_route(
    steps: Seq<BuildStep>,
    i: int,
    path: Seq<char>,
    method: Method,
    endpoint: Endpoint,
) -> bool {
    steps[i] matches BuildStep::Route(route) && route.path@ == path && route.method == method
        && route.endpoint == endpoint
}

/// Whether the server cannot be put together because its list of origins holds the wildcard.
pub open spec fn lists_wildcard<W, D, M>(config: ServerConfig<W, D, M>) -> bool {
    has_wildcard(config.router_config.cors_allowed_origins.deep_view())
}

/// How to put together what the server serves under a configuration.
pub fn app_plan<W, D, M>(config: &ServerConfig<W, D, M>) -> (r: AppPlan)
    requires
        !lists_wildcard(*config),
    ensures
        r@ == planned_app(*config),
        r.steps@.len() == 20,
        steps_route(r.steps@, 0, "/generate"@, Method::Post, Endpoint::Generate),
        steps_route(r.steps@, 1, "/v1/chat/completions"@, Method::Post, Endpoint::ChatCompletions),
        steps_route(r.steps@, 2, "/v1/completions"@, Method::Post, Endpoint::Completions),
        steps_route(r.steps@, 3, "/liveness"@, Method::Get, Endpoint::Liveness),
        steps_route(r.steps@, 4, "/readiness"@, Method::Get, Endpoint::Readiness),
        steps_route(r.steps@, 5, "/health"@, Method::Get, Endpoint::Health),
        steps_route(r.steps@, 6, "/health_generate"@, Method::Get, Endpoint::HealthGenerate),
        steps_route(r.steps@, 7, "/v1/models"@, Method::Get, Endpoint::Models),
        steps_route(r.steps@, 8, "/get_model_info"@, Method::Get, Endpoint::ModelInfo),
        steps_route(r.steps@, 9, "/get_server_info"@, Method::Get, Endpoint::ServerInfo),
        steps_route(r.steps@, 10, "/add_worker"@, Method::Post, Endpoint::AddWorker),
        steps_route(r.steps@, 11, "/remove_worker"@, Method::Post, Endpoint::RemoveWorker),
        steps_route(r.steps@, 12, "/list_workers"@, Method::Get, Endpoint::ListWorkers),
        steps_route(r.steps@, 13, "/flush_cache"@, Method::Post, Endpoint::FlushCache),
        steps_route(r.steps@, 14, "/get_loads"@, Method::Get, Endpoint::Loads),
        r.steps@[15] == BuildStep::Layer(Layer::BodyLimit(config.max_payload_size)),
        r.steps@[16] == BuildStep::Layer(Layer::Logging),
        r.steps@[17] matches BuildStep::Layer(Layer::RequestId(headers))
            && match config.request_id_headers {
            Some(configured) => headers.deep_view() == configured.deep_view(),
            None => {
                &&& headers@.len() == 4
                &&& headers@[0]@ == "x-request-id"@
                &&& headers@[1]@ == "x-correlation-id"@
                &&& headers@[2]@ == "x-trace-id"@
                &&& headers@[3]@ == "request-id"@
            },
        },
        r.steps@[18] matches BuildStep::Layer(Layer::Cors(policy))
            && if config.router_config.cors_allowed_origins@.len() == 0 {
            policy.origins is Any && policy.methods is Any && policy.headers is Any
                && policy.exposed_headers is Any && !policy.allow_credentials && policy.max_age_secs
                == 3600
        } else {
            &&& policy.origins matches Allowed::Only(list) && list.deep_view() == usable_origins(
                config.router_config.cors_allowed_origins.deep_view(),
            )
            &&& policy.methods matches Allowed::Only(list) && list@.len() == 3 && list@[0]@ == "GET"@
                && list@[1]@ == "POST"@ && list@[2]@ == "OPTIONS"@
            &&& policy.headers matches Allowed::Only(list) && list@.len() == 2 && list@[0]@
                == "content-type"@ && list@[1]@ == "authorization"@
            &&& policy.exposed_headers matches Allowed::Only(list) && list@.len() == 1 && list@[0]@
                == "x-request-id"@
            &&& !policy.allow_credentials
            &&& policy.max_age_secs == 3600
        },
        r.steps@[18] matches BuildStep::Layer(Layer::Cors(policy)) && policy@ == cors_policy(
            config.router_config.cors_allowed_origins.deep_view(),
        ),
        r.steps@[19] matches BuildStep::Fallback(response) && response.status == 404
            && response.body is Empty,
{
    let routes = all_routes();
    let mut steps: Vec<BuildStep> = Vec::new();
    let ghost routed = route_steps(table(routes@));
    let mut i: usize = 0;
    while i < routes.len()
        invariant
            i <= routes.len(),
            routed == route_steps(table(routes@)),
            steps@.map_values(|step: BuildStep| step@) == routed.take(i as int),
            steps@.len() == i,
            forall|j: int| 0 <= j < i ==> #[trigger] steps@[j] == BuildStep::Route(routes@[j]),
        decreases routes.len() - i,
    {
        let ghost before = steps@.map_values(|step: BuildStep| step@);
        steps.push(BuildStep::Route(routes[i]));
        proof {
            assert(steps@.map_values(|step: BuildStep| step@) =~= before.push(routed[i as int]));
            assert(routed.take(i as int + 1) =~= routed.take(i as int).push(routed[i as int]));
        }
        i = i + 1;
    }
    steps.push(BuildStep::Layer(Layer::BodyLimit(config.max_payload_size)));
    steps.push(BuildStep::Layer(Layer::Logging));
    steps.push(BuildStep::Layer(Layer::RequestId(config.request_id_headers())));
    let policy = create_cors_layer(&config.router_config.cors_allowed_origins);
    steps.push(BuildStep::Layer(Layer::Cors(policy)));
    steps.push(BuildStep::Fallback(sink_handler()));
    let plan = AppPlan { steps };
    proof {
        assert(routed.take(i as int) =~= routed);
        assert(plan@ =~= planned_app(*config));
    }
    plan
}

/// Why the server went down. `E` is an I/O error.
#[derive(Debug)]
pub enum StartupError<E> {
    /// The worker router could not be made.
    Router(String),
    /// The address could not be listened on.
    Bind(E),
    /// Serving came to an end by an error.
    Serve(E),
}

/// What the server is at.
#[derive(Debug)]
pub enum Phase<E> {
    InitLogging,
    StartMetrics,
    BuildClient,
    CreateRouter,
    StartDiscovery,
    BuildApp,
    Bind,
    Serve,
    Done(Result<(), StartupError<E>>),
}

/// What came of the work of a phase.
#[derive(Debug)]
pub enum Event<E> {
    LoggingReady,
    MetricsStarted,
    ClientBuilt,
    /// Whether there is a worker router now, or why not.
    RouterCreated(Result<(), String>),
    /// Whether service discovery runs now.
    DiscoveryStarted(bool),
    AppBuilt,
    /// Whether the address is listened on now, or why not.
    Bound(Result<(), E>),
    /// How serving came to an end.
    Served(Result<(), E>),
}

/// What is to be done in a phase, with all that it takes.
#[derive(Debug)]
pub enum Action<'a, W, D, M> {
    InitLogging(LoggingConfig),
    StartMetrics(&'a M),
    BuildClient(ClientSettings),
    /// The worker router to make, and how many requests may be under way at once.
    CreateRouter(&'a RouterConfig<W>, usize),
    StartDiscovery(&'a ServiceDiscoveryConfig<D>),
    BuildApp(AppPlan),
    Bind(String),
    Serve,
    Finish,
}

/// The contents of an [`Action`].
pub enum ActionView<W, D, M> {
    InitLogging(LoggingConfigView),
    StartMetrics(M),
    BuildClient(ClientSettings),
    CreateRouter(RouterConfig<W>, usize),
    StartDiscovery(ServiceDiscoveryConfig<D>),
    BuildApp(Seq<BuildStepView>),
    Bind(Seq<char>),
    Serve,
    Finish,
}

impl<'a, W, D, M> View for Action<'a, W, D, M> {
    type V = ActionView<W, D, M>;

    open spec fn view(&self) -> ActionView<W, D, M> {
        match *self {
            Action::InitLogging(logging) => ActionView::InitLogging(logging@),
            Action::StartMetrics(metrics) => ActionView::StartMetrics(*metrics),
            Action::BuildClient(settings) => ActionView::BuildClient(settings),
            Action::CreateRouter(router, limit) => ActionView::CreateRouter(*router, limit),
            Action::StartDiscovery(discovery) => ActionView::StartDiscovery(*discovery),
            Action::BuildApp(plan) => ActionView::BuildApp(plan@),
            Action::Bind(address) => ActionView::Bind(address@),
            Action::Serve => ActionView::Serve,
            Action::Finish => ActionView::Finish,
        }
    }
}

/// What is to be done in a phase under a configuration.
pub open spec fn action_in<W, D, M, E>(
    config: ServerConfig<W, D, M>,
    phase: Phase<E>,
) -> ActionView<W, D, M> {
    match phase {
        Phase::InitLogging => ActionView::InitLogging(
            logging_settings(config.log_dir.deep_view(), config.log_level.deep_view()),
        ),
        Phase::StartMetrics => ActionView::StartMetrics(config.prometheus_config->0),
        Phase::BuildClient => ActionView::BuildClient(config.client()),
        Phase::CreateRouter => ActionView::CreateRouter(
            config.router_config,
            config.router_config.max_concurrent_requests,
        ),
        Phase::StartDiscovery => ActionView::StartDiscovery(config.service_discovery_config->0),
        Phase::BuildApp => ActionView::BuildApp(planned_app(config)),
        Phase::Bind => ActionView::Bind(address(config.host@, config.port)),
        Phase::Serve => ActionView::Serve,
        Phase::Done(_) => ActionView::Finish,
    }
}

/// Whether an event reports on the work of a phase.
pub open spec fn reports_on<E>(event: Event<E>, phase: Phase<E>) -> bool {
    match phase {
        Phase::InitLogging => event is LoggingReady,
        Phase::StartMetrics => event is MetricsStarted,
        Phase::BuildClient => event is ClientBuilt,
        Phase::CreateRouter => event is RouterCreated,
        Phase::StartDiscovery => event is DiscoveryStarted,
        Phase::BuildApp => event is AppBuilt,
        Phase::Bind => event is Bound,
        Phase::Serve => event is Served,
        Phase::Done(_) => false,
    }
}

/// The phase that comes once the logger is set up.
pub open spec fn after_logging<W, D, M, E>(config: ServerConfig<W, D, M>) -> Phase<E> {
    if config.has_metrics() {
        Phase::StartMetrics
    } else {
        Phase::BuildClient
    }
}

/// The phase to begin with. The logger is set up unless that was done before in the process.
pub open spec fn first_phase<W, D, M, E>(
    config: ServerConfig<W, D, M>,
    logging_initialized: bool,
) -> Phase<E> {
    if logging_initialized {
        after_logging(config)
    } else {
        Phase::InitLogging
    }
}

/// The phase that comes after an event.
pub open spec fn next_phase<W, D, M, E>(
    config: ServerConfig<W, D, M>,
    event: Event<E>,
) -> Phase<E> {
    match event {
        Event::LoggingReady => after_logging(config),
        Event::MetricsStarted => Phase::BuildClient,
        Event::ClientBuilt => Phase::CreateRouter,
        Event::RouterCreated(Err(error)) => Phase::Done(Err(StartupError::Router(error))),
        Event::RouterCreated(Ok(_)) => if config.has_discovery() {
            Phase::StartDiscovery
        } else {
            Phase::BuildApp
        },
        Event::DiscoveryStarted(_) => Phase::BuildApp,
        Event::AppBuilt => Phase::Bind,
        Event::Bound(Err(error)) => Phase::Done(Err(StartupError::Bind(error))),
        Event::Bound(Ok(_)) => Phase::Serve,
        Event::Served(Err(error)) => Phase::Done(Err(StartupError::Serve(error))),
        Event::Served(Ok(_)) => Phase::Done(Ok(())),
    }
}

/// How it all ended for a server at a phase; `None` while there is something left to do.
pub open spec fn result_of<E>(phase: Phase<E>) -> Option<Result<(), StartupError<E>>> {
    match phase {
        Phase::Done(result) => Some(result),
        _ => None,
    }
}

/// A server that comes up.
pub struct Startup<'a, W, D, M, E> {
    config: &'a ServerConfig<W, D, M>,
    phase: Phase<E>,
}

impl<'a, W, D, M, E> Startup<'a, W, D, M, E> {
    #[verifier::type_invariant]
    spec fn only_configured_phases(self) -> bool {
        &&& self.phase is StartMetrics ==> self.config.has_metrics()
        &&& self.phase is StartDiscovery ==> self.config.has_discovery()
    }

    /// The configuration of the server.
    pub closed spec fn spec_config(self) -> ServerConfig<W, D, M> {
        *self.config
    }

    /// What the server is at.
    pub closed spec fn spec_phase(self) -> Phase<E> {
        self.phase
    }

    /// What the server is at.
    pub fn phase(&self) -> (r: &Phase<E>)
        ensures
            *r == self.spec_phase(),
    {
        &self.phase
    }

    /// What is to be done now.
    pub fn action(&self) -> (r: Action<'a, W, D, M>)
        requires
            self.spec_phase() is BuildApp ==> !lists_wildcard(self.spec_config()),
        ensures
            r@ == action_in(self.spec_config(), self.spec_phase()),
            match self.spec_phase() {
                Phase::InitLogging => r matches Action::InitLogging(logging) && !logging.json_format
                    && logging.colorize && logging.log_file_name@ == "sgl-router"@
                    && logging.log_targets is None && logging.log_dir.deep_view()
                    == self.spec_config().log_dir.deep_view() && match self.spec_config().log_level {
                    Some(text) => match level_of_text(uppercase(text@)) {
                        Some(level) => logging.level == level,
                        None => logging.level is Info,
                    },
                    None => logging.level is Info,
                },
                Phase::StartMetrics => r matches Action::StartMetrics(metrics) && Some(*metrics)
                    == self.spec_config().prometheus_config,
                Phase::BuildClient => r matches Action::BuildClient(settings)
                    && settings.pool_idle_timeout_secs == 50 && settings.timeout_secs
                    == self.spec_config().request_timeout_secs,
                Phase::CreateRouter => r matches Action::CreateRouter(router, limit) && *router
                    == self.spec_config().router_config && limit
                    == self.spec_config().router_config.max_concurrent_requests,
                Phase::StartDiscovery => r matches Action::StartDiscovery(discovery) && Some(
                    *discovery,
                ) == self.spec_config().service_discovery_config && discovery.enabled,
                Phase::BuildApp => r matches Action::BuildApp(plan) && plan@ == planned_app(
                    self.spec_config(),
                ),
                Phase::Bind => r matches Action::Bind(text) && text@ == address(
                    self.spec_config().host@,
                    self.spec_config().port,
                ),
                Phase::Serve => r is Serve,
                Phase::Done(_) => r is Finish,
            },
            r matches Action::InitLogging(logging) ==> follows_ascii_setting(
                logging.level,
                self.spec_config().log_level.deep_view(),
            ),
    {
        proof {
            use_type_invariant(self);
        }
        let config = self.config;
        match &self.phase {
            Phase::InitLogging => Action::InitLogging(
                logging_config(&config.log_dir, &config.log_level),
            ),
            Phase::StartMetrics => Action::StartMetrics(config.prometheus_config.as_ref().unwrap()),
            Phase::BuildClient => Action::BuildClient(config.client_settings()),
            Phase::CreateRouter => Action::CreateRouter(
                &config.router_config,
                config.concurrency_limit(),
            ),
            Phase::StartDiscovery => Action::StartDiscovery(
                config.service_discovery_config.as_ref().unwrap(),
            ),
            Phase::BuildApp => Action::BuildApp(app_plan(config)),
            Phase::Bind => Action::Bind(config.bind_address()),
            Phase::Serve => Action::Serve,
            Phase::Done(_) => Action::Finish,
        }
    }

    /// Goes on after what came of the last action.
    pub fn advance(self, event: Event<E>) -> (r: Self)
        requires
            reports_on(event, self.spec_phase()),
        ensures
            r.spec_config() == self.spec_config(),
            r.spec_phase() == next_phase(self.spec_config(), event),
            match event {
                Event::LoggingReady => match self.spec_config().prometheus_config {
                    Some(_) => r.spec_phase() is StartMetrics,
                    None => r.spec_phase() is BuildClient,
                },
                Event::MetricsStarted => r.spec_phase() is BuildClient,
                Event::ClientBuilt => r.spec_phase() is CreateRouter,
                Event::RouterCreated(Ok(_)) => match self.spec_config().service_discovery_config {
                    Some(discovery) => if discovery.enabled {
                        r.spec_phase() is StartDiscovery
                    } else {
                        r.spec_phase() is BuildApp
                    },
                    None => r.spec_phase() is BuildApp,
                },
                Event::RouterCreated(Err(error)) => r.spec_phase() == Phase::<E>::Done(
                    Err(StartupError::Router(error)),
                ),
                Event::DiscoveryStarted(_) => r.spec_phase() is BuildApp,
                Event::AppBuilt => r.spec_phase() is Bind,
                Event::Bound(Ok(_)) => r.spec_phase() is Serve,
                Event::Bound(Err(error)) => r.spec_phase() == Phase::Done(
                    Err(StartupError::Bind(error)),
                ),
                Event::Served(Ok(_)) => r.spec_phase() == Phase::<E>::Done(Ok(())),
                Event::Served(Err(error)) => r.spec_phase() == Phase::Done(
                    Err(StartupError::Serve(error)),
                ),
            },
    {
        let config = self.config;
        let phase = match event {
            Event::LoggingReady => phase_after_logging(config),
            Event::MetricsStarted => Phase::BuildClient,
            Event::ClientBuilt => Phase::CreateRouter,
            Event::RouterCreated(Err(error)) => Phase::Done(Err(StartupError::Router(error))),
            Event::RouterCreated(Ok(_)) => {
                let enabled = match &config.service_discovery_config {
                    Some(discovery) => discovery.enabled,
                    None => false,
                };
                if enabled {
                    Phase::StartDiscovery
                } else {
                    Phase::BuildApp
                }
            },
            Event::DiscoveryStarted(_) => Phase::BuildApp,
            Event::AppBuilt => Phase::Bind,
            Event::Bound(Err(error)) => Phase::Done(Err(StartupError::Bind(error))),
            Event::Bound(Ok(_)) => Phase::Serve,
            Event::Served(Err(error)) => Phase::Done(Err(StartupError::Serve(error))),
            Event::Served(Ok(_)) => Phase::Done(Ok(())),
        };
        Startup { config, phase }
    }

    /// How it all ended; `None` while there is something left to do.
    pub fn into_result(self) -> (r: Option<Result<(), StartupError<E>>>)
        ensures
            r == match self.spec_phase() {
                Phase::Done(result) => Some(result),
                _ => None,
            },
            r == result_of(self.spec_phase()),
    {
        match self.phase {
            Phase::Done(result) => Some(result),
            _ => None,
        }
    }
}

fn phase_after_logging<W, D, M, E>(config: &ServerConfig<W, D, M>) -> (r: Phase<E>)
    ensures
        r == after_logging::<W, D, M, E>(*config),
{
    if config.prometheus_config.is_some() {
        Phase::StartMetrics
    } else {
        Phase::BuildClient
    }
}

/// Begins to bring up a server. `logging_initialized` says whether the logger was set up before
/// in the process. It is `false` before the first server, and all servers of a process share it.
pub fn startup<'a, W, D, M, E>(
    config: &'a ServerConfig<W, D, M>,
    logging_initialized: &mut bool,
) -> (r: Startup<'a, W, D, M, E>)
    ensures
        *final(logging_initialized),
        r.spec_config() == *config,
        r.spec_phase() == first_phase::<W, D, M, E>(*config, *old(logging_initialized)),
        !*old(logging_initialized) ==> r.spec_phase() is InitLogging,
        *old(logging_initialized) ==> match config.prometheus_config {
            Some(_) => r.spec_phase() is StartMetrics,
            None => r.spec_phase() is BuildClient,
        },
{
    let phase = if *logging_initialized {
        phase_after_logging(config)
    } else {
        Phase::InitLogging
    };
    *logging_initialized = true;
    Startup { config, phase }
}

/// What asks a running server to stop.
#[derive(Clone, Copy, Debug, PartialEq, Eq, Structural)]
pub enum ShutdownSignal {
    CtrlC,
    Terminate,
}

/// What is logged of a signal to stop.
pub open spec fn shutdown_notice(signal: ShutdownSignal) -> Seq<char> {
    match signal {
        ShutdownSignal::CtrlC => "Received Ctrl+C, starting graceful shutdown"@,
        ShutdownSignal::Terminate => "Received terminate signal, starting graceful shutdown"@,
    }
}

/// What to log of the first signal that came in; either one stops the server.
pub fn shutdown_signal(signal: ShutdownSignal) -> (r: &'static str)
    ensures
        r@ == shutdown_notice(signal),
        signal is CtrlC ==> r@ == "Received Ctrl+C, starting graceful shutdown"@,
        signal is Terminate ==> r@ == "Received terminate signal, starting graceful shutdown"@,
{
    match signal {
        ShutdownSignal::CtrlC => "Received Ctrl+C, starting graceful shutdown",
        ShutdownSignal::Terminate => "Received terminate signal, starting graceful shutdown",
    }
}

} // verus!
