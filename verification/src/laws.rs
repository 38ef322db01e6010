//! What holds of the server as a whole.

use vstd::prelude::*;
use vstd::utf8::{encode_utf8, encode_utf8_decode_utf8};
use crate::config::{default_request_id_headers, ServerConfig};
use crate::cors::{
    cors_policy, header_text, usable_origins, usable_origins_push, AllowedView, CORS_MAX_AGE_SECS,
};
use crate::exchange::{
    asked, awaited, concluded, fits, refused, AnswerView, InputView, PendingView, RouterReplyView,
};
use crate::handlers::{
    not_found, param_value, post_head, remove_worker_outcome, url_required, worker_listing,
    worker_url, RouterCallView,
};
use crate::json::json_object_tells_its_values;
use crate::logging::logging_settings;
use crate::message::{Method, BAD_REQUEST, OK};
use crate::routes::{
    all_endpoints, every_endpoint_is_routed, method_of, path_of, paths_are_distinct, route_to,
    routes_to, Endpoint, RouteView,
};
use crate::startup::{
    action_in, first_phase, layer_steps, next_phase, planned_app,
    planned_layers, reach, reports_on, route_steps, ActionView, BuildStepView, Event, LayerView,
    Phase, Reach, StartupError, Taker,
};

verus! {

/// The phase that a server is at after some events.
pub open spec fn phase_after<W, D, M, E>(
    config: ServerConfig<W, D, M>,
    logging_initialized: bool,
    events: Seq<Event<E>>,
) -> Phase<E> {
    if events.len() == 0 {
        first_phase(config, logging_initialized)
    } else {
        next_phase(config, events.last())
    }
}

/// Whether each event reports on the work of the phase that it finds the server at.
pub open spec fn is_run<W, D, M, E>(
    config: ServerConfig<W, D, M>,
    logging_initialized: bool,
    events: Seq<Event<E>>,
) -> bool
    decreases events.len(),
{
    events.len() > 0 ==> {
        &&& is_run(config, logging_initialized, events.drop_last())
        &&& reports_on(
            events.last(),
            phase_after(config, logging_initialized, events.drop_last()),
        )
    }
}

/// The phases of a server that comes up and serves, in their order. What is not configured, or
/// was done before in the process, is left out.
#[verifier::opaque]
pub open spec fn script<W, D, M, E>(
    config: ServerConfig<W, D, M>,
    logging_initialized: bool,
) -> Seq<Phase<E>> {
    let logging: Seq<Phase<E>> = if logging_initialized {
        seq![]
    } else {
        seq![Phase::InitLogging]
    };
    let metrics: Seq<Phase<E>> = if config.has_metrics() {
        seq![Phase::StartMetrics]
    } else {
        seq![]
    };
    let discovery: Seq<Phase<E>> = if config.has_discovery() {
        seq![Phase::StartDiscovery]
    } else {
        seq![]
    };
    logging + metrics + seq![Phase::BuildClient, Phase::CreateRouter] + discovery + seq![
        Phase::BuildApp,
        Phase::Bind,
        Phase::Serve,
    ]
}

/// Whether an event ends the startup with an error.
pub open spec fn is_fatal<E>(event: Event<E>) -> bool {
    match event {
        Event::RouterCreated(result) => result is Err,
        Event::Bound(result) => result is Err,
        Event::Served(result) => result is Err,
        _ => false,
    }
}

proof fn script_step<W, D, M, E>(
    config: ServerConfig<W, D, M>,
    logging_initialized: bool,
    n: int,
    event: Event<E>,
)
    requires
        0 <= n < script::<W, D, M, E>(config, logging_initialized).len(),
        reports_on(event, script::<W, D, M, E>(config, logging_initialized)[n]),
    ensures
        is_fatal(event) ==> next_phase(config, event) is Done && next_phase(config, event)->0 is Err,
        !is_fatal(event) && n + 1 < script::<W, D, M, E>(config, logging_initialized).len()
            ==> next_phase(config, event) == script::<W, D, M, E>(config, logging_initialized)[n
            + 1],
        !is_fatal(event) && n + 1 == script::<W, D, M, E>(config, logging_initialized).len()
            ==> next_phase(config, event) == Phase::<E>::Done(Ok(())),
{
    reveal(script);
    let phases = script::<W, D, M, E>(config, logging_initialized);
    let a: int = if logging_initialized {
        0
    } else {
        1
    };
    let b: int = if config.has_metrics() {
        a + 1
    } else {
        a
    };
    let c: int = if config.has_discovery() {
        b + 3
    } else {
        b + 2
    };
    assert(phases.len() == c + 3);
    assert(!logging_initialized ==> phases[0] == Phase::<E>::InitLogging);
    assert(config.has_metrics() ==> phases[a] == Phase::<E>::StartMetrics);
    assert(phases[b] == Phase::<E>::BuildClient);
    assert(phases[b + 1] == Phase::<E>::CreateRouter);
    assert(config.has_discovery() ==> phases[b + 2] == Phase::<E>::StartDiscovery);
    assert(phases[c] == Phase::<E>::BuildApp);
    assert(phases[c + 1] == Phase::<E>::Bind);
    assert(phases[c + 2] == Phase::<E>::Serve);
}

proof fn script_start<W, D, M, E>(config: ServerConfig<W, D, M>, logging_initialized: bool)
    ensures
        script::<W, D, M, E>(config, logging_initialized).len() > 0,
        script::<W, D, M, E>(config, logging_initialized)[0] == first_phase::<W, D, M, E>(
            config,
            logging_initialized,
        ),
{
    reveal(script);
}

/// A server goes through the phases of its script one by one, each once, for as long as nothing
/// fatal happens. A fatal event ends it at once, whatever is left of the script; the end of the
/// script ends it well.
pub proof fn startup_follows_its_script<W, D, M, E>(
    config: ServerConfig<W, D, M>,
    logging_initialized: bool,
    events: Seq<Event<E>>,
)
    requires
        is_run(config, logging_initialized, events),
    ensures
        events.len() <= script::<W, D, M, E>(config, logging_initialized).len(),
        forall|i: int| 0 <= i < events.len() - 1 ==> !is_fatal(#[trigger] events[i]),
        (events.len() == 0 || !is_fatal(events.last())) && events.len() < script::<W, D, M, E>(
            config,
            logging_initialized,
        ).len() ==> phase_after(config, logging_initialized, events) == script::<W, D, M, E>(
            config,
            logging_initialized,
        )[events.len() as int],
        events.len() > 0 && is_fatal(events.last()) ==> phase_after(
            config,
            logging_initialized,
            events,
        ) is Done && phase_after(config, logging_initialized, events)->0 is Err,
        events.len() > 0 && !is_fatal(events.last()) && events.len() == script::<W, D, M, E>(
            config,
            logging_initialized,
        ).len() ==> phase_after(config, logging_initialized, events) == Phase::<E>::Done(Ok(())),
    decreases events.len(),
{
    script_start::<W, D, M, E>(config, logging_initialized);
    if events.len() > 0 {
        let before = events.drop_last();
        startup_follows_its_script(config, logging_initialized, before);
        let n = before.len() as int;
        assert(n > 0 ==> !is_fatal(before.last())) by {
            if n > 0 && is_fatal(before.last()) {
                assert(phase_after(config, logging_initialized, before) is Done);
            }
        }
        script_step(config, logging_initialized, n, events.last());
        assert forall|i: int| 0 <= i < events.len() - 1 implies !is_fatal(#[trigger] events[i]) by {
            assert(events[i] == before[i]);
        }
    }
}

/// A server ends with an error only as one of its parts did, and passes the error on.
pub proof fn startup_fails_as_its_parts_do<W, D, M, E>(
    config: ServerConfig<W, D, M>,
    logging_initialized: bool,
    events: Seq<Event<E>>,
    error: StartupError<E>,
)
    requires
        is_run(config, logging_initialized, events),
        phase_after(config, logging_initialized, events) == Phase::Done(Err(error)),
    ensures
        events.len() > 0,
        events.last() == match error {
            StartupError::Router(message) => Event::RouterCreated(Err(message)),
            StartupError::Bind(cause) => Event::Bound(Err(cause)),
            StartupError::Serve(cause) => Event::Served(Err(cause)),
        },
{
}

/// Whether service discovery could be started makes no difference to what comes next.
pub proof fn discovery_is_optional<W, D, M, E>(config: ServerConfig<W, D, M>, started: bool)
    ensures
        next_phase::<W, D, M, E>(config, Event::DiscoveryStarted(started)) == Phase::<E>::BuildApp,
        !config.has_discovery() ==> next_phase::<W, D, M, E>(config, Event::RouterCreated(Ok(())))
            == Phase::<E>::BuildApp,
{
}

/// The logger is set up before all else, once, and only where that was not done before in the
/// process.
pub proof fn logging_is_set_up_once<W, D, M, E>(
    config: ServerConfig<W, D, M>,
    logging_initialized: bool,
    events: Seq<Event<E>>,
)
    requires
        is_run(config, logging_initialized, events),
    ensures
        phase_after(config, logging_initialized, events) is InitLogging <==> !logging_initialized
            && events.len() == 0,
{
}

/// One server of a process: its configuration, and what happened while it came up and served.
pub struct ServerRun<W, D, M, E> {
    pub config: ServerConfig<W, D, M>,
    pub events: Seq<Event<E>>,
}

/// Whether servers came up in one process, in the order in which they began. `flags[i]` is what
/// the process knew of its logger when the server at `i` began: nothing at first, and from then on
/// that it is set up, as each server leaves it. How far each server got, and how it ended, is open.
pub open spec fn is_process<W, D, M, E>(
    servers: Seq<ServerRun<W, D, M, E>>,
    flags: Seq<bool>,
) -> bool {
    &&& servers.len() == flags.len()
    &&& flags.len() > 0 ==> !flags[0]
    &&& forall|i: int| 0 < i < flags.len() ==> #[trigger] flags[i]
    &&& forall|i: int|
        0 <= i < servers.len() ==> is_run(
            (#[trigger] servers[i]).config,
            flags[i],
            servers[i].events,
        )
}

/// Over all the servers of a process the logger is set up exactly once: by the first to begin, as
/// its first step, and with its log settings. No later server does so, however the first one
/// ended.
pub proof fn logging_is_set_up_once_in_a_process<W, D, M, E>(
    servers: Seq<ServerRun<W, D, M, E>>,
    flags: Seq<bool>,
)
    requires
        is_process(servers, flags),
        servers.len() > 0,
    ensures
        forall|i: int, k: int|
            0 <= i < servers.len() && 0 <= k <= servers[i].events.len() ==> (#[trigger] phase_after(
                servers[i].config,
                flags[i],
                servers[i].events.take(k),
            ) is InitLogging <==> i == 0 && k == 0),
        action_in(
            servers[0].config,
            phase_after(servers[0].config, flags[0], servers[0].events.take(0)),
        ) == ActionView::<W, D, M>::InitLogging(
            logging_settings(
                servers[0].config.log_dir.deep_view(),
                servers[0].config.log_level.deep_view(),
            ),
        ),
{
    assert forall|i: int, k: int|
        0 <= i < servers.len() && 0 <= k <= servers[i].events.len() implies (#[trigger] phase_after(
        servers[i].config,
        flags[i],
        servers[i].events.take(k),
    ) is InitLogging <==> i == 0 && k == 0) by {
        assert(is_run(servers[i].config, flags[i], servers[i].events));
        assert(flags[i] == (i > 0));
        let events = servers[i].events.take(k);
        if k > 0 {
            assert(events.last() == servers[i].events[k - 1]);
        }
    }
}

proof fn reach_of_routes(routes: Seq<RouteView>, path: Seq<char>)
    ensures
        reach(route_steps(routes), path).layers == Seq::<LayerView>::empty(),
        match reach(route_steps(routes), path).taker {
            Taker::Route(route) => routes.contains(route) && route.path == path,
            Taker::Nobody => forall|i: int|
                0 <= i < routes.len() ==> (#[trigger] routes[i]).path != path,
            Taker::Fallback(_) => false,
        },
    decreases routes.len(),
{
    if routes.len() > 0 {
        let front = routes.drop_last();
        let last = routes.len() - 1;
        assert(route_steps(routes).drop_last() =~= route_steps(front));
        reach_of_routes(front, path);
        if routes[last].path != path {
            match reach(route_steps(front), path).taker {
                Taker::Route(route) => {
                    let i = choose|i: int| 0 <= i < front.len() && front[i] == route;
                    assert(routes[i] == route);
                },
                _ => {
                    assert forall|i: int| 0 <= i < routes.len() implies (
                    #[trigger] routes[i]).path != path by {
                        if i < last {
                            assert(front[i] == routes[i]);
                        }
                    }
                },
            }
        }
    }
}

proof fn reach_within_layer(steps: Seq<BuildStepView>, layer: LayerView, path: Seq<char>)
    ensures
        reach(steps.push(BuildStepView::Layer(layer)), path).taker == reach(steps, path).taker,
        reach(steps.push(BuildStepView::Layer(layer)), path).layers == reach(
            steps,
            path,
        ).layers.push(layer),
{
    assert(steps.push(BuildStepView::Layer(layer)).drop_last() =~= steps);
}

proof fn reach_of_plan<W, D, M>(config: ServerConfig<W, D, M>, path: Seq<char>)
    ensures
        reach(planned_app(config), path) == {
            let inner = reach(route_steps(routes_to(all_endpoints())), path);
            if inner.taker is Route {
                Reach { taker: inner.taker, layers: planned_layers(config) }
            } else {
                Reach { taker: Taker::Fallback(not_found()), layers: Seq::empty() }
            }
        },
{
    let routed = route_steps(routes_to(all_endpoints()));
    let layers = planned_layers(config);
    let inner = reach(routed, path);
    reach_of_routes(routes_to(all_endpoints()), path);
    let s1 = routed.push(BuildStepView::Layer(layers[0]));
    let s2 = s1.push(BuildStepView::Layer(layers[1]));
    let s3 = s2.push(BuildStepView::Layer(layers[2]));
    let s4 = s3.push(BuildStepView::Layer(layers[3]));
    reach_within_layer(routed, layers[0], path);
    reach_within_layer(s1, layers[1], path);
    reach_within_layer(s2, layers[2], path);
    reach_within_layer(s3, layers[3], path);
    assert(reach(s4, path).layers =~= layers);
    assert(s4 =~= routed + layer_steps(layers));
    assert(planned_app(config) =~= s4.push(BuildStepView::Fallback(not_found())));
    assert(planned_app(config).drop_last() =~= s4);
}

/// A request on the path of an endpoint is taken by the route to it, whatever the configuration,
/// and passes all the layers: the rules for other origins first, then the request ID, then
/// logging, and the limit on bodies last.
pub proof fn routes_are_layered<W, D, M>(config: ServerConfig<W, D, M>, endpoint: Endpoint)
    ensures
        reach(planned_app(config), path_of(endpoint)).taker == Taker::Route(route_to(endpoint)),
        reach(planned_app(config), path_of(endpoint)).layers == planned_layers(config),
        planned_layers(config).len() == 4,
        planned_layers(config)[3] is Cors,
        planned_layers(config)[2] == LayerView::RequestId(config.id_headers()),
        planned_layers(config)[1] is Logging,
        planned_layers(config)[0] == LayerView::BodyLimit(config.max_payload_size),
{
    let routes = routes_to(all_endpoints());
    let path = path_of(endpoint);
    reach_of_plan(config, path);
    reach_of_routes(routes, path);
    every_endpoint_is_routed(endpoint);
    let i = choose|i: int| 0 <= i < routes.len() && routes[i] == route_to(endpoint);
    assert(routes[i].path == path);
    match reach(route_steps(routes), path).taker {
        Taker::Route(route) => {
            let j = choose|j: int| 0 <= j < routes.len() && routes[j] == route;
            assert(route == route_to(all_endpoints()[j]));
            if all_endpoints()[j] != endpoint {
                paths_are_distinct(all_endpoints()[j], endpoint);
            }
        },
        _ => {},
    }
}

/// What a request on a path asks of the router, with the input that its endpoint takes.
pub open spec fn asked_on<J>(
    steps: Seq<BuildStepView>,
    path: Seq<char>,
    input: InputView<J>,
) -> Option<RouterCallView<J>> {
    match reach(steps, path).taker {
        Taker::Route(route) => asked(route.endpoint, input),
        _ => None,
    }
}

/// What a request asks of the router by its method too. `None` stands for a method that no route
/// takes; `HEAD` stands for `GET`.
pub open spec fn asked_by<J>(
    steps: Seq<BuildStepView>,
    method: Option<Method>,
    path: Seq<char>,
    input: InputView<J>,
) -> Option<RouterCallView<J>> {
    match reach(steps, path).taker {
        Taker::Route(route) => if method == Some(route.method) {
            asked(route.endpoint, input)
        } else {
            None
        },
        _ => None,
    }
}

/// A request on the path of an endpoint, by the method that the endpoint takes, asks of the router
/// what the endpoint does. By any other method it asks nothing, though the path is still taken by
/// the route and not by the fallback.
pub proof fn other_methods_ask_nothing<W, D, M, J>(
    config: ServerConfig<W, D, M>,
    method: Option<Method>,
    endpoint: Endpoint,
    input: InputView<J>,
)
    ensures
        reach(planned_app(config), path_of(endpoint)).taker is Route,
        method == Some(method_of(endpoint)) ==> asked_by(
            planned_app(config),
            method,
            path_of(endpoint),
            input,
        ) == asked(endpoint, input),
        method != Some(method_of(endpoint)) ==> asked_by(
            planned_app(config),
            method,
            path_of(endpoint),
            input,
        ) is None,
{
    routes_are_layered(config, endpoint);
}

/// A request on a path that leads to no endpoint, by any method, is answered with an empty
/// `404 Not Found`, by nothing but the fallback: it passes no layer, and the router is asked nothing.
pub proof fn other_paths_are_not_found<W, D, M, J>(
    config: ServerConfig<W, D, M>,
    method: Option<Method>,
    path: Seq<char>,
    input: InputView<J>,
)
    requires
        forall|endpoint: Endpoint| path != #[trigger] path_of(endpoint),
    ensures
        reach(planned_app(config), path).taker == Taker::Fallback(not_found()),
        reach(planned_app(config), path).layers == Seq::<LayerView>::empty(),
        asked_on(planned_app(config), path, input) is None,
        asked_by(planned_app(config), method, path, input) is None,
{
    let routes = routes_to(all_endpoints());
    reach_of_plan(config, path);
    reach_of_routes(routes, path);
    match reach(route_steps(routes), path).taker {
        Taker::Route(route) => {
            let j = choose|j: int| 0 <= j < routes.len() && routes[j] == route;
            assert(route == route_to(all_endpoints()[j]));
            assert(path != path_of(all_endpoints()[j]));
        },
        _ => {},
    }
}

/// No two endpoints ask the same of the router.
pub proof fn endpoints_share_no_call<J>(
    a: Endpoint,
    a_input: InputView<J>,
    b: Endpoint,
    b_input: InputView<J>,
)
    requires
        asked(a, a_input) is Some,
        asked(a, a_input) == asked(b, b_input),
    ensures
        a == b,
{
}

/// Whether a call changes which workers the router knows.
pub open spec fn changes_workers<J>(call: RouterCallView<J>) -> bool {
    call is AddWorker || call is RemoveWorker
}

/// Only a request to add or to remove a worker changes the workers, by that one call for the
/// worker that it names; and a request is answered without asking the router only if it is one of
/// these and names none.
pub proof fn only_worker_requests_change_workers<J>(endpoint: Endpoint, input: InputView<J>)
    requires
        fits(input, endpoint),
    ensures
        asked(endpoint, input) matches Some(call) ==> (changes_workers(call) <==> endpoint
            is AddWorker || endpoint is RemoveWorker),
        endpoint is AddWorker ==> (worker_url(input->Params_0) matches Some(url) ==> asked(
            endpoint,
            input,
        ) == Some(RouterCallView::<J>::AddWorker(url))),
        endpoint is RemoveWorker ==> (worker_url(input->Params_0) matches Some(url) ==> asked(
            endpoint,
            input,
        ) == Some(RouterCallView::<J>::RemoveWorker(url))),
        asked(endpoint, input) is None <==> (endpoint is AddWorker || endpoint is RemoveWorker)
            && worker_url(input->Params_0) is None,
{
}

/// Of a sequence of requests for the list of workers, each asks the router for its URLs and for
/// nothing else, which changes no worker, and is answered with the URLs that the router gave to
/// this very request, whatever it gave to those before.
pub proof fn listings_are_fresh<J, R>(snapshots: Seq<Seq<Seq<char>>>)
    ensures
        asked::<J>(Endpoint::ListWorkers, InputView::Nothing) == Some(
            RouterCallView::<J>::WorkerUrls,
        ),
        !changes_workers(RouterCallView::<J>::WorkerUrls),
        awaited::<J>(Endpoint::ListWorkers, InputView::Nothing) == PendingView::Listed,
        forall|i: int|
            0 <= i < snapshots.len() ==> #[trigger] concluded::<R>(
                awaited::<J>(Endpoint::ListWorkers, InputView::Nothing),
                RouterReplyView::Urls(snapshots[i]),
            ) == AnswerView::<R>::Own(worker_listing(snapshots[i])),
{
}

/// What the router responds to a request that is relayed is the answer, as it is.
pub proof fn relayed_responses_are_untouched<J, R>(
    endpoint: Endpoint,
    input: InputView<J>,
    response: R,
)
    requires
        !(endpoint is AddWorker || endpoint is RemoveWorker || endpoint is ListWorkers),
    ensures
        concluded(awaited(endpoint, input), RouterReplyView::Response(response))
            == AnswerView::Relayed(response),
{
}

/// Only an empty list of origins opens the server to all. A list with no usable entry closes it
/// to every other origin. Credentials are allowed in no case, and the answer to a preflight
/// request is kept equally long in all.
pub proof fn only_an_empty_list_allows_any_origin(origins: Seq<Seq<char>>)
    ensures
        cors_policy(origins).origins is Any <==> origins.len() == 0,
        cors_policy(origins).methods is Any <==> origins.len() == 0,
        cors_policy(origins).headers is Any <==> origins.len() == 0,
        cors_policy(origins).exposed_headers is Any <==> origins.len() == 0,
        !cors_policy(origins).allow_credentials,
        cors_policy(origins).max_age_secs == CORS_MAX_AGE_SECS,
        origins.len() > 0 && (forall|i: int|
            0 <= i < origins.len() ==> !header_text(#[trigger] origins[i]))
            ==> cors_policy(origins).origins == AllowedView::Only(Seq::<Seq<u8>>::empty()),
{
    if origins.len() > 0 && (forall|i: int|
        0 <= i < origins.len() ==> !header_text(#[trigger] origins[i])) {
        no_usable_origin(origins);
    }
}

proof fn no_usable_origin(origins: Seq<Seq<char>>)
    requires
        forall|i: int| 0 <= i < origins.len() ==> !header_text(#[trigger] origins[i]),
    ensures
        usable_origins(origins) == Seq::<Seq<u8>>::empty(),
    decreases origins.len(),
{
    if origins.len() == 0 {
        reveal(Seq::filter);
    } else {
        let front = origins.drop_last();
        assert forall|i: int| 0 <= i < front.len() implies !header_text(#[trigger] front[i]) by {
            assert(front[i] == origins[i]);
        }
        no_usable_origin(front);
        assert(origins =~= front.push(origins.last()));
        assert(!header_text(origins[origins.len() - 1]));
        usable_origins_push(front, origins.last());
    }
}

/// An origin may talk to the server exactly if it is on the list and can be the value of a
/// header.
pub proof fn listed_origins_are_allowed(origins: Seq<Seq<char>>, origin: Seq<char>)
    requires
        origins.len() > 0,
    ensures
        cors_policy(origins).origins matches AllowedView::Only(list) && (list.contains(
            encode_utf8(origin),
        ) <==> origins.contains(origin) && header_text(origin)),
{
    usable_origins_contain(origins, origin);
}

proof fn usable_origins_contain(origins: Seq<Seq<char>>, origin: Seq<char>)
    ensures
        usable_origins(origins).contains(encode_utf8(origin)) <==> origins.contains(origin)
            && header_text(origin),
    decreases origins.len(),
{
    let bytes = usable_origins(origins);
    if origins.len() == 0 {
        reveal(Seq::filter);
    } else {
        let front = origins.drop_last();
        let last = origins.last();
        let front_bytes = usable_origins(front);
        assert(origins =~= front.push(last));
        usable_origins_push(front, last);
        usable_origins_contain(front, origin);
        encode_utf8_decode_utf8(origin);
        encode_utf8_decode_utf8(last);
        assert(origins.contains(origin) <==> front.contains(origin) || last == origin) by {
            assert(origins[origins.len() - 1] == last);
            if front.contains(origin) {
                let i = choose|i: int| 0 <= i < front.len() && front[i] == origin;
                assert(origins[i] == origin);
            }
        }
        if header_text(last) {
            assert(bytes.contains(encode_utf8(origin)) <==> front_bytes.contains(
                encode_utf8(origin),
            ) || encode_utf8(last) == encode_utf8(origin)) by {
                assert(bytes[bytes.len() - 1] == encode_utf8(last));
                if front_bytes.contains(encode_utf8(origin)) {
                    let i = choose|i: int|
                        0 <= i < front_bytes.len() && front_bytes[i] == encode_utf8(origin);
                    assert(bytes[i] == encode_utf8(origin));
                }
            }
        }
    }
}

/// Where origins are listed, pages of these origins can read the ID that the server gives to a
/// request by default.
pub proof fn default_request_id_is_exposed(origins: Seq<Seq<char>>)
    requires
        origins.len() > 0,
    ensures
        cors_policy(origins).exposed_headers matches AllowedView::Only(list) && list.len() == 1
            && list[0] == default_request_id_headers()[0],
{
}

/// What counts of a query parameter that is given more than once is its last value; parameters of
/// other names do not matter.
pub proof fn last_value_counts(
    params: Seq<(Seq<char>, Seq<char>)>,
    name: Seq<char>,
    other: Seq<char>,
    value: Seq<char>,
)
    ensures
        param_value(params.push((other, value)), name) == if other == name {
            Some(value)
        } else {
            param_value(params, name)
        },
{
    assert(params.push((other, value)).drop_last() =~= params);
}

/// A parameter has a value exactly if some pair has its name, and then the value of one of these.
pub proof fn named_parameters_are_found(params: Seq<(Seq<char>, Seq<char>)>, name: Seq<char>)
    ensures
        param_value(params, name) is Some <==> exists|i: int|
            0 <= i < params.len() && (#[trigger] params[i]).0 == name,
        param_value(params, name) matches Some(value) ==> params.contains((name, value)),
    decreases params.len(),
{
    if params.len() > 0 {
        let front = params.drop_last();
        let last = params.len() - 1;
        named_parameters_are_found(front, name);
        if params[last].0 == name {
            assert(params[last] == (name, params[last].1));
        } else if param_value(front, name) is Some {
            let i = choose|i: int| 0 <= i < front.len() && (#[trigger] front[i]).0 == name;
            assert(params[i] == front[i]);
            let value = param_value(front, name)->0;
            let j = choose|j: int| 0 <= j < front.len() && front[j] == (name, value);
            assert(params[j] == (name, value));
        } else {
            assert forall|i: int| 0 <= i < params.len() implies (#[trigger] params[i]).0 != name by {
                if i < last {
                    assert(front[i] == params[i]);
                }
            }
        }
    }
}

/// A request to add or to remove a worker that names none is answered with `400 Bad Request`: one
/// to add says what is missing, one to remove says nothing. One to remove that names a worker is
/// carried out.
pub proof fn worker_requests_need_a_url(params: Seq<(Seq<char>, Seq<char>)>)
    ensures
        refused(Endpoint::AddWorker) == url_required(),
        refused(Endpoint::RemoveWorker) == remove_worker_outcome(None),
        refused(Endpoint::AddWorker).status == BAD_REQUEST,
        refused(Endpoint::RemoveWorker).status == BAD_REQUEST,
        remove_worker_outcome(worker_url(params)).status == if worker_url(params) is Some {
            OK
        } else {
            BAD_REQUEST
        },
{
}

/// Removal names the worker that was removed.
pub proof fn removal_names_the_worker(url: Seq<char>, other: Seq<char>)
    requires
        remove_worker_outcome(Some(url)) == remove_worker_outcome(Some(other)),
    ensures
        url == other,
{
    let intro = "Successfully removed worker: "@;
    assert((intro + url).skip(intro.len() as int) =~= url);
    assert((intro + other).skip(intro.len() as int) =~= other);
}

/// The listing tells which workers there are, and in what order.
pub proof fn listing_tells_the_workers(urls: Seq<Seq<char>>, others: Seq<Seq<char>>)
    requires
        worker_listing(urls) == worker_listing(others),
    ensures
        urls == others,
{
    json_object_tells_its_values("urls"@, urls, others);
}

/// A request to generate is relayed with its body, under the method and the path that it came in
/// by.
pub proof fn generation_keeps_its_route<J>(json_body: J)
    ensures
        asked(Endpoint::Generate, InputView::Json(json_body)) == Some(
            RouterCallView::Generate(post_head(path_of(Endpoint::Generate)), json_body),
        ),
        asked(Endpoint::ChatCompletions, InputView::Json(json_body)) == Some(
            RouterCallView::Chat(post_head(path_of(Endpoint::ChatCompletions)), json_body),
        ),
        asked(Endpoint::Completions, InputView::Json(json_body)) == Some(
            RouterCallView::Completion(post_head(path_of(Endpoint::Completions)), json_body),
        ),
        post_head(path_of(Endpoint::Generate)).method == method_of(Endpoint::Generate),
        post_head(path_of(Endpoint::ChatCompletions)).method == method_of(
            Endpoint::ChatCompletions,
        ),
        post_head(path_of(Endpoint::Completions)).method == method_of(Endpoint::Completions),
{
}

} // verus!
