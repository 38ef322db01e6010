//! What each operation comes to, on the plain values that go in and come out: the fields of the
//! configuration, the pairs of a query, the characters of a text.

use vstd::prelude::*;
use vstd::utf8::encode_utf8;
use crate::config::{address_parts, whole_mebibytes, ServerConfig};
use crate::cors::{
    cors_policy, has_wildcard, header_char, header_text, usable_origins, usable_origins_push,
    Allowed, AllowedView, CorsPolicy, CorsPolicyView,
};
use crate::exchange::{
    asked, awaited, concluded, fits, kind_for, refused, settles, AnswerView, Input, InputKind,
    InputView, PendingView, RouterReply, RouterReplyView,
};
use crate::handlers::{
    add_worker_outcome, not_found, remove_worker_outcome, text_result, url_required,
    worker_listing, worker_url, RouterCallView,
};
use crate::json::{
    escaped, escaped_char, json_object_reads_back, json_object_text, json_string, read_object,
};
use crate::laws::{listed_origins_are_allowed, routes_are_layered};
use crate::logging::{
    is_rejected, level_of_setting, level_of_text, numeral_level, uppercase, without_plus,
    word_level, LogLevel,
};
use crate::message::{Body, BodyView, Method, RequestHeadView, Response};
use crate::routes::{
    admin_endpoints, all_endpoints, method_of, path_of, protected_endpoints, public_endpoints,
    routes_to, Endpoint,
};
use crate::startup::{
    action_in, first_phase, lists_wildcard, next_phase, planned_app, reach, reports_on, result_of,
    shutdown_notice, Action, AppPlan, BuildStep, BuildStepView, Event, Layer, LayerView, Phase,
    ShutdownSignal, StartupError, Taker,
};
use crate::state::max_permits;
use crate::text::{
    all_digits, ascii_upper, ascii_upper_char, decimal, decimal_reads_back, decimal_value,
    is_ascii_text, is_digit, is_numeral_of, same_ignoring_ascii_case,
};

verus! {

// ---- Coming up ----

/// Once there is a worker router, service discovery is started if and only if it is configured and
/// enabled; otherwise the server is put together at once. Nothing else in the configuration
/// matters.
pub proof fn discovery_follows_its_setting<W, D, M, E>(config: ServerConfig<W, D, M>)
    ensures
        next_phase::<W, D, M, E>(config, Event::RouterCreated(Ok(()))) is StartDiscovery <==> (
        config.service_discovery_config matches Some(discovery) && discovery.enabled),
        next_phase::<W, D, M, E>(config, Event::RouterCreated(Ok(()))) is BuildApp <==> !(
        config.service_discovery_config matches Some(discovery) && discovery.enabled),
{
}

/// Two configurations that agree on service discovery go on alike once there is a worker router,
/// however they differ in the rest: with metrics or without, with any origins, limits and
/// timeouts.
pub proof fn discovery_depends_on_nothing_else<W, D, M, V, N, E>(
    config: ServerConfig<W, D, M>,
    other: ServerConfig<V, D, N>,
    event: Event<E>,
)
    requires
        config.service_discovery_config == other.service_discovery_config,
        event is RouterCreated,
    ensures
        next_phase(config, event) == next_phase(other, event),
{
}

/// Metrics are started if and only if they are configured, as soon as the logger is set up; then,
/// and otherwise at once, the client is built. A server that finds the logger set up begins there.
pub proof fn metrics_follow_their_setting<W, D, M, E>(config: ServerConfig<W, D, M>)
    ensures
        next_phase::<W, D, M, E>(config, Event::LoggingReady) is StartMetrics
            <==> config.prometheus_config is Some,
        next_phase::<W, D, M, E>(config, Event::LoggingReady) is BuildClient
            <==> config.prometheus_config is None,
        next_phase::<W, D, M, E>(config, Event::MetricsStarted) is BuildClient,
        first_phase::<W, D, M, E>(config, true) == next_phase::<W, D, M, E>(
            config,
            Event::LoggingReady,
        ),
        first_phase::<W, D, M, E>(config, false) is InitLogging,
{
}

/// What comes after the other events is the same under every configuration.
pub proof fn the_rest_comes_in_order<W, D, M, E>(
    config: ServerConfig<W, D, M>,
    event: Event<E>,
)
    ensures
        event is ClientBuilt ==> next_phase(config, event) is CreateRouter,
        event is DiscoveryStarted ==> next_phase(config, event) is BuildApp,
        event is AppBuilt ==> next_phase(config, event) is Bind,
        event matches Event::Bound(Ok(_)) ==> next_phase(config, event) is Serve,
        event matches Event::Served(Ok(_)) ==> next_phase(config, event) == Phase::<E>::Done(
            Ok(()),
        ),
        event matches Event::RouterCreated(Err(message)) ==> next_phase(config, event)
            == Phase::<E>::Done(Err(StartupError::Router(message))),
        event matches Event::Bound(Err(cause)) ==> next_phase(config, event) == Phase::Done(
            Err(StartupError::Bind(cause)),
        ),
        event matches Event::Served(Err(cause)) ==> next_phase(config, event) == Phase::Done(
            Err(StartupError::Serve(cause)),
        ),
{
}

/// An event reports on a phase exactly if it says what came of that phase's work; on a server that
/// is done there is nothing to report.
pub proof fn each_phase_has_its_report<E>(event: Event<E>, phase: Phase<E>)
    ensures
        reports_on(event, phase) <==> match event {
            Event::LoggingReady => phase is InitLogging,
            Event::MetricsStarted => phase is StartMetrics,
            Event::ClientBuilt => phase is BuildClient,
            Event::RouterCreated(_) => phase is CreateRouter,
            Event::DiscoveryStarted(_) => phase is StartDiscovery,
            Event::AppBuilt => phase is BuildApp,
            Event::Bound(_) => phase is Bind,
            Event::Served(_) => phase is Serve,
        },
{
}

/// Each action carries the settings of the configuration that it needs, as they stand there.
pub proof fn actions_carry_their_settings<'a, W, D, M, E>(
    config: ServerConfig<W, D, M>,
    phase: Phase<E>,
    action: Action<'a, W, D, M>,
)
    requires
        action@ == action_in(config, phase),
    ensures
        phase is StartMetrics ==> (config.prometheus_config matches Some(metrics) ==> (action
            matches Action::StartMetrics(given) && *given == metrics)),
        phase is BuildClient ==> (action matches Action::BuildClient(settings)
            && settings.pool_idle_timeout_secs == 50 && settings.timeout_secs
            == config.request_timeout_secs),
        phase is CreateRouter ==> (action matches Action::CreateRouter(router, limit) && *router
            == config.router_config && limit == config.router_config.max_concurrent_requests),
        phase is StartDiscovery ==> (config.service_discovery_config matches Some(discovery) ==> (
        action matches Action::StartDiscovery(given) && *given == discovery)),
        phase is BuildApp ==> (action matches Action::BuildApp(plan) && plan@ == planned_app(
            config,
        )),
        phase is Bind ==> (action matches Action::Bind(text) && text@.len() > config.host@.len() + 1
            && text@.take(config.host@.len() as int) == config.host@
            && text@[config.host@.len() as int] == ':' && is_numeral_of(
            text@.skip(config.host@.len() as int + 1),
            config.port as nat,
        )),
        phase is Serve ==> action is Serve,
        phase is Done ==> action is Finish,
{
    address_parts(config.host@, config.port);
}

/// The logger is set up in plain, coloured text, under the name of the router, for all targets, in
/// the directory of the configuration and at its level, with `Info` where it gives none or one
/// that stands for no level.
pub proof fn logger_carries_its_settings<'a, W, D, M, E>(
    config: ServerConfig<W, D, M>,
    action: Action<'a, W, D, M>,
)
    requires
        action@ == action_in(config, Phase::<E>::InitLogging),
    ensures
        action matches Action::InitLogging(logging) && !logging.json_format && logging.colorize
            && logging.log_file_name@ == "sgl-router"@ && logging.log_targets is None && (
        config.log_dir matches Some(dir) ==> (logging.log_dir matches Some(given) && given@ == dir@))
            && (config.log_dir is None ==> logging.log_dir is None) && (config.log_level is None
            ==> logging.level is Info) && (config.log_level matches Some(text) ==> match level_of_text(
            uppercase(text@),
        ) {
            Some(level) => logging.level == level,
            None => logging.level is Info,
        }),
{
}

/// A server has a result if and only if it is done, and then the one it is done with.
pub proof fn only_what_is_done_has_a_result<E>(phase: Phase<E>)
    ensures
        result_of(phase) is Some <==> phase is Done,
        result_of(phase) matches Some(result) ==> phase == Phase::Done(result),
{
}

/// A signal to stop is logged under its own name.
pub proof fn signals_are_named(signal: ShutdownSignal)
    ensures
        signal is CtrlC ==> shutdown_notice(signal)
            == "Received Ctrl+C, starting graceful shutdown"@,
        signal is Terminate ==> shutdown_notice(signal)
            == "Received terminate signal, starting graceful shutdown"@,
{
}

// ---- The configuration ----

/// The headers that are searched for a request ID are those of the configuration, and the usual
/// four where it gives none.
pub proof fn id_headers_are_as_configured<W, D, M>(config: ServerConfig<W, D, M>)
    ensures
        config.request_id_headers matches Some(headers) ==> config.id_headers().len()
            == headers@.len() && forall|i: int|
            0 <= i < headers@.len() ==> #[trigger] config.id_headers()[i] == headers@[i]@,
        config.request_id_headers is None ==> config.id_headers() == seq![
            "x-request-id"@,
            "x-correlation-id"@,
            "x-trace-id"@,
            "request-id"@,
        ],
{
}

/// What is to be started, and the timeouts, are read off the fields.
pub proof fn settings_are_read_off<W, D, M>(config: ServerConfig<W, D, M>)
    ensures
        config.has_metrics() <==> config.prometheus_config is Some,
        config.has_discovery() <==> (config.service_discovery_config matches Some(discovery)
            && discovery.enabled),
        config.client().pool_idle_timeout_secs == 50,
        config.client().timeout_secs == config.request_timeout_secs,
        lists_wildcard(config) <==> exists|i: int|
            0 <= i < config.router_config.cors_allowed_origins@.len() && (
            #[trigger] config.router_config.cors_allowed_origins@[i])@ == "*"@,
{
    let origins = config.router_config.cors_allowed_origins;
    let texts = origins.deep_view();
    if lists_wildcard(config) {
        let i = choose|i: int| 0 <= i < texts.len() && texts[i] == "*"@;
        assert(origins@[i]@ == "*"@);
    }
    if exists|i: int| 0 <= i < origins@.len() && (#[trigger] origins@[i])@ == "*"@ {
        let i = choose|i: int| 0 <= i < origins@.len() && (#[trigger] origins@[i])@ == "*"@;
        assert(texts[i] == "*"@);
    }
}

/// Whole mebibytes hold no more bytes than there are, and one more would.
pub proof fn mebibytes_are_whole(bytes: nat)
    ensures
        whole_mebibytes(bytes) * 1024 * 1024 <= bytes,
        bytes < (whole_mebibytes(bytes) + 1) * 1024 * 1024,
{
}

/// A numeral is read digit by digit, from the left.
pub proof fn numerals_are_read_from_the_left(digits: Seq<char>, digit: char)
    requires
        '0' <= digit && digit <= '9',
    ensures
        decimal_value(Seq::<char>::empty()) == 0,
        decimal_value(digits.push(digit)) == 10 * decimal_value(digits) + (digit as int - 48),
{
    assert(digits.push(digit).drop_last() =~= digits);
}

/// A numeral is written in digits that stand for the number, without a zero before others.
pub proof fn numerals_are_plain(n: nat)
    ensures
        forall|i: int| 0 <= i < decimal(n).len() ==> 48 <= (#[trigger] decimal(n)[i]) as int && (
        decimal(n)[i]) as int <= 57,
        decimal(n).len() > 0,
        decimal(n).len() > 1 ==> decimal(n)[0] != '0',
        decimal_value(decimal(n)) == n,
{
    decimal_reads_back(n);
}

/// The number of requests under way at once is bounded by an eighth of the largest `usize`.
pub proof fn permits_are_bounded()
    ensures
        max_permits() == usize::MAX as int / 8,
{
}

// ---- Other origins ----

/// Whether a text holds no ASCII control character but the tab.
pub open spec fn free_of_controls(text: Seq<char>) -> bool {
    forall|i: int|
        0 <= i < text.len() ==> (#[trigger] text[i]) as int == 9 || (32 <= text[i] as int
            && text[i] as int != 127)
}

proof fn header_text_is_free_of_controls(text: Seq<char>)
    ensures
        header_text(text) <==> free_of_controls(text),
{
    if free_of_controls(text) {
        assert forall|i: int| 0 <= i < text.len() implies header_char(
            #[trigger] text[i],
        ) by {}
    }
    if header_text(text) {
        assert forall|i: int| 0 <= i < text.len() implies (#[trigger] text[i]) as int == 9 || (32
            <= text[i] as int && text[i] as int != 127) by {
            assert(header_char(text[i]));
        }
    }
}

/// Under every list of origins that is not empty, however long it is and whatever it holds, the
/// methods are `GET`, `POST` and `OPTIONS`, a page may send a content type and an authorization,
/// and it may read the request ID. Credentials are never allowed, and a preflight answer is kept
/// for an hour.
pub proof fn listed_origins_get_the_same_rules(origins: Seq<Seq<char>>)
    requires
        origins.len() > 0,
    ensures
        cors_policy(origins).methods == AllowedView::Only(seq!["GET"@, "POST"@, "OPTIONS"@]),
        cors_policy(origins).headers == AllowedView::Only(seq!["content-type"@, "authorization"@]),
        cors_policy(origins).exposed_headers == AllowedView::Only(seq!["x-request-id"@]),
        cors_policy(origins).origins is Only,
        !cors_policy(origins).allow_credentials,
        cors_policy(origins).max_age_secs == 3600,
{
}

/// Two lists that are not empty differ in nothing but the origins they allow.
pub proof fn lists_differ_in_origins_only(origins: Seq<Seq<char>>, others: Seq<Seq<char>>)
    requires
        origins.len() > 0,
        others.len() > 0,
    ensures
        cors_policy(origins) == (CorsPolicyView {
            origins: cors_policy(origins).origins,
            ..cors_policy(others)
        }),
{
}

/// An empty list allows everything but credentials.
pub proof fn an_empty_list_allows_everything()
    ensures
        cors_policy(Seq::<Seq<char>>::empty()).origins is Any,
        cors_policy(Seq::<Seq<char>>::empty()).methods is Any,
        cors_policy(Seq::<Seq<char>>::empty()).headers is Any,
        cors_policy(Seq::<Seq<char>>::empty()).exposed_headers is Any,
        !cors_policy(Seq::<Seq<char>>::empty()).allow_credentials,
        cors_policy(Seq::<Seq<char>>::empty()).max_age_secs == 3600,
{
}

/// The name of a method in a request.
pub open spec fn method_name(method: Method) -> Seq<char> {
    if method is Post {
        "POST"@
    } else {
        "GET"@
    }
}

/// The method of every route is allowed to every origin that is allowed at all.
pub proof fn every_route_can_be_used(origins: Seq<Seq<char>>, endpoint: Endpoint)
    ensures
        match cors_policy(origins).methods {
            AllowedView::Any => true,
            AllowedView::Only(list) => list.contains(method_name(method_of(endpoint))),
        },
{
    if origins.len() > 0 {
        let list = seq!["GET"@, "POST"@, "OPTIONS"@];
        assert(list[0] == "GET"@);
        assert(list[1] == "POST"@);
    }
}

/// Where origins are listed, an origin is allowed if and only if it is on the list and holds no
/// ASCII control character but the tab.
pub proof fn origins_are_allowed_by_the_list(origins: Seq<Seq<char>>, origin: Seq<char>)
    requires
        origins.len() > 0,
    ensures
        cors_policy(origins).origins matches AllowedView::Only(list) && (list.contains(
            encode_utf8(origin),
        ) <==> free_of_controls(origin) && exists|i: int|
            0 <= i < origins.len() && #[trigger] origins[i] == origin),
{
    listed_origins_are_allowed(origins, origin);
    header_text_is_free_of_controls(origin);
}

/// The allowed origins keep the order of the list: one more at its end comes last, or is left out
/// if it holds a control character, and changes nothing before it.
pub proof fn allowed_origins_keep_their_order(origins: Seq<Seq<char>>, origin: Seq<char>)
    ensures
        usable_origins(Seq::<Seq<char>>::empty()) == Seq::<Seq<u8>>::empty(),
        free_of_controls(origin) ==> usable_origins(origins.push(origin)) == usable_origins(
            origins,
        ).push(encode_utf8(origin)),
        !free_of_controls(origin) ==> usable_origins(origins.push(origin)) == usable_origins(
            origins,
        ),
        cors_policy(origins.push(origin)).origins == AllowedView::Only(
            usable_origins(origins.push(origin)),
        ),
{
    reveal(Seq::filter);
    assert(usable_origins(Seq::<Seq<char>>::empty()) =~= Seq::<Seq<u8>>::empty());
    usable_origins_push(origins, origin);
    header_text_is_free_of_controls(origin);
}

/// A list of which every entry can be a header value is allowed as it stands.
pub proof fn clean_lists_are_kept(origins: Seq<Seq<char>>)
    requires
        forall|i: int| 0 <= i < origins.len() ==> free_of_controls(#[trigger] origins[i]),
    ensures
        usable_origins(origins).len() == origins.len(),
        forall|i: int|
            0 <= i < origins.len() ==> #[trigger] usable_origins(origins)[i] == encode_utf8(
                origins[i],
            ),
    decreases origins.len(),
{
    if origins.len() == 0 {
        reveal(Seq::filter);
    } else {
        let front = origins.drop_last();
        assert forall|i: int| 0 <= i < front.len() implies free_of_controls(#[trigger] front[i]) by {
            assert(front[i] == origins[i]);
        }
        clean_lists_are_kept(front);
        assert(free_of_controls(origins[origins.len() - 1]));
        allowed_origins_keep_their_order(front, origins.last());
        assert(front.push(origins.last()) =~= origins);
        assert forall|i: int| 0 <= i < origins.len() implies #[trigger] usable_origins(origins)[i]
            == encode_utf8(origins[i]) by {
            if i < front.len() {
                assert(usable_origins(front)[i] == encode_utf8(front[i]));
            }
        }
    }
}

/// The wildcard is the text of one asterisk, and counts wherever it stands on a list.
pub proof fn wildcards_are_asterisks(origins: Seq<Seq<char>>)
    ensures
        has_wildcard(origins) <==> exists|i: int|
            0 <= i < origins.len() && #[trigger] origins[i] == seq!['*'],
{
    reveal_strlit("*");
    assert("*"@ =~= seq!['*']);
}

/// The rules hold what their contents say.
pub proof fn rules_are_read_off(policy: CorsPolicy, origins: Seq<Seq<char>>)
    requires
        policy@ == cors_policy(origins),
    ensures
        origins.len() == 0 ==> policy.origins is Any && policy.methods is Any && policy.headers
            is Any && policy.exposed_headers is Any,
        origins.len() > 0 ==> {
            &&& policy.origins matches Allowed::Only(list) && list.deep_view() == usable_origins(
                origins,
            )
            &&& policy.methods matches Allowed::Only(list) && list@.len() == 3 && list@[0]@ == "GET"@
                && list@[1]@ == "POST"@ && list@[2]@ == "OPTIONS"@
            &&& policy.headers matches Allowed::Only(list) && list@.len() == 2 && list@[0]@
                == "content-type"@ && list@[1]@ == "authorization"@
            &&& policy.exposed_headers matches Allowed::Only(list) && list@.len() == 1 && list@[0]@
                == "x-request-id"@
        },
        !policy.allow_credentials,
        policy.max_age_secs == 3600,
{
    if origins.len() > 0 {
        let methods = policy.methods->Only_0;
        let headers = policy.headers->Only_0;
        let exposed = policy.exposed_headers->Only_0;
        assert(policy@.methods == AllowedView::Only(methods.deep_view()));
        assert(policy@.headers == AllowedView::Only(headers.deep_view()));
        assert(policy@.exposed_headers == AllowedView::Only(exposed.deep_view()));
        assert(methods.deep_view().len() == 3);
        assert(headers.deep_view().len() == 2);
        assert(exposed.deep_view().len() == 1);
        assert(methods@[0]@ == methods.deep_view()[0]);
        assert(methods@[1]@ == methods.deep_view()[1]);
        assert(methods@[2]@ == methods.deep_view()[2]);
        assert(headers@[0]@ == headers.deep_view()[0]);
        assert(headers@[1]@ == headers.deep_view()[1]);
        assert(exposed@[0]@ == exposed.deep_view()[0]);
    }
}

// ---- Routes and layers ----

/// Every endpoint has the path and the method that it is known by.
pub proof fn endpoints_are_where_they_belong(endpoint: Endpoint)
    ensures
        endpoint is Generate ==> path_of(endpoint) == "/generate"@,
        endpoint is ChatCompletions ==> path_of(endpoint) == "/v1/chat/completions"@,
        endpoint is Completions ==> path_of(endpoint) == "/v1/completions"@,
        endpoint is Liveness ==> path_of(endpoint) == "/liveness"@,
        endpoint is Readiness ==> path_of(endpoint) == "/readiness"@,
        endpoint is Health ==> path_of(endpoint) == "/health"@,
        endpoint is HealthGenerate ==> path_of(endpoint) == "/health_generate"@,
        endpoint is Models ==> path_of(endpoint) == "/v1/models"@,
        endpoint is ModelInfo ==> path_of(endpoint) == "/get_model_info"@,
        endpoint is ServerInfo ==> path_of(endpoint) == "/get_server_info"@,
        endpoint is AddWorker ==> path_of(endpoint) == "/add_worker"@,
        endpoint is RemoveWorker ==> path_of(endpoint) == "/remove_worker"@,
        endpoint is ListWorkers ==> path_of(endpoint) == "/list_workers"@,
        endpoint is FlushCache ==> path_of(endpoint) == "/flush_cache"@,
        endpoint is Loads ==> path_of(endpoint) == "/get_loads"@,
        method_of(endpoint) is Post <==> endpoint is Generate || endpoint is ChatCompletions
            || endpoint is Completions || endpoint is AddWorker || endpoint is RemoveWorker
            || endpoint is FlushCache,
{
}

/// The routes are grouped by what they are for: to generate, to report, and to manage the workers.
pub proof fn routes_are_grouped_by_purpose(endpoint: Endpoint)
    ensures
        protected_endpoints().contains(endpoint) <==> endpoint is Generate || endpoint
            is ChatCompletions || endpoint is Completions,
        admin_endpoints().contains(endpoint) <==> endpoint is AddWorker || endpoint is RemoveWorker
            || endpoint is ListWorkers || endpoint is FlushCache || endpoint is Loads,
        public_endpoints().contains(endpoint) <==> !protected_endpoints().contains(endpoint)
            && !admin_endpoints().contains(endpoint),
        protected_endpoints().len() + public_endpoints().len() + admin_endpoints().len() == 15,
{
    assert(protected_endpoints()[0] is Generate);
    assert(protected_endpoints()[1] is ChatCompletions);
    assert(protected_endpoints()[2] is Completions);
    assert(public_endpoints()[0] is Liveness);
    assert(public_endpoints()[1] is Readiness);
    assert(public_endpoints()[2] is Health);
    assert(public_endpoints()[3] is HealthGenerate);
    assert(public_endpoints()[4] is Models);
    assert(public_endpoints()[5] is ModelInfo);
    assert(public_endpoints()[6] is ServerInfo);
    assert(admin_endpoints()[0] is AddWorker);
    assert(admin_endpoints()[1] is RemoveWorker);
    assert(admin_endpoints()[2] is ListWorkers);
    assert(admin_endpoints()[3] is FlushCache);
    assert(admin_endpoints()[4] is Loads);
}

/// On the path of an endpoint the request is taken by the route that leads there, under every
/// configuration.
pub proof fn paths_lead_to_their_endpoints<W, D, M>(
    config: ServerConfig<W, D, M>,
    endpoint: Endpoint,
)
    ensures
        reach(planned_app(config), path_of(endpoint)).taker matches Taker::Route(route)
            && route.endpoint == endpoint && route.path == path_of(endpoint) && (route.method
            is Post <==> endpoint is Generate || endpoint is ChatCompletions || endpoint
            is Completions || endpoint is AddWorker || endpoint is RemoveWorker || endpoint
            is FlushCache),
{
    routes_are_layered(config, endpoint);
}

/// The outermost layer around every route keeps to the rules for exactly the origins of the
/// configuration: with none, everything is allowed; otherwise an origin is allowed if and only if
/// it is on that list and holds no ASCII control character but the tab.
pub proof fn outermost_layer_guards_the_configured_origins<W, D, M>(
    config: ServerConfig<W, D, M>,
    endpoint: Endpoint,
    origin: Seq<char>,
)
    ensures
        reach(planned_app(config), path_of(endpoint)).layers.len() == 4,
        reach(planned_app(config), path_of(endpoint)).layers[3] matches LayerView::Cors(policy) && {
            &&& !policy.allow_credentials
            &&& policy.max_age_secs == 3600
            &&& if config.router_config.cors_allowed_origins@.len() == 0 {
                policy.origins is Any && policy.methods is Any && policy.headers is Any
                    && policy.exposed_headers is Any
            } else {
                &&& policy.origins matches AllowedView::Only(list) && (list.contains(
                    encode_utf8(origin),
                ) <==> free_of_controls(origin) && exists|i: int|
                    0 <= i < config.router_config.cors_allowed_origins@.len() && (
                    #[trigger] config.router_config.cors_allowed_origins@[i])@ == origin)
                &&& policy.methods == AllowedView::Only(seq!["GET"@, "POST"@, "OPTIONS"@])
                &&& policy.headers == AllowedView::Only(seq!["content-type"@, "authorization"@])
                &&& policy.exposed_headers == AllowedView::Only(seq!["x-request-id"@])
            }
        },
{
    routes_are_layered(config, endpoint);
    let origins = config.router_config.cors_allowed_origins;
    let texts = origins.deep_view();
    if origins@.len() > 0 {
        origins_are_allowed_by_the_list(texts, origin);
        assert((exists|i: int| 0 <= i < texts.len() && #[trigger] texts[i] == origin) <==> (
        exists|i: int| 0 <= i < origins@.len() && (#[trigger] origins@[i])@ == origin)) by {
            if exists|i: int| 0 <= i < texts.len() && #[trigger] texts[i] == origin {
                let i = choose|i: int| 0 <= i < texts.len() && #[trigger] texts[i] == origin;
                assert(origins@[i]@ == origin);
            }
            if exists|i: int| 0 <= i < origins@.len() && (#[trigger] origins@[i])@ == origin {
                let i = choose|i: int| 0 <= i < origins@.len() && (#[trigger] origins@[i])@ == origin;
                assert(texts[i] == origin);
            }
        }
    }
}

/// The outermost layer holds the configured origins in their order, where each can be a header
/// value, however many there are.
pub proof fn outermost_layer_keeps_the_order<W, D, M>(
    config: ServerConfig<W, D, M>,
    endpoint: Endpoint,
)
    requires
        config.router_config.cors_allowed_origins@.len() > 0,
        forall|i: int|
            0 <= i < config.router_config.cors_allowed_origins@.len() ==> free_of_controls(
                (#[trigger] config.router_config.cors_allowed_origins@[i])@,
            ),
    ensures
        reach(planned_app(config), path_of(endpoint)).layers[3] matches LayerView::Cors(policy) && (
        policy.origins matches AllowedView::Only(list) && list.len()
            == config.router_config.cors_allowed_origins@.len() && forall|i: int|
            0 <= i < list.len() ==> #[trigger] list[i] == encode_utf8(
                config.router_config.cors_allowed_origins@[i]@,
            )),
{
    routes_are_layered(config, endpoint);
    let texts = config.router_config.cors_allowed_origins.deep_view();
    assert forall|i: int| 0 <= i < texts.len() implies free_of_controls(#[trigger] texts[i]) by {
        assert(texts[i] == config.router_config.cors_allowed_origins@[i]@);
    }
    clean_lists_are_kept(texts);
}

/// Inside it, from the outside in: the request ID, from the configured headers or the usual four;
/// logging; and the limit on bodies, which is the configured one.
pub proof fn inner_layers_follow_their_settings<W, D, M>(
    config: ServerConfig<W, D, M>,
    endpoint: Endpoint,
)
    ensures
        reach(planned_app(config), path_of(endpoint)).layers[2] matches LayerView::RequestId(
            headers,
        ) && match config.request_id_headers {
            Some(configured) => headers.len() == configured@.len() && forall|i: int|
                0 <= i < headers.len() ==> #[trigger] headers[i] == configured@[i]@,
            None => headers == seq![
                "x-request-id"@,
                "x-correlation-id"@,
                "x-trace-id"@,
                "request-id"@,
            ],
        },
        reach(planned_app(config), path_of(endpoint)).layers[1] is Logging,
        reach(planned_app(config), path_of(endpoint)).layers[0] == LayerView::BodyLimit(
            config.max_payload_size,
        ),
{
    routes_are_layered(config, endpoint);
    id_headers_are_as_configured(config);
}

/// A plan takes its steps in this order: the routes, the four layers from the inside out, and at
/// last the answer to what no route takes, an empty `404 Not Found`.
pub proof fn plans_are_read_off<W, D, M>(config: ServerConfig<W, D, M>, plan: AppPlan)
    requires
        plan@ == planned_app(config),
    ensures
        plan.steps@.len() == 20,
        forall|i: int| 0 <= i < 15 ==> (#[trigger] plan.steps@[i]) is Route,
        plan.steps@[15] == BuildStep::Layer(Layer::BodyLimit(config.max_payload_size)),
        plan.steps@[16] == BuildStep::Layer(Layer::Logging),
        plan.steps@[17] matches BuildStep::Layer(Layer::RequestId(headers)) && headers.deep_view()
            == config.id_headers(),
        plan.steps@[18] matches BuildStep::Layer(Layer::Cors(policy)) && policy@ == cors_policy(
            config.router_config.cors_allowed_origins.deep_view(),
        ),
        plan.steps@[19] matches BuildStep::Fallback(response) && response.status == 404
            && response.body is Empty,
{
    assert(plan@.len() == 20);
    assert forall|i: int| 0 <= i < 15 implies (#[trigger] plan.steps@[i]) is Route by {
        assert(plan@[i] == BuildStepView::Route(routes_to(all_endpoints())[i]));
    }
    assert(plan@[15] == BuildStepView::Layer(LayerView::BodyLimit(config.max_payload_size)));
    assert(plan@[16] == BuildStepView::Layer(LayerView::Logging));
    assert(plan@[17] == BuildStepView::Layer(LayerView::RequestId(config.id_headers())));
    assert(plan@[18] == BuildStepView::Layer(
        LayerView::Cors(cors_policy(config.router_config.cors_allowed_origins.deep_view())),
    ));
    assert(plan@[19] == BuildStepView::Fallback(not_found()));
}

// ---- Requests about workers ----

/// The worker that a request names is the value of the last pair of its query that is named `url`,
/// whatever the value is and however long; it names none if and only if no pair has that name.
pub proof fn the_last_url_names_the_worker(params: Seq<(Seq<char>, Seq<char>)>)
    ensures
        worker_url(params) is None <==> (forall|i: int|
            0 <= i < params.len() ==> (#[trigger] params[i]).0 != "url"@),
        worker_url(params) matches Some(url) ==> exists|i: int|
            {
                &&& 0 <= i < params.len()
                &&& (#[trigger] params[i]).0 == "url"@
                &&& params[i].1 == url
                &&& forall|j: int| i < j < params.len() ==> (#[trigger] params[j]).0 != "url"@
            },
    decreases params.len(),
{
    if params.len() > 0 {
        let front = params.drop_last();
        let last = params.len() - 1;
        the_last_url_names_the_worker(front);
        if params[last].0 == "url"@ {
            assert(worker_url(params) == Some(params[last].1));
        } else {
            assert(worker_url(params) == worker_url(front));
            if worker_url(front) is Some {
                let url = worker_url(front)->0;
                let i = choose|i: int|
                    {
                        &&& 0 <= i < front.len()
                        &&& (#[trigger] front[i]).0 == "url"@
                        &&& front[i].1 == url
                        &&& forall|j: int| i < j < front.len() ==> (#[trigger] front[j]).0 != "url"@
                    };
                assert(params[i] == front[i]);
                assert forall|j: int| i < j < params.len() implies (#[trigger] params[j]).0
                    != "url"@ by {
                    if j < last {
                        assert(params[j] == front[j]);
                    }
                }
            } else {
                assert forall|i: int| 0 <= i < params.len() implies (#[trigger] params[i]).0
                    != "url"@ by {
                    if i < last {
                        assert(front[i] == params[i]);
                    }
                }
            }
        }
    }
}

/// A pair named `url` at the end of a query settles which worker is named, any other pair changes
/// nothing, and an empty query names none.
pub proof fn one_more_pair_settles_the_worker(
    params: Seq<(Seq<char>, Seq<char>)>,
    name: Seq<char>,
    value: Seq<char>,
)
    ensures
        worker_url(Seq::<(Seq<char>, Seq<char>)>::empty()) is None,
        name == "url"@ ==> worker_url(params.push((name, value))) == Some(value),
        name != "url"@ ==> worker_url(params.push((name, value))) == worker_url(params),
{
    assert(params.push((name, value)).drop_last() =~= params);
}

/// A request to add a worker asks the router for just that, with the value of the last pair named
/// `url`, whatever it is. Where no pair is named so, the router is asked nothing and the answer is
/// a `400 Bad Request` that says what is missing.
pub proof fn adding_asks_for_the_named_worker<J>(params: Seq<(Seq<char>, Seq<char>)>, i: int)
    ensures
        0 <= i < params.len() && params[i].0 == "url"@ && (forall|j: int|
            i < j < params.len() ==> (#[trigger] params[j]).0 != "url"@) ==> asked(
            Endpoint::AddWorker,
            InputView::<J>::Params(params),
        ) == Some(RouterCallView::<J>::AddWorker(params[i].1)),
        asked(Endpoint::AddWorker, InputView::<J>::Params(params)) is None <==> (forall|j: int|
            0 <= j < params.len() ==> (#[trigger] params[j]).0 != "url"@),
        awaited(Endpoint::AddWorker, InputView::<J>::Params(params)) is Added,
        refused(Endpoint::AddWorker).status == 400,
        refused(Endpoint::AddWorker).body == BodyView::Text(
            "Worker URL required. Provide 'url' query parameter"@,
        ),
{
    the_last_url_names_the_worker(params);
    if 0 <= i < params.len() && params[i].0 == "url"@ && (forall|j: int|
        i < j < params.len() ==> (#[trigger] params[j]).0 != "url"@) {
        let url = worker_url(params)->0;
        let k = choose|k: int|
            {
                &&& 0 <= k < params.len()
                &&& (#[trigger] params[k]).0 == "url"@
                &&& params[k].1 == url
                &&& forall|j: int| k < j < params.len() ==> (#[trigger] params[j]).0 != "url"@
            };
        assert(k == i);
    }
}

/// A request to remove a worker asks the router for just that, with the value of the last pair
/// named `url`, and is answered with `200 OK` and that value. Where no pair is named so, the
/// router is asked nothing and the answer is an empty `400 Bad Request`.
pub proof fn removing_asks_for_the_named_worker<J>(params: Seq<(Seq<char>, Seq<char>)>, i: int)
    ensures
        0 <= i < params.len() && params[i].0 == "url"@ && (forall|j: int|
            i < j < params.len() ==> (#[trigger] params[j]).0 != "url"@) ==> asked(
            Endpoint::RemoveWorker,
            InputView::<J>::Params(params),
        ) == Some(RouterCallView::<J>::RemoveWorker(params[i].1)) && (awaited(
            Endpoint::RemoveWorker,
            InputView::<J>::Params(params),
        ) matches PendingView::Removed(response) && response.status == 200 && response.body
            == BodyView::Text("Successfully removed worker: "@ + params[i].1)),
        asked(Endpoint::RemoveWorker, InputView::<J>::Params(params)) is None <==> (forall|j: int|
            0 <= j < params.len() ==> (#[trigger] params[j]).0 != "url"@),
        refused(Endpoint::RemoveWorker).status == 400,
        refused(Endpoint::RemoveWorker).body is Empty,
{
    the_last_url_names_the_worker(params);
    adding_asks_for_the_named_worker::<J>(params, i);
}

/// Adding and removing name the same worker for the same query.
pub proof fn adding_and_removing_agree<J>(params: Seq<(Seq<char>, Seq<char>)>, url: Seq<char>)
    ensures
        asked(Endpoint::AddWorker, InputView::<J>::Params(params)) == Some(
            RouterCallView::<J>::AddWorker(url),
        ) <==> asked(Endpoint::RemoveWorker, InputView::<J>::Params(params)) == Some(
            RouterCallView::<J>::RemoveWorker(url),
        ),
{
}

/// What the router said of a worker to add is the answer, word for word: with `200 OK` where it
/// was added, and with `400 Bad Request` where not.
pub proof fn additions_are_answered_in_the_routers_words<R>(text: Seq<char>)
    ensures
        concluded::<R>(PendingView::Added, RouterReplyView::Added(Ok(text))) matches AnswerView::Own(
            response,
        ) && response.status == 200 && response.body == BodyView::Text(text),
        concluded::<R>(PendingView::Added, RouterReplyView::Added(Err(text)))
            matches AnswerView::Own(response) && response.status == 400 && response.body
            == BodyView::Text(text),
        add_worker_outcome(Ok(text)).status == 200,
        add_worker_outcome(Err(text)).status == 400,
        add_worker_outcome(Ok(text)).body == BodyView::Text(text),
        add_worker_outcome(Err(text)).body == BodyView::Text(text),
{
}

/// A removal is answered with `200 OK` and the worker that was named; without one, with an empty
/// `400 Bad Request`.
pub proof fn removals_are_answered_by_the_named_worker(url: Seq<char>)
    ensures
        remove_worker_outcome(Some(url)).status == 200,
        remove_worker_outcome(Some(url)).body == BodyView::Text(
            "Successfully removed worker: "@ + url,
        ),
        remove_worker_outcome(None).status == 400,
        remove_worker_outcome(None).body is Empty,
        url_required().status == 400,
        url_required().body == BodyView::Text(
            "Worker URL required. Provide 'url' query parameter"@,
        ),
        not_found().status == 404,
        not_found().body is Empty,
{
}

/// A listing has the status `200 OK`, however many workers there are, and its body is a JSON
/// object whose one member `urls` reads back as the workers in their order.
pub proof fn listings_read_back<R>(urls: Seq<Seq<char>>)
    ensures
        worker_listing(urls).status == 200,
        worker_listing(urls).body matches BodyView::Json(text) && read_object(text) == Some(
            ("urls"@, urls),
        ),
        concluded::<R>(PendingView::Listed, RouterReplyView::Urls(urls)) matches AnswerView::Own(
            response,
        ) && response.status == 200 && (response.body matches BodyView::Json(text) && read_object(
            text,
        ) == Some(("urls"@, urls))),
{
    json_object_reads_back("urls"@, urls);
}

/// A response that is a listing, or any other of the server's own, holds what its contents say.
pub proof fn responses_are_read_off(response: Response, urls: Seq<Seq<char>>)
    ensures
        response@ == worker_listing(urls) ==> response.status == 200 && (response.body
            matches Body::Json(text) && read_object(text@) == Some(
            ("urls"@, urls),
        )),
        response@ == not_found() ==> response.status == 404 && response.body is Empty,
        response@ == url_required() ==> response.status == 400 && (response.body
            matches Body::Text(text) && text@
            == "Worker URL required. Provide 'url' query parameter"@),
{
    json_object_reads_back("urls"@, urls);
}

/// The pairs of a query, the URLs of a reply and the words of the router are taken as they are.
pub proof fn inputs_are_read_off<J, R>(
    input: Input<J>,
    reply: RouterReply<R>,
    result: Result<String, String>,
)
    ensures
        input matches Input::Params(params) ==> (input@ matches InputView::Params(pairs)
            && pairs.len() == params@.len() && forall|i: int|
            0 <= i < pairs.len() ==> #[trigger] pairs[i] == (params@[i].0@, params@[i].1@)),
        input matches Input::Json(json) ==> input@ == InputView::Json(json),
        input is Nothing ==> input@ is Nothing,
        reply matches RouterReply::Urls(urls) ==> (reply@ matches RouterReplyView::Urls(texts)
            && texts.len() == urls@.len() && forall|i: int|
            0 <= i < texts.len() ==> #[trigger] texts[i] == urls@[i]@),
        reply matches RouterReply::Response(response) ==> reply@ == RouterReplyView::Response(
            response,
        ),
        result matches Ok(text) ==> text_result(result) == Ok::<Seq<char>, Seq<char>>(text@),
        result matches Err(text) ==> text_result(result) == Err::<Seq<char>, Seq<char>>(text@),
{
}

// ---- JSON ----

/// A text without quotes, backslashes and control characters stands for itself in a JSON string.
pub proof fn plain_texts_are_not_escaped(text: Seq<char>)
    requires
        forall|i: int|
            0 <= i < text.len() ==> (#[trigger] text[i]) as int >= 32 && text[i] != '"' && text[i]
                != '\\',
    ensures
        json_string(text) == seq!['"'] + text + seq!['"'],
{
    plain_characters_are_not_escaped(text);
}

proof fn plain_characters_are_not_escaped(text: Seq<char>)
    requires
        forall|i: int|
            0 <= i < text.len() ==> (#[trigger] text[i]) as int >= 32 && text[i] != '"' && text[i]
                != '\\',
    ensures
        escaped(text) == text,
    decreases text.len(),
{
    if text.len() > 0 {
        let rest = text.drop_first();
        assert forall|i: int| 0 <= i < rest.len() implies (#[trigger] rest[i]) as int >= 32
            && rest[i] != '"' && rest[i] != '\\' by {
            assert(rest[i] == text[i + 1]);
        }
        plain_characters_are_not_escaped(rest);
        assert(text[0] as int >= 32);
        assert(escaped_char(text[0]) == seq![text[0]]);
        assert(seq![text[0]] + rest =~= text);
    } else {
        assert(escaped(text) =~= text);
    }
}

/// An object of no values ends in an empty array; one value stands between its brackets.
pub proof fn short_objects_are_plain(key: Seq<char>, value: Seq<char>)
    ensures
        json_object_text(key, Seq::<Seq<char>>::empty()) == seq!['{'] + json_string(key) + seq![
            ':',
            '[',
            ']',
            '}',
        ],
        json_object_text(key, seq![value]) == seq!['{'] + json_string(key) + seq![':', '[']
            + json_string(value) + seq![']', '}'],
{
    assert(json_object_text(key, Seq::<Seq<char>>::empty()) =~= seq!['{'] + json_string(key) + seq![
        ':',
        '[',
        ']',
        '}',
    ]);
}

// ---- Requests that are relayed ----

/// What each relayed request asks of the router: the call of its own name, by `GET /` where it is
/// sent on to a worker without a body, and by `POST` on its own path with its body where it
/// generates.
pub proof fn relayed_requests_ask_their_own_call<J>(json: J)
    ensures
        asked(Endpoint::Liveness, InputView::<J>::Nothing) == Some(RouterCallView::<J>::Liveness),
        asked(Endpoint::Readiness, InputView::<J>::Nothing) == Some(RouterCallView::<J>::Readiness),
        asked(Endpoint::FlushCache, InputView::<J>::Nothing) == Some(
            RouterCallView::<J>::FlushCache,
        ),
        asked(Endpoint::Loads, InputView::<J>::Nothing) == Some(RouterCallView::<J>::WorkerLoads),
        asked(Endpoint::ListWorkers, InputView::<J>::Nothing) == Some(
            RouterCallView::<J>::WorkerUrls,
        ),
        asked(Endpoint::Health, InputView::<J>::Nothing) == Some(
            RouterCallView::<J>::Health((RequestHeadView { method: Method::Get, uri: "/"@ })),
        ),
        asked(Endpoint::HealthGenerate, InputView::<J>::Nothing) == Some(
            RouterCallView::<J>::HealthGenerate(
                (RequestHeadView { method: Method::Get, uri: "/"@ }),
            ),
        ),
        asked(Endpoint::Models, InputView::<J>::Nothing) == Some(
            RouterCallView::<J>::Models((RequestHeadView { method: Method::Get, uri: "/"@ })),
        ),
        asked(Endpoint::ModelInfo, InputView::<J>::Nothing) == Some(
            RouterCallView::<J>::ModelInfo((RequestHeadView { method: Method::Get, uri: "/"@ })),
        ),
        asked(Endpoint::ServerInfo, InputView::<J>::Nothing) == Some(
            RouterCallView::<J>::ServerInfo((RequestHeadView { method: Method::Get, uri: "/"@ })),
        ),
        asked(Endpoint::Generate, InputView::Json(json)) == Some(
            RouterCallView::Generate(
                (RequestHeadView { method: Method::Post, uri: "/generate"@ }),
                json,
            ),
        ),
        asked(Endpoint::ChatCompletions, InputView::Json(json)) == Some(
            RouterCallView::Chat(
                (RequestHeadView { method: Method::Post, uri: "/v1/chat/completions"@ }),
                json,
            ),
        ),
        asked(Endpoint::Completions, InputView::Json(json)) == Some(
            RouterCallView::Completion(
                (RequestHeadView { method: Method::Post, uri: "/v1/completions"@ }),
                json,
            ),
        ),
{
}

/// What an endpoint takes from a request: the body where it generates, the query where it adds or
/// removes a worker, and nothing otherwise.
pub proof fn endpoints_take_what_they_need<J>(endpoint: Endpoint, input: InputView<J>)
    ensures
        fits(input, endpoint) <==> if endpoint is Generate || endpoint is ChatCompletions
            || endpoint is Completions {
            input is Json
        } else if endpoint is AddWorker || endpoint is RemoveWorker {
            input is Params
        } else {
            input is Nothing
        },
        kind_for(endpoint) == InputKind::Json <==> endpoint is Generate || endpoint
            is ChatCompletions || endpoint is Completions,
        kind_for(endpoint) == InputKind::Params <==> endpoint is AddWorker || endpoint
            is RemoveWorker,
{
}

/// What an answer waits for: its own message where a worker is added or removed, the URLs where
/// they are listed, and otherwise the router's response, which is the answer as it is.
pub proof fn answers_wait_for_their_reply<J, R>(
    endpoint: Endpoint,
    input: InputView<J>,
    reply: RouterReplyView<R>,
)
    ensures
        settles(reply, awaited(endpoint, input)) <==> if endpoint is AddWorker {
            reply is Added
        } else if endpoint is RemoveWorker {
            reply is Removed
        } else if endpoint is ListWorkers {
            reply is Urls
        } else {
            reply is Response
        },
        !(endpoint is AddWorker || endpoint is RemoveWorker || endpoint is ListWorkers) ==> (reply
            matches RouterReplyView::Response(response) ==> concluded(
            awaited(endpoint, input),
            reply,
        ) == AnswerView::Relayed(response)),
        endpoint is RemoveWorker ==> (awaited(endpoint, input) matches PendingView::Removed(ready)
            && concluded(awaited(endpoint, input), reply) == AnswerView::<R>::Own(ready)),
{
}

// ---- Log levels ----

/// Whether two characters are one letter, in whatever case, or the same character.
pub open spec fn same_letter(c: char, d: char) -> bool {
    ||| c == d
    ||| 'a' <= c && c <= 'z' && c as int == d as int + 32
    ||| 'a' <= d && d <= 'z' && d as int == c as int + 32
}

/// Whether two texts are alike letter by letter.
pub open spec fn same_word(text: Seq<char>, word: Seq<char>) -> bool {
    &&& text.len() == word.len()
    &&& forall|i: int| 0 <= i < text.len() ==> same_letter(#[trigger] text[i], word[i])
}

/// Whether a text is a number in digits, with zeros or one plus sign before it or not.
pub open spec fn says_number(text: Seq<char>, n: nat) -> bool {
    ||| is_digits_of(text, n)
    ||| text.len() > 0 && text[0] == '+' && is_digits_of(text.skip(1), n)
}

/// Whether a text holds digits that stand for a number.
pub open spec fn is_digits_of(text: Seq<char>, n: nat) -> bool {
    &&& text.len() > 0
    &&& forall|i: int| 0 <= i < text.len() ==> '0' <= #[trigger] text[i] && text[i] <= '9'
    &&& decimal_value(text) == n
}

proof fn same_word_ignores_case(text: Seq<char>, word: Seq<char>)
    ensures
        same_ignoring_ascii_case(text, word) <==> same_word(text, word),
{
    let a = ascii_upper(text);
    let b = ascii_upper(word);
    if a == b {
        assert(a.len() == text.len() && b.len() == word.len());
        assert forall|i: int| 0 <= i < text.len() implies same_letter(#[trigger] text[i], word[i]) by {
            assert(a[i] == ascii_upper_char(text[i]));
            assert(b[i] == ascii_upper_char(word[i]));
        }
    }
    if same_word(text, word) {
        assert forall|i: int| 0 <= i < a.len() implies #[trigger] a[i] == b[i] by {
            assert(same_letter(text[i], word[i]));
        }
        assert(a =~= b);
    }
}

proof fn numbers_are_said_in_digits(text: Seq<char>)
    ensures
        numeral_level(text) == Some(LogLevel::Error) <==> says_number(text, 1),
        numeral_level(text) == Some(LogLevel::Warn) <==> says_number(text, 2),
        numeral_level(text) == Some(LogLevel::Info) <==> says_number(text, 3),
        numeral_level(text) == Some(LogLevel::Debug) <==> says_number(text, 4),
        numeral_level(text) == Some(LogLevel::Trace) <==> says_number(text, 5),
{
    let digits = without_plus(text);
    if text.len() > 0 && text[0] == '+' {
        assert(digits =~= text.skip(1));
        assert(!is_digit(text[0]));
    }
    if all_digits(digits) {
        assert forall|i: int| 0 <= i < digits.len() implies '0' <= #[trigger] digits[i] && digits[i]
            <= '9' by {
            assert(is_digit(digits[i]));
        }
    } else {
        let i = choose|i: int| 0 <= i < digits.len() && !is_digit(#[trigger] digits[i]);
        assert(!('0' <= digits[i] && digits[i] <= '9'));
    }
}

proof fn words_are_told_apart(text: Seq<char>)
    ensures
        word_level(text) == Some(LogLevel::Error) <==> same_word(text, "error"@),
        word_level(text) == Some(LogLevel::Warn) <==> same_word(text, "warn"@),
        word_level(text) == Some(LogLevel::Info) <==> same_word(text, "info"@),
        word_level(text) == Some(LogLevel::Debug) <==> same_word(text, "debug"@),
        word_level(text) == Some(LogLevel::Trace) <==> same_word(text, "trace"@),
        word_level(text) is Some ==> numeral_level(text) is None,
{
    reveal_strlit("error");
    reveal_strlit("warn");
    reveal_strlit("info");
    reveal_strlit("debug");
    reveal_strlit("trace");
    same_word_ignores_case(text, "error"@);
    same_word_ignores_case(text, "warn"@);
    same_word_ignores_case(text, "info"@);
    same_word_ignores_case(text, "debug"@);
    same_word_ignores_case(text, "trace"@);
    if word_level(text) is Some {
        assert(same_word(text, "error"@) ==> same_letter(text[0], 'e'));
        assert(same_word(text, "warn"@) ==> same_letter(text[0], 'w'));
        assert(same_word(text, "info"@) ==> same_letter(text[0], 'i'));
        assert(same_word(text, "debug"@) ==> same_letter(text[0], 'd'));
        assert(same_word(text, "trace"@) ==> same_letter(text[0], 't'));
        assert(text[0] != '+' && !is_digit(text[0]));
        assert(without_plus(text)[0] == text[0]);
    }
}

/// A text stands for a level if and only if it is the level's name, in whatever case, or its
/// number from 1 to 5, and for no other level then.
pub proof fn levels_go_by_name_and_number(text: Seq<char>)
    ensures
        level_of_text(text) == Some(LogLevel::Error) <==> says_number(text, 1) || same_word(
            text,
            "error"@,
        ),
        level_of_text(text) == Some(LogLevel::Warn) <==> says_number(text, 2) || same_word(
            text,
            "warn"@,
        ),
        level_of_text(text) == Some(LogLevel::Info) <==> says_number(text, 3) || same_word(
            text,
            "info"@,
        ),
        level_of_text(text) == Some(LogLevel::Debug) <==> says_number(text, 4) || same_word(
            text,
            "debug"@,
        ),
        level_of_text(text) == Some(LogLevel::Trace) <==> says_number(text, 5) || same_word(
            text,
            "trace"@,
        ),
{
    numbers_are_said_in_digits(text);
    words_are_told_apart(text);
}

/// The level of a setting is that of its upper-case form, and `Info` where it stands for none or
/// there is no setting.
pub proof fn settings_fall_back_to_info(text: Seq<char>)
    ensures
        level_of_setting(None) is Info,
        level_of_text(uppercase(text)) matches Some(level) ==> level_of_setting(Some(text)) == level,
        level_of_text(uppercase(text)) is None ==> level_of_setting(Some(text)) is Info,
{
}

/// A setting is rejected only if it is there and stands for no level, and then counts as `Info`.
pub proof fn rejected_settings_count_as_info(setting: Option<Seq<char>>)
    ensures
        is_rejected(setting) <==> (setting matches Some(text) && level_of_text(uppercase(text))
            is None),
        is_rejected(setting) ==> level_of_setting(setting) is Info,
{
}

/// ASCII ends at 127.
pub proof fn ascii_texts_are_seven_bit(text: Seq<char>)
    ensures
        is_ascii_text(text) <==> (forall|i: int|
            0 <= i < text.len() ==> (#[trigger] text[i]) as int <= 127),
{
}

} // verus!
