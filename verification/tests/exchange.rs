use sgl_router::exchange::{
    conclude, handle, input_kind, Answer, Handling, Input, InputKind, Pending, RouterReply,
};
use sgl_router::handlers::RouterCall;
use sgl_router::message::{Body, Response};
use sgl_router::routes::{all_routes, Endpoint};

fn params(list: &[(&str, &str)]) -> Input<u8> {
    Input::Params(list.iter().map(|(name, value)| (name.to_string(), value.to_string())).collect())
}

fn asked(endpoint: Endpoint, input: Input<u8>) -> (RouterCall<u8>, Pending) {
    match handle(endpoint, input) {
        Handling::Asked(call, pending) => (call, pending),
        Handling::Answered(_) => panic!("the router was not asked"),
    }
}

fn answered(endpoint: Endpoint, input: Input<u8>) -> Response {
    match handle(endpoint, input) {
        Handling::Answered(response) => response,
        Handling::Asked(_, _) => panic!("the router was asked"),
    }
}

fn own(answer: Option<Answer<&'static str>>) -> Response {
    match answer {
        Some(Answer::Own(response)) => response,
        _ => panic!("the answer is not the server's own"),
    }
}

#[test]
fn each_endpoint_takes_its_kind_of_input() {
    for route in all_routes() {
        let expected = match route.path {
            "/generate" | "/v1/chat/completions" | "/v1/completions" => InputKind::Json,
            "/add_worker" | "/remove_worker" => InputKind::Params,
            _ => InputKind::Nothing,
        };
        assert_eq!(input_kind(route.endpoint), expected);
    }
}

#[test]
fn each_endpoint_asks_its_own() {
    let nothing = |endpoint| asked(endpoint, Input::Nothing);
    assert!(matches!(nothing(Endpoint::Liveness), (RouterCall::Liveness, Pending::Relayed)));
    assert!(matches!(nothing(Endpoint::Readiness), (RouterCall::Readiness, Pending::Relayed)));
    assert!(matches!(nothing(Endpoint::Health), (RouterCall::Health(_), Pending::Relayed)));
    assert!(matches!(
        nothing(Endpoint::HealthGenerate),
        (RouterCall::HealthGenerate(_), Pending::Relayed)
    ));
    assert!(matches!(nothing(Endpoint::Models), (RouterCall::Models(_), Pending::Relayed)));
    assert!(matches!(nothing(Endpoint::ModelInfo), (RouterCall::ModelInfo(_), Pending::Relayed)));
    assert!(matches!(nothing(Endpoint::ServerInfo), (RouterCall::ServerInfo(_), Pending::Relayed)));
    assert!(matches!(nothing(Endpoint::FlushCache), (RouterCall::FlushCache, Pending::Relayed)));
    assert!(matches!(nothing(Endpoint::Loads), (RouterCall::WorkerLoads, Pending::Relayed)));
    assert!(matches!(nothing(Endpoint::ListWorkers), (RouterCall::WorkerUrls, Pending::Listed)));
    assert!(matches!(
        asked(Endpoint::Generate, Input::Json(1)),
        (RouterCall::Generate(head, 1), Pending::Relayed) if head.uri == "/generate"
    ));
    assert!(matches!(
        asked(Endpoint::ChatCompletions, Input::Json(2)),
        (RouterCall::Chat(head, 2), Pending::Relayed) if head.uri == "/v1/chat/completions"
    ));
    assert!(matches!(
        asked(Endpoint::Completions, Input::Json(3)),
        (RouterCall::Completion(head, 3), Pending::Relayed) if head.uri == "/v1/completions"
    ));
}

#[test]
fn worker_requests_without_a_url_ask_nothing() {
    let response = answered(Endpoint::AddWorker, params(&[]));
    assert_eq!(response.status, 400);
    assert!(matches!(response.body, Body::Text(text) if text.starts_with("Worker URL required.")));
    let response = answered(Endpoint::RemoveWorker, params(&[("worker", "http://a")]));
    assert_eq!(response.status, 400);
    assert!(matches!(response.body, Body::Empty));
}

#[test]
fn a_worker_is_added() {
    let (call, pending) = asked(Endpoint::AddWorker, params(&[("url", "http://a")]));
    assert!(matches!(call, RouterCall::AddWorker(url) if url == "http://a"));
    let response = own(conclude(pending, RouterReply::Added(Err("unhealthy".to_string()))));
    assert_eq!(response.status, 400);
    assert!(matches!(response.body, Body::Text(text) if text == "unhealthy"));
}

#[test]
fn a_worker_is_removed() {
    let (call, pending) = asked(Endpoint::RemoveWorker, params(&[("url", "http://a")]));
    assert!(matches!(call, RouterCall::RemoveWorker(url) if url == "http://a"));
    let response = own(conclude(pending, RouterReply::Removed));
    assert_eq!(response.status, 200);
    assert!(matches!(
        response.body,
        Body::Text(text) if text == "Successfully removed worker: http://a"
    ));
}

#[test]
fn listings_are_fresh() {
    for (urls, expected) in [
        (vec!["http://a"], "{\"urls\":[\"http://a\"]}"),
        (vec![], "{\"urls\":[]}"),
        (vec!["http://b", "http://a"], "{\"urls\":[\"http://b\",\"http://a\"]}"),
    ] {
        let (call, pending) = asked(Endpoint::ListWorkers, Input::Nothing);
        assert!(matches!(call, RouterCall::WorkerUrls));
        let urls = urls.iter().map(|url| url.to_string()).collect();
        let response = own(conclude(pending, RouterReply::Urls(urls)));
        assert_eq!(response.status, 200);
        assert!(matches!(response.body, Body::Json(text) if text == expected));
    }
}

#[test]
fn responses_are_relayed_as_they_are() {
    let (_, pending) = asked(Endpoint::Health, Input::Nothing);
    assert!(matches!(
        conclude(pending, RouterReply::Response("healthy")),
        Some(Answer::Relayed("healthy"))
    ));
}

#[test]
fn a_reply_to_something_else_settles_nothing() {
    assert!(conclude(Pending::Relayed, RouterReply::<()>::Removed).is_none());
    assert!(conclude(Pending::Added, RouterReply::Response("healthy")).is_none());
    assert!(conclude(Pending::Listed, RouterReply::<()>::Removed).is_none());
}
