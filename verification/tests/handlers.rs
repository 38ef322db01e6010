use sgl_router::handlers::{
    add_worker, add_worker_response, flush_cache, generate, get_loads, get_model_info,
    get_server_info, health, health_generate, list_workers, liveness, readiness, remove_worker,
    sink_handler, v1_chat_completions, v1_completions, v1_models, RouterCall,
};
use sgl_router::message::{Body, Method, RequestHead, Response};

fn pairs(list: &[(&str, &str)]) -> Vec<(String, String)> {
    list.iter().map(|(name, value)| (name.to_string(), value.to_string())).collect()
}

fn is_text(response: &Response, status: u16, text: &str) -> bool {
    response.status == status && matches!(&response.body, Body::Text(body) if body == text)
}

fn is_empty(response: &Response, status: u16) -> bool {
    response.status == status && matches!(response.body, Body::Empty)
}

fn is_json(response: &Response, text: &str) -> bool {
    response.status == 200 && matches!(&response.body, Body::Json(body) if body == text)
}

fn is_blank(head: &RequestHead) -> bool {
    head.method == Method::Get && head.uri == "/"
}

fn is_post(head: &RequestHead, uri: &str) -> bool {
    head.method == Method::Post && head.uri == uri
}

#[test]
fn unmatched_requests_are_not_found() {
    assert!(is_empty(&sink_handler(), 404));
}

#[test]
fn reports_are_asked_for_with_a_blank_request() {
    assert!(matches!(liveness::<()>(), RouterCall::Liveness));
    assert!(matches!(readiness::<()>(), RouterCall::Readiness));
    assert!(matches!(health::<()>(), RouterCall::Health(head) if is_blank(&head)));
    assert!(matches!(health_generate::<()>(), RouterCall::HealthGenerate(head) if is_blank(&head)));
    assert!(matches!(get_server_info::<()>(), RouterCall::ServerInfo(head) if is_blank(&head)));
    assert!(matches!(v1_models::<()>(), RouterCall::Models(head) if is_blank(&head)));
    assert!(matches!(get_model_info::<()>(), RouterCall::ModelInfo(head) if is_blank(&head)));
    assert!(matches!(flush_cache::<()>(), RouterCall::FlushCache));
    assert!(matches!(get_loads::<()>(), RouterCall::WorkerLoads));
}

#[test]
fn generation_is_relayed_with_its_body() {
    assert!(matches!(
        generate(1),
        RouterCall::Generate(head, 1) if is_post(&head, "/generate")
    ));
    assert!(matches!(
        v1_chat_completions(2),
        RouterCall::Chat(head, 2) if is_post(&head, "/v1/chat/completions")
    ));
    assert!(matches!(
        v1_completions(3),
        RouterCall::Completion(head, 3) if is_post(&head, "/v1/completions")
    ));
}

#[test]
fn relayed_heads_are_what_http_builds() {
    let blank = http::Request::builder().body(()).unwrap();
    assert_eq!(blank.method(), http::Method::GET);
    assert_eq!(blank.uri(), "/");
    let post = http::Request::builder().method("POST").uri("/generate").body(()).unwrap();
    assert_eq!(post.method(), http::Method::POST);
    assert_eq!(post.uri(), "/generate");
}

#[test]
fn adding_needs_a_url() {
    let message = "Worker URL required. Provide 'url' query parameter";
    for params in [pairs(&[]), pairs(&[("URL", "http://a")]), pairs(&[("host", "a"), ("", "b")])] {
        match add_worker(&params) {
            Ok(_) => panic!("a request without a URL was taken"),
            Err(response) => assert!(is_text(&response, 400, message)),
        }
    }
}

#[test]
fn adding_takes_the_last_url() {
    let params = pairs(&[("url", "http://a"), ("x", "y"), ("url", "http://b"), ("z", "url")]);
    assert_eq!(add_worker(&params).unwrap(), "http://b");
    assert_eq!(add_worker(&pairs(&[("url", "")])).unwrap(), "");
}

#[test]
fn adding_answers_as_the_router_did() {
    assert!(is_text(&add_worker_response(Ok("Successfully added worker".to_string())), 200,
        "Successfully added worker"));
    assert!(is_text(&add_worker_response(Err("already there".to_string())), 400, "already there"));
}

#[test]
fn removal_needs_a_url() {
    let (url, response) = remove_worker(&pairs(&[("worker", "http://a")]));
    assert_eq!(url, None);
    assert!(is_empty(&response, 400));
}

#[test]
fn removal_names_the_worker() {
    let (url, response) = remove_worker(&pairs(&[("url", "http://a"), ("url", "http://b:1")]));
    assert_eq!(url.as_deref(), Some("http://b:1"));
    assert!(is_text(&response, 200, "Successfully removed worker: http://b:1"));
}

#[test]
fn listing_is_json() {
    assert!(is_json(&list_workers(&vec![]), "{\"urls\":[]}"));
    let urls = vec!["http://127.0.0.1:18203".to_string(), "http://b".to_string()];
    assert!(is_json(&list_workers(&urls), "{\"urls\":[\"http://127.0.0.1:18203\",\"http://b\"]}"));
}

#[test]
fn listing_escapes_what_json_escapes() {
    let urls = vec!["a\"b\\c\u{8}\t\n\u{c}\r\u{1}\u{1f}/\u{7f}\u{e9}\u{2028}".to_string()];
    assert!(is_json(
        &list_workers(&urls),
        "{\"urls\":[\"a\\\"b\\\\c\\b\\t\\n\\f\\r\\u0001\\u001f/\u{7f}\u{e9}\u{2028}\"]}"
    ));
}

#[test]
fn listing_can_be_read_back() {
    let lists = [
        vec![],
        vec!["".to_string()],
        vec!["a,b".to_string(), "\",\"".to_string(), "\u{0}\u{10ffff}".to_string()],
    ];
    for list in lists {
        match list_workers(&list).body {
            Body::Json(text) => {
                let value: serde_json::Value = serde_json::from_str(&text).unwrap();
                let urls: Vec<String> = serde_json::from_value(value["urls"].clone()).unwrap();
                assert_eq!(urls, list);
            }
            _ => panic!("the listing is not JSON"),
        }
    }
}
