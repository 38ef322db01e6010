use sgl_router::cors::{create_cors_layer, lists_wildcard_origin, Allowed, CorsPolicy};

fn policy(origins: &[&str]) -> CorsPolicy {
    create_cors_layer(&origins.iter().map(|origin| origin.to_string()).collect())
}

fn only<T: Clone>(allowed: &Allowed<T>) -> Vec<T> {
    match allowed {
        Allowed::Only(list) => list.clone(),
        Allowed::Any => panic!("anything is allowed"),
    }
}

#[test]
fn no_origin_on_the_list_opens_the_server() {
    let policy = policy(&[]);
    assert!(matches!(policy.origins, Allowed::Any));
    assert!(matches!(policy.methods, Allowed::Any));
    assert!(matches!(policy.headers, Allowed::Any));
    assert!(matches!(policy.exposed_headers, Allowed::Any));
    assert!(!policy.allow_credentials);
    assert_eq!(policy.max_age_secs, 3600);
}

#[test]
fn listed_origins_are_kept_in_order() {
    let policy = policy(&["https://b.example", "https://a.example", "https://b.example"]);
    assert_eq!(
        only(&policy.origins),
        vec![
            b"https://b.example".to_vec(),
            b"https://a.example".to_vec(),
            b"https://b.example".to_vec(),
        ]
    );
    assert_eq!(only(&policy.methods), vec!["GET", "POST", "OPTIONS"]);
    assert_eq!(only(&policy.headers), vec!["content-type", "authorization"]);
    assert_eq!(only(&policy.exposed_headers), vec!["x-request-id"]);
    assert!(!policy.allow_credentials);
    assert_eq!(policy.max_age_secs, 3600);
}

#[test]
fn unusable_origins_are_left_out() {
    let policy = policy(&["a\nb", "ok", "\u{7f}", "\r", "t\tab", "\u{0}", "caf\u{e9}", "\u{80}", ""]);
    assert_eq!(
        only(&policy.origins),
        vec![
            b"ok".to_vec(),
            b"t\tab".to_vec(),
            "caf\u{e9}".as_bytes().to_vec(),
            "\u{80}".as_bytes().to_vec(),
            vec![],
        ]
    );
}

#[test]
fn a_list_of_unusable_origins_closes_the_server() {
    let policy = policy(&["\n", "a\u{1}"]);
    assert!(only(&policy.origins).is_empty());
    assert_eq!(only(&policy.methods).len(), 3);
}

#[test]
fn admitted_origins_are_header_values() {
    for bytes in only(&policy(&["https://a.example", "\u{2603}", "x\ty"]).origins) {
        assert!(http::HeaderValue::from_bytes(&bytes).is_ok());
    }
}

#[test]
fn header_names_are_those_of_http() {
    let policy = policy(&["https://a.example"]);
    assert_eq!(only(&policy.headers)[0], http::header::CONTENT_TYPE.as_str());
    assert_eq!(only(&policy.headers)[1], http::header::AUTHORIZATION.as_str());
    for method in only(&policy.methods) {
        assert!(http::Method::from_bytes(method.as_bytes()).is_ok());
    }
}

#[test]
fn the_wildcard_is_found() {
    let lists = [
        (vec![], false),
        (vec!["*"], true),
        (vec!["https://a.example", "*"], true),
        (vec!["*", "https://a.example"], true),
        (vec!["**", "* ", "https://*.example"], false),
    ];
    for (list, found) in lists {
        let origins: Vec<String> = list.iter().map(|origin| origin.to_string()).collect();
        assert_eq!(lists_wildcard_origin(&origins), found);
    }
}
