use localserve::response::{not_found_response, ok_response, respond, HttpResponse};
use localserve::routing::{route, RouteDecision};

fn carries_header(r: &HttpResponse, name: &str, value: &str) -> bool {
    r.headers.iter().any(|(n, v)| n == name && v == value)
}

fn carries_standard_headers(r: &HttpResponse) -> bool {
    carries_header(r, "Cache-Control", "no-cache")
        && carries_header(r, "Access-Control-Allow-Origin", "*")
}

#[test]
fn ok_response_has_status_body_and_headers() {
    let r = ok_response(b"payload".to_vec());
    assert_eq!(r.status, 200);
    assert_eq!(r.body, b"payload".to_vec());
    assert!(carries_standard_headers(&r));
}

#[test]
fn not_found_response_has_status_and_headers() {
    let r = not_found_response();
    assert_eq!(r.status, 404);
    assert!(r.body.is_empty());
    assert!(carries_standard_headers(&r));
}

#[test]
fn every_response_kind_carries_standard_headers() {
    let responses = vec![
        respond(&RouteDecision::Index, Some(b"x".to_vec())),
        respond(&RouteDecision::Index, None),
        respond(&RouteDecision::File("a.txt".to_string()), Some(b"y".to_vec())),
        respond(&RouteDecision::File("a.txt".to_string()), None),
        respond(&RouteDecision::Rejected, None),
    ];
    for r in &responses {
        assert!(carries_standard_headers(r));
    }
}

#[test]
fn index_round_trip_serves_exact_content() {
    // Serving a folder whose index.html holds "<h1>Hi</h1>": the root path
    // routes to the index document, and its content comes back verbatim.
    let decision = route("/");
    assert!(matches!(decision, RouteDecision::Index));
    let r = respond(&decision, Some(b"<h1>Hi</h1>".to_vec()));
    assert_eq!(r.status, 200);
    assert_eq!(r.body, b"<h1>Hi</h1>".to_vec());
}

#[test]
fn missing_file_round_trip_is_not_found() {
    let decision = route("/missing.txt");
    assert!(matches!(decision, RouteDecision::File(ref f) if f == "missing.txt"));
    let r = respond(&decision, None);
    assert_eq!(r.status, 404);
}

#[test]
fn rejected_path_is_not_found_even_with_content() {
    let r = respond(&RouteDecision::Rejected, Some(b"never served".to_vec()));
    assert_eq!(r.status, 404);
}

#[test]
fn missing_index_is_not_found_not_a_crash() {
    let r = respond(&RouteDecision::Index, None);
    assert_eq!(r.status, 404);
}
