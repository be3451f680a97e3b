use relay_gateway::bytestr::{bytes_eq, contains_bytes};
use relay_gateway::sanitize::sanitize_message;
use relay_gateway::normalize::{json_headers, normalize, NormalizedResponse};
use relay_gateway::outcome::{classify_response, transport_failure, BodyMode, UpstreamOutcome};
use relay_gateway::policy::PolicyTable;
use relay_gateway::status_is_success;
use relay_gateway::translate::{render_url, translate_request, Config};

fn headers(pairs: &[(&str, &str)]) -> Vec<(Vec<u8>, Vec<u8>)> {
    pairs
        .iter()
        .map(|(n, v)| (n.as_bytes().to_vec(), v.as_bytes().to_vec()))
        .collect()
}

fn run(
    status: u16,
    hs: &[(&str, &str)],
    body: &[u8],
    mode: BodyMode,
    cred: &[u8],
) -> NormalizedResponse {
    let policy = PolicyTable::new();
    let outcome = classify_response(status, headers(hs), body.to_vec(), mode);
    normalize(outcome, &policy, &cred.to_vec(), mode)
}

fn body_string(resp: &NormalizedResponse) -> String {
    String::from_utf8(resp.body.clone()).unwrap()
}

fn contains(haystack: &[u8], needle: &[u8]) -> bool {
    if needle.is_empty() {
        return true;
    }
    haystack
        .windows(needle.len())
        .any(|w| w == needle)
}

#[test]
fn success_status_boundaries() {
    assert!(!status_is_success(199));
    assert!(status_is_success(200));
    assert!(status_is_success(299));
    assert!(!status_is_success(300));
}

#[test]
fn config_requires_credential() {
    assert!(Config::new(b"https://u".to_vec(), None).is_err());
    assert!(Config::new(b"https://u".to_vec(), Some(Vec::new())).is_err());
    let c = Config::new(b"https://u".to_vec(), Some(b"k1".to_vec())).unwrap();
    assert_eq!(c.base_url, b"https://u".to_vec());
    assert_eq!(c.api_key, b"k1".to_vec());
}

#[test]
fn translator_builds_url() {
    let c = Config::new(
        b"https://api.example/v4/weather/forecast".to_vec(),
        Some(b"KEY77".to_vec()),
    )
    .unwrap();
    let req = translate_request(&c, &b"oslo".to_vec());
    let url = render_url(&req);
    assert_eq!(
        String::from_utf8(url).unwrap(),
        "https://api.example/v4/weather/forecast?location=oslo&apikey=KEY77"
    );
}

#[test]
fn render_url_without_query_is_base() {
    let c = Config::new(b"https://api.example/x".to_vec(), Some(b"k".to_vec())).unwrap();
    let mut req = translate_request(&c, &b"p".to_vec());
    req.query = Vec::new();
    let url = render_url(&req);
    assert_eq!(url, b"https://api.example/x".to_vec());
}

#[test]
fn scenario_success_decode_wrap() {
    let resp = run(
        200,
        &[("content-type", "application/json")],
        b"{\"name\":\"Luke\"}",
        BodyMode::DecodeJson,
        b"KEY77",
    );
    assert_eq!(resp.status, 200);
    assert_eq!(
        body_string(&resp),
        "{\"data\":{\"name\":\"Luke\"},\"success\":true}"
    );
    assert_eq!(resp.headers, headers(&[("content-type", "application/json")]));
}

#[test]
fn scenario_not_found_empty_body() {
    let resp = run(404, &[], b"", BodyMode::Relay, b"KEY77");
    assert_eq!(resp.status, 404);
    assert_eq!(
        body_string(&resp),
        "{\"error\":{\"message\":\"upstream returned an error: \"},\"success\":false}"
    );
}

#[test]
fn scenario_transport_failure() {
    let policy = PolicyTable::new();
    let outcome = transport_failure(b"dns lookup of upstream host failed".to_vec());
    let resp = normalize(outcome, &policy, &b"KEY77".to_vec(), BodyMode::Relay);
    assert_eq!(resp.status, 500);
    assert_eq!(
        body_string(&resp),
        "{\"error\":{\"message\":\"upstream request failed: dns lookup of upstream host failed\"},\"success\":false}"
    );
}

#[test]
fn scenario_decode_failure_is_bad_gateway() {
    let resp = run(200, &[], b"not json at all", BodyMode::DecodeJson, b"KEY77");
    assert_eq!(resp.status, 502);
    assert_ne!(resp.status / 100, 2);
    assert_eq!(
        body_string(&resp),
        "{\"error\":{\"message\":\"upstream response was not decodable: upstream returned a success status but the body was not valid JSON\"},\"success\":false}"
    );
}

#[test]
fn decode_mode_accepts_valid_json_variants() {
    for body in [&b"[1,2,3]"[..], b"\"text\"", b"null", b"42"] {
        let resp = run(200, &[], body, BodyMode::DecodeJson, b"KEY77");
        assert_eq!(resp.status, 200);
        let expected = format!("{{\"data\":{},\"success\":true}}", String::from_utf8(body.to_vec()).unwrap());
        assert_eq!(body_string(&resp), expected);
    }
}

#[test]
fn transport_failure_never_200_or_400() {
    let policy = PolicyTable::new();
    let outcome = transport_failure(b"connection refused".to_vec());
    let resp = normalize(outcome, &policy, &b"KEY77".to_vec(), BodyMode::Relay);
    assert_eq!(resp.status, 500);
    assert_ne!(resp.status, 200);
    assert_ne!(resp.status, 400);
}

#[test]
fn status_decoupling_404_stays_client_error() {
    let resp = run(404, &[], b"missing", BodyMode::Relay, b"KEY77");
    assert_eq!(resp.status / 100, 4);
    assert!(contains(&resp.body, b"\"success\":false"));
}

#[test]
fn status_decoupling_503_stays_5xx() {
    let resp = run(503, &[], b"overloaded", BodyMode::Relay, b"KEY77");
    assert_eq!(resp.status, 503);
    assert_ne!(resp.status / 100, 4);
    assert!(contains(&resp.body, b"\"success\":false"));
}

#[test]
fn odd_non_success_status_falls_back_to_400() {
    let resp = run(301, &[], b"moved", BodyMode::Relay, b"KEY77");
    assert_eq!(resp.status, 400);
}

#[test]
fn relay_fidelity_round_trip() {
    let body = b"payload bytes \x00\x01\xff of any shape".to_vec();
    let hs = [
        ("content-type", "text/plain"),
        ("Connection", "keep-alive"),
        ("x-request-id", "abc123"),
        ("TRANSFER-ENCODING", "chunked"),
        ("Keep-Alive", "timeout=5"),
    ];
    let policy = PolicyTable::new();
    let outcome = classify_response(200, headers(&hs), body.clone(), BodyMode::Relay);
    let resp = normalize(outcome, &policy, &b"KEY77".to_vec(), BodyMode::Relay);
    assert_eq!(resp.status, 200);
    assert_eq!(resp.body, body);
    assert_eq!(
        resp.headers,
        headers(&[("content-type", "text/plain"), ("x-request-id", "abc123")])
    );
}

#[test]
fn no_failure_is_ever_2xx() {
    let policy = PolicyTable::new();
    let cred = b"KEY77".to_vec();
    let transport = normalize(
        transport_failure(b"timed out".to_vec()),
        &policy,
        &cred,
        BodyMode::Relay,
    );
    assert!(!(200..=299).contains(&transport.status));
    for status in [100u16, 301, 404, 500, 599] {
        let resp = run(status, &[], b"detail", BodyMode::Relay, b"KEY77");
        assert!(!(200..=299).contains(&resp.status));
    }
    let decode = run(204, &[], b"{broken", BodyMode::DecodeJson, b"KEY77");
    assert!(!(200..=299).contains(&decode.status));
}

#[test]
fn credential_never_leaks_into_error_message() {
    let cred = b"APIKEY-9Q7-HUSH";
    let detail = b"GET https://api.example/x?apikey=APIKEY-9Q7-HUSH returned nothing";
    let policy = PolicyTable::new();
    let outcome = transport_failure(detail.to_vec());
    let resp = normalize(outcome, &policy, &cred.to_vec(), BodyMode::Relay);
    assert!(!contains(&resp.body, cred));
    assert_eq!(
        body_string(&resp),
        "{\"error\":{\"message\":\"upstream request failed: GET https://api.example/x?apikey=* returned nothing\"},\"success\":false}"
    );
}

#[test]
fn credential_hidden_even_when_split_by_repetition() {
    let cred = b"abab";
    let detail = b"ababab";
    let policy = PolicyTable::new();
    let outcome = transport_failure(detail.to_vec());
    let resp = normalize(outcome, &policy, &cred.to_vec(), BodyMode::Relay);
    assert!(!contains(&resp.body, cred));
}

#[test]
fn error_detail_is_json_escaped() {
    let detail = b"quote \" backslash \\ newline \n end";
    let policy = PolicyTable::new();
    let outcome = transport_failure(detail.to_vec());
    let resp = normalize(outcome, &policy, &b"KEY77".to_vec(), BodyMode::Relay);
    assert_eq!(
        body_string(&resp),
        "{\"error\":{\"message\":\"upstream request failed: quote \\\" backslash \\\\ newline \\u000a end\"},\"success\":false}"
    );
    assert!(serde_json::from_slice::<serde_json::Value>(&resp.body).is_ok());
}

#[test]
fn non_success_detail_carries_upstream_body() {
    let resp = run(418, &[], b"short and stout", BodyMode::Relay, b"KEY77");
    assert_eq!(resp.status, 418);
    assert!(contains(&resp.body, b"upstream returned an error: short and stout"));
}

#[test]
fn json_headers_are_content_type_json() {
    let h = json_headers();
    assert_eq!(h, headers(&[("content-type", "application/json")]));
}

#[test]
fn failure_outcome_shape_is_typed() {
    let outcome = classify_response(404, Vec::new(), b"nope".to_vec(), BodyMode::Relay);
    match outcome {
        UpstreamOutcome::Failure(f) => {
            assert_eq!(f.upstream_status, Some(404));
            assert_eq!(f.message, b"nope".to_vec());
        }
        UpstreamOutcome::Success { .. } => panic!("a 404 must classify as a failure"),
    }
}

#[test]
fn substring_search_is_exact() {
    let hay = b"the quick brown fox".to_vec();
    assert!(contains_bytes(&hay, &b"quick".to_vec()));
    assert!(contains_bytes(&hay, &b"".to_vec()));
    assert!(!contains_bytes(&hay, &b"quack".to_vec()));
    assert!(!contains_bytes(&b"ab".to_vec(), &b"abc".to_vec()));
    assert!(bytes_eq(&b"same".to_vec(), &b"same".to_vec()));
    assert!(!bytes_eq(&b"same".to_vec(), &b"samE".to_vec()));
}

#[test]
fn sanitize_marks_every_occurrence() {
    let out = sanitize_message(&b"xx ky ky xx".to_vec(), &b"ky".to_vec());
    assert_eq!(out, b"xx * * xx".to_vec());
    let blanked = sanitize_message(&b"holds a*b here".to_vec(), &b"a*b".to_vec());
    assert_eq!(blanked, Vec::<u8>::new());
    let untouched = sanitize_message(&b"nothing to hide".to_vec(), &b"a*b".to_vec());
    assert_eq!(untouched, b"nothing to hide".to_vec());
}
