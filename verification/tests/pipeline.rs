use api_client::client::{ApiClient, TIMEOUT_SECONDS};
use api_client::exchange::{Action, Event, Exchange, SendError};
use api_client::hook::Verdict;
use api_client::interceptor::{InterceptError, Interceptor};
use api_client::request::{Body, Method, Request, Response};

const KEY: &str = "user.info.token";

fn text(s: &str) -> String {
    String::from(s)
}

/// Starts a GET to `url` and answers the classification.
fn classified(client: &ApiClient, url: &str, required: bool) -> (Exchange, Action) {
    let (state, action) = client.get(url).send().unwrap();
    match action {
        Action::Classify { url: asked } => assert_eq!(asked, client.get(url).build().unwrap().url),
        other => panic!("expected a classification, got {:?}", other),
    }
    client.resume(state, Event::Classified(required))
}

/// Takes a send up to the dispatch, with `credential` in the store.
fn dispatched(client: &ApiClient, url: &str, credential: Option<&str>) -> (Exchange, Request) {
    let (mut state, mut action) = classified(client, url, true);
    loop {
        match action {
            Action::StoreGet { key } => {
                assert_eq!(key, KEY);
                let next = client.resume(state, Event::Credential(credential.map(text)));
                state = next.0;
                action = next.1;
            }
            Action::Dispatch(request) => return (state, request),
            other => panic!("expected a reading or the dispatch, got {:?}", other),
        }
    }
}

#[test]
fn the_transport_timeout_is_ten_seconds() {
    assert_eq!(TIMEOUT_SECONDS, 10);
}

#[test]
fn a_client_is_bound_or_not_from_the_start() {
    assert!(ApiClient::new(true).is_bound());
    assert!(!ApiClient::new(false).is_bound());
}

#[test]
fn the_base_url_falls_back_to_the_fixed_origin() {
    let bound = ApiClient::new(true);
    let unbound = ApiClient::new(false);
    assert_eq!(bound.get_base_url(None), "https://pool.52ai.org/api");
    assert_eq!(unbound.get_base_url(None), "https://pool.52ai.org/api");
    assert_eq!(unbound.get_base_url(Some(text("https://other.example/api"))), "https://pool.52ai.org/api");
}

#[test]
fn a_bound_client_takes_the_resolved_base_url() {
    let bound = ApiClient::new(true);
    assert_eq!(bound.get_base_url(Some(text("https://other.example/api"))), "https://other.example/api");
    assert_eq!(bound.get_base_url(Some(text(""))), "");
}

#[test]
fn sending_starts_with_the_classification_of_the_url() {
    let client = ApiClient::new(true);
    let request = client.post("HTTPS://Example.com/user/profile").json(text("{}")).build().unwrap();
    let (state, action) = client.send(request);
    match action {
        Action::Classify { url } => assert_eq!(url, "https://example.com/user/profile"),
        other => panic!("expected a classification, got {:?}", other),
    }
    match state {
        Exchange::Classifying { request } => {
            assert_eq!(request.method, Method::Post);
            assert_eq!(request.body, Some(Body::Json(text("{}"))));
        }
        other => panic!("expected to be classifying, got {:?}", other),
    }
}

#[test]
fn the_auth_interceptor_has_one_turn_before_the_dispatch() {
    let client = ApiClient::new(true);
    let (state, action) = classified(&client, "https://example.com/user/profile", true);
    match &state {
        Exchange::Intercepting { next, .. } => assert_eq!(*next, 0),
        other => panic!("expected to be intercepting, got {:?}", other),
    }
    match action {
        Action::StoreGet { key } => assert_eq!(key, KEY),
        other => panic!("expected a reading, got {:?}", other),
    }
    let (state, action) = client.resume(state, Event::Credential(Some(text("tok-1"))));
    match state {
        Exchange::InFlight { url } => assert_eq!(url, "https://example.com/user/profile"),
        other => panic!("expected to be in flight, got {:?}", other),
    }
    match action {
        Action::Dispatch(request) => {
            assert_eq!(request.headers.len(), 1);
            assert_eq!(request.headers.get("Authorization"), Some(&text("Bearer tok-1")));
            assert_eq!(request.url, "https://example.com/user/profile");
            assert_eq!(request.method, Method::Get);
        }
        other => panic!("expected the dispatch, got {:?}", other),
    }
}

#[test]
fn no_interceptor_has_a_turn_where_none_is_required() {
    let client = ApiClient::new(true);
    let (state, action) = classified(&client, "https://example.com/public/news", false);
    assert!(matches!(state, Exchange::InFlight { .. }));
    match action {
        Action::Dispatch(request) => {
            assert_eq!(request.headers.len(), 0);
            assert_eq!(request.url, "https://example.com/public/news");
        }
        other => panic!("expected the dispatch, got {:?}", other),
    }
}

#[test]
fn the_injected_credential_replaces_a_header_set_by_hand() {
    let client = ApiClient::new(true);
    let (state, _) = client
        .get("https://example.com/user/profile")
        .header("authorization", "Basic abc")
        .header("Accept", "text/plain")
        .send()
        .unwrap();
    let (state, _) = client.resume(state, Event::Classified(true));
    let (_, action) = client.resume(state, Event::Credential(Some(text("tok"))));
    match action {
        Action::Dispatch(request) => {
            assert_eq!(request.headers.len(), 2);
            assert_eq!(request.headers.get("Authorization"), Some(&text("Bearer tok")));
            assert_eq!(request.headers.get("Accept"), Some(&text("text/plain")));
        }
        other => panic!("expected the dispatch, got {:?}", other),
    }
}

#[test]
fn an_unbound_client_hands_back_the_transports_own_response() {
    let client = ApiClient::new(false);
    let (state, action) = classified(&client, "https://example.com/user/profile", true);
    assert!(matches!(state, Exchange::InFlight { .. }));
    match action {
        Action::Dispatch(request) => assert_eq!(request.headers.len(), 0),
        other => panic!("expected the dispatch, got {:?}", other),
    }
    let (state, action) = client.resume(state, Event::Responded(200));
    assert!(matches!(state, Exchange::Done));
    match action {
        Action::Finish(result) => assert_eq!(result, Ok(Response::Streaming { status: 200 })),
        other => panic!("expected the end, got {:?}", other),
    }
}

#[test]
fn a_transport_failure_ends_the_send() {
    for bound in [true, false] {
        let client = ApiClient::new(bound);
        let (state, _) = classified(&client, "https://example.com/user/updatePassword", false);
        let (state, action) = client.resume(state, Event::TransportFailed);
        assert!(matches!(state, Exchange::Done));
        match action {
            Action::Finish(result) => assert_eq!(result, Err(SendError::Transport)),
            other => panic!("expected the end, got {:?}", other),
        }
        let (state, action) = client.resume(state, Event::BodyRead(text("{\"status\":200}")));
        assert!(matches!(state, Exchange::Done));
        match action {
            Action::Finish(result) => assert_eq!(result, Err(SendError::OutOfTurn)),
            other => panic!("expected the end, got {:?}", other),
        }
    }
}

#[test]
fn a_body_that_cannot_be_read_ends_the_send() {
    let client = ApiClient::new(true);
    let (state, _) = classified(&client, "https://example.com/user/profile", false);
    let (state, action) = client.resume(state, Event::Responded(200));
    assert!(matches!(action, Action::ReadBody));
    match &state {
        Exchange::Buffering { url, status } => {
            assert_eq!(url, "https://example.com/user/profile");
            assert_eq!(*status, 200);
        }
        other => panic!("expected to be buffering, got {:?}", other),
    }
    let (state, action) = client.resume(state, Event::BodyFailed);
    assert!(matches!(state, Exchange::Done));
    match action {
        Action::Finish(result) => assert_eq!(result, Err(SendError::BodyRead)),
        other => panic!("expected the end, got {:?}", other),
    }
}

#[test]
fn update_password_success_deletes_the_credential() {
    let client = ApiClient::new(true);
    let url = "https://pool.52ai.org/api/user/updatePassword";
    let (state, request) = dispatched(&client, url, Some("tok"));
    assert_eq!(request.headers.get("authorization"), Some(&text("Bearer tok")));
    let (state, action) = client.resume(state, Event::Responded(200));
    assert!(matches!(action, Action::ReadBody));
    let (state, action) = client.resume(state, Event::BodyRead(text("{\"status\":200}")));
    match action {
        Action::StoreDelete { key } => assert_eq!(key, KEY),
        other => panic!("expected a delete, got {:?}", other),
    }
    match &state {
        Exchange::Committing { status, body } => {
            assert_eq!(*status, 200);
            assert_eq!(body, "{\"status\":200}");
        }
        other => panic!("expected to be committing, got {:?}", other),
    }
    let (state, action) = client.resume(state, Event::Written(true));
    assert!(matches!(state, Exchange::Done));
    match action {
        Action::Finish(result) => {
            let response = result.unwrap();
            assert_eq!(response.status(), 200);
            assert_eq!(response, Response::Buffered { status: 200, body: text("{\"status\":200}") });
        }
        other => panic!("expected the end, got {:?}", other),
    }
}

#[test]
fn update_password_failure_keeps_the_credential() {
    let client = ApiClient::new(true);
    let url = "https://pool.52ai.org/api/user/updatePassword";
    for body in ["{\"status\":400}", "oops", "{\"status\":\"200\"}"] {
        let (state, _) = classified(&client, url, false);
        let (state, _) = client.resume(state, Event::Responded(200));
        let (state, action) = client.resume(state, Event::BodyRead(text(body)));
        assert!(matches!(state, Exchange::Done));
        match action {
            Action::Finish(result) => {
                assert_eq!(result, Ok(Response::Buffered { status: 200, body: text(body) }))
            }
            other => panic!("expected the end, got {:?}", other),
        }
    }
}

#[test]
fn a_profile_response_stores_the_token_it_carries() {
    let client = ApiClient::new(true);
    let url = "https://pool.52ai.org/api/user/profile";
    let body = "{\"data\":{\"token\":\"fresh-token\"}}";
    let (state, _) = dispatched(&client, url, Some("old-token"));
    let (state, _) = client.resume(state, Event::Responded(200));
    let (state, action) = client.resume(state, Event::BodyRead(text(body)));
    match action {
        Action::Extract { url: asked, body: given } => {
            assert_eq!(asked, url);
            assert_eq!(given, body);
        }
        other => panic!("expected an extraction, got {:?}", other),
    }
    let (state, action) = client.resume(state, Event::Extracted(Some(text("fresh-token"))));
    match action {
        Action::StoreSet { key, value } => {
            assert_eq!(key, KEY);
            assert_eq!(value, "fresh-token");
        }
        other => panic!("expected a write, got {:?}", other),
    }
    let (state, action) = client.resume(state, Event::Written(true));
    assert!(matches!(state, Exchange::Done));
    match action {
        Action::Finish(result) => {
            assert_eq!(result, Ok(Response::Buffered { status: 200, body: text(body) }))
        }
        other => panic!("expected the end, got {:?}", other),
    }
}

#[test]
fn a_store_that_refuses_does_not_fail_the_send() {
    let client = ApiClient::new(true);
    let (state, _) = classified(&client, "https://example.com/user/profile", false);
    let (state, _) = client.resume(state, Event::Responded(201));
    let (state, _) = client.resume(state, Event::BodyRead(text("body")));
    let (state, _) = client.resume(state, Event::Extracted(Some(text("t"))));
    let (_, action) = client.resume(state, Event::Written(false));
    match action {
        Action::Finish(result) => {
            assert_eq!(result, Ok(Response::Buffered { status: 201, body: text("body") }))
        }
        other => panic!("expected the end, got {:?}", other),
    }
}

#[test]
fn a_missing_credential_does_not_stop_the_request() {
    let client = ApiClient::new(true);
    let url = "https://pool.52ai.org/api/user/orders";
    let (state, request) = dispatched(&client, url, None);
    assert_eq!(request.headers.len(), 0);
    assert_eq!(request.headers.get("Authorization"), None);
    let (state, action) = client.resume(state, Event::Responded(401));
    assert!(matches!(action, Action::ReadBody));
    let (state, action) = client.resume(state, Event::BodyRead(text("{\"error\":\"unauthorized\"}")));
    assert!(matches!(action, Action::Extract { .. }));
    let (state, action) = client.resume(state, Event::Extracted(None));
    assert!(matches!(state, Exchange::Done));
    match action {
        Action::Finish(result) => assert_eq!(
            result,
            Ok(Response::Buffered { status: 401, body: text("{\"error\":\"unauthorized\"}") })
        ),
        other => panic!("expected the end, got {:?}", other),
    }
}

#[test]
fn an_empty_credential_counts_as_missing() {
    let client = ApiClient::new(true);
    let (_, request) = dispatched(&client, "https://example.com/user/orders", Some(""));
    assert_eq!(request.headers.len(), 0);
}

#[test]
fn a_credential_that_cannot_stand_in_a_header_is_left_out() {
    let client = ApiClient::new(true);
    let (_, request) = dispatched(&client, "https://example.com/user/orders", Some("a\nb"));
    assert_eq!(request.headers.len(), 0);
}

#[test]
fn the_interceptor_reports_why_it_did_not_apply() {
    let client = ApiClient::new(false);
    let auth = Interceptor::Auth;
    assert_eq!(auth.store_key(), KEY);
    let mut request = client.get("https://example.com/").header("Accept", "*/*").build().unwrap();
    assert_eq!(auth.intercept(&mut request, None), Err(InterceptError::MissingCredential));
    assert_eq!(auth.intercept(&mut request, Some("")), Err(InterceptError::MissingCredential));
    assert_eq!(
        auth.intercept(&mut request, Some("tok\u{7f}")),
        Err(InterceptError::UnusableCredential)
    );
    assert_eq!(request.headers.len(), 1);
    assert_eq!(auth.intercept(&mut request, Some("tok")), Ok(()));
    assert_eq!(request.headers.len(), 2);
    assert_eq!(request.headers.get("authorization"), Some(&text("Bearer tok")));
    assert_eq!(auth.intercept(&mut request, Some("next")), Ok(()));
    assert_eq!(request.headers.len(), 2);
    assert_eq!(request.headers.get("authorization"), Some(&text("Bearer next")));
    assert_eq!(request.headers.get("accept"), Some(&text("*/*")));
}

#[test]
fn an_event_out_of_turn_ends_the_send() {
    let client = ApiClient::new(true);
    let (state, _) = client.get("https://example.com/").send().unwrap();
    let (state, action) = client.resume(state, Event::Responded(200));
    assert!(matches!(state, Exchange::Done));
    match action {
        Action::Finish(result) => assert_eq!(result, Err(SendError::OutOfTurn)),
        other => panic!("expected the end, got {:?}", other),
    }
    let (state, _) = classified(&client, "https://example.com/", true);
    let (_, action) = client.resume(state, Event::Classified(true));
    assert!(matches!(action, Action::Finish(Err(SendError::OutOfTurn))));
    let (state, _) = classified(&client, "https://example.com/", false);
    let (_, action) = client.resume(state, Event::Written(true));
    assert!(matches!(action, Action::Finish(Err(SendError::OutOfTurn))));
}

#[test]
fn a_turn_that_no_interceptor_has_goes_straight_to_the_dispatch() {
    let client = ApiClient::new(true);
    let request = client.get("https://example.com/").build().unwrap();
    let state = Exchange::Intercepting { request, next: 7 };
    let (state, action) = client.resume(state, Event::Credential(Some(text("tok"))));
    assert!(matches!(state, Exchange::InFlight { .. }));
    match action {
        Action::Dispatch(request) => assert_eq!(request.headers.len(), 0),
        other => panic!("expected the dispatch, got {:?}", other),
    }
}

#[test]
fn any_status_counts_as_a_response() {
    let client = ApiClient::new(true);
    for status in [204u16, 404, 500] {
        let (state, _) = classified(&client, "https://example.com/user/updatePassword", false);
        let (state, action) = client.resume(state, Event::Responded(status));
        assert!(matches!(action, Action::ReadBody));
        let (_, action) = client.resume(state, Event::BodyRead(text("{\"status\":200}")));
        assert!(matches!(action, Action::StoreDelete { .. }));
    }
}

#[test]
fn each_verdict_has_its_consequence() {
    let (state, action) = ApiClient::settle(text("http://h/a"), 200, text("body"), Verdict::Clear);
    match action {
        Action::StoreDelete { key } => assert_eq!(key, KEY),
        other => panic!("expected a delete, got {:?}", other),
    }
    match state {
        Exchange::Committing { status, body } => {
            assert_eq!(status, 200);
            assert_eq!(body, "body");
        }
        other => panic!("expected to be committing, got {:?}", other),
    }
    let (state, action) = ApiClient::settle(text("http://h/a"), 403, text("body"), Verdict::Extract);
    match action {
        Action::Extract { url, body } => {
            assert_eq!(url, "http://h/a");
            assert_eq!(body, "body");
        }
        other => panic!("expected an extraction, got {:?}", other),
    }
    match state {
        Exchange::Extracting { status, body } => {
            assert_eq!(status, 403);
            assert_eq!(body, "body");
        }
        other => panic!("expected to be extracting, got {:?}", other),
    }
    let (state, action) = ApiClient::settle(text("http://h/a"), 500, text("body"), Verdict::Keep);
    assert!(matches!(state, Exchange::Done));
    match action {
        Action::Finish(result) => {
            assert_eq!(result, Ok(Response::Buffered { status: 500, body: text("body") }))
        }
        other => panic!("expected the end, got {:?}", other),
    }
}

#[test]
fn the_fixed_names_are_as_published() {
    assert_eq!(api_client::interceptor::CREDENTIAL_KEY, "user.info.token");
    assert_eq!(api_client::interceptor::AUTH_HEADER, "Authorization");
    assert_eq!(api_client::interceptor::AUTH_SCHEME, "Bearer ");
    assert_eq!(api_client::hook::PASSWORD_UPDATE_MARKER, "/user/updatePassword");
    assert_eq!(api_client::hook::STATUS_MEMBER, "status");
    assert_eq!(api_client::client::FALLBACK_BASE_URL, "https://pool.52ai.org/api");
}
