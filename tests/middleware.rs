use httpclient_oauth2::cycle::is_authorization_failure;
use httpclient_oauth2::{
    Action, Event, FailureKind, OAuth2, RefreshData, RefreshResponse, RequestCycle, Stage,
    TokenType,
};

fn middleware(token_type: TokenType) -> OAuth2 {
    OAuth2 {
        refresh_endpoint: "https://provider.example/refresh".to_string(),
        client_id: "id".to_string(),
        client_secret: "secret".to_string(),
        token_type,
        access_token: "old".to_string(),
        refresh_token: "stored-refresh".to_string(),
    }
}

fn refreshed(token: &str) -> RefreshResponse {
    RefreshResponse {
        access_token: token.to_string(),
        expires_in: 3600,
        scope: "read".to_string(),
        token_type: TokenType::Bearer,
    }
}

#[test]
fn bearer_header() {
    let h = middleware(TokenType::Bearer).authorize();
    assert_eq!(h.name, "Authorization");
    assert_eq!(h.value, "Bearer old");
}

#[test]
fn custom_header_has_raw_token() {
    let h = middleware(TokenType::Other("X-Api-Key".to_string())).authorize();
    assert_eq!(h.name, "X-Api-Key");
    assert_eq!(h.value, "old");
}

#[test]
fn refresh_request_uses_stored_token() {
    let r = middleware(TokenType::Bearer).refresh_request();
    assert_eq!(r.client_id, "id");
    assert_eq!(r.client_secret, "secret");
    assert_eq!(r.grant_type, "refresh_token");
    assert_eq!(r.refresh_token, "stored-refresh");
}

#[test]
fn authorization_failure_statuses() {
    assert!(is_authorization_failure(400));
    assert!(is_authorization_failure(401));
    for s in [200u16, 201, 204, 302, 403, 404, 500, 503] {
        assert!(!is_authorization_failure(s));
    }
}

/// Starts a cycle and signs its first send.
fn begin(m: &OAuth2) -> RequestCycle {
    let mut c = RequestCycle::new();
    assert_eq!(c.stage, Stage::Start);
    assert!(matches!(c.advance(Event::Begin, m), Action::Send));
    c.sign(m);
    assert_eq!(c.signed_with, m.access_token);
    c
}

#[test]
fn other_statuses_pass_through_after_one_call() {
    let m = middleware(TokenType::Bearer);
    for status in [200u16, 204, 302, 403, 404, 500] {
        let mut c = begin(&m);
        assert!(matches!(c.advance(Event::Response { status }, &m), Action::Deliver { status: s } if s == status));
        assert_eq!(c.stage, Stage::Done);
        assert!(matches!(c.advance(Event::Committed, &m), Action::Reject));
        assert!(matches!(c.advance(Event::Response { status: 401 }, &m), Action::Reject));
    }
}

fn refresh_and_retry(status: u16) {
    let mut m = middleware(TokenType::Bearer);
    let mut c = RequestCycle::new();
    assert!(matches!(c.advance(Event::Begin, &m), Action::Send));
    assert_eq!(c.sign(&m).value, "Bearer old");
    assert!(matches!(c.advance(Event::Response { status }, &m), Action::SendRefresh));
    assert_eq!(m.refresh_request().refresh_token, "stored-refresh");
    let data = match c.advance(Event::Refreshed(refreshed("new")), &m) {
        Action::Commit(d) => d,
        _ => panic!("expected a commit"),
    };
    assert_eq!(data.access_token, "new");
    m.install_token(&data);
    assert!(matches!(c.advance(Event::Committed, &m), Action::Send));
    assert_eq!(c.sign(&m).value, "Bearer new");
    // the retry's answer is final, even another authorization failure
    assert!(matches!(c.advance(Event::Response { status: 401 }, &m), Action::Deliver { status: 401 }));
    assert_eq!(c.stage, Stage::Done);
    assert_eq!(m.refresh_token, "stored-refresh");
}

#[test]
fn unauthorized_refreshes_and_retries_with_new_token() {
    refresh_and_retry(401);
}

#[test]
fn bad_request_refreshes_and_retries_with_new_token() {
    refresh_and_retry(400);
}

#[test]
fn later_requests_sign_with_refreshed_token() {
    let mut m = middleware(TokenType::Other("X-Token".to_string()));
    m.install_token(&RefreshData { access_token: "fresh".to_string() });
    let mut c = RequestCycle::new();
    assert!(matches!(c.advance(Event::Begin, &m), Action::Send));
    let h = c.sign(&m);
    assert_eq!(h.name, "X-Token");
    assert_eq!(h.value, "fresh");
}

#[test]
fn failed_refresh_fails_request_and_keeps_token() {
    for kind in [FailureKind::Transport, FailureKind::Protocol] {
        let m = middleware(TokenType::Bearer);
        let mut c = begin(&m);
        assert!(matches!(c.advance(Event::Response { status: 401 }, &m), Action::SendRefresh));
        assert!(matches!(c.advance(Event::Failed(kind), &m), Action::Fail(k) if k == kind));
        assert_eq!(c.stage, Stage::Done);
        assert_eq!(m.access_token, "old");
        assert!(matches!(c.advance(Event::Committed, &m), Action::Reject));
    }
}

#[test]
fn transport_failure_on_first_send_or_retry() {
    let mut m = middleware(TokenType::Bearer);
    let mut c = begin(&m);
    assert!(matches!(c.advance(Event::Failed(FailureKind::Transport), &m), Action::Fail(FailureKind::Transport)));
    let mut c = begin(&m);
    assert!(matches!(c.advance(Event::Response { status: 401 }, &m), Action::SendRefresh));
    c.advance(Event::Refreshed(refreshed("n")), &m);
    m.install_token(&RefreshData { access_token: "n".to_string() });
    assert!(matches!(c.advance(Event::Committed, &m), Action::Send));
    assert_eq!(c.stage, Stage::AwaitingRetry);
    assert!(matches!(c.advance(Event::Failed(FailureKind::Transport), &m), Action::Fail(FailureKind::Transport)));
}

#[test]
fn out_of_order_events_are_rejected() {
    let m = middleware(TokenType::Bearer);
    let mut c = RequestCycle::new();
    assert!(matches!(c.advance(Event::Response { status: 200 }, &m), Action::Reject));
    assert_eq!(c.stage, Stage::Start);
    c.advance(Event::Begin, &m);
    assert!(matches!(c.advance(Event::Committed, &m), Action::Reject));
    assert!(matches!(c.advance(Event::Refreshed(refreshed("x")), &m), Action::Reject));
    assert_eq!(c.stage, Stage::AwaitingResponse);
}

#[test]
fn empty_refreshed_token_is_protocol_error() {
    let m = middleware(TokenType::Bearer);
    let mut c = begin(&m);
    assert!(matches!(c.advance(Event::Response { status: 400 }, &m), Action::SendRefresh));
    assert!(matches!(c.advance(Event::Refreshed(refreshed("")), &m), Action::Fail(FailureKind::Protocol)));
    assert_eq!(c.stage, Stage::Done);
    assert_eq!(m.access_token, "old");
}

#[test]
fn token_type_wire_text() {
    assert!(matches!(TokenType::from_wire("Bearer".to_string()), TokenType::Bearer));
    assert!(matches!(TokenType::from_wire("bearer".to_string()), TokenType::Other(ref s) if s == "bearer"));
    assert!(matches!(TokenType::from_wire("X-Key".to_string()), TokenType::Other(ref s) if s == "X-Key"));
    assert_eq!(TokenType::Bearer.wire_text(), "Bearer");
    assert_eq!(TokenType::Other("X-Key".to_string()).wire_text(), "X-Key");
}

#[test]
fn install_token_changes_only_access_token() {
    let mut m = middleware(TokenType::Bearer);
    m.install_token(&RefreshData { access_token: "next".to_string() });
    assert_eq!(m.access_token, "next");
    assert_eq!(m.refresh_token, "stored-refresh");
    assert_eq!(m.client_id, "id");
    assert_eq!(m.refresh_endpoint, "https://provider.example/refresh");
}

#[test]
fn rejection_after_another_refresh_retries_without_refreshing() {
    let mut m = middleware(TokenType::Bearer);
    let mut first = begin(&m);
    let mut second = begin(&m);
    // the first request refreshes and installs a new token
    assert!(matches!(first.advance(Event::Response { status: 401 }, &m), Action::SendRefresh));
    let data = match first.advance(Event::Refreshed(refreshed("new")), &m) {
        Action::Commit(d) => d,
        _ => panic!("expected a commit"),
    };
    m.install_token(&data);
    // the second request, signed with the old token, is then rejected too
    assert!(matches!(second.advance(Event::Response { status: 401 }, &m), Action::Send));
    assert_eq!(second.stage, Stage::AwaitingRetry);
    assert_eq!(second.sign(&m).value, "Bearer new");
    assert!(matches!(second.advance(Event::Response { status: 200 }, &m), Action::Deliver { status: 200 }));
}
