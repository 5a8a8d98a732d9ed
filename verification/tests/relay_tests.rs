use ndl::auth::AuthSession;
use ndl::auth::AuthState;
use ndl::auth::OAuthConfig;
use ndl::auth::SessionStore;
use ndl::auth::CLEANUP_INTERVAL_SECS;
use ndl::auth::SESSION_TTL_NANOS;
use ndl::routes::auth_callback;
use ndl::routes::error_body;
use ndl::routes::error_html;
use ndl::routes::finish_callback;
use ndl::routes::health;
use ndl::routes::health_body;
use ndl::routes::poll_auth;
use ndl::routes::poll_body;
use ndl::routes::start_auth;
use ndl::routes::start_auth_with;
use ndl::routes::start_body;
use ndl::routes::success_html;
use ndl::routes::AppState;
use ndl::routes::CallbackParams;
use ndl::routes::CallbackStep;
use ndl::routes::ErrorResponse;
use ndl::routes::PollResponse;
use ndl::token::TokenReply;
use ndl::token::TokenResponse;

fn create_test_state() -> AppState {
    AppState {
        sessions: SessionStore::new(),
        oauth: OAuthConfig {
            client_id: "test_client_id".to_string(),
            client_secret: "test_client_secret".to_string(),
            public_url: "https://test.example.com".to_string(),
        },
    }
}

fn callback(code: Option<&str>, state: Option<&str>, error: Option<&str>, description: Option<&str>) -> CallbackParams {
    CallbackParams {
        code: code.map(|s| s.to_string()),
        state: state.map(|s| s.to_string()),
        error: error.map(|s| s.to_string()),
        error_description: description.map(|s| s.to_string()),
    }
}

fn token_reply(token: &str) -> TokenReply {
    TokenReply::Answered {
        status: 200,
        body: Ok(format!("{{\"access_token\":\"{}\"}}", token)),
        decoded: Ok(TokenResponse {
            access_token: token.to_string(),
            user_id: Some(7),
            expires_in: Some(3600),
        }),
    }
}

fn page_of(step: CallbackStep) -> String {
    match step {
        CallbackStep::Reply { page } => page,
        CallbackStep::Exchange { .. } => panic!("an exchange where a page was expected"),
    }
}

#[test]
fn test_health_endpoint() {
    let reply = health("1.2.3", "v1.2.3-4-gabcdef");
    assert_eq!(reply.status, "ok");
    assert_eq!(reply.version, "1.2.3");
    assert_eq!(reply.git, "v1.2.3-4-gabcdef");
}

#[test]
fn test_start_auth() {
    let mut state = create_test_state();
    let reply = start_auth(&mut state).unwrap();
    assert_eq!(reply.session_id.len(), 36);
    assert!(reply.auth_url.contains("threads.net/oauth/authorize"));
    assert!(reply.auth_url.contains("client_id=test_client_id"));
    assert!(reply.auth_url.contains("redirect_uri="));
    assert!(reply.auth_url.ends_with(&format!("&state={}", reply.session_id)));
    let session = state.sessions.get_session(&reply.session_id).unwrap();
    assert!(matches!(session.state, AuthState::Pending));
}

#[test]
fn start_auth_url_is_exact() {
    let mut state = create_test_state();
    let reply = start_auth_with(&mut state, "S".to_string(), 5).unwrap();
    assert_eq!(reply.session_id, "S");
    assert_eq!(
        reply.auth_url,
        "https://threads.net/oauth/authorize?client_id=test_client_id&redirect_uri=https%3A%2F%2Ftest.example.com%2Fauth%2Fcallback&scope=threads_basic,threads_read_replies,threads_manage_replies,threads_content_publish&response_type=code&state=S"
    );
    let session = state.sessions.get_session("S").unwrap();
    assert_eq!(session.id, "S");
    assert_eq!(session.created_at, 5);
}

#[test]
fn session_ids_are_hyphenated_lowercase_uuids() {
    let mut store = SessionStore::new();
    let session = store.create_session().unwrap();
    let id: Vec<char> = session.id.chars().collect();
    assert_eq!(id.len(), 36);
    for (i, c) in id.iter().enumerate() {
        if i == 8 || i == 13 || i == 18 || i == 23 {
            assert_eq!(*c, '-');
        } else {
            assert!(c.is_ascii_digit() || ('a'..='f').contains(c));
        }
    }
    let other = store.create_session().unwrap();
    assert_ne!(session.id, other.id);
}

#[test]
fn test_poll_pending_session() {
    let mut state = create_test_state();
    let session = state.sessions.create_session().unwrap();
    let reply = poll_auth(&mut state, &session.id).unwrap();
    assert!(matches!(reply.state, AuthState::Pending));
}

#[test]
fn polling_pending_never_removes() {
    let mut state = create_test_state();
    start_auth_with(&mut state, "S".to_string(), 0).unwrap();
    for _ in 0..20 {
        let reply = poll_auth(&mut state, "S").unwrap();
        assert!(matches!(reply.state, AuthState::Pending));
    }
    let held = state.sessions.get_session("S").unwrap();
    assert!(matches!(held.state, AuthState::Pending));
    assert_eq!(held.created_at, 0);
}

#[test]
fn test_poll_nonexistent_session() {
    let mut state = create_test_state();
    let (status, body) = poll_auth(&mut state, "nonexistent-session-id").unwrap_err();
    assert_eq!(status, 404);
    assert!(body.error.contains("not found"));
    assert_eq!(body.error, "Session not found or expired");
}

#[test]
fn test_callback_missing_state() {
    let mut state = create_test_state();
    let html = page_of(auth_callback(&mut state, callback(Some("test_code"), None, None, None)));
    assert!(html.contains("Missing state parameter"));
}

#[test]
fn test_callback_invalid_session() {
    let mut state = create_test_state();
    let html = page_of(auth_callback(
        &mut state,
        callback(Some("test_code"), Some("invalid-session"), None, None),
    ));
    assert!(html.contains("Session not found"));
    assert!(state.sessions.get_session("invalid-session").is_none());
}

#[test]
fn test_callback_oauth_error() {
    let mut state = create_test_state();
    let session = state.sessions.create_session().unwrap();
    let html = page_of(auth_callback(
        &mut state,
        callback(None, Some(&session.id), Some("access_denied"), Some("User denied access")),
    ));
    assert!(html.contains("User denied access"));

    let reply = poll_auth(&mut state, &session.id).unwrap();
    match reply.state {
        AuthState::Failed { error } => assert!(error.contains("User denied access")),
        other => panic!("expected failed, got {:?}", other),
    }
}

#[test]
fn scenario_start_poll_callback_poll_poll() {
    let mut state = create_test_state();
    let started = start_auth(&mut state).unwrap();
    let id = started.session_id.clone();

    let first = poll_auth(&mut state, &id).unwrap();
    assert_eq!(poll_body(&first), "{\"status\":\"pending\"}");
    assert!(matches!(first.state, AuthState::Pending));

    let step = auth_callback(&mut state, callback(Some("abc"), Some(&id), None, None));
    let (session_id, code) = match step {
        CallbackStep::Exchange { session_id, code } => (session_id, code),
        CallbackStep::Reply { page } => panic!("unexpected page {}", page),
    };
    assert_eq!(session_id, id);
    assert_eq!(code, "abc");
    let request = state.oauth.exchange_request(&code);
    assert_eq!(request.url, "https://graph.threads.net/oauth/access_token");

    let page = finish_callback(&mut state, &session_id, token_reply("fixed-token"));
    assert_eq!(page, success_html());
    assert!(page.contains("Authorization Complete"));

    let second = poll_auth(&mut state, &id).unwrap();
    assert_eq!(
        poll_body(&second),
        "{\"status\":\"completed\",\"access_token\":\"fixed-token\"}"
    );
    match second.state {
        AuthState::Completed { access_token } => assert_eq!(access_token, "fixed-token"),
        other => panic!("expected completed, got {:?}", other),
    }

    let (status, body) = poll_auth(&mut state, &id).unwrap_err();
    assert_eq!(status, 404);
    assert!(!body.error.is_empty());
    assert_eq!(error_body(&body), "{\"error\":\"Session not found or expired\"}");
}

#[test]
fn scenario_denied_callback() {
    let mut state = create_test_state();
    start_auth_with(&mut state, "S".to_string(), 1).unwrap();
    let html = page_of(auth_callback(
        &mut state,
        callback(None, Some("S"), Some("access_denied"), Some("User denied")),
    ));
    assert!(html.contains("User denied"));
    assert_eq!(html, error_html("User denied"));
    let reply = poll_auth(&mut state, "S").unwrap();
    assert_eq!(poll_body(&reply), "{\"status\":\"failed\",\"error\":\"User denied\"}");
    match reply.state {
        AuthState::Failed { error } => assert_eq!(error, "User denied"),
        other => panic!("expected failed, got {:?}", other),
    }
    assert!(poll_auth(&mut state, "S").is_err());
}

#[test]
fn callback_error_without_description_reports_the_error() {
    let mut state = create_test_state();
    start_auth_with(&mut state, "S".to_string(), 1).unwrap();
    let html = page_of(auth_callback(&mut state, callback(None, Some("S"), Some("access_denied"), None)));
    assert!(html.contains("access_denied"));
    match state.sessions.get_session("S").unwrap().state {
        AuthState::Failed { error } => assert_eq!(error, "access_denied"),
        other => panic!("expected failed, got {:?}", other),
    }
}

#[test]
fn callback_without_code_fails_the_session() {
    let mut state = create_test_state();
    start_auth_with(&mut state, "S".to_string(), 1).unwrap();
    let html = page_of(auth_callback(&mut state, callback(None, Some("S"), None, None)));
    assert!(html.contains("Missing authorization code"));
    match state.sessions.get_session("S").unwrap().state {
        AuthState::Failed { error } => assert_eq!(error, "Missing authorization code"),
        other => panic!("expected failed, got {:?}", other),
    }
}

#[test]
fn callback_on_settled_session_is_rejected() {
    let mut state = create_test_state();
    start_auth_with(&mut state, "S".to_string(), 1).unwrap();
    assert!(state.sessions.settle("S", AuthState::Completed { access_token: "good".to_string() }));

    let html = page_of(auth_callback(
        &mut state,
        callback(None, Some("S"), Some("access_denied"), Some("late")),
    ));
    assert!(html.contains("Session already completed"));
    let html = page_of(auth_callback(&mut state, callback(Some("again"), Some("S"), None, None)));
    assert!(html.contains("Session already completed"));
    let page = finish_callback(&mut state, "S", token_reply("evil"));
    assert!(page.contains("Session already completed"));

    match state.sessions.get_session("S").unwrap().state {
        AuthState::Completed { access_token } => assert_eq!(access_token, "good"),
        other => panic!("expected completed, got {:?}", other),
    }
}

#[test]
fn failed_exchange_fails_the_session() {
    let mut state = create_test_state();
    start_auth_with(&mut state, "S".to_string(), 1).unwrap();
    let reply = TokenReply::Answered {
        status: 400,
        body: Ok("bad code".to_string()),
        decoded: Err("no token".to_string()),
    };
    let page = finish_callback(&mut state, "S", reply);
    assert!(page.contains("HTTP 400: bad code"));
    match poll_auth(&mut state, "S").unwrap().state {
        AuthState::Failed { error } => assert_eq!(error, "HTTP 400: bad code"),
        other => panic!("expected failed, got {:?}", other),
    }
}

#[test]
fn finish_for_a_vanished_session_changes_nothing() {
    let mut state = create_test_state();
    let page = finish_callback(&mut state, "gone", token_reply("t"));
    assert!(page.contains("Session not found or expired"));
    assert!(state.sessions.get_session("gone").is_none());
}

#[test]
fn settle_only_moves_pending_into_terminal() {
    let mut store = SessionStore::new();
    store.create_session_with("S".to_string(), 0).unwrap();
    assert!(!store.settle("S", AuthState::Pending));
    assert!(!store.settle("T", AuthState::Failed { error: "x".to_string() }));
    assert!(store.settle("S", AuthState::Failed { error: "first".to_string() }));
    assert!(!store.settle("S", AuthState::Completed { access_token: "second".to_string() }));
    match store.get_session("S").unwrap().state {
        AuthState::Failed { error } => assert_eq!(error, "first"),
        other => panic!("expected failed, got {:?}", other),
    }
}

#[test]
fn remove_session_is_idempotent() {
    let mut store = SessionStore::new();
    store.create_session_with("S".to_string(), 0).unwrap();
    store.create_session_with("T".to_string(), 0).unwrap();
    store.remove_session("S");
    store.remove_session("S");
    assert!(store.get_session("S").is_none());
    assert!(store.get_session("T").is_some());
}

#[test]
fn expiry_is_strictly_beyond_the_ttl() {
    let session = AuthSession::new("S".to_string(), 1_000);
    assert_eq!(SESSION_TTL_NANOS, 300_000_000_000);
    assert_eq!(CLEANUP_INTERVAL_SECS, 60);
    assert!(!session.is_expired(0));
    assert!(!session.is_expired(1_000));
    assert!(!session.is_expired(1_000 + SESSION_TTL_NANOS));
    assert!(session.is_expired(1_001 + SESSION_TTL_NANOS));
    assert!(session.is_live(1_000 + SESSION_TTL_NANOS));
    assert!(!session.is_live(1_001 + SESSION_TTL_NANOS));
}

#[test]
fn sweep_purges_old_sessions_whatever_their_state() {
    let mut state = create_test_state();
    start_auth_with(&mut state, "old-pending".to_string(), 0).unwrap();
    start_auth_with(&mut state, "old-done".to_string(), 10).unwrap();
    start_auth_with(&mut state, "young".to_string(), 1_000).unwrap();
    state.sessions.settle("old-done", AuthState::Completed { access_token: "t".to_string() });

    state.sessions.cleanup_expired_at(SESSION_TTL_NANOS + 11);

    assert!(state.sessions.get_session("old-pending").is_none());
    assert!(state.sessions.get_session("old-done").is_none());
    assert!(state.sessions.get_session("young").is_some());
    assert_eq!(poll_auth(&mut state, "old-pending").unwrap_err().0, 404);
    assert_eq!(poll_auth(&mut state, "old-done").unwrap_err().0, 404);
    assert!(matches!(poll_auth(&mut state, "young").unwrap().state, AuthState::Pending));
}

#[test]
fn sweep_by_the_clock_keeps_fresh_sessions() {
    let mut store = SessionStore::new();
    let session = store.create_session().unwrap();
    store.cleanup_expired();
    assert!(store.get_session(&session.id).is_some());
    let before = store.now();
    let after = store.now();
    assert!(after >= before);
}

#[test]
fn relay_config_addresses() {
    let oauth = create_test_state().oauth;
    assert_eq!(oauth.redirect_uri(), "https://test.example.com/auth/callback");
    let request = oauth.exchange_request("abc");
    let params: Vec<(&str, &str)> = request.params.iter().map(|(k, v)| (k.as_str(), v.as_str())).collect();
    assert_eq!(
        params,
        vec![
            ("client_id", "test_client_id"),
            ("client_secret", "test_client_secret"),
            ("grant_type", "authorization_code"),
            ("redirect_uri", "https://test.example.com/auth/callback"),
            ("code", "abc"),
        ]
    );
    let kept = oauth.exchange_code(token_reply("tok")).unwrap();
    assert_eq!(kept.access_token, "tok");
    assert_eq!(kept.user_id, 7);
    let err = oauth
        .exchange_code(TokenReply::Unreachable { reason: "dns".to_string() })
        .unwrap_err();
    assert_eq!(err, "Request failed: dns");
}

#[test]
fn error_page_escapes_markup() {
    let page = error_html("<script>alert(\"x\") & more</script>");
    assert!(page.contains("&lt;script&gt;alert(&quot;x&quot;) &amp; more&lt;/script&gt;"));
    assert!(!page.contains("<script>"));
    assert!(page.starts_with("<!DOCTYPE html>"));
    assert!(page.ends_with("</p></div></body></html>"));
    assert!(page.contains("Authorization Failed"));
}

#[test]
fn json_bodies_quote_their_texts() {
    let tricky = PollResponse {
        state: AuthState::Failed { error: "a \"b\" \\ c\n\t\u{1}\u{1f}\u{7f} é/".to_string() },
    };
    assert_eq!(
        poll_body(&tricky),
        "{\"status\":\"failed\",\"error\":\"a \\\"b\\\" \\\\ c\\n\\t\\u0001\\u001f\u{7f} é/\"}"
    );
    let parsed: serde_json::Value = serde_json::from_str(&poll_body(&tricky)).unwrap();
    assert_eq!(parsed["error"], "a \"b\" \\ c\n\t\u{1}\u{1f}\u{7f} é/");
    assert_eq!(parsed["status"], "failed");

    let mut state = create_test_state();
    let started = start_auth_with(&mut state, "S".to_string(), 0).unwrap();
    let body = start_body(&started);
    assert!(body.starts_with("{\"session_id\":\"S\",\"auth_url\":\"https://threads.net/oauth/authorize?"));
    let parsed: serde_json::Value = serde_json::from_str(&body).unwrap();
    assert_eq!(parsed["session_id"], "S");
    assert_eq!(parsed["auth_url"], started.auth_url.as_str());

    assert_eq!(
        health_body(&health("1.0", "abc")),
        "{\"status\":\"ok\",\"version\":\"1.0\",\"git\":\"abc\"}"
    );
    assert_eq!(error_body(&ErrorResponse { error: "x".to_string() }), "{\"error\":\"x\"}");
}

#[test]
fn a_held_id_is_never_handed_out_again() {
    let mut state = create_test_state();
    start_auth_with(&mut state, "S".to_string(), 1).unwrap();
    assert!(start_auth_with(&mut state, "S".to_string(), 2).is_none());
    assert_eq!(state.sessions.get_session("S").unwrap().created_at, 1);

    assert!(state.sessions.settle("S", AuthState::Completed { access_token: "t".to_string() }));
    assert!(start_auth_with(&mut state, "S".to_string(), 3).is_none());
    assert!(state.sessions.create_session_with("S".to_string(), 4).is_none());
    let held = state.sessions.get_session("S").unwrap();
    assert_eq!(held.created_at, 1);
    match held.state {
        AuthState::Completed { access_token } => assert_eq!(access_token, "t"),
        other => panic!("expected completed, got {:?}", other),
    }

    let made = state.sessions.create_session_with("T".to_string(), 5).unwrap();
    assert_eq!(made.id, "T");
    assert!(matches!(made.state, AuthState::Pending));
    assert_eq!(made.created_at, 5);
}

#[test]
fn started_sessions_are_new_to_the_registry() {
    let mut state = create_test_state();
    let mut seen = std::collections::HashSet::new();
    for _ in 0..50 {
        let reply = start_auth(&mut state).unwrap();
        assert!(seen.insert(reply.session_id.clone()));
        assert!(reply.auth_url.ends_with(&format!("&state={}", reply.session_id)));
    }
    for id in &seen {
        assert!(matches!(state.sessions.get_session(id).unwrap().state, AuthState::Pending));
    }
}
